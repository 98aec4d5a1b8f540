//! The envelope wire format.
//!
//! An envelope renders to a JSON object, as bytes: the payload arrives
//! already serialized and is framed verbatim, the correlation id renders
//! as a hyphenated UUID or `null`, and the embedded status code renders in
//! decimal.  Rendering also hands back the transport status code, equal by
//! contract to the envelope's `http_code`.  The success frame can be
//! parsed back, and parsing recovers exactly what was rendered.

use vstd::prelude::*;

use vstd::arithmetic::div_mod::{
    lemma_basic_div, lemma_div_denominator, lemma_fundamental_div_mod,
};

verus! {

/// Sixteen to the power `n` (1 for non-positive `n`).
pub open spec fn pow16(n: int) -> int
    decreases n,
{
    if n <= 0 {
        1
    } else {
        16 * pow16(n - 1)
    }
}

proof fn lemma_pow16_pos(n: int)
    ensures
        pow16(n) >= 1,
    decreases n,
{
    if n > 0 {
        lemma_pow16_pos(n - 1);
    }
}

/// The lower-case hex digit of a value below sixteen, as an ASCII byte.
pub open spec fn spec_hex_digit(d: u8) -> u8 {
    if d < 10 {
        (48 + d) as u8
    } else {
        (87 + d) as u8
    }
}

/// The `k`-th hex digit value of a 128-bit value, most significant first.
pub open spec fn spec_nib(u: u128, k: int) -> u8 {
    (((u as int) / pow16(31 - k)) % 16) as u8
}

/// The 32 hex digits of a 128-bit value, most significant first.
pub open spec fn spec_hex32(u: u128) -> Seq<u8> {
    Seq::new(32, |k: int| spec_hex_digit(spec_nib(u, k)))
}

/// The hyphenated UUID form of a 128-bit value, as ASCII bytes.
pub open spec fn spec_uuid(u: u128) -> Seq<u8> {
    spec_hex32(u).subrange(0, 8) + seq![45u8] + spec_hex32(u).subrange(8, 12) + seq![45u8]
        + spec_hex32(u).subrange(12, 16) + seq![45u8] + spec_hex32(u).subrange(16, 20) + seq![45u8]
        + spec_hex32(u).subrange(20, 32)
}

/// The decimal digits of a non-negative value, as ASCII bytes.
pub open spec fn spec_dec(n: int) -> Seq<u8>
    decreases n,
{
    if n < 10 {
        seq![(48 + if n >= 0 { n } else { 0 }) as u8]
    } else {
        spec_dec(n / 10) + seq![(48 + n % 10) as u8]
    }
}

/// Dividing once more by 16 steps one level down the power ladder.
proof fn lemma_div_pow16_step(u: int, j: int)
    requires
        u >= 0,
        j >= 0,
    ensures
        (u / pow16(j)) / 16 == u / pow16(j + 1),
{
    lemma_pow16_pos(j);
    lemma_div_denominator(u, pow16(j), 16);
    assert(pow16(j + 1) == pow16(j) * 16);
}

/// The hex digit of a value below sixteen.
fn hex_digit(d: u8) -> (r: u8)
    requires
        d < 16,
    ensures
        r == spec_hex_digit(d),
{
    if d < 10 {
        48 + d
    } else {
        87 + d
    }
}

/// The 32 hex digits of a 128-bit value, most significant first.
fn hex32_vec(u: u128) -> (r: Vec<u8>)
    ensures
        r@ == spec_hex32(u),
{
    // Collect the digits least significant first, then reverse.
    let mut buf: Vec<u8> = Vec::new();
    let mut cur: u128 = u;
    let mut j: usize = 0;
    while j < 32
        invariant
            0 <= j <= 32,
            buf@.len() == j,
            cur == (u as int) / pow16(j as int),
            forall|i: int|
                0 <= i < j ==> #[trigger] buf@[i] == spec_hex_digit(spec_nib(u, 31 - i)),
        decreases 32 - j,
    {
        let d: u8 = (cur % 16) as u8;
        proof {
            assert(d == spec_nib(u, 31 - j as int));
        }
        buf.push(hex_digit(d));
        proof {
            lemma_div_pow16_step(u as int, j as int);
        }
        cur = cur / 16;
        j = j + 1;
    }
    let mut out: Vec<u8> = Vec::new();
    let mut k: usize = 0;
    while k < 32
        invariant
            0 <= k <= 32,
            buf@.len() == 32,
            forall|i: int|
                0 <= i < 32 ==> #[trigger] buf@[i] == spec_hex_digit(spec_nib(u, 31 - i)),
            out@.len() == k,
            forall|i: int| 0 <= i < k ==> #[trigger] out@[i] == spec_hex32(u)[i],
        decreases 32 - k,
    {
        out.push(buf[31 - k]);
        k = k + 1;
    }
    proof {
        assert(out@ =~= spec_hex32(u));
    }
    out
}

/// Append a range of a byte vector.
fn push_byte_range(out: &mut Vec<u8>, src: &Vec<u8>, from: usize, to: usize)
    requires
        from <= to <= src@.len(),
    ensures
        final(out)@ == old(out)@ + src@.subrange(from as int, to as int),
{
    let mut k = from;
    while k < to
        invariant
            from <= k <= to <= src@.len(),
            out@ == old(out)@ + src@.subrange(from as int, k as int),
        decreases to - k,
    {
        out.push(src[k]);
        proof {
            assert(src@.subrange(from as int, k + 1 as int) =~= src@.subrange(
                from as int,
                k as int,
            ).push(src@[k as int]));
        }
        k = k + 1;
    }
}

/// Append the hyphenated UUID form of a 128-bit value.
fn push_uuid(out: &mut Vec<u8>, u: u128)
    ensures
        final(out)@ == old(out)@ + spec_uuid(u),
{
    let hex = hex32_vec(u);
    push_byte_range(out, &hex, 0, 8);
    out.push(45);
    push_byte_range(out, &hex, 8, 12);
    out.push(45);
    push_byte_range(out, &hex, 12, 16);
    out.push(45);
    push_byte_range(out, &hex, 16, 20);
    out.push(45);
    push_byte_range(out, &hex, 20, 32);
    proof {
        assert(out@ =~= old(out)@ + spec_uuid(u));
    }
}

/// Append the decimal digits of a value.
fn push_dec(out: &mut Vec<u8>, n: u16)
    ensures
        final(out)@ == old(out)@ + spec_dec(n as int),
    decreases n,
{
    if n < 10 {
        out.push(48 + (n as u8));
    } else {
        push_dec(out, n / 10);
        out.push(48 + ((n % 10) as u8));
        proof {
            assert(old(out)@ + spec_dec((n / 10) as int) + seq![(48 + (n as int) % 10) as u8]
                =~= old(out)@ + spec_dec(n as int));
        }
    }
}

/// `{"id":`
pub open spec fn lit_prefix() -> Seq<u8> {
    seq![123u8, 34, 105, 100, 34, 58]
}

/// `null`
pub open spec fn lit_null() -> Seq<u8> {
    seq![110u8, 117, 108, 108]
}

/// `,"result":`
pub open spec fn lit_result() -> Seq<u8> {
    seq![44u8, 34, 114, 101, 115, 117, 108, 116, 34, 58]
}

/// `,"http_code":`
pub open spec fn lit_http_code() -> Seq<u8> {
    seq![44u8, 34, 104, 116, 116, 112, 95, 99, 111, 100, 101, 34, 58]
}

/// `,"error":{"message":"`
pub open spec fn lit_error_message() -> Seq<u8> {
    seq![
        44u8,
        34,
        101,
        114,
        114,
        111,
        114,
        34,
        58,
        123,
        34,
        109,
        101,
        115,
        115,
        97,
        103,
        101,
        34,
        58,
        34,
    ]
}

/// `","code":`
pub open spec fn lit_code() -> Seq<u8> {
    seq![34u8, 44, 34, 99, 111, 100, 101, 34, 58]
}

/// `,"data":`
pub open spec fn lit_data() -> Seq<u8> {
    seq![44u8, 34, 100, 97, 116, 97, 34, 58]
}

/// The id member: a quoted hyphenated UUID, or `null`.
pub open spec fn spec_id_part(id: Option<u128>) -> Seq<u8> {
    match id {
        Some(u) => seq![34u8] + spec_uuid(u) + seq![34u8],
        None => lit_null(),
    }
}

/// The rendered success frame:
/// `{"id":<id>,"result":<payload>,"http_code":<code>}`.
pub open spec fn spec_render_success(id: Option<u128>, payload: Seq<u8>, code: u16) -> Seq<u8> {
    lit_prefix() + spec_id_part(id) + lit_result() + payload + lit_http_code() + spec_dec(
        code as int,
    ) + seq![125u8]
}

/// One byte of a JSON string body: quote and backslash get escaped,
/// control bytes take the `\u00XX` form, everything else stands as is.
pub open spec fn spec_escape_byte(b: u8) -> Seq<u8> {
    if b == 34 {
        seq![92u8, 34]
    } else if b == 92 {
        seq![92u8, 92]
    } else if b < 32 {
        seq![92u8, 117, 48, 48, spec_hex_digit(b / 16), spec_hex_digit(b % 16)]
    } else {
        seq![b]
    }
}

/// A byte sequence as a JSON string body.
pub open spec fn spec_escape(s: Seq<u8>) -> Seq<u8>
    decreases s.len(),
{
    if s.len() == 0 {
        Seq::empty()
    } else {
        spec_escape(s.drop_last()) + spec_escape_byte(s.last())
    }
}

/// The rendered error frame:
/// `{"id":<id>,"error":{"message":"<msg>","code":<code>,"data":<data>},"http_code":<http>}`.
pub open spec fn spec_render_error(
    id: Option<u128>,
    msg: Seq<u8>,
    code: u16,
    data: Seq<u8>,
    http_code: u16,
) -> Seq<u8> {
    lit_prefix() + spec_id_part(id) + lit_error_message() + spec_escape(msg) + lit_code()
        + spec_dec(code as int) + lit_data() + data + seq![125u8] + lit_http_code() + spec_dec(
        http_code as int,
    ) + seq![125u8]
}

/// Append `{"id":`.
fn push_lit_prefix(out: &mut Vec<u8>)
    ensures
        final(out)@ == old(out)@ + lit_prefix(),
{
    out.push(123);
    out.push(34);
    out.push(105);
    out.push(100);
    out.push(34);
    out.push(58);
    proof {
        assert(out@ =~= old(out)@ + lit_prefix());
    }
}

/// Append `null`.
fn push_lit_null(out: &mut Vec<u8>)
    ensures
        final(out)@ == old(out)@ + lit_null(),
{
    out.push(110);
    out.push(117);
    out.push(108);
    out.push(108);
    proof {
        assert(out@ =~= old(out)@ + lit_null());
    }
}

/// Append `,"result":`.
fn push_lit_result(out: &mut Vec<u8>)
    ensures
        final(out)@ == old(out)@ + lit_result(),
{
    out.push(44);
    out.push(34);
    out.push(114);
    out.push(101);
    out.push(115);
    out.push(117);
    out.push(108);
    out.push(116);
    out.push(34);
    out.push(58);
    proof {
        assert(out@ =~= old(out)@ + lit_result());
    }
}

/// Append `,"http_code":`.
fn push_lit_http_code(out: &mut Vec<u8>)
    ensures
        final(out)@ == old(out)@ + lit_http_code(),
{
    out.push(44);
    out.push(34);
    out.push(104);
    out.push(116);
    out.push(116);
    out.push(112);
    out.push(95);
    out.push(99);
    out.push(111);
    out.push(100);
    out.push(101);
    out.push(34);
    out.push(58);
    proof {
        assert(out@ =~= old(out)@ + lit_http_code());
    }
}

/// Append `,"error":{"message":"`.
fn push_lit_error_message(out: &mut Vec<u8>)
    ensures
        final(out)@ == old(out)@ + lit_error_message(),
{
    out.push(44);
    out.push(34);
    out.push(101);
    out.push(114);
    out.push(114);
    out.push(111);
    out.push(114);
    out.push(34);
    out.push(58);
    out.push(123);
    out.push(34);
    out.push(109);
    out.push(101);
    out.push(115);
    out.push(115);
    out.push(97);
    out.push(103);
    out.push(101);
    out.push(34);
    out.push(58);
    out.push(34);
    proof {
        assert(out@ =~= old(out)@ + lit_error_message());
    }
}

/// Append `","code":`.
fn push_lit_code(out: &mut Vec<u8>)
    ensures
        final(out)@ == old(out)@ + lit_code(),
{
    out.push(34);
    out.push(44);
    out.push(34);
    out.push(99);
    out.push(111);
    out.push(100);
    out.push(101);
    out.push(34);
    out.push(58);
    proof {
        assert(out@ =~= old(out)@ + lit_code());
    }
}

/// Append `,"data":`.
fn push_lit_data(out: &mut Vec<u8>)
    ensures
        final(out)@ == old(out)@ + lit_data(),
{
    out.push(44);
    out.push(34);
    out.push(100);
    out.push(97);
    out.push(116);
    out.push(97);
    out.push(34);
    out.push(58);
    proof {
        assert(out@ =~= old(out)@ + lit_data());
    }
}

/// Append the id member.
fn push_id_part(out: &mut Vec<u8>, id: &Option<u128>)
    ensures
        final(out)@ == old(out)@ + spec_id_part(*id),
{
    match id {
        Some(u) => {
            out.push(34);
            push_uuid(out, *u);
            out.push(34);
            proof {
                assert(out@ =~= old(out)@ + spec_id_part(*id));
            }
        },
        None => {
            push_lit_null(out);
        },
    }
}

/// Append a slice of payload bytes verbatim.
fn push_slice(out: &mut Vec<u8>, src: &[u8])
    ensures
        final(out)@ == old(out)@ + src@,
{
    let mut k: usize = 0;
    let n = src.len();
    while k < n
        invariant
            0 <= k <= n,
            n == src@.len(),
            out@ == old(out)@ + src@.subrange(0, k as int),
        decreases n - k,
    {
        out.push(src[k]);
        proof {
            assert(src@.subrange(0, k + 1 as int) =~= src@.subrange(0, k as int).push(
                src@[k as int],
            ));
        }
        k = k + 1;
    }
    proof {
        assert(src@.subrange(0, n as int) =~= src@);
    }
}

/// Append a byte sequence as an escaped JSON string body.
fn push_escaped(out: &mut Vec<u8>, src: &[u8])
    ensures
        final(out)@ == old(out)@ + spec_escape(src@),
{
    let mut k: usize = 0;
    let n = src.len();
    while k < n
        invariant
            0 <= k <= n,
            n == src@.len(),
            out@ == old(out)@ + spec_escape(src@.subrange(0, k as int)),
        decreases n - k,
    {
        let b = src[k];
        if b == 34 {
            out.push(92);
            out.push(34);
        } else if b == 92 {
            out.push(92);
            out.push(92);
        } else if b < 32 {
            out.push(92);
            out.push(117);
            out.push(48);
            out.push(48);
            out.push(hex_digit(b / 16));
            out.push(hex_digit(b % 16));
        } else {
            out.push(b);
        }
        proof {
            let pre = src@.subrange(0, k as int);
            let cur = src@.subrange(0, k + 1 as int);
            assert(cur.drop_last() =~= pre);
            assert(cur.last() == src@[k as int]);
            assert(out@ =~= old(out)@ + spec_escape(cur));
        }
        k = k + 1;
    }
    proof {
        assert(src@.subrange(0, n as int) =~= src@);
    }
}

/// Render the success frame.
pub fn render_success_frame(id: &Option<u128>, payload: &[u8], code: u16) -> (r: Vec<u8>)
    ensures
        r@ == spec_render_success(*id, payload@, code),
{
    let mut out: Vec<u8> = Vec::new();
    push_lit_prefix(&mut out);
    push_id_part(&mut out, id);
    push_lit_result(&mut out);
    push_slice(&mut out, payload);
    push_lit_http_code(&mut out);
    push_dec(&mut out, code);
    out.push(125);
    proof {
        assert(out@ =~= spec_render_success(*id, payload@, code));
    }
    out
}

/// Render the error frame.
pub fn render_error_frame(
    id: &Option<u128>,
    msg: &[u8],
    code: u16,
    data: &[u8],
    http_code: u16,
) -> (r: Vec<u8>)
    ensures
        r@ == spec_render_error(*id, msg@, code, data@, http_code),
{
    let mut out: Vec<u8> = Vec::new();
    push_lit_prefix(&mut out);
    push_id_part(&mut out, id);
    push_lit_error_message(&mut out);
    push_escaped(&mut out, msg);
    push_lit_code(&mut out);
    push_dec(&mut out, code);
    push_lit_data(&mut out);
    push_slice(&mut out, data);
    out.push(125);
    push_lit_http_code(&mut out);
    push_dec(&mut out, http_code);
    out.push(125);
    proof {
        assert(out@ =~= spec_render_error(*id, msg@, code, data@, http_code));
    }
    out
}

/// Render a success envelope to its transport parts: the status code the
/// response must use — equal, by contract, to the envelope's embedded
/// `http_code` — and the body bytes framing the serialized payload.
pub fn success_response_parts<T>(env: &crate::jsonrpc::JSONRPCSuccess<T>, payload: &[u8]) -> (r: (
    u16,
    Vec<u8>,
))
    ensures
        r.0 == env.http_code,
        r.1@ == spec_render_success(env.id, payload@, env.http_code),
{
    (env.http_code, render_success_frame(&env.id, payload, env.http_code))
}

/// Render an error envelope to its transport parts: the status code the
/// response must use — equal, by contract, to the envelope's embedded
/// `http_code` — and the body bytes framing the serialized error data.
pub fn error_response_parts<D>(env: &crate::jsonrpc::JSONRPCError<D>, data: &[u8]) -> (r: (
    u16,
    Vec<u8>,
))
    ensures
        r.0 == env.http_code,
        r.1@ == spec_render_error(
            env.id,
            vstd::utf8::encode_utf8(env.error.message@),
            env.error.code,
            data@,
            env.http_code,
        ),
{
    let body = render_error_frame(
        &env.id,
        env.error.message.as_str().as_bytes(),
        env.error.code,
        data,
        env.http_code,
    );
    (env.http_code, body)
}

/// ASCII decimal digit.
pub open spec fn spec_is_digit(b: u8) -> bool {
    48 <= b <= 57
}

/// Positions of the hyphens in a hyphenated UUID.
pub open spec fn is_hyphen_pos(j: int) -> bool {
    j == 8 || j == 13 || j == 18 || j == 23
}

/// How many hex digits precede position `j` of a hyphenated UUID.
pub open spec fn nib_count(j: int) -> int {
    j - (if j > 8 {
        1int
    } else {
        0int
    }) - (if j > 13 {
        1int
    } else {
        0int
    }) - (if j > 18 {
        1int
    } else {
        0int
    }) - (if j > 23 {
        1int
    } else {
        0int
    })
}

proof fn lemma_pow16_monotone(a: int, b: int)
    requires
        a <= b,
    ensures
        pow16(a) <= pow16(b),
    decreases b - a,
{
    lemma_pow16_pos(a);
    lemma_pow16_pos(b);
    if a < b {
        lemma_pow16_monotone(a, b - 1);
    }
}

/// What stands at each position of a hyphenated UUID.
proof fn lemma_uuid_index(u: u128, j: int)
    requires
        0 <= j < 36,
    ensures
        spec_uuid(u).len() == 36,
        is_hyphen_pos(j) ==> spec_uuid(u)[j] == 45,
        !is_hyphen_pos(j) ==> spec_uuid(u)[j] == spec_hex_digit(spec_nib(u, nib_count(j))),
{
    let h = spec_hex32(u);
    assert(h.len() == 32);
    if j < 8 {
        assert(spec_uuid(u)[j] == h[j]);
    } else if j == 8 {
    } else if j < 13 {
        assert(spec_uuid(u)[j] == h[j - 1]);
    } else if j == 13 {
    } else if j < 18 {
        assert(spec_uuid(u)[j] == h[j - 2]);
    } else if j == 18 {
    } else if j < 23 {
        assert(spec_uuid(u)[j] == h[j - 3]);
    } else if j == 23 {
    } else {
        assert(spec_uuid(u)[j] == h[j - 4]);
    }
}

/// One division step of the nibble ladder, with its remainder.
proof fn lemma_div_pow16_unstep(u: int, j: int)
    requires
        u >= 0,
        j >= 0,
    ensures
        u / pow16(j) == 16 * (u / pow16(j + 1)) + (u / pow16(j)) % 16,
{
    lemma_pow16_pos(j);
    lemma_div_pow16_step(u, j);
    lemma_fundamental_div_mod(u / pow16(j), 16);
}

/// Parse the 36-byte hyphenated-UUID region starting at `at`: whenever the
/// region is the rendering of some value, that value comes back.
fn parse_uuid_at(body: &[u8], at: usize) -> (r: Option<u128>)
    requires
        at + 36 <= body@.len(),
    ensures
        forall|u: u128|
            body@.subrange(at as int, at + 36 as int) == #[trigger] spec_uuid(u) ==> r == Some(u),
{
    let ghost region = body@.subrange(at as int, at + 36 as int);
    let n = body.len();
    let mut acc: u128 = 0;
    let mut j: usize = 0;
    let mut k: usize = 0;
    proof {
        assert(pow16(32) == 0x100000000000000000000000000000000) by {
            reveal_with_fuel(pow16, 33);
        }
        assert forall|u: u128| region == spec_uuid(u) implies (acc as int) == (u as int) / pow16(
            32,
        ) by {
            lemma_basic_div(u as int, pow16(32));
        }
    }
    while j < 36
        invariant
            at + 36 <= body@.len(),
            n == body@.len(),
            region == body@.subrange(at as int, at + 36 as int),
            0 <= j <= 36,
            k == nib_count(j as int),
            0 <= k <= 32,
            (acc as int) < pow16(k as int),
            pow16(32) == 0x100000000000000000000000000000000,
            forall|u: u128|
                region == #[trigger] spec_uuid(u) ==> (acc as int) == (u as int) / pow16(
                    32 - k as int,
                ),
        decreases 36 - j,
    {
        let b = body[at + j];
        if j == 8 || j == 13 || j == 18 || j == 23 {
            if b != 45 {
                proof {
                    assert forall|u: u128| region == #[trigger] spec_uuid(u) implies false by {
                        lemma_uuid_index(u, j as int);
                        assert(region[j as int] == b);
                    }
                }
                return None;
            }
        } else {
            let d: u8 = if 48 <= b && b <= 57 {
                b - 48
            } else if 97 <= b && b <= 102 {
                b - 87
            } else {
                proof {
                    assert forall|u: u128| region == #[trigger] spec_uuid(u) implies false by {
                        lemma_uuid_index(u, j as int);
                        assert(region[j as int] == b);
                    }
                }
                return None;
            };
            proof {
                lemma_pow16_monotone(k as int + 1, 32);
                assert((acc as int) * 16 + 15 < pow16(k as int + 1));
                assert forall|u: u128| region == #[trigger] spec_uuid(u) implies (acc as int) * 16
                    + (d as int) == (u as int) / pow16(32 - (k + 1) as int) by {
                    lemma_uuid_index(u, j as int);
                    assert(region[j as int] == b);
                    assert(b == spec_hex_digit(spec_nib(u, k as int)));
                    assert(d == spec_nib(u, k as int));
                    lemma_div_pow16_unstep(u as int, 31 - k as int);
                }
            }
            acc = acc * 16 + (d as u128);
            k = k + 1;
        }
        j = j + 1;
    }
    proof {
        assert forall|u: u128| region == #[trigger] spec_uuid(u) implies acc == u by {
            assert((acc as int) == (u as int) / pow16(0));
        }
    }
    Some(acc)
}

/// Fold ASCII decimal digits into a value, rejecting non-digits and
/// anything above the largest 16-bit value.
pub open spec fn dec_fold(s: Seq<u8>, acc: int) -> Option<int>
    decreases s.len(),
{
    if s.len() == 0 {
        Some(acc)
    } else if !spec_is_digit(s[0]) {
        None
    } else {
        let a2 = acc * 10 + ((s[0] as int) - 48);
        if a2 > 65535 {
            None
        } else {
            dec_fold(s.drop_first(), a2)
        }
    }
}

proof fn lemma_dec_fold_append(s1: Seq<u8>, s2: Seq<u8>, acc: int)
    ensures
        dec_fold(s1 + s2, acc) == (match dec_fold(s1, acc) {
            Some(v) => dec_fold(s2, v),
            None => None,
        }),
    decreases s1.len(),
{
    if s1.len() == 0 {
        assert(s1 + s2 =~= s2);
    } else {
        assert((s1 + s2)[0] == s1[0]);
        if spec_is_digit(s1[0]) {
            let a2 = acc * 10 + ((s1[0] as int) - 48);
            if a2 <= 65535 {
                assert((s1 + s2).drop_first() =~= s1.drop_first() + s2);
                lemma_dec_fold_append(s1.drop_first(), s2, a2);
            }
        }
    }
}

proof fn lemma_dec_fold_single(d: int, acc: int)
    requires
        0 <= d <= 9,
        0 <= acc,
        acc * 10 + d <= 65535,
    ensures
        dec_fold(seq![(48 + d) as u8], acc) == Some(acc * 10 + d),
{
    let s = seq![(48 + d) as u8];
    assert(s[0] == (48 + d) as u8);
    assert(spec_is_digit(s[0]));
    assert(s.drop_first() =~= Seq::<u8>::empty());
    assert(dec_fold(s.drop_first(), acc * 10 + d) == Some(acc * 10 + d));
}

/// Folding the decimal rendering of a value gives the value back.
proof fn lemma_dec_round_trip(c: int)
    requires
        0 <= c <= 65535,
    ensures
        dec_fold(spec_dec(c), 0) == Some(c),
    decreases c,
{
    if c < 10 {
        assert(spec_dec(c) == seq![(48 + c) as u8]);
        lemma_dec_fold_single(c, 0);
    } else {
        lemma_dec_round_trip(c / 10);
        lemma_dec_fold_append(spec_dec(c / 10), seq![(48 + c % 10) as u8], 0);
        lemma_fundamental_div_mod(c, 10);
        lemma_dec_fold_single(c % 10, c / 10);
    }
}

/// The decimal rendering is at least one byte, all of them digits.
proof fn lemma_dec_digits(n: int)
    requires
        n >= 0,
    ensures
        spec_dec(n).len() >= 1,
        forall|i: int| 0 <= i < spec_dec(n).len() ==> spec_is_digit(#[trigger] spec_dec(n)[i]),
    decreases n,
{
    if n >= 10 {
        lemma_dec_digits(n / 10);
    }
}

/// Whether a byte is an ASCII decimal digit.
fn is_digit_byte(b: u8) -> (r: bool)
    ensures
        r == spec_is_digit(b),
{
    48 <= b && b <= 57
}

/// Parse the decimal region `[from, to)`: whenever it is the rendering of
/// some 16-bit value, that value comes back.
fn parse_dec_at(body: &[u8], from: usize, to: usize) -> (r: Option<u16>)
    requires
        from <= to <= body@.len(),
    ensures
        forall|c: u16|
            body@.subrange(from as int, to as int) == spec_dec(c as int) ==> r == Some(c),
{
    let ghost region = body@.subrange(from as int, to as int);
    let mut acc: u32 = 0;
    let mut i = from;
    proof {
        assert(region.skip(0) =~= region);
    }
    while i < to
        invariant
            from <= i <= to <= body@.len(),
            region == body@.subrange(from as int, to as int),
            acc <= 65535,
            dec_fold(region, 0) == dec_fold(region.skip(i - from), acc as int),
        decreases to - i,
    {
        let b = body[i];
        proof {
            assert(region.skip((i - from) as int)[0] == b);
        }
        if b < 48 || b > 57 {
            proof {
                assert forall|c: u16| region == spec_dec(c as int) implies false by {
                    lemma_dec_round_trip(c as int);
                }
            }
            return None;
        }
        let d = (b - 48) as u32;
        let a2 = acc * 10 + d;
        if a2 > 65535 {
            proof {
                assert forall|c: u16| region == spec_dec(c as int) implies false by {
                    lemma_dec_round_trip(c as int);
                }
            }
            return None;
        }
        proof {
            assert(region.skip((i - from) as int).drop_first() =~= region.skip(
                (i + 1 - from) as int,
            ));
        }
        acc = a2;
        i = i + 1;
    }
    proof {
        assert(region.skip((to - from) as int).len() == 0);
        assert forall|c: u16| region == spec_dec(c as int) implies acc == c by {
            lemma_dec_round_trip(c as int);
        }
    }
    Some(acc as u16)
}

/// Length of the rendered id member.
pub open spec fn spec_id_len(id: Option<u128>) -> int {
    match id {
        Some(_) => 38,
        None => 4,
    }
}

/// How a rendered success frame decomposes, byte by byte.
proof fn lemma_render_success_facts(id: Option<u128>, p: Seq<u8>, c: u16, s: Seq<u8>)
    requires
        s == spec_render_success(id, p, c),
    ensures
        spec_dec(c as int).len() >= 1,
        s.len() == 30 + spec_id_len(id) + p.len() + spec_dec(c as int).len(),
        s[s.len() - 1] == 125,
        s.subrange(0, 6) == lit_prefix(),
        id is Some ==> s[6] == 34 && s.subrange(7, 43) == spec_uuid(id->0) && s[43] == 34,
        id is None ==> s[6] == 110 && s.subrange(6, 10) == lit_null(),
        s.subrange(6 + spec_id_len(id), 16 + spec_id_len(id)) == lit_result(),
        s.subrange(16 + spec_id_len(id), 16 + spec_id_len(id) + p.len() as int) == p,
        s.subrange(
            16 + spec_id_len(id) + p.len() as int,
            29 + spec_id_len(id) + p.len() as int,
        ) == lit_http_code(),
        s.subrange(29 + spec_id_len(id) + p.len() as int, s.len() - 1) == spec_dec(c as int),
        forall|i: int|
            29 + spec_id_len(id) + p.len() as int <= i < s.len() - 1 ==> spec_is_digit(s[i]),
        s[28 + spec_id_len(id) + p.len() as int] == 58,
{
    lemma_dec_digits(c as int);
    let idp = spec_id_part(id);
    let dec = spec_dec(c as int);
    let sid = spec_id_len(id);
    assert(idp.len() == sid);
    let plen = p.len() as int;
    let dlen = dec.len() as int;
    assert(s.len() == 30 + sid + plen + dlen);
    assert(s[s.len() - 1] == 125);
    assert(s.subrange(0, 6) =~= lit_prefix());
    if id is Some {
        assert(s[6] == idp[0]);
        assert(s.subrange(7, 43) =~= spec_uuid(id->0));
        assert(s[43] == 34);
    } else {
        assert(s[6] == idp[0]);
        assert(s.subrange(6, 10) =~= lit_null());
    }
    assert(s.subrange(6 + sid, 16 + sid) =~= lit_result());
    assert(s.subrange(16 + sid, 16 + sid + plen) =~= p);
    assert(s.subrange(16 + sid + plen, 29 + sid + plen) =~= lit_http_code());
    assert(s.subrange(29 + sid + plen, s.len() - 1) =~= dec);
    assert forall|i: int| 29 + sid + plen <= i < s.len() - 1 implies spec_is_digit(s[i]) by {
        assert(s[i] == dec[i - (29 + sid + plen)]);
    }
    assert(s[28 + sid + plen] == lit_http_code()[12]);
}

/// Whether the bytes at `at` equal the pattern.
fn bytes_eq_at(body: &[u8], at: usize, pat: &Vec<u8>) -> (r: bool)
    requires
        at + pat@.len() <= body@.len(),
    ensures
        r == (body@.subrange(at as int, at + pat@.len() as int) == pat@),
{
    let n = body.len();
    let m = pat.len();
    let mut i: usize = 0;
    while i < m
        invariant
            at + m <= n == body@.len(),
            m == pat@.len(),
            0 <= i <= m,
            forall|t: int| 0 <= t < i ==> body@[at + t] == pat@[t],
        decreases m - i,
    {
        if body[at + i] != pat[i] {
            proof {
                let sub = body@.subrange(at as int, at + m as int);
                assert(sub[i as int] == body@[at + i]);
                assert(sub[i as int] != pat@[i as int]);
            }
            return false;
        }
        i = i + 1;
    }
    proof {
        assert(body@.subrange(at as int, at + m as int) =~= pat@);
    }
    true
}

/// The bytes of `{"id":`.
fn lit_prefix_vec() -> (r: Vec<u8>)
    ensures
        r@ == lit_prefix(),
{
    let mut v: Vec<u8> = Vec::new();
    push_lit_prefix(&mut v);
    proof {
        assert(v@ =~= lit_prefix());
    }
    v
}

/// The bytes of `null`.
fn lit_null_vec() -> (r: Vec<u8>)
    ensures
        r@ == lit_null(),
{
    let mut v: Vec<u8> = Vec::new();
    push_lit_null(&mut v);
    proof {
        assert(v@ =~= lit_null());
    }
    v
}

/// The bytes of `,"result":`.
fn lit_result_vec() -> (r: Vec<u8>)
    ensures
        r@ == lit_result(),
{
    let mut v: Vec<u8> = Vec::new();
    push_lit_result(&mut v);
    proof {
        assert(v@ =~= lit_result());
    }
    v
}

/// The bytes of `,"http_code":`.
fn lit_http_code_vec() -> (r: Vec<u8>)
    ensures
        r@ == lit_http_code(),
{
    let mut v: Vec<u8> = Vec::new();
    push_lit_http_code(&mut v);
    proof {
        assert(v@ =~= lit_http_code());
    }
    v
}

/// Copy a byte range out of a slice.
fn copy_range(body: &[u8], from: usize, to: usize) -> (r: Vec<u8>)
    requires
        from <= to <= body@.len(),
    ensures
        r@ == body@.subrange(from as int, to as int),
{
    let mut out: Vec<u8> = Vec::new();
    let mut k = from;
    while k < to
        invariant
            from <= k <= to <= body@.len(),
            out@ == body@.subrange(from as int, k as int),
        decreases to - k,
    {
        out.push(body[k]);
        proof {
            assert(body@.subrange(from as int, k + 1 as int) =~= body@.subrange(
                from as int,
                k as int,
            ).push(body@[k as int]));
        }
        k = k + 1;
    }
    out
}

/// Parse a success frame back into its id, payload bytes, and status code.
///
/// This is the round-trip contract of the wire format: whenever the body
/// is the rendering of some id, payload and code, parsing returns exactly
/// those three.
pub fn parse_success_frame(body: &[u8]) -> (r: Option<(Option<u128>, Vec<u8>, u16)>)
    ensures
        forall|id: Option<u128>, p: Seq<u8>, c: u16|
            body@ == #[trigger] spec_render_success(id, p, c) ==> (r matches Some(t) && t.0 == id
                && t.1@ == p && t.2 == c),
{
    let n = body.len();
    if n < 35 {
        proof {
            assert forall|id: Option<u128>, p: Seq<u8>, c: u16|
                body@ == #[trigger] spec_render_success(id, p, c) implies false by {
                lemma_render_success_facts(id, p, c, body@);
            }
        }
        return None;
    }
    if body[n - 1] != 125 {
        proof {
            assert forall|id: Option<u128>, p: Seq<u8>, c: u16|
                body@ == #[trigger] spec_render_success(id, p, c) implies false by {
                lemma_render_success_facts(id, p, c, body@);
            }
        }
        return None;
    }
    let mut j: usize = n - 1;
    while j > 0 && is_digit_byte(body[j - 1])
        invariant
            35 <= n == body@.len(),
            0 <= j <= n - 1,
            forall|i: int| j <= i < n - 1 ==> spec_is_digit(body@[i]),
        decreases j,
    {
        j = j - 1;
    }
    if j == n - 1 {
        proof {
            assert forall|id: Option<u128>, p: Seq<u8>, c: u16|
                body@ == #[trigger] spec_render_success(id, p, c) implies false by {
                lemma_render_success_facts(id, p, c, body@);
                assert(spec_is_digit(body@[n - 2]));
            }
        }
        return None;
    }
    // Under any rendering hypothesis the scan stops exactly at the first
    // decimal digit of the code: the byte before it is the colon.
    proof {
        assert forall|id: Option<u128>, p: Seq<u8>, c: u16|
            body@ == #[trigger] spec_render_success(id, p, c) implies j == 29 + spec_id_len(id)
            + p.len() by {
            lemma_render_success_facts(id, p, c, body@);
            let lo = 29 + spec_id_len(id) + p.len() as int;
            if j > lo {
                assert(spec_is_digit(body@[j - 1]));
            }
            if j < lo {
                assert(spec_is_digit(body@[lo - 1]));
            }
        }
    }
    if j < 33 {
        proof {
            assert forall|id: Option<u128>, p: Seq<u8>, c: u16|
                body@ == #[trigger] spec_render_success(id, p, c) implies false by {
                lemma_render_success_facts(id, p, c, body@);
            }
        }
        return None;
    }
    let csep = lit_http_code_vec();
    if !bytes_eq_at(body, j - 13, &csep) {
        proof {
            assert forall|id: Option<u128>, p: Seq<u8>, c: u16|
                body@ == #[trigger] spec_render_success(id, p, c) implies false by {
                lemma_render_success_facts(id, p, c, body@);
            }
        }
        return None;
    }
    let code = match parse_dec_at(body, j, n - 1) {
        Some(cv) => cv,
        None => {
            proof {
                assert forall|id: Option<u128>, p: Seq<u8>, c: u16|
                    body@ == #[trigger] spec_render_success(id, p, c) implies false by {
                    lemma_render_success_facts(id, p, c, body@);
                }
            }
            return None;
        },
    };
    let prefix = lit_prefix_vec();
    if !bytes_eq_at(body, 0, &prefix) {
        proof {
            assert forall|id: Option<u128>, p: Seq<u8>, c: u16|
                body@ == #[trigger] spec_render_success(id, p, c) implies false by {
                lemma_render_success_facts(id, p, c, body@);
            }
        }
        return None;
    }
    let b6 = body[6];
    let idv: Option<u128>;
    let id_end: usize;
    if b6 == 110 {
        let nul = lit_null_vec();
        if !bytes_eq_at(body, 6, &nul) {
            proof {
                assert forall|id: Option<u128>, p: Seq<u8>, c: u16|
                    body@ == #[trigger] spec_render_success(id, p, c) implies false by {
                    lemma_render_success_facts(id, p, c, body@);
                }
            }
            return None;
        }
        idv = None;
        id_end = 10;
    } else if b6 == 34 {
        if j < 67 {
            proof {
                assert forall|id: Option<u128>, p: Seq<u8>, c: u16|
                    body@ == #[trigger] spec_render_success(id, p, c) implies false by {
                    lemma_render_success_facts(id, p, c, body@);
                }
            }
            return None;
        }
        let u = match parse_uuid_at(body, 7) {
            Some(u) => u,
            None => {
                proof {
                    assert forall|id: Option<u128>, p: Seq<u8>, c: u16|
                        body@ == #[trigger] spec_render_success(id, p, c) implies false by {
                        lemma_render_success_facts(id, p, c, body@);
                    }
                }
                return None;
            },
        };
        if body[43] != 34 {
            proof {
                assert forall|id: Option<u128>, p: Seq<u8>, c: u16|
                    body@ == #[trigger] spec_render_success(id, p, c) implies false by {
                    lemma_render_success_facts(id, p, c, body@);
                }
            }
            return None;
        }
        idv = Some(u);
        id_end = 44;
    } else {
        proof {
            assert forall|id: Option<u128>, p: Seq<u8>, c: u16|
                body@ == #[trigger] spec_render_success(id, p, c) implies false by {
                lemma_render_success_facts(id, p, c, body@);
            }
        }
        return None;
    }
    if id_end + 10 > j - 13 {
        proof {
            assert forall|id: Option<u128>, p: Seq<u8>, c: u16|
                body@ == #[trigger] spec_render_success(id, p, c) implies false by {
                lemma_render_success_facts(id, p, c, body@);
            }
        }
        return None;
    }
    let rsep = lit_result_vec();
    if !bytes_eq_at(body, id_end, &rsep) {
        proof {
            assert forall|id: Option<u128>, p: Seq<u8>, c: u16|
                body@ == #[trigger] spec_render_success(id, p, c) implies false by {
                lemma_render_success_facts(id, p, c, body@);
            }
        }
        return None;
    }
    let payload = copy_range(body, id_end + 10, j - 13);
    proof {
        assert forall|id: Option<u128>, p: Seq<u8>, c: u16|
            body@ == #[trigger] spec_render_success(id, p, c) implies (idv == id && payload@ == p
            && code == c) by {
            lemma_render_success_facts(id, p, c, body@);
        }
    }
    Some((idv, payload, code))
}

} // verus!
