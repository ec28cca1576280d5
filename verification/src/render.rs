//! Pure text-rendering utilities for diagnostics: decimal formatting of exit
//! codes and a lossy, escaped rendering of captured output buffers.
use vstd::prelude::*;
use vstd::string::*;
use vstd::utf8::*;

verus! {

/// The characters that a sequence of ASCII bytes stands for, one per byte.
pub open spec fn ascii_chars_of(bs: Seq<u8>) -> Seq<char> {
    bs.map_values(|b: u8| b as char)
}

/// The ASCII digit for `d` (`d` is taken modulo ten).
pub open spec fn digit_u8(d: nat) -> u8 {
    (0x30 + (d % 10)) as u8
}

/// The decimal digits of `n`, most significant first, as ASCII bytes.
pub open spec fn dec_digits_u8(n: nat) -> Seq<u8>
    decreases n,
{
    if n < 10 {
        seq![digit_u8(n)]
    } else {
        dec_digits_u8(n / 10).push(digit_u8(n % 10))
    }
}

/// The decimal rendering of an integer, with a leading minus sign when negative.
pub open spec fn dec_str(n: int) -> Seq<char> {
    if n < 0 {
        seq!['-'] + ascii_chars_of(dec_digits_u8((0 - n) as nat))
    } else {
        ascii_chars_of(dec_digits_u8(n as nat))
    }
}

/// The lower-case hexadecimal digit for `d` (`d` is taken modulo sixteen).
pub open spec fn hex_u8(d: nat) -> u8 {
    if d % 16 < 10 {
        (0x30 + (d % 16)) as u8
    } else {
        (0x57 + (d % 16)) as u8
    }
}

/// One byte's escaped rendering: printable ASCII stands for itself, anything
/// else becomes a `\xhh` escape.
pub open spec fn escape_byte_u8(b: u8) -> Seq<u8> {
    if 0x20 <= b <= 0x7e {
        seq![b]
    } else {
        seq![0x5cu8, 0x78u8, hex_u8((b / 16) as nat), hex_u8((b % 16) as nat)]
    }
}

/// The escaped rendering of a whole buffer, byte for byte.
pub open spec fn escape_bytes_u8(bs: Seq<u8>) -> Seq<u8>
    decreases bs.len(),
{
    if bs.len() == 0 {
        Seq::<u8>::empty()
    } else {
        escape_byte_u8(bs[0]) + escape_bytes_u8(bs.drop_first())
    }
}

/// How a captured buffer is shown in a report: decoded text when it is valid
/// UTF-8, otherwise every byte escaped.
pub open spec fn dump_spec(bs: Seq<u8>) -> Seq<char> {
    if valid_utf8(bs) {
        decode_utf8(bs)
    } else {
        ascii_chars_of(escape_bytes_u8(bs))
    }
}

/// Relies on core::str::from_utf8: it succeeds exactly on valid UTF-8 input,
/// and the returned string slice views those same bytes.
#[verifier::external_body]
fn bytes_to_str(bytes: &[u8]) -> (r: Option<&str>)
    ensures
        r is Some <==> valid_utf8(bytes@),
        r matches Some(s) ==> s.spec_bytes() == bytes@,
{
    core::str::from_utf8(bytes).ok()
}

/// Decodes a captured buffer as UTF-8, when possible.
pub fn decode_buffer(bytes: &[u8]) -> (r: Option<&str>)
    ensures
        r is Some <==> valid_utf8(bytes@),
        r matches Some(s) ==> s@ == decode_utf8(bytes@) && s.spec_bytes() == bytes@,
{
    let r = bytes_to_str(bytes);
    proof {
        if r is Some {
            encode_utf8_decode_utf8(r->Some_0@);
        }
    }
    r
}

/// Every decimal digit byte is an ASCII digit.
pub proof fn lemma_dec_digits_ascii(n: nat)
    ensures
        forall|i: int|
            0 <= i < dec_digits_u8(n).len() ==> 0x30 <= #[trigger] dec_digits_u8(n)[i] <= 0x39,
    decreases n,
{
    if n >= 10 {
        lemma_dec_digits_ascii(n / 10);
        assert forall|i: int| 0 <= i < dec_digits_u8(n).len() implies 0x30 <= #[trigger] dec_digits_u8(
            n,
        )[i] <= 0x39 by {
            if i < dec_digits_u8(n / 10).len() {
                assert(dec_digits_u8(n)[i] == dec_digits_u8(n / 10)[i]);
            } else {
                assert(dec_digits_u8(n)[i] == digit_u8(n % 10));
            }
        }
    }
}

/// Turns a buffer of ASCII bytes into the `String` of the same characters.
pub fn ascii_to_string(bytes: &Vec<u8>) -> (r: String)
    requires
        forall|i: int| 0 <= i < bytes@.len() ==> bytes@[i] < 0x80,
    ensures
        r@ == ascii_chars_of(bytes@),
{
    let ghost chars = ascii_chars_of(bytes@);
    proof {
        assert forall|i: int| 0 <= i < chars.len() implies '\0' <= #[trigger] chars[i]
            <= '\u{7f}' by {
            assert(chars[i] == bytes@[i] as char);
        }
        assert(is_ascii_chars(chars));
        is_ascii_chars_encode_utf8(chars);
        assert forall|i: int| 0 <= i < chars.len() implies #[trigger] encode_utf8(chars)[i]
            == bytes@[i] by {
            assert(chars[i] as u8 == encode_utf8(chars)[i]);
            assert((bytes@[i] as char) as u8 == bytes@[i]);
        }
        assert(encode_utf8(chars) =~= bytes@);
        encode_utf8_valid_utf8(chars);
    }
    match bytes_to_str(bytes.as_slice()) {
        Some(s) => {
            proof {
                encode_utf8_decode_utf8(chars);
                encode_utf8_decode_utf8(s@);
            }
            String::from_str(s)
        },
        None => {
            proof {
                assert(false);
            }
            String::new()
        },
    }
}

/// Appends the decimal digits of `m`, most significant first, as ASCII bytes.
fn push_dec_digits(out: &mut Vec<u8>, m: u32)
    ensures
        final(out)@ == old(out)@ + dec_digits_u8(m as nat),
    decreases m,
{
    if m >= 10 {
        push_dec_digits(out, m / 10);
    }
    out.push(0x30u8 + (m % 10) as u8);
    proof {
        assert(final(out)@ =~= old(out)@ + dec_digits_u8(m as nat));
    }
}

/// Escaping a buffer one byte at a time matches escaping it whole.
proof fn lemma_escape_bytes_push(bs: Seq<u8>, b: u8)
    ensures
        escape_bytes_u8(bs.push(b)) == escape_bytes_u8(bs) + escape_byte_u8(b),
    decreases bs.len(),
{
    if bs.len() == 0 {
        assert(bs.push(b).drop_first() =~= Seq::<u8>::empty());
        assert(bs.push(b)[0] == b);
        assert(escape_bytes_u8(bs.push(b)) == escape_byte_u8(b) + escape_bytes_u8(
            Seq::<u8>::empty(),
        ));
        assert(escape_bytes_u8(bs.push(b)) =~= escape_bytes_u8(bs) + escape_byte_u8(b));
    } else {
        assert(bs.push(b).drop_first() =~= bs.drop_first().push(b));
        lemma_escape_bytes_push(bs.drop_first(), b);
        assert(bs.push(b)[0] == bs[0]);
        assert(escape_bytes_u8(bs.push(b)) == escape_byte_u8(bs[0]) + (escape_bytes_u8(
            bs.drop_first(),
        ) + escape_byte_u8(b)));
        assert(escape_bytes_u8(bs.push(b)) =~= escape_bytes_u8(bs) + escape_byte_u8(b));
    }
}

/// Builds the escaped rendering of a buffer as ASCII bytes.
fn escape_to_ascii(buffer: &[u8]) -> (out: Vec<u8>)
    ensures
        out@ == escape_bytes_u8(buffer@),
        forall|j: int| 0 <= j < out@.len() ==> out@[j] < 0x80,
{
    let mut out: Vec<u8> = Vec::new();
    let mut i: usize = 0;
    proof {
        assert(buffer@.take(0) =~= Seq::<u8>::empty());
    }
    while i < buffer.len()
        invariant
            i <= buffer@.len(),
            out@ == escape_bytes_u8(buffer@.take(i as int)),
            forall|j: int| 0 <= j < out@.len() ==> out@[j] < 0x80,
        decreases buffer@.len() - i,
    {
        let b = buffer[i];
        if 0x20 <= b && b <= 0x7e {
            out.push(b);
        } else {
            out.push(0x5cu8);
            out.push(0x78u8);
            let hi = b / 16;
            let lo = b % 16;
            out.push(if hi < 10 {
                0x30u8 + hi
            } else {
                0x57u8 + hi
            });
            out.push(if lo < 10 {
                0x30u8 + lo
            } else {
                0x57u8 + lo
            });
        }
        proof {
            assert(buffer@.take(i as int).push(buffer@[i as int]) =~= buffer@.take(i + 1));
            lemma_escape_bytes_push(buffer@.take(i as int), buffer@[i as int]);
            assert(out@ =~= escape_bytes_u8(buffer@.take(i + 1)));
        }
        i += 1;
    }
    proof {
        assert(buffer@.take(buffer@.len() as int) =~= buffer@);
    }
    out
}

/// Renders a captured buffer for a report: the decoded text when it is valid
/// UTF-8, otherwise every byte in escaped form.
pub fn dump_buffer(buffer: &[u8]) -> (r: String)
    ensures
        r@ == dump_spec(buffer@),
{
    match bytes_to_str(buffer) {
        Some(s) => {
            proof {
                encode_utf8_decode_utf8(s@);
            }
            String::from_str(s)
        },
        None => {
            let out = escape_to_ascii(buffer);
            ascii_to_string(&out)
        },
    }
}

/// Renders an exit code in decimal.
pub fn i32_to_string(n: i32) -> (r: String)
    ensures
        r@ == dec_str(n as int),
{
    let mut buf: Vec<u8> = Vec::new();
    if n < 0 {
        buf.push(0x2du8);
    }
    let m: u32 = if n < 0 {
        (-(n as i64)) as u32
    } else {
        n as u32
    };
    push_dec_digits(&mut buf, m);
    proof {
        lemma_dec_digits_ascii(m as nat);
        assert(forall|i: int| 0 <= i < buf@.len() ==> buf@[i] < 0x80);
    }
    let r = ascii_to_string(&buf);
    proof {
        if n < 0 {
            assert(buf@ =~= seq![0x2du8] + dec_digits_u8(m as nat));
            assert(ascii_chars_of(buf@) =~= seq!['-'] + ascii_chars_of(
                dec_digits_u8((0 - n) as nat),
            ));
        } else {
            assert(buf@ =~= dec_digits_u8(m as nat));
        }
    }
    r
}

} // verus!
