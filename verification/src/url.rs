//! Query-string building: form encoding of a value's UTF-8 bytes and the
//! `key=value` pairs joined by `&`, and the matching percent decoding.
use vstd::prelude::*;
use vstd::utf8::{encode_utf8, is_ascii_chars};
use vstd::string::StringSliceAdditionalSpecFns;
use crate::text::push_char;

verus! {

/// A byte that form encoding keeps as it is: ASCII letters, digits and
/// `-`, `_`, `.`, `~`.
pub open spec fn is_unreserved(b: u8) -> bool {
    ||| 0x41 <= b <= 0x5A
    ||| 0x61 <= b <= 0x7A
    ||| 0x30 <= b <= 0x39
    ||| b == 0x2D
    ||| b == 0x5F
    ||| b == 0x2E
    ||| b == 0x7E
}

/// The upper-case hexadecimal digit of a value below sixteen.
pub open spec fn hex_upper(d: u8) -> char {
    if d < 10 {
        (0x30 + d) as char
    } else {
        (0x41 + d - 10) as char
    }
}

/// The characters that stand for one byte in a form-encoded value.
pub open spec fn encode_byte(b: u8) -> Seq<char> {
    if is_unreserved(b) {
        seq![b as char]
    } else if b == 0x20 {
        seq!['+']
    } else {
        seq!['%', hex_upper(b / 16), hex_upper(b % 16)]
    }
}

/// Form encoding of a byte string, byte by byte.
pub open spec fn form_encoded(bs: Seq<u8>) -> Seq<char>
    decreases bs.len(),
{
    if bs.len() == 0 {
        Seq::empty()
    } else {
        form_encoded(bs.drop_last()) + encode_byte(bs.last())
    }
}

/// One `key=value` pair of a query string, the value form-encoded.
pub open spec fn param(key: Seq<char>, value: Seq<char>) -> Seq<char> {
    key + seq!['='] + form_encoded(encode_utf8(value))
}

/// A query string with one more pair appended.
pub open spec fn with_param(q: Seq<char>, key: Seq<char>, value: Seq<char>) -> Seq<char> {
    if q.len() == 0 {
        param(key, value)
    } else {
        q + seq!['&'] + param(key, value)
    }
}

fn hex_digit(d: u8) -> (c: char)
    requires
        d < 16,
    ensures
        c == hex_upper(d),
{
    if d < 10 {
        (0x30 + d) as char
    } else {
        (0x41 + d - 10) as char
    }
}

/// Form encoding of a value's UTF-8 bytes: unreserved bytes stay, a space
/// becomes `+`, every other byte becomes `%` and two upper-case hex digits.
pub fn form_encode(value: &str) -> (r: String)
    ensures
        r@ == form_encoded(value.spec_bytes()),
{
    let bytes = value.as_bytes();
    let mut out = String::new();
    let mut i: usize = 0;
    while i < bytes.len()
        invariant
            bytes@ == value.spec_bytes(),
            i <= bytes@.len(),
            out@ == form_encoded(bytes@.subrange(0, i as int)),
        decreases bytes@.len() - i,
    {
        let b = bytes[i];
        let ghost before = out@;
        if (0x41 <= b && b <= 0x5A) || (0x61 <= b && b <= 0x7A) || (0x30 <= b && b <= 0x39) || b
            == 0x2D || b == 0x5F || b == 0x2E || b == 0x7E {
            push_char(&mut out, b as char);
        } else if b == 0x20 {
            push_char(&mut out, '+');
        } else {
            push_char(&mut out, '%');
            push_char(&mut out, hex_digit(b / 16));
            push_char(&mut out, hex_digit(b % 16));
        }
        proof {
            assert(bytes@.subrange(0, i + 1).drop_last() =~= bytes@.subrange(0, i as int));
            assert(out@ =~= before + encode_byte(b));
        }
        i = i + 1;
    }
    assert(bytes@.subrange(0, bytes@.len() as int) =~= bytes@);
    out
}

/// Appends `key=value` to a query string, with `&` before it when the
/// query already holds a pair.
pub fn push_param(out: &mut String, key: &str, value: &str)
    ensures
        final(out)@ == with_param(old(out)@, key@, value@),
{
    if out.as_str().unicode_len() > 0 {
        push_char(out, '&');
    }
    out.append(key);
    push_char(out, '=');
    let encoded = form_encode(value);
    out.append(encoded.as_str());
    assert(final(out)@ =~= with_param(old(out)@, key@, value@));
}


/// Form encoding distributes over concatenation.
pub proof fn lemma_form_encoded_concat(x: Seq<u8>, y: Seq<u8>)
    ensures
        form_encoded(x + y) == form_encoded(x) + form_encoded(y),
    decreases y.len(),
{
    if y.len() == 0 {
        assert(x + y =~= x);
        assert(form_encoded(x) + form_encoded(y) =~= form_encoded(x));
    } else {
        lemma_form_encoded_concat(x, y.drop_last());
        assert((x + y).drop_last() =~= x + y.drop_last());
        assert((x + y).last() == y.last());
        assert(form_encoded(x) + form_encoded(y.drop_last()) + encode_byte(y.last()) =~= form_encoded(
            x,
        ) + (form_encoded(y.drop_last()) + encode_byte(y.last())));
    }
}

/// Every character of a form-encoded value is ASCII.
pub proof fn lemma_form_encoded_ascii(bs: Seq<u8>)
    ensures
        is_ascii_chars(form_encoded(bs)),
    decreases bs.len(),
{
    if bs.len() > 0 {
        lemma_form_encoded_ascii(bs.drop_last());
        let front = form_encoded(bs.drop_last());
        let e = encode_byte(bs.last());
        let b = bs.last();
        if !is_unreserved(b) && b != 0x20 {
            assert(b / 16 < 16 && b % 16 < 16);
        }
        assert(is_ascii_chars(e));
        assert forall|i: int| 0 <= i < (front + e).len() implies '\0' <= #[trigger] (front + e)[i]
            <= '\u{7f}' by {
            if i < front.len() {
                assert((front + e)[i] == front[i]);
            } else {
                assert((front + e)[i] == e[i - front.len()]);
            }
        }
    }
}

} // verus!
