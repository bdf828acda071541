//! Building the CAS credential POST body, in
//! `application/x-www-form-urlencoded` form, with an exact
//! specification over the fields' UTF-8 bytes.

use vstd::prelude::*;
use vstd::string::StrSliceExecFns;
use vstd::utf8::encode_utf8;
use crate::chars::{append_str, chars_to_string};
use crate::emit::hex_digit;

verus! {

/// The upper-case hexadecimal digit of a value below sixteen.
pub open spec fn hex_upper(n: int) -> char {
    if n == 10 {
        'A'
    } else if n == 11 {
        'B'
    } else if n == 12 {
        'C'
    } else if n == 13 {
        'D'
    } else if n == 14 {
        'E'
    } else if n == 15 {
        'F'
    } else {
        hex_digit(n)
    }
}

fn hex_upper_char(n: u8) -> (r: char)
    requires
        n < 16,
    ensures
        r == hex_upper(n as int),
{
    match n {
        0 => '0',
        1 => '1',
        2 => '2',
        3 => '3',
        4 => '4',
        5 => '5',
        6 => '6',
        7 => '7',
        8 => '8',
        9 => '9',
        10 => 'A',
        11 => 'B',
        12 => 'C',
        13 => 'D',
        14 => 'E',
        _ => 'F',
    }
}

/// Bytes the form encoding passes through unchanged: ASCII letters,
/// digits, and `*`, `-`, `.`, `_`.
pub open spec fn form_unreserved(b: u8) -> bool {
    (48 <= b <= 57) || (65 <= b <= 90) || (97 <= b <= 122) || b == 42 || b == 45 || b == 46
        || b == 95
}

/// The form encoding of one byte: itself when unreserved, `+` for a
/// space, a percent escape otherwise.
pub open spec fn enc_byte(b: u8) -> Seq<char> {
    if form_unreserved(b) {
        seq![b as char]
    } else if b == 32 {
        seq!['+']
    } else {
        seq!['%', hex_upper((b as int) / 16), hex_upper((b as int) % 16)]
    }
}

/// The form encoding of a byte string.
pub open spec fn form_encode(bs: Seq<u8>) -> Seq<char>
    decreases bs.len(),
{
    if bs.len() == 0 {
        Seq::empty()
    } else {
        form_encode(bs.drop_last()) + enc_byte(bs.last())
    }
}

/// The form encoding of a string's UTF-8 bytes.
pub open spec fn form_encode_str(s: Seq<char>) -> Seq<char> {
    form_encode(encode_utf8(s))
}

proof fn lemma_form_encode_push(bs: Seq<u8>, b: u8)
    ensures
        form_encode(bs.push(b)) == form_encode(bs) + enc_byte(b),
{
    assert(bs.push(b).drop_last() =~= bs);
    assert(bs.push(b).last() == b);
}

fn append_form_encoded(out: &mut Vec<char>, s: &str)
    ensures
        final(out)@ == old(out)@ + form_encode_str(s@),
{
    let bytes = s.as_bytes_vec();
    let mut i: usize = 0;
    while i < bytes.len()
        invariant
            i <= bytes.len(),
            bytes@ == encode_utf8(s@),
            out@ == old(out)@ + form_encode(bytes@.subrange(0, i as int)),
        decreases bytes.len() - i,
    {
        let b = bytes[i];
        if (48 <= b && b <= 57) || (65 <= b && b <= 90) || (97 <= b && b <= 122) || b == 42 || b
            == 45 || b == 46 || b == 95 {
            out.push(b as char);
        } else if b == 32 {
            out.push('+');
        } else {
            out.push('%');
            out.push(hex_upper_char(b / 16));
            out.push(hex_upper_char(b % 16));
            proof {
                assert(out@ =~= old(out)@ + form_encode(bytes@.subrange(0, i as int)) + enc_byte(
                    b,
                ));
            }
        }
        proof {
            assert(bytes@.subrange(0, i as int).push(bytes@[i as int]) =~= bytes@.subrange(
                0,
                i + 1 as int,
            ));
            lemma_form_encode_push(bytes@.subrange(0, i as int), b);
            assert(out@ =~= old(out)@ + form_encode(bytes@.subrange(0, i + 1 as int)));
        }
        i += 1;
    }
    proof {
        assert(bytes@.subrange(0, bytes@.len() as int) =~= bytes@);
    }
}

/// The credential POST body: the one-time token first, then the
/// credentials, then the fixed CAS fields, each value form-encoded.
pub open spec fn login_form_spec(u: Seq<char>, p: Seq<char>, t: Seq<char>) -> Seq<char> {
    "execution="@ + form_encode_str(t) + "&username="@ + form_encode_str(u) + "&password="@
        + form_encode_str(p) + "&_eventId=submit&locale=en"@
}

/// Builds the form-encoded body of the CAS credential POST.
pub fn login_form_body(username: &str, password: &str, token: &str) -> (r: String)
    ensures
        r@ == login_form_spec(username@, password@, token@),
{
    let mut out: Vec<char> = Vec::new();
    append_str(&mut out, "execution=");
    append_form_encoded(&mut out, token);
    append_str(&mut out, "&username=");
    append_form_encoded(&mut out, username);
    append_str(&mut out, "&password=");
    append_form_encoded(&mut out, password);
    append_str(&mut out, "&_eventId=submit&locale=en");
    proof {
        assert(out@ =~= login_form_spec(username@, password@, token@));
    }
    chars_to_string(&out)
}

} // verus!
