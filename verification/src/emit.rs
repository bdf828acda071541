//! Serialization of the records to compact JSON text, with an exact
//! character-level specification.

use vstd::prelude::*;
use crate::chars::{append_str, chars_to_string};
use crate::records::{BasicInfo, BasicInfoView, SemesterGPA, SemesterGPAView};

verus! {

/// The lower-case hexadecimal digit of a value below sixteen.
pub open spec fn hex_digit(n: int) -> char {
    if n == 0 {
        '0'
    } else if n == 1 {
        '1'
    } else if n == 2 {
        '2'
    } else if n == 3 {
        '3'
    } else if n == 4 {
        '4'
    } else if n == 5 {
        '5'
    } else if n == 6 {
        '6'
    } else if n == 7 {
        '7'
    } else if n == 8 {
        '8'
    } else if n == 9 {
        '9'
    } else if n == 10 {
        'a'
    } else if n == 11 {
        'b'
    } else if n == 12 {
        'c'
    } else if n == 13 {
        'd'
    } else if n == 14 {
        'e'
    } else {
        'f'
    }
}

fn hex_digit_char(n: u32) -> (r: char)
    requires
        n < 16,
    ensures
        r == hex_digit(n as int),
{
    match n {
        0 => '0',
        1 => '1',
        2 => '2',
        3 => '3',
        4 => '4',
        5 => '5',
        6 => '6',
        7 => '7',
        8 => '8',
        9 => '9',
        10 => 'a',
        11 => 'b',
        12 => 'c',
        13 => 'd',
        14 => 'e',
        _ => 'f',
    }
}

/// The JSON escape of one character inside a string literal.
pub open spec fn esc_char(c: char) -> Seq<char> {
    if c == '"' {
        seq!['\\', '"']
    } else if c == '\\' {
        seq!['\\', '\\']
    } else if c == '\n' {
        seq!['\\', 'n']
    } else if c == '\r' {
        seq!['\\', 'r']
    } else if c == '\t' {
        seq!['\\', 't']
    } else if (c as u32) < 32 {
        seq!['\\', 'u', '0', '0', hex_digit(((c as u32) / 16) as int), hex_digit(((c as u32) % 16) as int)]
    } else {
        seq![c]
    }
}

/// The JSON escape of a whole string.
pub open spec fn esc(s: Seq<char>) -> Seq<char>
    decreases s.len(),
{
    if s.len() == 0 {
        Seq::empty()
    } else {
        esc(s.drop_last()) + esc_char(s.last())
    }
}

/// A JSON string literal: quotes around the escaped characters.
pub open spec fn jstr(s: Seq<char>) -> Seq<char> {
    seq!['"'] + esc(s) + seq!['"']
}

fn push_esc_char(out: &mut Vec<char>, c: char)
    ensures
        final(out)@ == old(out)@ + esc_char(c),
{
    if c == '"' {
        out.push('\\');
        out.push('"');
        proof {
            assert(out@ =~= old(out)@ + esc_char(c));
        }
    } else if c == '\\' {
        out.push('\\');
        out.push('\\');
        proof {
            assert(out@ =~= old(out)@ + esc_char(c));
        }
    } else if c == '\n' {
        out.push('\\');
        out.push('n');
        proof {
            assert(out@ =~= old(out)@ + esc_char(c));
        }
    } else if c == '\r' {
        out.push('\\');
        out.push('r');
        proof {
            assert(out@ =~= old(out)@ + esc_char(c));
        }
    } else if c == '\t' {
        out.push('\\');
        out.push('t');
        proof {
            assert(out@ =~= old(out)@ + esc_char(c));
        }
    } else if (c as u32) < 32 {
        let code = c as u32;
        out.push('\\');
        out.push('u');
        out.push('0');
        out.push('0');
        out.push(hex_digit_char(code / 16));
        out.push(hex_digit_char(code % 16));
        proof {
            assert(out@ =~= old(out)@ + esc_char(c));
        }
    } else {
        out.push(c);
        proof {
            assert(out@ =~= old(out)@ + esc_char(c));
        }
    }
}

/// Appending one character to a string appends its escape to the escape
/// of the string.
pub proof fn lemma_esc_push(s: Seq<char>, c: char)
    ensures
        esc(s.push(c)) == esc(s) + esc_char(c),
{
    assert(s.push(c).drop_last() =~= s);
    assert(s.push(c).last() == c);
}

fn append_escaped(out: &mut Vec<char>, s: &str)
    ensures
        final(out)@ == old(out)@ + esc(s@),
{
    let n = s.unicode_len();
    let mut i: usize = 0;
    while i < n
        invariant
            n == s@.len(),
            i <= n,
            out@ == old(out)@ + esc(s@.subrange(0, i as int)),
        decreases n - i,
    {
        push_esc_char(out, s.get_char(i));
        proof {
            assert(s@.subrange(0, i as int).push(s@[i as int]) =~= s@.subrange(0, i + 1 as int));
            lemma_esc_push(s@.subrange(0, i as int), s@[i as int]);
        }
        i += 1;
    }
    proof {
        assert(s@.subrange(0, n as int) =~= s@);
    }
}

fn append_jstr(out: &mut Vec<char>, s: &str)
    ensures
        final(out)@ == old(out)@ + jstr(s@),
{
    out.push('"');
    append_escaped(out, s);
    out.push('"');
    proof {
        assert(out@ =~= old(out)@ + jstr(s@));
    }
}

/// The JSON text of a [`BasicInfo`] record: a compact object with the
/// seven fields in a fixed order.
pub open spec fn basic_info_json(b: BasicInfoView) -> Seq<char> {
    "{\"id\":"@ + jstr(b.id) + ",\"sid\":"@ + jstr(b.sid) + ",\"name\":"@ + jstr(b.name)
        + ",\"email\":"@ + jstr(b.email) + ",\"year\":"@ + jstr(b.year) + ",\"department\":"@
        + jstr(b.department) + ",\"major\":"@ + jstr(b.major) + "}"@
}

/// Serializes a [`BasicInfo`] record to its JSON text.
pub fn basic_info_to_json(b: &BasicInfo) -> (r: String)
    ensures
        r@ == basic_info_json(b@),
{
    let mut out: Vec<char> = Vec::new();
    append_str(&mut out, "{\"id\":");
    append_jstr(&mut out, b.id.as_str());
    append_str(&mut out, ",\"sid\":");
    append_jstr(&mut out, b.sid.as_str());
    append_str(&mut out, ",\"name\":");
    append_jstr(&mut out, b.name.as_str());
    append_str(&mut out, ",\"email\":");
    append_jstr(&mut out, b.email.as_str());
    append_str(&mut out, ",\"year\":");
    append_jstr(&mut out, b.year.as_str());
    append_str(&mut out, ",\"department\":");
    append_jstr(&mut out, b.department.as_str());
    append_str(&mut out, ",\"major\":");
    append_jstr(&mut out, b.major.as_str());
    append_str(&mut out, "}");
    proof {
        assert(out@ =~= basic_info_json(b@));
    }
    chars_to_string(&out)
}

/// The JSON text of one [`SemesterGPA`] record. The `gpa` field is a
/// number token and stands unquoted.
pub open spec fn gpa_json(g: SemesterGPAView) -> Seq<char> {
    "{\"semester_full_name\":"@ + jstr(g.semester_full_name) + ",\"semester_year\":"@
        + jstr(g.semester_year) + ",\"semester_number\":"@ + jstr(g.semester_number) + ",\"gpa\":"@
        + g.gpa + "}"@
}

/// The comma-separated JSON texts of a sequence of records.
pub open spec fn gpa_items_json(gs: Seq<SemesterGPAView>) -> Seq<char>
    decreases gs.len(),
{
    if gs.len() == 0 {
        Seq::empty()
    } else if gs.len() == 1 {
        gpa_json(gs[0])
    } else {
        gpa_items_json(gs.drop_last()) + seq![','] + gpa_json(gs.last())
    }
}

/// The JSON text of a sequence of [`SemesterGPA`] records: a compact array.
pub open spec fn gpa_array_json(gs: Seq<SemesterGPAView>) -> Seq<char> {
    seq!['['] + gpa_items_json(gs) + seq![']']
}

fn append_gpa_json(out: &mut Vec<char>, g: &SemesterGPA)
    ensures
        final(out)@ == old(out)@ + gpa_json(g@),
{
    append_str(out, "{\"semester_full_name\":");
    append_jstr(out, g.semester_full_name.as_str());
    append_str(out, ",\"semester_year\":");
    append_jstr(out, g.semester_year.as_str());
    append_str(out, ",\"semester_number\":");
    append_jstr(out, g.semester_number.as_str());
    append_str(out, ",\"gpa\":");
    append_str(out, g.gpa.as_str());
    append_str(out, "}");
    proof {
        assert(out@ =~= old(out)@ + gpa_json(g@));
    }
}

/// Serializes a sequence of [`SemesterGPA`] records to a JSON array,
/// keeping their order.
pub fn semester_gpas_to_json(v: &Vec<SemesterGPA>) -> (r: String)
    ensures
        r@ == gpa_array_json(v.deep_view()),
{
    let ghost dv = v.deep_view();
    proof {
        assert(dv.len() == v@.len());
    }
    let mut out: Vec<char> = Vec::new();
    out.push('[');
    let mut i: usize = 0;
    while i < v.len()
        invariant
            i <= v.len(),
            dv == v.deep_view(),
            dv.len() == v@.len(),
            out@ == seq!['['] + gpa_items_json(dv.subrange(0, i as int)),
        decreases v.len() - i,
    {
        if i > 0 {
            out.push(',');
        }
        append_gpa_json(&mut out, &v[i]);
        proof {
            assert(dv[i as int] == v@[i as int].deep_view());
            let cur = dv.subrange(0, i + 1 as int);
            assert(cur.drop_last() =~= dv.subrange(0, i as int));
            assert(cur.last() == dv[i as int]);
            assert(out@ =~= seq!['['] + gpa_items_json(cur));
        }
        i += 1;
    }
    out.push(']');
    proof {
        assert(dv.subrange(0, v@.len() as int) =~= dv);
        assert(out@ =~= gpa_array_json(dv));
    }
    chars_to_string(&out)
}

} // verus!
