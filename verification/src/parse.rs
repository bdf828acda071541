//! Parsing the JSON text that [`crate::emit`] produces for a
//! [`BasicInfo`] record back into the record, and the proof that the
//! two directions are inverse.

use vstd::prelude::*;
use crate::chars::{char_from_code, chars_to_string, str_to_chars};
use crate::emit::{basic_info_json, esc, esc_char, hex_digit, jstr};
use crate::records::{BasicInfo, BasicInfoView};

verus! {

/// The value of a hexadecimal digit, or sixteen for any other character.
pub open spec fn hex_val(c: char) -> int {
    if c == '0' {
        0
    } else if c == '1' {
        1
    } else if c == '2' {
        2
    } else if c == '3' {
        3
    } else if c == '4' {
        4
    } else if c == '5' {
        5
    } else if c == '6' {
        6
    } else if c == '7' {
        7
    } else if c == '8' {
        8
    } else if c == '9' {
        9
    } else if c == 'a' || c == 'A' {
        10
    } else if c == 'b' || c == 'B' {
        11
    } else if c == 'c' || c == 'C' {
        12
    } else if c == 'd' || c == 'D' {
        13
    } else if c == 'e' || c == 'E' {
        14
    } else if c == 'f' || c == 'F' {
        15
    } else {
        16
    }
}

fn hex_val_char(c: char) -> (r: u32)
    ensures
        r as int == hex_val(c),
{
    match c {
        '0' => 0,
        '1' => 1,
        '2' => 2,
        '3' => 3,
        '4' => 4,
        '5' => 5,
        '6' => 6,
        '7' => 7,
        '8' => 8,
        '9' => 9,
        'a' | 'A' => 10,
        'b' | 'B' => 11,
        'c' | 'C' => 12,
        'd' | 'D' => 13,
        'e' | 'E' => 14,
        'f' | 'F' => 15,
        _ => 16,
    }
}

/// What a simple backslash escape decodes to.
pub open spec fn esc_decoded(c: char) -> char {
    if c == '"' {
        '"'
    } else if c == '\\' {
        '\\'
    } else if c == 'n' {
        '\n'
    } else if c == 'r' {
        '\r'
    } else {
        '\t'
    }
}

/// The characters a simple backslash escape may hold.
pub open spec fn is_simple_escape(c: char) -> bool {
    c == '"' || c == '\\' || c == 'n' || c == 'r' || c == 't'
}

/// Parses the body of a JSON string literal (the opening quote already
/// consumed): the decoded content and the text after the closing quote.
pub open spec fn parse_jstr_body(t: Seq<char>) -> Option<(Seq<char>, Seq<char>)>
    decreases t.len(),
{
    if t.len() == 0 {
        None
    } else if t[0] == '"' {
        Some((Seq::empty(), t.drop_first()))
    } else if t[0] == '\\' {
        if t.len() < 2 {
            None
        } else if is_simple_escape(t[1]) {
            match parse_jstr_body(t.skip(2)) {
                None => None,
                Some(p) => Some((seq![esc_decoded(t[1])] + p.0, p.1)),
            }
        } else if t[1] == 'u' {
            if t.len() < 6 {
                None
            } else if t[2] == '0' && t[3] == '0' && hex_val(t[4]) < 16 && hex_val(t[5]) < 16 {
                match parse_jstr_body(t.skip(6)) {
                    None => None,
                    Some(p) => Some(
                        (seq![(((hex_val(t[4]) * 16 + hex_val(t[5])) as u32) as char)] + p.0, p.1),
                    ),
                }
            } else {
                None
            }
        } else {
            None
        }
    } else {
        match parse_jstr_body(t.drop_first()) {
            None => None,
            Some(p) => Some((seq![t[0]] + p.0, p.1)),
        }
    }
}

/// Consumes an exact literal prefix.
pub open spec fn expect(t: Seq<char>, lit: Seq<char>) -> Option<Seq<char>> {
    if t.len() >= lit.len() && t.subrange(0, lit.len() as int) == lit {
        Some(t.skip(lit.len() as int))
    } else {
        None
    }
}

/// Consumes a label that ends with an opening quote, then a JSON string
/// literal body.
pub open spec fn parse_labeled_string(t: Seq<char>, lab: Seq<char>) -> Option<
    (Seq<char>, Seq<char>),
> {
    match expect(t, lab) {
        None => None,
        Some(r) => parse_jstr_body(r),
    }
}

/// Parses the compact JSON text of a [`BasicInfo`] record: the inverse
/// of [`basic_info_json`].
pub open spec fn spec_parse_basic_info_json(t: Seq<char>) -> Option<BasicInfoView> {
    match parse_labeled_string(t, "{\"id\":\""@) {
        None => None,
        Some((id, r1)) => match parse_labeled_string(r1, ",\"sid\":\""@) {
            None => None,
            Some((sid, r2)) => match parse_labeled_string(r2, ",\"name\":\""@) {
                None => None,
                Some((name, r3)) => match parse_labeled_string(r3, ",\"email\":\""@) {
                    None => None,
                    Some((email, r4)) => match parse_labeled_string(r4, ",\"year\":\""@) {
                        None => None,
                        Some((year, r5)) => match parse_labeled_string(r5, ",\"department\":\""@) {
                            None => None,
                            Some((department, r6)) => match parse_labeled_string(
                                r6,
                                ",\"major\":\""@,
                            ) {
                                None => None,
                                Some((major, r7)) => if r7 == "}"@ {
                                    Some(
                                        BasicInfoView {
                                            id,
                                            sid,
                                            name,
                                            email,
                                            year,
                                            department,
                                            major,
                                        },
                                    )
                                } else {
                                    None
                                },
                            },
                        },
                    },
                },
            },
        },
    }
}

proof fn lemma_hex_round_trip(n: int)
    requires
        0 <= n < 16,
    ensures
        hex_val(hex_digit(n)) == n,
{
}

/// The escape of a string has its first character's escape in front.
proof fn lemma_esc_first(s: Seq<char>)
    requires
        s.len() > 0,
    ensures
        esc(s) == esc_char(s.first()) + esc(s.drop_first()),
    decreases s.len(),
{
    if s.len() == 1 {
        assert(s.drop_last() =~= Seq::<char>::empty());
        assert(s.drop_first() =~= Seq::<char>::empty());
        assert(esc(s) =~= esc_char(s.first()) + esc(s.drop_first()));
    } else {
        lemma_esc_first(s.drop_last());
        assert(s.drop_last().first() == s.first());
        assert(s.drop_last().drop_first() =~= s.drop_first().drop_last());
        assert(s.drop_first().last() == s.last());
        assert(esc(s) =~= esc_char(s.first()) + esc(s.drop_first()));
    }
}

/// Parsing inverts escaping: the escaped content, a closing quote and a
/// tail parse back to exactly the content and the tail.
proof fn lemma_parse_esc(s: Seq<char>, rest: Seq<char>)
    ensures
        parse_jstr_body(esc(s) + seq!['"'] + rest) == Some((s, rest)),
    decreases s.len(),
{
    let t = esc(s) + seq!['"'] + rest;
    if s.len() == 0 {
        assert(esc(s) =~= Seq::<char>::empty());
        assert(t[0] == '"');
        assert(t.drop_first() =~= rest);
    } else {
        lemma_esc_first(s);
        let c = s.first();
        let e = esc_char(c);
        let t2 = esc(s.drop_first()) + seq!['"'] + rest;
        assert(t =~= e + t2);
        lemma_parse_esc(s.drop_first(), rest);
        assert(seq![c] + s.drop_first() =~= s);
        if c == '"' || c == '\\' || c == '\n' || c == '\r' || c == '\t' {
            assert(t[0] == '\\');
            assert(is_simple_escape(t[1]));
            assert(esc_decoded(t[1]) == c);
            assert(t.skip(2) =~= t2);
        } else if (c as u32) < 32 {
            assert(t[0] == '\\' && t[1] == 'u' && t[2] == '0' && t[3] == '0');
            assert(t[4] == hex_digit(((c as u32) / 16) as int));
            assert(t[5] == hex_digit(((c as u32) % 16) as int));
            lemma_hex_round_trip(((c as u32) / 16) as int);
            lemma_hex_round_trip(((c as u32) % 16) as int);
            assert(hex_val(t[4]) * 16 + hex_val(t[5]) == (c as u32) as int);
            vstd::utf8::char_u32_cast(c, c as u32);
            assert((((hex_val(t[4]) * 16 + hex_val(t[5])) as u32) as char) == c);
            assert(!is_simple_escape(t[1]));
            assert(t.skip(6) =~= t2);
        } else {
            assert(e =~= seq![c]);
            assert(t[0] == c && c != '"' && c != '\\');
            assert(t.drop_first() =~= t2);
        }
    }
}

proof fn lemma_expect_prefix(lit: Seq<char>, rest: Seq<char>)
    ensures
        expect(lit + rest, lit) == Some(rest),
{
    assert((lit + rest).subrange(0, lit.len() as int) =~= lit);
    assert((lit + rest).skip(lit.len() as int) =~= rest);
}

proof fn lemma_parse_labeled(labq: Seq<char>, lab: Seq<char>, s: Seq<char>, rest: Seq<char>)
    requires
        labq == lab.push('"'),
    ensures
        parse_labeled_string(lab + jstr(s) + rest, labq) == Some((s, rest)),
{
    assert(lab + jstr(s) + rest =~= labq + (esc(s) + seq!['"'] + rest));
    lemma_expect_prefix(labq, esc(s) + seq!['"'] + rest);
    lemma_parse_esc(s, rest);
}

/// Law: round trip — the JSON text of any [`BasicInfo`] record parses
/// back to the record, field for field.
#[verifier::rlimit(100)]
pub proof fn lemma_basic_info_round_trip(b: BasicInfoView)
    ensures
        spec_parse_basic_info_json(basic_info_json(b)) == Some(b),
{
    let r7 = "}"@;
    let r6 = ",\"major\":"@ + jstr(b.major) + r7;
    let r5 = ",\"department\":"@ + jstr(b.department) + r6;
    let r4 = ",\"year\":"@ + jstr(b.year) + r5;
    let r3 = ",\"email\":"@ + jstr(b.email) + r4;
    let r2 = ",\"name\":"@ + jstr(b.name) + r3;
    let r1 = ",\"sid\":"@ + jstr(b.sid) + r2;
    let r0 = "{\"id\":"@ + jstr(b.id) + r1;
    assert(basic_info_json(b) =~= r0);
    assert("{\"id\":\""@ =~= "{\"id\":"@.push('"')) by {
        reveal_strlit("{\"id\":\"");
        reveal_strlit("{\"id\":");
    }
    assert(",\"sid\":\""@ =~= ",\"sid\":"@.push('"')) by {
        reveal_strlit(",\"sid\":\"");
        reveal_strlit(",\"sid\":");
    }
    assert(",\"name\":\""@ =~= ",\"name\":"@.push('"')) by {
        reveal_strlit(",\"name\":\"");
        reveal_strlit(",\"name\":");
    }
    assert(",\"email\":\""@ =~= ",\"email\":"@.push('"')) by {
        reveal_strlit(",\"email\":\"");
        reveal_strlit(",\"email\":");
    }
    assert(",\"year\":\""@ =~= ",\"year\":"@.push('"')) by {
        reveal_strlit(",\"year\":\"");
        reveal_strlit(",\"year\":");
    }
    assert(",\"department\":\""@ =~= ",\"department\":"@.push('"')) by {
        reveal_strlit(",\"department\":\"");
        reveal_strlit(",\"department\":");
    }
    assert(",\"major\":\""@ =~= ",\"major\":"@.push('"')) by {
        reveal_strlit(",\"major\":\"");
        reveal_strlit(",\"major\":");
    }
    lemma_parse_labeled("{\"id\":\""@, "{\"id\":"@, b.id, r1);
    lemma_parse_labeled(",\"sid\":\""@, ",\"sid\":"@, b.sid, r2);
    lemma_parse_labeled(",\"name\":\""@, ",\"name\":"@, b.name, r3);
    lemma_parse_labeled(",\"email\":\""@, ",\"email\":"@, b.email, r4);
    lemma_parse_labeled(",\"year\":\""@, ",\"year\":"@, b.year, r5);
    lemma_parse_labeled(",\"department\":\""@, ",\"department\":"@, b.department, r6);
    lemma_parse_labeled(",\"major\":\""@, ",\"major\":"@, b.major, r7);
}

/// Prepending already-decoded content to the outcome of a string-body
/// parse.
pub open spec fn prepend_parse(acc: Seq<char>, p: Option<(Seq<char>, Seq<char>)>) -> Option<
    (Seq<char>, Seq<char>),
> {
    match p {
        None => None,
        Some(q) => Some((acc + q.0, q.1)),
    }
}

proof fn lemma_prepend_step(acc: Seq<char>, d: char, p: Option<(Seq<char>, Seq<char>)>)
    ensures
        prepend_parse(
            acc,
            match p {
                None => None,
                Some(q) => Some((seq![d] + q.0, q.1)),
            },
        ) == prepend_parse(acc.push(d), p),
{
    match p {
        None => {},
        Some(q) => {
            assert(acc + (seq![d] + q.0) =~= acc.push(d) + q.0);
        },
    }
}

fn parse_jstr_at(t: &Vec<char>, start: usize) -> (r: Option<(Vec<char>, usize)>)
    requires
        start <= t@.len(),
    ensures
        match r {
            Some(p) => p.1 <= t@.len() && parse_jstr_body(t@.skip(start as int)) == Some(
                (p.0@, t@.skip(p.1 as int)),
            ),
            None => parse_jstr_body(t@.skip(start as int)) is None,
        },
{
    let mut pos: usize = start;
    let mut acc: Vec<char> = Vec::new();
    loop
        invariant
            start <= pos <= t@.len(),
            parse_jstr_body(t@.skip(start as int)) == prepend_parse(
                acc@,
                parse_jstr_body(t@.skip(pos as int)),
            ),
        decreases t@.len() - pos,
    {
        let ghost suf = t@.skip(pos as int);
        proof {
            assert(suf.len() == t@.len() - pos);
            assert(forall|j: int| 0 <= j < suf.len() ==> suf[j] == t@[pos + j]);
        }
        if pos >= t.len() {
            return None;
        }
        let c = t[pos];
        if c == '"' {
            proof {
                assert(suf.drop_first() =~= t@.skip(pos + 1 as int));
                assert(acc@ + Seq::<char>::empty() =~= acc@);
            }
            return Some((acc, pos + 1));
        } else if c == '\\' {
            if pos + 1 >= t.len() {
                return None;
            }
            let c2 = t[pos + 1];
            if c2 == '"' || c2 == '\\' || c2 == 'n' || c2 == 'r' || c2 == 't' {
                let dec = if c2 == '"' {
                    '"'
                } else if c2 == '\\' {
                    '\\'
                } else if c2 == 'n' {
                    '\n'
                } else if c2 == 'r' {
                    '\r'
                } else {
                    '\t'
                };
                proof {
                    assert(is_simple_escape(suf[1]) && esc_decoded(suf[1]) == dec);
                    assert(suf.skip(2) =~= t@.skip(pos + 2 as int));
                    lemma_prepend_step(acc@, dec, parse_jstr_body(t@.skip(pos + 2 as int)));
                }
                acc.push(dec);
                pos = pos + 2;
            } else if c2 == 'u' {
                if t.len() - pos < 6 {
                    return None;
                }
                if !(t[pos + 2] == '0' && t[pos + 3] == '0') {
                    return None;
                }
                let h1 = hex_val_char(t[pos + 4]);
                let h2 = hex_val_char(t[pos + 5]);
                if h1 >= 16 || h2 >= 16 {
                    return None;
                }
                let code = h1 * 16 + h2;
                let dec = char_from_code(code);
                proof {
                    assert(suf[2] == '0' && suf[3] == '0');
                    assert(hex_val(suf[4]) < 16 && hex_val(suf[5]) < 16);
                    assert(code as int == hex_val(suf[4]) * 16 + hex_val(suf[5]));
                    assert(dec == (((hex_val(suf[4]) * 16 + hex_val(suf[5])) as u32) as char));
                    assert(suf.skip(6) =~= t@.skip(pos + 6 as int));
                    lemma_prepend_step(acc@, dec, parse_jstr_body(t@.skip(pos + 6 as int)));
                }
                acc.push(dec);
                pos = pos + 6;
            } else {
                return None;
            }
        } else {
            proof {
                assert(suf.drop_first() =~= t@.skip(pos + 1 as int));
                lemma_prepend_step(acc@, c, parse_jstr_body(t@.skip(pos + 1 as int)));
            }
            acc.push(c);
            pos = pos + 1;
        }
    }
}

fn expect_at(t: &Vec<char>, pos: usize, lit: &str) -> (r: Option<usize>)
    requires
        pos <= t@.len(),
    ensures
        match r {
            Some(p2) => pos <= p2 <= t@.len() && expect(t@.skip(pos as int), lit@) == Some(
                t@.skip(p2 as int),
            ),
            None => expect(t@.skip(pos as int), lit@) is None,
        },
{
    let ghost suf = t@.skip(pos as int);
    proof {
        assert(suf.len() == t@.len() - pos);
        assert(forall|j: int| 0 <= j < suf.len() ==> suf[j] == t@[pos + j]);
    }
    let n = lit.unicode_len();
    if t.len() - pos < n {
        return None;
    }
    let mut j: usize = 0;
    while j < n
        invariant
            pos <= t@.len(),
            suf == t@.skip(pos as int),
            suf.len() == t@.len() - pos,
            n == lit@.len(),
            n <= suf.len(),
            pos + n <= t@.len(),
            t@.len() <= usize::MAX,
            j <= n,
            forall|k: int| 0 <= k < j ==> suf[k] == lit@[k],
        decreases n - j,
    {
        if t[pos + j] != lit.get_char(j) {
            proof {
                assert(suf[j as int] == t@[pos + j]);
                assert(suf.subrange(0, n as int)[j as int] == suf[j as int]);
                assert(suf.subrange(0, n as int) != lit@);
            }
            return None;
        }
        proof {
            assert(suf[j as int] == t@[pos + j]);
        }
        j += 1;
    }
    proof {
        assert(suf.subrange(0, n as int) =~= lit@) by {
            assert(forall|k: int| 0 <= k < n ==> #[trigger] suf.subrange(0, n as int)[k] == suf[k]);
        }
        assert(suf.skip(n as int) =~= t@.skip(pos + n as int));
    }
    Some(pos + n)
}

fn parse_field(t: &Vec<char>, pos: usize, lit: &str) -> (r: Option<(String, usize)>)
    requires
        pos <= t@.len(),
    ensures
        match r {
            Some(p) => p.1 <= t@.len() && parse_labeled_string(t@.skip(pos as int), lit@) == Some(
                (p.0@, t@.skip(p.1 as int)),
            ),
            None => parse_labeled_string(t@.skip(pos as int), lit@) is None,
        },
{
    match expect_at(t, pos, lit) {
        None => None,
        Some(p1) => match parse_jstr_at(t, p1) {
            None => None,
            Some((s, p2)) => Some((chars_to_string(&s), p2)),
        },
    }
}

/// Parses the JSON text of a [`BasicInfo`] record, as
/// [`crate::emit::basic_info_to_json`] writes it.
pub fn parse_basic_info_json(text: &str) -> (r: Option<BasicInfo>)
    ensures
        match r {
            Some(b) => spec_parse_basic_info_json(text@) == Some(b@),
            None => spec_parse_basic_info_json(text@) is None,
        },
{
    let t = str_to_chars(text);
    proof {
        assert(t@.skip(0) =~= text@);
    }
    let (id, p1) = match parse_field(&t, 0, "{\"id\":\"") {
        None => {
            return None;
        },
        Some(p) => p,
    };
    let (sid, p2) = match parse_field(&t, p1, ",\"sid\":\"") {
        None => {
            return None;
        },
        Some(p) => p,
    };
    let (name, p3) = match parse_field(&t, p2, ",\"name\":\"") {
        None => {
            return None;
        },
        Some(p) => p,
    };
    let (email, p4) = match parse_field(&t, p3, ",\"email\":\"") {
        None => {
            return None;
        },
        Some(p) => p,
    };
    let (year, p5) = match parse_field(&t, p4, ",\"year\":\"") {
        None => {
            return None;
        },
        Some(p) => p,
    };
    let (department, p6) = match parse_field(&t, p5, ",\"department\":\"") {
        None => {
            return None;
        },
        Some(p) => p,
    };
    let (major, p7) = match parse_field(&t, p6, ",\"major\":\"") {
        None => {
            return None;
        },
        Some(p) => p,
    };
    let ghost r7 = t@.skip(p7 as int);
    match expect_at(&t, p7, "}") {
        None => {
            proof {
                if r7 == "}"@ {
                    reveal_strlit("}");
                    assert(r7.subrange(0, 1) =~= "}"@);
                    assert(expect(r7, "}"@) is Some);
                }
            }
            None
        },
        Some(p8) => {
            proof {
                reveal_strlit("}");
                assert("}"@.len() == 1);
                assert(expect(r7, "}"@) is Some);
                assert(r7.len() >= 1 && r7.subrange(0, 1) == "}"@);
                assert(r7.skip(1) == t@.skip(p8 as int));
                assert(r7.skip(1).len() == r7.len() - 1);
                assert(t@.skip(p8 as int).len() == t@.len() - p8);
            }
            if p8 == t.len() {
                proof {
                    assert(r7.len() == 1);
                    assert(r7[0] == r7.subrange(0, 1)[0]);
                    assert(r7 =~= "}"@);
                }
                Some(BasicInfo { id, sid, name, email, year, department, major })
            } else {
                proof {
                    assert(r7.len() > 1);
                    assert(r7 != "}"@);
                }
                None
            }
        },
    }
}

} // verus!
