//! Extraction of the CAS `execution` token from the login page.
//!
//! The HTML is parsed by scraper behind a trusted boundary that hands
//! back, for every matched element, two attributes as plain values; the
//! scan for the token is verified.

use vstd::prelude::*;
use crate::chars::str_eq;
use crate::errors::AuthError;

verus! {

/// For each element of `html` matched by `selector`, in document order,
/// the values of attributes `a` and `b`; `None` when the selector is
/// invalid.
pub uninterp spec fn selected_attr_pairs(
    html: Seq<char>,
    selector: Seq<char>,
    a: Seq<char>,
    b: Seq<char>,
) -> Option<Seq<(Option<Seq<char>>, Option<Seq<char>>)>>;

/// Relies on scraper (`Html::parse_fragment`, `Selector::parse`,
/// `Html::select`, `Element::attr`): the two given attributes of every
/// element matched by the selector, in document order. `Selector::parse`
/// fails only on an invalid selector, and then the result is `None`;
/// parsing the HTML itself never fails.
#[verifier::external_body]
fn select_attr_pairs(html: &str, selector: &str, a: &str, b: &str) -> (r: Option<
    Vec<(Option<String>, Option<String>)>,
>)
    ensures
        r matches Some(ps) ==> selected_attr_pairs(html@, selector@, a@, b@) == Some(
            ps.deep_view(),
        ),
        r is None ==> selected_attr_pairs(html@, selector@, a@, b@) is None,
{
    let sel = scraper::Selector::parse(selector).ok()?;
    let doc = scraper::Html::parse_fragment(html);
    Some(
        doc.select(&sel).map(
            |el|
                (
                    el.value().attr(a).map(|s| s.to_owned()),
                    el.value().attr(b).map(|s| s.to_owned()),
                ),
        ).collect(),
    )
}

/// The name of the hidden form field that carries the one-time token.
pub open spec fn execution_name() -> Seq<char> {
    "execution"@
}

/// The token carried by a list of `(name, value)` input attributes: the
/// value of the last input named `execution`, the empty string when that
/// input has no value or no input is so named.
pub open spec fn token_of(pairs: Seq<(Option<Seq<char>>, Option<Seq<char>>)>) -> Seq<char>
    decreases pairs.len(),
{
    if pairs.len() == 0 {
        Seq::empty()
    } else if pairs.last().0 == Some(execution_name()) {
        match pairs.last().1 {
            Some(v) => v,
            None => Seq::empty(),
        }
    } else {
        token_of(pairs.drop_last())
    }
}

/// The verified scan behind [`extract_execution_token`]: walks the
/// extracted input attributes and keeps the token of the last input
/// named `execution`.
pub fn token_from_inputs(pairs: &Vec<(Option<String>, Option<String>)>) -> (r: String)
    ensures
        r@ == token_of(pairs.deep_view()),
{
    let ghost dv = pairs.deep_view();
    let mut cur = String::new();
    let mut i: usize = 0;
    while i < pairs.len()
        invariant
            i <= pairs.len(),
            dv == pairs.deep_view(),
            dv.len() == pairs@.len(),
            cur@ == token_of(dv.subrange(0, i as int)),
        decreases pairs.len() - i,
    {
        let p = &pairs[i];
        let is_exec = match &p.0 {
            Some(n) => str_eq(n.as_str(), "execution"),
            None => false,
        };
        if is_exec {
            cur = match &p.1 {
                Some(v) => v.clone(),
                None => String::new(),
            };
        }
        proof {
            let cur_pairs = dv.subrange(0, i + 1 as int);
            assert(cur_pairs.drop_last() =~= dv.subrange(0, i as int));
            assert(cur_pairs.last() == dv[i as int]);
            assert(dv[i as int] == pairs@[i as int].deep_view());
        }
        i += 1;
    }
    proof {
        assert(dv.subrange(0, pairs@.len() as int) =~= dv);
    }
    cur
}

/// The token extracted from a CAS login page, as a function of the page
/// text: the scan of its `input` elements' `name` and `value`
/// attributes, or a parse failure.
pub open spec fn spec_extract_token(html: Seq<char>) -> Result<Seq<char>, AuthError> {
    match selected_attr_pairs(html, "input"@, "name"@, "value"@) {
        None => Err(AuthError::ParseFailed),
        Some(ps) => Ok(token_of(ps)),
    }
}

/// Extracts the one-time `execution` token from the CAS login page.
pub fn extract_execution_token(html: &str) -> (r: Result<String, AuthError>)
    ensures
        match r {
            Ok(t) => spec_extract_token(html@) == Ok::<Seq<char>, AuthError>(t@),
            Err(e) => spec_extract_token(html@) == Err::<Seq<char>, AuthError>(e),
        },
{
    match select_attr_pairs(html, "input", "name", "value") {
        None => Err(AuthError::ParseFailed),
        Some(ps) => Ok(token_from_inputs(&ps)),
    }
}

/// Law: when some input is named `execution` and carries a value, the
/// extractor yields exactly the value of the last such input.
pub proof fn lemma_token_present(
    pairs: Seq<(Option<Seq<char>>, Option<Seq<char>>)>,
    i: int,
    v: Seq<char>,
)
    requires
        0 <= i < pairs.len(),
        pairs[i].0 == Some(execution_name()),
        pairs[i].1 == Some(v),
        forall|j: int| i < j < pairs.len() ==> (#[trigger] pairs[j].0) != Some(execution_name()),
    ensures
        token_of(pairs) == v,
    decreases pairs.len(),
{
    if i == pairs.len() - 1 {
        assert(pairs.last() == pairs[i]);
    } else {
        assert(pairs.last() == pairs[pairs.len() - 1]);
        lemma_token_present(pairs.drop_last(), i, v);
    }
}

/// Law: when no input is named `execution`, the extractor yields the
/// empty string, not a failure.
pub proof fn lemma_token_absent(pairs: Seq<(Option<Seq<char>>, Option<Seq<char>>)>)
    requires
        forall|j: int| 0 <= j < pairs.len() ==> (#[trigger] pairs[j].0) != Some(execution_name()),
    ensures
        token_of(pairs) == Seq::<char>::empty(),
    decreases pairs.len(),
{
    if pairs.len() > 0 {
        assert(pairs.last() == pairs[pairs.len() - 1]);
        lemma_token_absent(pairs.drop_last());
    }
}

} // verus!
