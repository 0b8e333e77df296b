//! Format negotiation: canonicalization of plain-text aliases and the
//! priority order used to pick which format to request from an external
//! selection.
//!
//! Policy, stated once: the chooser returns the *raw* identifier as the
//! selection owner offered it (that exact string is requested from the
//! producer, so producers that only recognize the alias form keep working),
//! while the identifier *advertised* for the stored snapshot is the
//! canonicalized form of the format that was captured.

use vstd::prelude::*;
use vstd::string::StrSliceExecFns;

verus! {

/// The canonical UTF-8 plain-text identifier every plain-text alias maps to.
pub open spec fn canonical_plain_text() -> Seq<char> {
    "text/plain;charset=utf-8"@
}

/// Legacy plain-text aliases that are treated as equivalent to the
/// canonical UTF-8 plain-text identifier.
pub open spec fn is_legacy_plain_text_alias(s: Seq<char>) -> bool {
    ||| s == "text/plain"@
    ||| s == "text/plain;charset=utf-8"@
    ||| s == "TEXT"@
    ||| s == "STRING"@
    ||| s == "UTF8_STRING"@
    ||| s == "COMPOUND_TEXT"@
}

/// A generic text format: anything under the "text/" prefix.
pub open spec fn has_text_prefix(s: Seq<char>) -> bool {
    s.len() >= 5 && s.subrange(0, 5) == "text/"@
}

/// Canonicalization of a format identifier: total on all strings.
/// The HTML format is preserved verbatim; every legacy plain-text alias
/// and every other "text/"-prefixed format maps to the canonical UTF-8
/// plain-text identifier; anything else is returned unchanged.
pub open spec fn spec_canonicalize(s: Seq<char>) -> Seq<char> {
    if s == "text/html"@ {
        s
    } else if is_legacy_plain_text_alias(s) || has_text_prefix(s) {
        canonical_plain_text()
    } else {
        s
    }
}

/// String equality over the character views.
pub(crate) fn str_equal(a: &str, b: &str) -> (r: bool)
    ensures
        r == (a@ == b@),
{
    let sa: String = a.to_owned();
    let sb: String = b.to_owned();
    sa == sb
}

fn is_legacy_alias(mime: &str) -> (r: bool)
    ensures
        r == is_legacy_plain_text_alias(mime@),
{
    str_equal(mime, "text/plain") || str_equal(mime, "text/plain;charset=utf-8") || str_equal(
        mime,
        "TEXT",
    ) || str_equal(mime, "STRING") || str_equal(mime, "UTF8_STRING") || str_equal(
        mime,
        "COMPOUND_TEXT",
    )
}

fn is_text_prefixed(mime: &str) -> (r: bool)
    ensures
        r == has_text_prefix(mime@),
{
    let n: usize = mime.unicode_len();
    if n < 5 {
        false
    } else {
        let head = mime.substring_char(0, 5);
        str_equal(head, "text/")
    }
}

/// Rewrites a format identifier to the one the daemon advertises for it.
pub fn canonicalize(mime: &str) -> (r: String)
    ensures
        r@ == spec_canonicalize(mime@),
{
    if str_equal(mime, "text/html") {
        mime.to_owned()
    } else if is_legacy_alias(mime) || is_text_prefixed(mime) {
        let canonical: String = "text/plain;charset=utf-8".to_owned();
        canonical
    } else {
        mime.to_owned()
    }
}

/// Canonicalizes a format identifier; always succeeds, since
/// canonicalization is total.
pub fn parse_mime(mime: String) -> (r: Option<String>)
    ensures
        r matches Some(m) && m@ == spec_canonicalize(mime@),
{
    Some(canonicalize(mime.as_str()))
}

/// The fixed priority order used when choosing which format to request:
/// rich text and markup first, then office documents, the portable
/// document format, plain-text variants (the canonical UTF-8 identifier
/// ahead of the legacy aliases), common image formats, and finally
/// generic archive formats.
pub open spec fn priority_list() -> Seq<Seq<char>> {
    seq![
        "text/html"@,
        "application/rtf"@,
        "application/vnd.oasis.opendocument.text"@,
        "application/vnd.openxmlformats-officedocument.wordprocessingml.document"@,
        "application/pdf"@,
        "text/plain;charset=utf-8"@,
        "text/plain"@,
        "UTF8_STRING"@,
        "TEXT"@,
        "STRING"@,
        "COMPOUND_TEXT"@,
        "image/png"@,
        "image/jpeg"@,
        "image/bmp"@,
        "application/zip"@,
        "application/x-tar"@,
        "application/gzip"@,
    ]
}

/// The first entry of `prio` that occurs in `avail`, or nothing if none
/// does.
pub open spec fn spec_first_present(prio: Seq<Seq<char>>, avail: Seq<Seq<char>>) -> Option<
    Seq<char>,
>
    decreases prio.len(),
{
    if prio.len() == 0 {
        None
    } else if avail.contains(prio[0]) {
        Some(prio[0])
    } else {
        spec_first_present(prio.drop_first(), avail)
    }
}

/// What the negotiator requests from a set of offered formats.
pub open spec fn spec_chosen_format(avail: Seq<Seq<char>>) -> Option<Seq<char>> {
    spec_first_present(priority_list(), avail)
}

pub(crate) fn vec_contains(v: &Vec<String>, f: &str) -> (r: bool)
    ensures
        r == v.deep_view().contains(f@),
{
    let n: usize = v.len();
    let mut i: usize = 0;
    while i < n
        invariant
            n == v@.len(),
            i <= n,
            forall|k: int| 0 <= k < i ==> v.deep_view()[k] != f@,
        decreases n - i,
    {
        if str_equal(v[i].as_str(), f) {
            proof {
                assert(v.deep_view()[i as int] == f@);
            }
            return true;
        }
        i += 1;
    }
    proof {
        assert(forall|k: int| 0 <= k < v.deep_view().len() ==> v.deep_view()[k] != f@);
    }
    false
}

fn priority_formats() -> (v: Vec<String>)
    ensures
        v.deep_view() == priority_list(),
{
    let mut v: Vec<String> = Vec::new();
    v.push("text/html".to_owned());
    v.push("application/rtf".to_owned());
    v.push("application/vnd.oasis.opendocument.text".to_owned());
    v.push("application/vnd.openxmlformats-officedocument.wordprocessingml.document".to_owned());
    v.push("application/pdf".to_owned());
    v.push("text/plain;charset=utf-8".to_owned());
    v.push("text/plain".to_owned());
    v.push("UTF8_STRING".to_owned());
    v.push("TEXT".to_owned());
    v.push("STRING".to_owned());
    v.push("COMPOUND_TEXT".to_owned());
    v.push("image/png".to_owned());
    v.push("image/jpeg".to_owned());
    v.push("image/bmp".to_owned());
    v.push("application/zip".to_owned());
    v.push("application/x-tar".to_owned());
    v.push("application/gzip".to_owned());
    proof {
        assert(v.deep_view() =~= priority_list());
    }
    v
}

/// Picks the format to request from an external selection's offered set:
/// the highest-priority entry present, or nothing when no entry matches
/// (no capture is attempted that cycle). The raw offered identifier is
/// returned, not its canonical form.
pub fn choose_request_format(available: &Vec<String>) -> (r: Option<String>)
    ensures
        match r {
            Some(f) => spec_chosen_format(available.deep_view()) == Some(f@),
            None => spec_chosen_format(available.deep_view()) is None,
        },
{
    let prio = priority_formats();
    let n: usize = prio.len();
    let mut i: usize = 0;
    proof {
        assert(priority_list().skip(0) =~= priority_list());
    }
    while i < n
        invariant
            n == prio@.len(),
            i <= n,
            prio.deep_view() == priority_list(),
            spec_first_present(priority_list().skip(i as int), available.deep_view())
                == spec_chosen_format(available.deep_view()),
        decreases n - i,
    {
        proof {
            assert(priority_list().skip(i as int)[0] == priority_list()[i as int]);
            assert(prio.deep_view()[i as int] == prio@[i as int]@);
        }
        if vec_contains(available, prio[i].as_str()) {
            let f = prio[i].clone();
            return Some(f);
        }
        proof {
            assert(priority_list().skip(i as int).drop_first() =~= priority_list().skip(
                i as int + 1,
            ));
        }
        i += 1;
    }
    proof {
        assert(priority_list().skip(n as int).len() == 0);
    }
    None
}

/// The formats advertised when re-asserting ownership: the identity over
/// the stored format history (everything previously seen is offered
/// again).
pub fn formats_to_advertise(history: &Vec<String>) -> (r: Vec<String>)
    ensures
        r.deep_view() == history.deep_view(),
{
    let n: usize = history.len();
    let mut r: Vec<String> = Vec::new();
    let mut i: usize = 0;
    while i < n
        invariant
            n == history@.len(),
            i <= n,
            r@.len() == i,
            forall|k: int| 0 <= k < i ==> r.deep_view()[k] == history.deep_view()[k],
        decreases n - i,
    {
        r.push(history[i].clone());
        i += 1;
    }
    proof {
        assert(r.deep_view() =~= history.deep_view());
    }
    r
}

/// What the negotiator's answer means: a chosen format is one the
/// external selection actually offered, every strictly higher-priority
/// entry is absent from the offered set, and no format is chosen exactly
/// when no priority entry is offered at all.
pub proof fn lemma_first_present_is_best(prio: Seq<Seq<char>>, avail: Seq<Seq<char>>)
    ensures
        match spec_first_present(prio, avail) {
            Option::Some(f) => exists|i: int|
                {
                    &&& 0 <= i < prio.len()
                    &&& #[trigger] prio[i] == f
                    &&& avail.contains(f)
                    &&& forall|j: int| 0 <= j < i ==> !avail.contains(#[trigger] prio[j])
                },
            Option::None => forall|i: int| 0 <= i < prio.len() ==> !avail.contains(#[trigger] prio[i]),
        },
    decreases prio.len(),
{
    if prio.len() == 0 {
    } else if avail.contains(prio[0]) {
        assert(prio[0] == spec_first_present(prio, avail)->Some_0);
    } else {
        lemma_first_present_is_best(prio.drop_first(), avail);
        let rest = prio.drop_first();
        assert(forall|j: int| 0 <= j < rest.len() ==> rest[j] == prio[j + 1]);
        match spec_first_present(rest, avail) {
            Option::Some(f) => {
                let i = choose|i: int|
                    {
                        &&& 0 <= i < rest.len()
                        &&& #[trigger] rest[i] == f
                        &&& avail.contains(f)
                        &&& forall|j: int| 0 <= j < i ==> !avail.contains(#[trigger] rest[j])
                    };
                assert(prio[i + 1] == f);
                assert(forall|j: int| 0 <= j < i + 1 ==> !avail.contains(#[trigger] prio[j]))
                    by {
                    assert(forall|j: int|
                        1 <= j < i + 1 ==> #[trigger] prio[j] == rest[j - 1] && !avail.contains(
                            rest[j - 1],
                        ));
                };
            },
            Option::None => {
                assert(forall|i: int|
                    1 <= i < prio.len() ==> #[trigger] prio[i] == rest[i - 1] && !avail.contains(
                        rest[i - 1],
                    ));
            },
        }
    }
}

/// Canonicalization is idempotent, preserves the HTML format, and leaves
/// every unrecognized format unchanged.
pub proof fn lemma_canonicalize_idempotent(s: Seq<char>)
    ensures
        spec_canonicalize(spec_canonicalize(s)) == spec_canonicalize(s),
        spec_canonicalize("text/html"@) == "text/html"@,
        s != "text/html"@ && !is_legacy_plain_text_alias(s) && !has_text_prefix(s)
            ==> spec_canonicalize(s) == s,
{
    reveal_strlit("text/html");
    reveal_strlit("text/plain;charset=utf-8");
    assert("text/html"@.len() == 9);
    assert(canonical_plain_text().len() == 24);
    assert(canonical_plain_text() != "text/html"@);
    assert(is_legacy_plain_text_alias(canonical_plain_text()));
}

} // verus!
