//! Fuzzy shortcode lookup.
//!
//! One query is matched against the dictionary text with Sublime-style
//! fuzzy search, and the best match is echoed back with its matched spans
//! tagged. The matching itself is `sublime_fuzzy`'s; what it returns on
//! given strings is named, not restated, and everything around the call is
//! verified against those names.

use vstd::prelude::*;

verus! {

/// Whether `sublime_fuzzy::best_match` finds the whole of `query` in
/// `target`. It depends on the two strings alone.
pub uninterp spec fn fuzzy_match_found(query: Seq<char>, target: Seq<char>) -> bool;

/// What `sublime_fuzzy::format_simple` makes of the best match of `query`
/// in `target`, wrapping each matched span in `before` and `after`. It
/// depends on its four strings alone.
pub uninterp spec fn fuzzy_highlight(
    query: Seq<char>,
    target: Seq<char>,
    before: Seq<char>,
    after: Seq<char>,
) -> Seq<char>;

/// Relies on `sublime_fuzzy::best_match` and `sublime_fuzzy::format_simple`:
/// the first finds the best full match of the query in the target — `None`
/// when there is none, and always when query or target is empty — and the
/// second renders the target with that match's spans tagged. The match value
/// only flows from the one call into the other, so the two are taken
/// together and their results named as functions of the strings.
#[verifier::external_body]
fn best_match_formatted(query: &Vec<char>, target: &str, before: &str, after: &str) -> (r: Option<
    String,
>)
    ensures
        r is Some <==> fuzzy_match_found(query@, target@),
        query@.len() == 0 ==> r is None,
        target@.len() == 0 ==> r is None,
        r matches Some(s) ==> s@ == fuzzy_highlight(query@, target@, before@, after@),
{
    let q: String = query.iter().collect();
    match sublime_fuzzy::best_match(&q, target) {
        Some(m) => Some(sublime_fuzzy::format_simple(&m, target, before, after)),
        None => None,
    }
}

/// Look the typed query up in the dictionary text `emojis`.
///
/// Returns the text with every matched span wrapped in `<matched>` tags, or
/// the empty string when the query does not match; an empty query never
/// matches.
pub fn search(query: &Vec<char>, emojis: &str) -> (r: String)
    ensures
        fuzzy_match_found(query@, emojis@) ==> r@ == fuzzy_highlight(
            query@,
            emojis@,
            "<matched>"@,
            "</matched>"@,
        ),
        !fuzzy_match_found(query@, emojis@) ==> r@ == Seq::<char>::empty(),
        query@.len() == 0 ==> r@ == Seq::<char>::empty(),
{
    match best_match_formatted(query, emojis, "<matched>", "</matched>") {
        Some(s) => s,
        None => String::new(),
    }
}

} // verus!
