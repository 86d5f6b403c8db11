//! The catalog of languages, and how a name is resolved against it.
//!
//! A catalog is the list of languages in the order in which the service gave
//! it. An entry answers to its name and to each of its aliases. Where several
//! entries answer to one identifier, the first of them wins.

use vstd::prelude::*;

use crate::error::{Error, ErrorView};
use crate::lang::{Language, LanguageView};

verus! {

/// Whether `entry` is found under `id`: by its name or by one of its aliases.
pub open spec fn answers(entry: LanguageView, id: Seq<char>) -> bool {
    entry.language == id || entry.aliases.contains(id)
}

/// The index of the first entry from `start` on that answers to `id`, or the
/// length of the catalog where none does.
pub open spec fn first_answering_from(catalog: Seq<LanguageView>, id: Seq<char>, start: int) -> int
    decreases catalog.len() - start,
{
    if start < 0 || start >= catalog.len() {
        catalog.len() as int
    } else if answers(catalog[start], id) {
        start
    } else {
        first_answering_from(catalog, id, start + 1)
    }
}

/// The index of the first entry that answers to `id`, or the length of the
/// catalog where none does.
pub open spec fn first_answering(catalog: Seq<LanguageView>, id: Seq<char>) -> int {
    first_answering_from(catalog, id, 0)
}

/// The version that `id` resolves to: that of the first entry that answers to
/// it, if there is one.
pub open spec fn resolved(catalog: Seq<LanguageView>, id: Seq<char>) -> Option<Seq<char>> {
    let first = first_answering(catalog, id);
    if first < catalog.len() {
        Some(catalog[first].version)
    } else {
        None
    }
}

/// What the search from `start` finds: an entry that answers, with none that
/// answers between `start` and it, or the end of the catalog.
pub proof fn lemma_first_answering_from(catalog: Seq<LanguageView>, id: Seq<char>, start: int)
    requires
        0 <= start <= catalog.len(),
    ensures
        start <= first_answering_from(catalog, id, start) <= catalog.len(),
        first_answering_from(catalog, id, start) < catalog.len() ==> answers(
            catalog[first_answering_from(catalog, id, start)],
            id,
        ),
        forall|j: int|
            start <= j < first_answering_from(catalog, id, start) ==> !answers(
                #[trigger] catalog[j],
                id,
            ),
    decreases catalog.len() - start,
{
    if start < catalog.len() && !answers(catalog[start], id) {
        lemma_first_answering_from(catalog, id, start + 1);
    }
}

/// Whether `text` is one of `aliases`.
fn is_alias(aliases: &Vec<String>, text: &String) -> (found: bool)
    ensures
        found == aliases.deep_view().contains(text@),
{
    let mut at: usize = 0;
    while at < aliases.len()
        invariant
            at <= aliases.len(),
            forall|j: int| 0 <= j < at ==> aliases.deep_view()[j] != text@,
        decreases aliases.len() - at,
    {
        if aliases[at] == *text {
            assert(aliases.deep_view()[at as int] == text@);
            return true;
        }
        at += 1;
    }
    false
}

/// Resolves `lang`, a name or an alias, to the version that `catalog` lists
/// for it.
///
/// The catalog is read in its order and the first entry that answers to
/// `lang` gives the version. Where no entry answers, the result is
/// [`Error::UnknownLang`].
pub fn resolve(lang: &str, catalog: &Vec<Language>) -> (found: Result<String, Error>)
    ensures
        match resolved(catalog.deep_view(), lang@) {
            Some(version) => found matches Ok(text) && text@ == version,
            None => found matches Err(error) && error@ == ErrorView::UnknownLang,
        },
        found is Err <==> forall|i: int|
            0 <= i < catalog.len() ==> !answers(#[trigger] catalog.deep_view()[i], lang@),
{
    let wanted = lang.to_owned();
    let ghost entries = catalog.deep_view();
    let mut at: usize = 0;
    while at < catalog.len()
        invariant
            at <= catalog.len(),
            entries == catalog.deep_view(),
            wanted@ == lang@,
            first_answering(entries, lang@) == first_answering_from(entries, lang@, at as int),
            forall|i: int| 0 <= i < at ==> !answers(#[trigger] entries[i], lang@),
        decreases catalog.len() - at,
    {
        let entry = &catalog[at];
        assert(entries[at as int] == entry@);
        if entry.language == wanted || is_alias(&entry.aliases, &wanted) {
            return Ok(entry.version.clone());
        }
        at += 1;
    }
    Err(Error::UnknownLang)
}

/// Resolves `lang` against a catalog that was fetched for this lookup.
///
/// `fetched` is what the fetch came to. A fetch that failed fails the lookup
/// with its error. Else the result is that of [`resolve`] on the fetched
/// catalog.
pub fn resolve_fetched(lang: &str, fetched: Result<Vec<Language>, Error>) -> (found: Result<
    String,
    Error,
>)
    ensures
        match fetched {
            Ok(catalog) => match resolved(catalog.deep_view(), lang@) {
                Some(version) => found matches Ok(text) && text@ == version,
                None => found matches Err(error) && error@ == ErrorView::UnknownLang,
            },
            Err(failure) => found matches Err(error) && error@ == failure@,
        },
{
    match fetched {
        Ok(catalog) => resolve(lang, &catalog),
        Err(failure) => Err(failure),
    }
}

/// An identifier that no entry answers to resolves to nothing.
pub proof fn lemma_unanswered_is_unresolved(catalog: Seq<LanguageView>, id: Seq<char>)
    requires
        forall|i: int| 0 <= i < catalog.len() ==> !answers(#[trigger] catalog[i], id),
    ensures
        resolved(catalog, id) is None,
{
    lemma_first_answering_from(catalog, id, 0);
}

/// An identifier that some entry answers to resolves to the version of the
/// first such entry.
pub proof fn lemma_first_match_wins(catalog: Seq<LanguageView>, id: Seq<char>, i: int)
    requires
        0 <= i < catalog.len(),
        answers(catalog[i], id),
        forall|j: int| 0 <= j < i ==> !answers(#[trigger] catalog[j], id),
    ensures
        resolved(catalog, id) == Some(catalog[i].version),
{
    lemma_first_answering_from(catalog, id, 0);
}

/// An alias of an entry resolves as the entry's name does, to the entry's
/// version.
///
/// The first entry that answers wins. So this holds of the entry at `i` unless
/// an entry before it takes the alias or the name away and lists another
/// version: the two conditions on `first_answering` leave out those catalogs
/// and no others.
pub proof fn lemma_alias_resolves_as_name(catalog: Seq<LanguageView>, i: int, alias: Seq<char>)
    requires
        0 <= i < catalog.len(),
        catalog[i].aliases.contains(alias),
        catalog[first_answering(catalog, alias)].version == catalog[i].version,
        catalog[first_answering(catalog, catalog[i].language)].version == catalog[i].version,
    ensures
        resolved(catalog, alias) == Some(catalog[i].version),
        resolved(catalog, catalog[i].language) == Some(catalog[i].version),
{
    lemma_first_answering_from(catalog, alias, 0);
    lemma_first_answering_from(catalog, catalog[i].language, 0);
}

/// Whether no identifier is answered by two entries of the catalog.
pub open spec fn unambiguous(catalog: Seq<LanguageView>) -> bool {
    forall|i: int, j: int, id: Seq<char>|
        0 <= i < j < catalog.len() && #[trigger] answers(catalog[i], id) ==> !#[trigger] answers(
            catalog[j],
            id,
        )
}

/// In a catalog where no identifier is answered by two entries, every alias
/// of every entry resolves as the entry's name does, to the entry's version.
pub proof fn lemma_unambiguous_alias(catalog: Seq<LanguageView>, i: int, alias: Seq<char>)
    requires
        unambiguous(catalog),
        0 <= i < catalog.len(),
        catalog[i].aliases.contains(alias),
    ensures
        resolved(catalog, alias) == Some(catalog[i].version),
        resolved(catalog, catalog[i].language) == Some(catalog[i].version),
{
    assert(answers(catalog[i], alias));
    assert(answers(catalog[i], catalog[i].language));
    lemma_first_match_wins(catalog, alias, i);
    lemma_first_match_wins(catalog, catalog[i].language, i);
}

} // verus!
