//! The pieces that the search sources' query syntaxes share: field-scoped
//! clauses for strict search, one free-text expression for fuzzy search.

use crate::error::{Error, Required};
use vstd::prelude::*;
use vstd::string::StringExecFns;

verus! {

/// One field-scoped clause: `field:"value"`.
pub open spec fn clause(field: Seq<char>, value: Seq<char>) -> Seq<char> {
    field + ":\""@ + value + "\""@
}

/// The clauses that a field contributes: one if its value is present, none
/// otherwise.
pub open spec fn clauses_for(field: Seq<char>, value: Option<Seq<char>>) -> Seq<Seq<char>> {
    match value {
        Some(v) => seq![clause(field, v)],
        None => Seq::empty(),
    }
}

/// A clause is never empty: it holds the colon and the two quotes at least.
pub proof fn lemma_clause_not_empty(field: Seq<char>, value: Option<Seq<char>>)
    ensures
        forall|i: int|
            0 <= i < clauses_for(field, value).len() ==> (#[trigger] clauses_for(
                field,
                value,
            )[i]).len() >= 3,
{
    reveal_strlit(":\"");
    reveal_strlit("\"");
}

/// Appends the clause for `field` to `clauses` if `value` is present.
pub fn push_clause(clauses: &mut Vec<String>, field: &str, value: Option<&String>)
    ensures
        final(clauses).deep_view() == old(clauses).deep_view() + clauses_for(
            field@,
            value.deep_view(),
        ),
{
    if let Some(v) = value {
        let mut c = String::from_str(field);
        c.append(":\"");
        c.append(v.as_str());
        c.append("\"");
        clauses.push(c);
    }
    assert(clauses.deep_view() =~= old(clauses).deep_view() + clauses_for(
        field@,
        value.deep_view(),
    ));
}

/// The free-text expression that looks a recording up by its ISRC.
pub open spec fn isrc_lookup(code: Seq<char>) -> Seq<char> {
    "isrc: \""@ + code + "\""@
}

/// The free-text expression for a title, led by the artist where one is
/// known: `artist - title`.
pub open spec fn artist_and_title(artist: Option<Seq<char>>, title: Seq<char>) -> Seq<char> {
    match artist {
        Some(a) => a + " - "@ + title,
        None => title,
    }
}

/// The fuzzy query: by ISRC where there is one, else by artist and title.
/// Without either, or where the expression would be empty, there is no
/// query.
pub open spec fn fuzzy_query(
    isrc: Option<Seq<char>>,
    artist: Option<Seq<char>>,
    title: Option<Seq<char>>,
) -> Result<Seq<char>, Error> {
    match (isrc, title) {
        (Some(code), _) => Ok(isrc_lookup(code)),
        (None, Some(t)) => if artist_and_title(artist, t).len() > 0 {
            Ok(artist_and_title(artist, t))
        } else {
            Err(Error::MissingRequiredField(Required::TitleOrIsrc))
        },
        (None, None) => Err(Error::MissingRequiredField(Required::TitleOrIsrc)),
    }
}

/// Builds the fuzzy query from the ISRC, the primary artist and the title
/// in the form the source wants it.
pub fn build_fuzzy(isrc: Option<&String>, artist: Option<&String>, title: Option<String>) -> (r:
    Result<String, Error>)
    ensures
        crate::error::text_result(r) == fuzzy_query(
            isrc.deep_view(),
            artist.deep_view(),
            title.deep_view(),
        ),
{
    if let Some(code) = isrc {
        let mut q = String::from_str("isrc: \"");
        q.append(code.as_str());
        q.append("\"");
        Ok(q)
    } else if let Some(t) = title {
        let q = if let Some(a) = artist {
            let mut q = a.clone();
            q.append(" - ");
            q.append(t.as_str());
            q
        } else {
            t
        };
        if q.as_str().is_empty() {
            Err(Error::MissingRequiredField(Required::TitleOrIsrc))
        } else {
            Ok(q)
        }
    } else {
        Err(Error::MissingRequiredField(Required::TitleOrIsrc))
    }
}

/// The strict query: the clauses joined by `conjunction`. A record with
/// neither title nor ISRC gives no query.
pub open spec fn strict_query(
    title: Option<Seq<char>>,
    isrc: Option<Seq<char>>,
    clauses: Seq<Seq<char>>,
    conjunction: Seq<char>,
) -> Result<Seq<char>, Error> {
    if title is None && isrc is None {
        Err(Error::MissingRequiredField(Required::TitleOrIsrc))
    } else {
        Ok(crate::text::joined(clauses, conjunction))
    }
}

} // verus!
