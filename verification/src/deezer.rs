//! The general-catalog search: its query syntax, the request it sends, and
//! what becomes of the tracks it returns.

use crate::error::{text_result, Error, Required};
use crate::metadata::{Metadata, MetadataView};
use crate::query::{build_fuzzy, clauses_for, fuzzy_query, push_clause, strict_query};
use crate::text::{
    join, lemma_trimmed_idempotent, lemma_trimmed_window, to_chars, trim_chars, trimmed,
};
use vstd::prelude::*;
use vstd::string::StringExecFns;

verus! {

/// The general-catalog search source.
#[derive(Debug, Default, Clone, Copy, PartialEq, Eq)]
pub struct Deezer {}

/// One track of the catalog's answer, as far as a record is made from it.
#[derive(Debug, Clone, PartialEq, Eq)]
pub struct DeezerTrack {
    pub title_short: String,
    pub isrc: String,
    /// The name of the track's artist.
    pub artist: String,
    /// The title of the track's album.
    pub album: String,
}

/// `(` and `[` open a bracket.
pub open spec fn opens(c: char) -> bool {
    c == '(' || c == '['
}

/// `)` and `]` close a bracket.
pub open spec fn closes(c: char) -> bool {
    c == ')' || c == ']'
}

/// The nesting depth after `s`: brackets opened less brackets closed. It
/// falls below zero where more were closed than opened.
pub open spec fn depth(s: Seq<char>) -> int
    decreases s.len(),
{
    if s.len() == 0 {
        0
    } else if opens(s.last()) {
        depth(s.drop_last()) + 1
    } else if closes(s.last()) {
        depth(s.drop_last()) - 1
    } else {
        depth(s.drop_last())
    }
}

/// The characters of `s` that are no brackets and stand at depth zero, in
/// their order.
pub open spec fn outside(s: Seq<char>) -> Seq<char>
    decreases s.len(),
{
    if s.len() == 0 {
        Seq::empty()
    } else if !opens(s.last()) && !closes(s.last()) && depth(s.drop_last()) == 0 {
        outside(s.drop_last()).push(s.last())
    } else {
        outside(s.drop_last())
    }
}

/// A title without what stands in brackets, and without the white space
/// that is left around it.
pub open spec fn stripped(s: Seq<char>) -> Seq<char> {
    trimmed(outside(s))
}

/// Where the depth never comes back to zero after position `k`, nothing
/// that follows `k` is kept.
pub proof fn lemma_outside_stops(s: Seq<char>, k: int)
    requires
        0 <= k < s.len(),
        forall|j: int| k < j < s.len() ==> depth(#[trigger] s.take(j)) != 0,
    ensures
        outside(s) == outside(s.take(k + 1)),
    decreases s.len(),
{
    if k + 1 == s.len() {
        assert(s.take(k + 1) =~= s);
    } else {
        let p = s.drop_last();
        assert(p =~= s.take(s.len() - 1));
        assert forall|j: int| k < j < p.len() implies depth(#[trigger] p.take(j)) != 0 by {
            assert(p.take(j) =~= s.take(j));
        }
        lemma_outside_stops(p, k);
        assert(p.take(k + 1) =~= s.take(k + 1));
    }
}

/// A bracket that opens at `k` and is never closed ends the title: what is
/// kept is what was kept before it.
pub proof fn lemma_unclosed_bracket(s: Seq<char>, k: int)
    requires
        0 <= k < s.len(),
        opens(s[k]),
        forall|j: int| k < j < s.len() ==> depth(#[trigger] s.take(j)) != 0,
    ensures
        stripped(s) == stripped(s.take(k)),
{
    lemma_outside_stops(s, k);
    assert(s.take(k + 1).drop_last() =~= s.take(k));
}

/// A title without brackets is only trimmed.
pub proof fn lemma_no_brackets(s: Seq<char>)
    requires
        forall|i: int| 0 <= i < s.len() ==> !opens(#[trigger] s[i]) && !closes(s[i]),
    ensures
        depth(s) == 0,
        outside(s) == s,
        stripped(s) == trimmed(s),
    decreases s.len(),
{
    if s.len() > 0 {
        let p = s.drop_last();
        assert forall|i: int| 0 <= i < p.len() implies !opens(#[trigger] p[i]) && !closes(
            p[i],
        ) by {
            assert(p[i] == s[i]);
        }
        lemma_no_brackets(p);
        assert(outside(s) =~= s);
    } else {
        assert(outside(s) =~= s);
    }
}

/// What is kept holds no bracket.
pub proof fn lemma_outside_holds_no_bracket(s: Seq<char>)
    ensures
        forall|i: int|
            0 <= i < outside(s).len() ==> !opens(#[trigger] outside(s)[i]) && !closes(
                outside(s)[i],
            ),
    decreases s.len(),
{
    if s.len() > 0 {
        let before = outside(s.drop_last());
        lemma_outside_holds_no_bracket(s.drop_last());
        assert forall|i: int| 0 <= i < outside(s).len() implies !opens(
            #[trigger] outside(s)[i],
        ) && !closes(outside(s)[i]) by {
            if i < before.len() {
                assert(outside(s)[i] == before[i]);
            }
        }
    }
}

/// A stripped title holds no bracket, and stripping it again changes
/// nothing.
pub proof fn lemma_stripped_once_is_enough(s: Seq<char>)
    ensures
        forall|i: int|
            0 <= i < stripped(s).len() ==> !opens(#[trigger] stripped(s)[i]) && !closes(
                stripped(s)[i],
            ),
        stripped(stripped(s)) == stripped(s),
{
    lemma_outside_holds_no_bracket(s);
    let w = lemma_trimmed_window(outside(s));
    let t = stripped(s);
    assert forall|i: int| 0 <= i < t.len() implies !opens(#[trigger] t[i]) && !closes(t[i]) by {
        assert(t[i] == outside(s)[w.0 + i]);
    }
    lemma_no_brackets(t);
    lemma_trimmed_idempotent(outside(s));
}

impl Deezer {
    /// Where the search is asked.
    pub const ENDPOINT: &'static str = "https://api.deezer.com/search/track";

    /// The strict clauses, in their order: title, primary artist, ISRC.
    pub open spec fn strict_clauses(meta: MetadataView) -> Seq<Seq<char>> {
        clauses_for("track"@, meta.title) + clauses_for("artist"@, meta.primary_artist())
            + clauses_for("isrc"@, meta.isrc)
    }

    /// The query for `meta`: in strict mode the clauses joined by a space,
    /// in fuzzy mode the free-text expression, with the title stripped of
    /// what stands in brackets.
    pub open spec fn query_for(meta: MetadataView, fuzzy: bool) -> Result<Seq<char>, Error> {
        if fuzzy {
            fuzzy_query(
                meta.isrc,
                meta.primary_artist(),
                match meta.title {
                    Some(t) => Some(stripped(t)),
                    None => None,
                },
            )
        } else {
            strict_query(meta.title, meta.isrc, Deezer::strict_clauses(meta), " "@)
        }
    }

    /// The request parameters that carry `query`, asking for the best match
    /// only.
    pub open spec fn params_for(query: Seq<char>) -> Seq<(Seq<char>, Seq<char>)> {
        seq![("q"@, query), ("limit"@, "1"@)]
    }

    /// The record made from one track of the answer.
    pub open spec fn candidate(track: DeezerTrack) -> MetadataView {
        MetadataView {
            title: Some(track.title_short@),
            artists: seq![track.artist@],
            album: Some(track.album@),
            isrc: Some(track.isrc@),
            ..MetadataView::empty()
        }
    }

    /// Removes from `input` what stands in round or square brackets, the
    /// brackets included, and trims the rest.
    pub fn rmparens(input: &str) -> (result: String)
        ensures
            result@ == stripped(input@),
    {
        let v = to_chars(input);
        let mut kept: Vec<char> = Vec::new();
        let mut level: i128 = 0;
        let mut i: usize = 0;
        while i < v.len()
            invariant
                i <= v.len(),
                kept@ == outside(v@.take(i as int)),
                level == depth(v@.take(i as int)),
                -i <= level <= i,
            decreases v.len() - i,
        {
            let c = v[i];
            assert(v@.take(i as int + 1).drop_last() =~= v@.take(i as int));
            if c == '(' || c == '[' {
                level += 1;
            } else if c == ')' || c == ']' {
                level -= 1;
            } else if level == 0 {
                kept.push(c);
            }
            i += 1;
        }
        assert(v@.take(v.len() as int) =~= v@);
        trim_chars(&kept)
    }

    /// Builds the query for `meta`. Fails where `meta` has neither title nor
    /// ISRC, and in fuzzy mode also where the expression would be empty.
    pub fn query(meta: &Metadata, fuzzy: bool) -> (r: Result<String, Error>)
        ensures
            text_result(r) == Deezer::query_for(meta@, fuzzy),
    {
        if fuzzy {
            let title = match &meta.title {
                Some(t) => Some(Deezer::rmparens(t.as_str())),
                None => None,
            };
            build_fuzzy(meta.isrc.as_ref(), meta.primary_artist(), title)
        } else {
            if meta.title.is_none() && meta.isrc.is_none() {
                return Err(Error::MissingRequiredField(Required::TitleOrIsrc));
            }
            let mut clauses: Vec<String> = Vec::new();
            assert(clauses.deep_view() =~= Seq::empty());
            push_clause(&mut clauses, "track", meta.title.as_ref());
            push_clause(&mut clauses, "artist", meta.primary_artist());
            push_clause(&mut clauses, "isrc", meta.isrc.as_ref());
            assert(clauses.deep_view() =~= Deezer::strict_clauses(meta@));
            Ok(join(&clauses, " "))
        }
    }

    /// The parameters of the search request for `query`.
    pub fn params(query: String) -> (p: Vec<(String, String)>)
        ensures
            p.deep_view() == Deezer::params_for(query@),
    {
        let mut p: Vec<(String, String)> = Vec::new();
        p.push((String::from_str("q"), query));
        p.push((String::from_str("limit"), String::from_str("1")));
        assert(p.deep_view() =~= Deezer::params_for(query@));
        p
    }

    /// The candidates made from the answer: the record of the first track,
    /// and no other.
    pub fn candidates(data: Vec<DeezerTrack>) -> (out: Vec<Metadata>)
        ensures
            data.len() == 0 ==> out.len() == 0,
            data.len() > 0 ==> out.len() == 1 && out[0]@ == Deezer::candidate(data[0]),
    {
        let mut data = data;
        data.truncate(1);
        let mut out: Vec<Metadata> = Vec::new();
        if let Some(track) = data.pop() {
            let mut artists: Vec<String> = Vec::new();
            artists.push(track.artist);
            let m = Metadata {
                title: Some(track.title_short),
                artists,
                album: Some(track.album),
                date: None,
                genres: Vec::new(),
                lyrics: None,
                isrc: Some(track.isrc),
            };
            assert(m.artists.deep_view() =~= seq![track.artist@]);
            assert(m.genres.deep_view() =~= Seq::empty());
            out.push(m);
        }
        out
    }
}

} // verus!
