//! The recording search: its date rule, its query syntax, and what becomes
//! of the recordings it returns.

use crate::date::{all_digits, dashed_form, is_digit, normalized, number, valid_date};
use crate::error::{text_result, Error, Required};
use crate::metadata::{Metadata, MetadataView};
use crate::query::{build_fuzzy, clauses_for, fuzzy_query, push_clause, strict_query};
use crate::text::{from_chars, join, to_chars};
use musicbrainz_rs::chrono::{Datelike, Local};
use vstd::prelude::*;
use vstd::string::StringExecFns;

verus! {

/// The recording-search source.
#[derive(Debug, Default, Clone, Copy, PartialEq, Eq)]
pub struct MusicBrainz {}

/// One recording of the search's answer, as far as a record is made from it.
#[derive(Debug, Clone, PartialEq, Eq)]
pub struct Recording {
    pub title: String,
    /// The names of the credited artists, in order of credit.
    pub artist_credit: Option<Vec<String>>,
    /// The titles of the releases that hold the recording.
    pub releases: Option<Vec<String>>,
    /// The names of the tags.
    pub tags: Option<Vec<String>>,
    pub first_release_date: Option<String>,
    pub isrcs: Option<Vec<String>>,
}

/// The texts of a list that may be missing; a missing list holds none.
pub open spec fn texts_or_none(list: Option<Vec<String>>) -> Seq<Seq<char>> {
    match list {
        Some(v) => v.deep_view(),
        None => Seq::empty(),
    }
}

/// The first text of a list that may be missing or empty.
pub open spec fn first_text(list: Option<Vec<String>>) -> Option<Seq<char>> {
    match list {
        Some(v) => if v.len() > 0 {
            Some(v[0]@)
        } else {
            None
        },
        None => None,
    }
}

fn take_texts(list: Option<Vec<String>>) -> (out: Vec<String>)
    ensures
        out.deep_view() == texts_or_none(list),
{
    match list {
        Some(v) => v,
        None => {
            let out: Vec<String> = Vec::new();
            assert(out.deep_view() =~= Seq::empty());
            out
        },
    }
}

fn take_first(list: &Option<Vec<String>>) -> (out: Option<String>)
    ensures
        out.deep_view() == first_text(*list),
{
    match list {
        Some(v) => if v.len() > 0 {
            Some(v[0].clone())
        } else {
            None
        },
        None => None,
    }
}

/// Reads the digits `v[from..to]` as a decimal number; nothing when one of
/// them is no digit.
fn parse_digits(v: &Vec<char>, from: usize, to: usize) -> (n: Option<u32>)
    requires
        from <= to <= v.len(),
        to - from <= 4,
    ensures
        n is Some <==> all_digits(v@.subrange(from as int, to as int)),
        n matches Some(k) ==> k == number(v@.subrange(from as int, to as int)) && k <= 9999,
{
    let mut n: u32 = 0;
    let mut i: usize = from;
    while i < to
        invariant
            from <= i <= to <= v.len(),
            to - from <= 4,
            all_digits(v@.subrange(from as int, i as int)),
            n == number(v@.subrange(from as int, i as int)),
            n < pow10((i - from) as nat),
        decreases to - i,
    {
        let c: u32 = v[i] as u32;
        let ghost next = v@.subrange(from as int, i as int + 1);
        assert(next.drop_last() =~= v@.subrange(from as int, i as int));
        if c < 0x30 || c > 0x39 {
            assert(!is_digit(v@.subrange(from as int, to as int)[i - from]));
            return None;
        }
        assert(pow10((i - from) as nat) <= 1000) by {
            reveal_with_fuel(pow10, 5);
        }
        assert(pow10((i + 1 - from) as nat) == 10 * pow10((i - from) as nat)) by {
            reveal_with_fuel(pow10, 2);
        }
        n = n * 10 + (c - 0x30);
        i += 1;
    }
    assert(v@.subrange(from as int, i as int) =~= v@.subrange(from as int, to as int));
    assert(pow10((to - from) as nat) <= 10000) by {
        reveal_with_fuel(pow10, 5);
    }
    Some(n)
}

/// Ten to the power `e`.
spec fn pow10(e: nat) -> nat
    decreases e,
{
    if e == 0 {
        1
    } else {
        10 * pow10((e - 1) as nat)
    }
}

/// The calendar year on this machine's clock, in its local time zone, as
/// chrono's `Local::now().year()` gives it; musicbrainz_rs hands chrono on.
/// Nothing is claimed of the value. chrono stops the program if the clock
/// stands before 1970.
#[verifier::external_body]
fn current_year() -> i32 {
    Local::now().year()
}

impl MusicBrainz {
    /// Decides whether `year`-`month`-`day` is a plausible release date, given
    /// the current calendar year.
    pub fn is_valid_date(year: i32, month: u32, day: u32, current_year: i32) -> (ok: bool)
        ensures
            ok == valid_date(year as int, month as int, day as int, current_year as int),
    {
        if year < 1900 || year > current_year {
            return false;
        }
        let days: u32 = match month {
            1 | 3 | 5 | 7 | 8 | 10 | 12 => 31,
            4 | 6 | 9 | 11 => 30,
            2 => {
                if (year % 4 == 0 && year % 100 != 0) || year % 400 == 0 {
                    29
                } else {
                    28
                }
            },
            _ => 0,
        };
        1 <= day && day <= days
    }

    /// Checks a release date written as `YYYY-MM-DD` or `YYYYMMDD` against
    /// the calendar and `current_year`, and gives it back as `YYYY-MM-DD`.
    pub fn format_date(input: &str, current_year: i32) -> (out: Option<String>)
        ensures
            out.deep_view() == normalized(input@, current_year as int),
    {
        let v = to_chars(input);
        if v.len() == 10 {
            if v[4] != '-' || v[7] != '-' {
                return None;
            }
            let year = match parse_digits(&v, 0, 4) {
                Some(n) => n,
                None => return None,
            };
            let month = match parse_digits(&v, 5, 7) {
                Some(n) => n,
                None => return None,
            };
            let day = match parse_digits(&v, 8, 10) {
                Some(n) => n,
                None => return None,
            };
            if MusicBrainz::is_valid_date(year as i32, month, day, current_year) {
                let out = from_chars(&v, 0, 10);
                assert(out@ =~= input@);
                Some(out)
            } else {
                None
            }
        } else if v.len() == 8 {
            let year = match parse_digits(&v, 0, 4) {
                Some(n) => n,
                None => {
                    assert(!all_digits(v@)) by {
                        let i = choose|i: int|
                            0 <= i < 4 && !is_digit(#[trigger] v@.subrange(0, 4)[i]);
                        assert(!is_digit(v@[i]));
                    }
                    return None;
                },
            };
            let month = match parse_digits(&v, 4, 6) {
                Some(n) => n,
                None => {
                    assert(!all_digits(v@)) by {
                        let i = choose|i: int|
                            0 <= i < 2 && !is_digit(#[trigger] v@.subrange(4, 6)[i]);
                        assert(!is_digit(v@[i + 4]));
                    }
                    return None;
                },
            };
            let day = match parse_digits(&v, 6, 8) {
                Some(n) => n,
                None => {
                    assert(!all_digits(v@)) by {
                        let i = choose|i: int|
                            0 <= i < 2 && !is_digit(#[trigger] v@.subrange(6, 8)[i]);
                        assert(!is_digit(v@[i + 6]));
                    }
                    return None;
                },
            };
            assert(all_digits(v@)) by {
                assert forall|i: int| 0 <= i < 8 implies is_digit(#[trigger] v@[i]) by {
                    if i < 4 {
                        assert(v@[i] == v@.subrange(0, 4)[i]);
                    } else if i < 6 {
                        assert(v@[i] == v@.subrange(4, 6)[i - 4]);
                    } else {
                        assert(v@[i] == v@.subrange(6, 8)[i - 6]);
                    }
                }
            }
            if MusicBrainz::is_valid_date(year as i32, month, day, current_year) {
                let mut out = from_chars(&v, 0, 4);
                out.push('-');
                out.append(from_chars(&v, 4, 6).as_str());
                out.push('-');
                out.append(from_chars(&v, 6, 8).as_str());
                assert(out@ =~= dashed_form(input@));
                Some(out)
            } else {
                None
            }
        } else {
            None
        }
    }
    /// The release date of `meta` in normal form, where it has one that is
    /// accepted.
    pub open spec fn release_date(meta: MetadataView, current_year: int) -> Option<Seq<char>> {
        match meta.date {
            Some(d) => normalized(d, current_year),
            None => None,
        }
    }

    /// The strict clauses, in their order: title, primary artist, ISRC,
    /// release date.
    pub open spec fn strict_clauses(meta: MetadataView, current_year: int) -> Seq<Seq<char>> {
        clauses_for("recording"@, meta.title) + clauses_for("artistname"@, meta.primary_artist())
            + clauses_for("isrc"@, meta.isrc) + clauses_for(
            "date"@,
            MusicBrainz::release_date(meta, current_year),
        )
    }

    /// The query for `meta`: in strict mode the clauses joined by ` AND `,
    /// in fuzzy mode the free-text expression.
    pub open spec fn query_for(meta: MetadataView, fuzzy: bool, current_year: int) -> Result<
        Seq<char>,
        Error,
    > {
        if fuzzy {
            fuzzy_query(meta.isrc, meta.primary_artist(), meta.title)
        } else {
            strict_query(
                meta.title,
                meta.isrc,
                MusicBrainz::strict_clauses(meta, current_year),
                " AND "@,
            )
        }
    }

    /// The search expression that carries `query`.
    pub open spec fn search_for(query: Seq<char>) -> Seq<char> {
        "query="@ + query
    }

    /// The record made from one recording of the answer.
    pub open spec fn candidate(recording: Recording) -> MetadataView {
        MetadataView {
            title: Some(recording.title@),
            artists: texts_or_none(recording.artist_credit),
            album: first_text(recording.releases),
            date: recording.first_release_date.deep_view(),
            genres: texts_or_none(recording.tags),
            lyrics: None,
            isrc: first_text(recording.isrcs),
        }
    }

    /// Builds the query for `meta`, given the current calendar year. Fails
    /// where `meta` has neither title nor ISRC, and in fuzzy mode also where
    /// the expression would be empty. A release date that is not accepted is
    /// left out of the query.
    pub fn query(meta: &Metadata, fuzzy: bool, current_year: i32) -> (r: Result<String, Error>)
        ensures
            text_result(r) == MusicBrainz::query_for(meta@, fuzzy, current_year as int),
    {
        if fuzzy {
            build_fuzzy(meta.isrc.as_ref(), meta.primary_artist(), meta.title.clone())
        } else {
            if meta.title.is_none() && meta.isrc.is_none() {
                return Err(Error::MissingRequiredField(Required::TitleOrIsrc));
            }
            let date = match &meta.date {
                Some(d) => MusicBrainz::format_date(d.as_str(), current_year),
                None => None,
            };
            let mut clauses: Vec<String> = Vec::new();
            assert(clauses.deep_view() =~= Seq::empty());
            push_clause(&mut clauses, "recording", meta.title.as_ref());
            push_clause(&mut clauses, "artistname", meta.primary_artist());
            push_clause(&mut clauses, "isrc", meta.isrc.as_ref());
            push_clause(&mut clauses, "date", date.as_ref());
            assert(clauses.deep_view() =~= MusicBrainz::strict_clauses(
                meta@,
                current_year as int,
            ));
            Ok(join(&clauses, " AND "))
        }
    }

    /// Builds the query for `meta` as of today: the query for the calendar
    /// year that the clock shows.
    pub fn query_now(meta: &Metadata, fuzzy: bool) -> (r: Result<String, Error>)
        ensures
            exists|year: i32|
                text_result(r) == #[trigger] MusicBrainz::query_for(meta@, fuzzy, year as int),
    {
        let year = current_year();
        MusicBrainz::query(meta, fuzzy, year)
    }

    /// The search expression for `query`.
    pub fn search(query: &str) -> (s: String)
        ensures
            s@ == MusicBrainz::search_for(query@),
    {
        let mut s = String::from_str("query=");
        s.append(query);
        s
    }

    /// The candidates made from the answer: one record for each recording,
    /// in the answer's order.
    pub fn candidates(entities: Vec<Recording>) -> (out: Vec<Metadata>)
        ensures
            out.len() == entities.len(),
            forall|i: int|
                0 <= i < out.len() ==> (#[trigger] out[i])@ == MusicBrainz::candidate(entities[i]),
    {
        let ghost all = entities@;
        let mut out: Vec<Metadata> = Vec::new();
        for recording in it: entities
            invariant
                it.seq() == all,
                out.len() == it.index(),
                forall|i: int|
                    0 <= i < out.len() ==> (#[trigger] out[i])@ == MusicBrainz::candidate(all[i]),
        {
            let album = take_first(&recording.releases);
            let isrc = take_first(&recording.isrcs);
            let m = Metadata {
                title: Some(recording.title),
                artists: take_texts(recording.artist_credit),
                album,
                date: recording.first_release_date,
                genres: take_texts(recording.tags),
                lyrics: None,
                isrc,
            };
            out.push(m);
        }
        out
    }
}

/// Only the release date makes a query depend on the year: a fuzzy query,
/// and the strict query of a record without a date, are the same in every
/// year; and whether a query can be built never depends on the year.
pub proof fn lemma_year_matters_for_date_only(
    meta: MetadataView,
    fuzzy: bool,
    year: int,
    other: int,
)
    ensures
        fuzzy || meta.date is None ==> MusicBrainz::query_for(meta, fuzzy, year)
            == MusicBrainz::query_for(meta, fuzzy, other),
        MusicBrainz::query_for(meta, fuzzy, year) is Err ==> MusicBrainz::query_for(
            meta,
            fuzzy,
            year,
        ) == MusicBrainz::query_for(meta, fuzzy, other),
{
}

} // verus!
