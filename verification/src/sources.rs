//! The aggregator: which sources are asked in which mode, and how their
//! answers become one.

use crate::deezer::Deezer;
use crate::error::{Error, Required};
use crate::lrclib::LRCLib;
use crate::metadata::{Metadata, MetadataView};
use crate::musicbrainz::MusicBrainz;
use crate::query::{isrc_lookup, lemma_clause_not_empty};
use crate::text::lemma_joined_ends_with_last;
use crate::spotifydb::SpotifyDB;
use vstd::prelude::*;

verus! {

/// The kinds of source there are.
#[derive(Debug, Clone, Copy, PartialEq, Eq, Structural)]
pub enum Provider {
    /// The local catalog.
    SpotifyDB,
    /// The lyrics lookup.
    LRCLib,
    /// The general-catalog search.
    Deezer,
    /// The recording search.
    MusicBrainz,
}

impl Provider {
    /// Whether the source can be asked in free text.
    pub open spec fn free_text(self) -> bool {
        self == Provider::Deezer || self == Provider::MusicBrainz
    }

    /// Whether the source can be asked in free text.
    pub fn supports_fuzzy(&self) -> (b: bool)
        ensures
            b == self.free_text(),
    {
        match self {
            Provider::Deezer | Provider::MusicBrainz => true,
            Provider::SpotifyDB | Provider::LRCLib => false,
        }
    }
}

/// The sources that were configured.
#[derive(Debug, Clone, PartialEq, Eq)]
pub struct MetadataSources {
    /// Complete, with genres.
    pub musicbrainz: MusicBrainz,
    /// Correct.
    pub deezer: Deezer,
    /// Strict and correct, with lyrics.
    pub lrclib: LRCLib,
    /// Strict and correct; there only when a catalog file was named.
    pub spotifydb: Option<SpotifyDB>,
}

/// What came back from the sources, in the order in which they were asked.
pub type Answers = Seq<Result<Vec<Metadata>, Error>>;

/// The error of the first source that failed, if one did.
pub open spec fn first_failure(answers: Answers) -> Option<Error>
    decreases answers.len(),
{
    if answers.len() == 0 {
        None
    } else {
        match answers.first() {
            Err(e) => Some(e),
            Ok(_) => first_failure(answers.drop_first()),
        }
    }
}

/// The records that one source gave; none where it failed.
pub open spec fn records_of(answer: Result<Vec<Metadata>, Error>) -> Seq<Metadata> {
    match answer {
        Ok(records) => records@,
        Err(_) => Seq::empty(),
    }
}

/// All records, source after source, each source's in its own order.
pub open spec fn all_records(answers: Answers) -> Seq<Metadata> {
    answers.map_values(|a: Result<Vec<Metadata>, Error>| records_of(a)).flatten()
}

/// The outcome of the whole call: the first failure if a source failed,
/// else all records.
pub open spec fn combined(answers: Answers) -> Result<Seq<Metadata>, Error> {
    match first_failure(answers) {
        Some(e) => Err(e),
        None => Ok(all_records(answers)),
    }
}

/// The outcome of a call, as the records it holds.
pub open spec fn outcome(r: Result<Vec<Metadata>, Error>) -> Result<Seq<Metadata>, Error> {
    match r {
        Ok(records) => Ok(records@),
        Err(e) => Err(e),
    }
}

/// A failure before which every source succeeded is the first failure.
pub proof fn lemma_first_failure_at(answers: Answers, k: int)
    requires
        0 <= k < answers.len(),
        answers[k] is Err,
        forall|i: int| 0 <= i < k ==> (#[trigger] answers[i]) is Ok,
    ensures
        first_failure(answers) == Some(answers[k]->Err_0),
    decreases answers.len(),
{
    if k > 0 {
        assert(answers[0] is Ok);
        let rest = answers.drop_first();
        assert forall|i: int| 0 <= i < k - 1 implies (#[trigger] rest[i]) is Ok by {
            assert(rest[i] == answers[i + 1]);
        }
        lemma_first_failure_at(rest, k - 1);
    }
}

/// Where every source succeeded there is no failure, and only there.
pub proof fn lemma_no_failure(answers: Answers)
    ensures
        first_failure(answers) is None <==> forall|i: int|
            0 <= i < answers.len() ==> (#[trigger] answers[i]) is Ok,
    decreases answers.len(),
{
    if answers.len() > 0 {
        let rest = answers.drop_first();
        lemma_no_failure(rest);
        if first_failure(answers) is None {
            assert forall|i: int| 0 <= i < answers.len() implies (#[trigger] answers[i]) is Ok by {
                if i > 0 {
                    assert(answers[i] == rest[i - 1]);
                }
            }
        } else if answers.first() is Ok {
            let i = choose|i: int| 0 <= i < rest.len() && !((#[trigger] rest[i]) is Ok);
            assert(rest[i] == answers[i + 1]);
        }
    }
}

/// All or nothing: where exactly one source fails, the call fails with
/// that source's error, whatever the others gave.
pub proof fn lemma_one_failure_fails_all(answers: Answers, k: int)
    requires
        0 <= k < answers.len(),
        answers[k] is Err,
        forall|i: int| 0 <= i < answers.len() && i != k ==> (#[trigger] answers[i]) is Ok,
    ensures
        combined(answers) == Err::<Seq<Metadata>, Error>(answers[k]->Err_0),
{
    lemma_first_failure_at(answers, k);
}

/// Where any source fails the call fails, and no record reaches the
/// caller; where none fails, the caller gets every record.
pub proof fn lemma_any_failure_fails_all(answers: Answers)
    ensures
        combined(answers) is Err <==> exists|i: int|
            0 <= i < answers.len() && (#[trigger] answers[i]) is Err,
        combined(answers) is Ok ==> combined(answers)->Ok_0 == all_records(answers),
{
    lemma_no_failure(answers);
}

/// The records keep the order of the sources: those of the sources asked
/// first come first.
pub proof fn lemma_records_in_dispatch_order(first: Answers, then: Answers)
    ensures
        all_records(first + then) == all_records(first) + all_records(then),
{
    let f = |a: Result<Vec<Metadata>, Error>| records_of(a);
    assert((first + then).map_values(f) =~= first.map_values(f) + then.map_values(f));
    vstd::seq_lib::lemma_flatten_concat(first.map_values(f), then.map_values(f));
}

impl MetadataSources {
    /// The sources that are there, in the order in which they are asked.
    pub open spec fn configured(self) -> Seq<Provider> {
        if self.spotifydb is Some {
            seq![Provider::SpotifyDB, Provider::LRCLib, Provider::Deezer, Provider::MusicBrainz]
        } else {
            seq![Provider::LRCLib, Provider::Deezer, Provider::MusicBrainz]
        }
    }

    /// The sources that a call asks: all that are there in strict mode, in
    /// fuzzy mode the two that can be asked in free text.
    pub open spec fn selection(self, fuzzy: bool) -> Seq<Provider> {
        if fuzzy {
            seq![Provider::Deezer, Provider::MusicBrainz]
        } else {
            self.configured()
        }
    }

    /// The sources for this process: the three that are always there, and
    /// the local catalog where `spotifydbfile` names its file.
    pub fn new(spotifydbfile: Option<String>) -> (sources: MetadataSources)
        ensures
            match spotifydbfile {
                Some(file) => sources.spotifydb == Some(SpotifyDB { dbfile: file }),
                None => sources.spotifydb is None,
            },
    {
        MetadataSources {
            spotifydb: match spotifydbfile {
                Some(file) => Some(SpotifyDB::new(file)),
                None => None,
            },
            musicbrainz: MusicBrainz {  },
            deezer: Deezer {  },
            lrclib: LRCLib {  },
        }
    }

    /// The sources that a call in the given mode asks, in the order in which
    /// it asks them.
    pub fn providers(&self, fuzzy: bool) -> (selected: Vec<Provider>)
        ensures
            selected@ == self.selection(fuzzy),
    {
        let mut selected: Vec<Provider> = Vec::new();
        if !fuzzy {
            if self.spotifydb.is_some() {
                selected.push(Provider::SpotifyDB);
            }
            selected.push(Provider::LRCLib);
        }
        selected.push(Provider::Deezer);
        selected.push(Provider::MusicBrainz);
        assert(selected@ =~= self.selection(fuzzy));
        selected
    }

    /// Makes one outcome of the sources' answers, once all of them are in:
    /// the error of the first source that failed, or else every record,
    /// source after source.
    pub fn collect(answers: Vec<Result<Vec<Metadata>, Error>>) -> (r: Result<Vec<Metadata>, Error>)
        ensures
            outcome(r) == combined(answers@),
    {
        let ghost all = answers@;
        let ghost f = |a: Result<Vec<Metadata>, Error>| records_of(a);
        let mut records: Vec<Metadata> = Vec::new();
        assert(all.take(0).map_values(f) =~= Seq::empty());
        for answer in it: answers
            invariant
                it.seq() == all,
                f == |a: Result<Vec<Metadata>, Error>| records_of(a),
                forall|i: int| 0 <= i < it.index() ==> (#[trigger] all[i]) is Ok,
                records@ == all.take(it.index()).map_values(f).flatten(),
        {
            match answer {
                Ok(mut more) => {
                    proof {
                        let k = it.index();
                        assert(all.take(k + 1).map_values(f) =~= all.take(k).map_values(f).push(
                            more@,
                        ));
                        all.take(k).map_values(f).lemma_flatten_push(more@);
                    }
                    records.append(&mut more);
                },
                Err(e) => {
                    proof {
                        lemma_first_failure_at(all, it.index());
                    }
                    return Err(e);
                },
            }
        }
        proof {
            lemma_no_failure(all);
            assert(all.take(all.len() as int) =~= all);
        }
        Ok(records)
    }
}

/// In fuzzy mode only sources that can be asked in free text are asked:
/// never the lyrics lookup, never the local catalog, whatever is configured.
pub proof fn lemma_fuzzy_asks_free_text_only(sources: MetadataSources)
    ensures
        forall|i: int|
            0 <= i < sources.selection(true).len() ==> (#[trigger] sources.selection(
                true,
            )[i]).free_text(),
        !sources.selection(true).contains(Provider::LRCLib),
        !sources.selection(true).contains(Provider::SpotifyDB),
        sources.selection(true) == sources.configured().filter(|p: Provider| p.free_text()),
{
    let free = |p: Provider| p.free_text();
    reveal_with_fuel(Seq::filter, 5);
    let c = sources.configured();
    if sources.spotifydb is Some {
        assert(c.drop_last() =~= seq![Provider::SpotifyDB, Provider::LRCLib, Provider::Deezer]);
        assert(c.drop_last().drop_last() =~= seq![Provider::SpotifyDB, Provider::LRCLib]);
        assert(c.drop_last().drop_last().drop_last() =~= seq![Provider::SpotifyDB]);
        assert(c.drop_last().drop_last().drop_last().drop_last() =~= Seq::empty());
    } else {
        assert(c.drop_last() =~= seq![Provider::LRCLib, Provider::Deezer]);
        assert(c.drop_last().drop_last() =~= seq![Provider::LRCLib]);
        assert(c.drop_last().drop_last().drop_last() =~= Seq::empty());
    }
    assert(sources.selection(true) =~= c.filter(free));
}

/// In strict mode every configured source is asked.
pub proof fn lemma_strict_asks_all(sources: MetadataSources)
    ensures
        sources.selection(false) == sources.configured(),
        sources.configured().contains(Provider::LRCLib),
        sources.configured().contains(Provider::Deezer),
        sources.configured().contains(Provider::MusicBrainz),
        sources.configured().contains(Provider::SpotifyDB) <==> sources.spotifydb is Some,
{
    let c = sources.configured();
    if sources.spotifydb is Some {
        assert(c[0] == Provider::SpotifyDB);
        assert(c[1] == Provider::LRCLib);
        assert(c[2] == Provider::Deezer);
        assert(c[3] == Provider::MusicBrainz);
    } else {
        assert(c[0] == Provider::LRCLib);
        assert(c[1] == Provider::Deezer);
        assert(c[2] == Provider::MusicBrainz);
    }
}

/// A record with neither title nor ISRC gives no query, strict or fuzzy,
/// for any source that builds one; and the lyrics lookup, which asks by
/// title, cannot be asked either.
pub proof fn lemma_title_or_isrc_required(meta: MetadataView, fuzzy: bool, current_year: int)
    requires
        meta.title is None,
        meta.isrc is None,
    ensures
        Deezer::query_for(meta, fuzzy) == Err::<Seq<char>, Error>(
            Error::MissingRequiredField(Required::TitleOrIsrc),
        ),
        MusicBrainz::query_for(meta, fuzzy, current_year) == Err::<Seq<char>, Error>(
            Error::MissingRequiredField(Required::TitleOrIsrc),
        ),
        LRCLib::params_for(meta) == Err::<Seq<(Seq<char>, Seq<char>)>, Error>(
            Error::MissingRequiredField(Required::Title),
        ),
{
}

/// A record with a title or an ISRC always gives a strict query.
pub proof fn lemma_strict_query_exists(meta: MetadataView, current_year: int)
    requires
        meta.title is Some || meta.isrc is Some,
    ensures
        Deezer::query_for(meta, false) is Ok,
        MusicBrainz::query_for(meta, false, current_year) is Ok,
{
}

/// No query that is built is empty.
pub proof fn lemma_query_not_empty(meta: MetadataView, fuzzy: bool, current_year: int)
    ensures
        Deezer::query_for(meta, fuzzy) matches Ok(q) ==> q.len() > 0,
        MusicBrainz::query_for(meta, fuzzy, current_year) matches Ok(q) ==> q.len() > 0,
{
    if fuzzy {
        reveal_strlit("isrc: \"");
    } else if meta.title is Some || meta.isrc is Some {
        lemma_clause_not_empty("track"@, meta.title);
        lemma_clause_not_empty("artist"@, meta.primary_artist());
        lemma_clause_not_empty("isrc"@, meta.isrc);
        lemma_clause_not_empty("recording"@, meta.title);
        lemma_clause_not_empty("artistname"@, meta.primary_artist());
        lemma_clause_not_empty("date"@, MusicBrainz::release_date(meta, current_year));
        let d = Deezer::strict_clauses(meta);
        assert(d.len() > 0);
        assert(d.last().len() >= 3);
        lemma_joined_ends_with_last(d, " "@);
        let m = MusicBrainz::strict_clauses(meta, current_year);
        assert(m.len() > 0);
        assert(m.last().len() >= 3);
        lemma_joined_ends_with_last(m, " AND "@);
    }
}

/// Where the record has an ISRC, the fuzzy query looks that code up, in
/// both search sources, whatever else the record holds.
pub proof fn lemma_fuzzy_by_isrc(meta: MetadataView, current_year: int)
    requires
        meta.isrc is Some,
    ensures
        Deezer::query_for(meta, true) == Ok::<Seq<char>, Error>(isrc_lookup(meta.isrc->Some_0)),
        MusicBrainz::query_for(meta, true, current_year) == Ok::<Seq<char>, Error>(
            isrc_lookup(meta.isrc->Some_0),
        ),
{
}

} // verus!
