//! The lyrics lookup: an exact request by title and artist, and the one
//! record its answer gives.

use crate::error::{Error, Required};
use crate::metadata::{Metadata, MetadataView};
use crate::text::{replace_char, replaced};
use vstd::prelude::*;
use vstd::string::StringExecFns;

verus! {

/// The lyrics source.
#[derive(Debug, Default, Clone, Copy, PartialEq, Eq)]
pub struct LRCLib {}

/// The lookup's answer, as far as a record is made from it.
#[derive(Debug, Clone, PartialEq, Eq)]
pub struct LRCResp {
    pub track_name: String,
    pub artist_name: String,
    pub album_name: String,
    pub plain_lyrics: Option<String>,
    pub synced_lyrics: Option<String>,
}

/// The outcome of building request parameters, as the texts they hold.
pub open spec fn params_result(r: Result<Vec<(String, String)>, Error>) -> Result<
    Seq<(Seq<char>, Seq<char>)>,
    Error,
> {
    match r {
        Ok(p) => Ok(p.deep_view()),
        Err(e) => Err(e),
    }
}

impl LRCLib {
    /// Where the lookup is asked.
    pub const ENDPOINT: &'static str = "https://lrclib.net/api/get";

    /// A name as the request carries it: every space turned into `+`.
    pub open spec fn encoded(name: Seq<char>) -> Seq<char> {
        replaced(name, ' ', '+')
    }

    /// The request parameters for `meta`: its title and its primary artist.
    /// The title is asked for first.
    pub open spec fn params_for(meta: MetadataView) -> Result<Seq<(Seq<char>, Seq<char>)>, Error> {
        match (meta.title, meta.primary_artist()) {
            (None, _) => Err(Error::MissingRequiredField(Required::Title)),
            (Some(_), None) => Err(Error::MissingRequiredField(Required::Artists)),
            (Some(title), Some(artist)) => Ok(
                seq![
                    ("track_name"@, LRCLib::encoded(title)),
                    ("artist_name"@, LRCLib::encoded(artist)),
                ],
            ),
        }
    }

    /// Synchronized lyrics where there are any, else plain ones.
    pub open spec fn lyrics_of(resp: LRCResp) -> Option<Seq<char>> {
        if resp.synced_lyrics is Some {
            resp.synced_lyrics.deep_view()
        } else {
            resp.plain_lyrics.deep_view()
        }
    }

    /// The record made from the answer.
    pub open spec fn candidate(resp: LRCResp) -> MetadataView {
        MetadataView {
            title: Some(resp.track_name@),
            artists: seq![resp.artist_name@],
            album: Some(resp.album_name@),
            lyrics: LRCLib::lyrics_of(resp),
            ..MetadataView::empty()
        }
    }

    /// Builds the request parameters for `meta`. The lookup is exact in
    /// either mode: `fuzzy` changes nothing. Fails where `meta` has no title,
    /// or no artist.
    pub fn params(meta: &Metadata, fuzzy: bool) -> (r: Result<Vec<(String, String)>, Error>)
        ensures
            params_result(r) == LRCLib::params_for(meta@),
    {
        let title = match &meta.title {
            Some(t) => t,
            None => return Err(Error::MissingRequiredField(Required::Title)),
        };
        let artist = match meta.primary_artist() {
            Some(a) => a,
            None => return Err(Error::MissingRequiredField(Required::Artists)),
        };
        let mut p: Vec<(String, String)> = Vec::new();
        p.push((String::from_str("track_name"), replace_char(title.as_str(), ' ', '+')));
        p.push((String::from_str("artist_name"), replace_char(artist.as_str(), ' ', '+')));
        assert(p.deep_view() =~= LRCLib::params_for(meta@)->Ok_0);
        Ok(p)
    }

    /// The candidates made from the answer: its one record, or none where
    /// the lookup found no match.
    pub fn candidates(resp: Option<LRCResp>) -> (out: Vec<Metadata>)
        ensures
            match resp {
                Some(found) => out.len() == 1 && out[0]@ == LRCLib::candidate(found),
                None => out.len() == 0,
            },
    {
        let resp = match resp {
            Some(found) => found,
            None => return Vec::new(),
        };
        let lyrics = if resp.synced_lyrics.is_some() {
            resp.synced_lyrics
        } else {
            resp.plain_lyrics
        };
        let mut artists: Vec<String> = Vec::new();
        artists.push(resp.artist_name);
        let m = Metadata {
            title: Some(resp.track_name),
            artists,
            album: Some(resp.album_name),
            date: None,
            genres: Vec::new(),
            lyrics,
            isrc: None,
        };
        assert(m.artists.deep_view() =~= seq![resp.artist_name@]);
        assert(m.genres.deep_view() =~= Seq::empty());
        let mut out: Vec<Metadata> = Vec::new();
        out.push(m);
        out
    }
}

} // verus!
