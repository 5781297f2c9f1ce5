//! The metadata record shared by every source, and the overlay rule that
//! folds partial records into one.

use vstd::prelude::*;

verus! {

/// What is known about one track. An absent field, or an empty list, means
/// "unknown".
#[derive(Debug, Clone, PartialEq, Eq)]
pub struct Metadata {
    pub title: Option<String>,
    /// In order of credit; the first is the primary artist.
    pub artists: Vec<String>,
    pub album: Option<String>,
    /// `YYYY-MM-DD` or `YYYYMMDD`, kept as text.
    pub date: Option<String>,
    pub genres: Vec<String>,
    pub lyrics: Option<String>,
    pub isrc: Option<String>,
}

/// The mathematical content of a [`Metadata`].
pub struct MetadataView {
    pub title: Option<Seq<char>>,
    pub artists: Seq<Seq<char>>,
    pub album: Option<Seq<char>>,
    pub date: Option<Seq<char>>,
    pub genres: Seq<Seq<char>>,
    pub lyrics: Option<Seq<char>>,
    pub isrc: Option<Seq<char>>,
}

impl View for Metadata {
    type V = MetadataView;

    open spec fn view(&self) -> MetadataView {
        MetadataView {
            title: self.title.deep_view(),
            artists: self.artists.deep_view(),
            album: self.album.deep_view(),
            date: self.date.deep_view(),
            genres: self.genres.deep_view(),
            lyrics: self.lyrics.deep_view(),
            isrc: self.isrc.deep_view(),
        }
    }
}

/// `over` where it is present, else `base`.
pub open spec fn overlay_text(base: Option<Seq<char>>, over: Option<Seq<char>>) -> Option<
    Seq<char>,
> {
    if over is Some {
        over
    } else {
        base
    }
}

/// `over` where it is non-empty, else `base`.
pub open spec fn overlay_list(base: Seq<Seq<char>>, over: Seq<Seq<char>>) -> Seq<Seq<char>> {
    if over.len() > 0 {
        over
    } else {
        base
    }
}

impl MetadataView {
    /// The record that knows nothing.
    pub open spec fn empty() -> MetadataView {
        MetadataView {
            title: None,
            artists: Seq::empty(),
            album: None,
            date: None,
            genres: Seq::empty(),
            lyrics: None,
            isrc: None,
        }
    }

    /// The first credited artist, if any artist is known.
    pub open spec fn primary_artist(self) -> Option<Seq<char>> {
        if self.artists.len() > 0 {
            Some(self.artists[0])
        } else {
            None
        }
    }

    /// Field by field, `over` wins wherever it is present.
    pub open spec fn merged(self, over: MetadataView) -> MetadataView {
        MetadataView {
            title: overlay_text(self.title, over.title),
            artists: overlay_list(self.artists, over.artists),
            album: overlay_text(self.album, over.album),
            date: overlay_text(self.date, over.date),
            genres: overlay_list(self.genres, over.genres),
            lyrics: overlay_text(self.lyrics, over.lyrics),
            isrc: overlay_text(self.isrc, over.isrc),
        }
    }
}

impl Default for Metadata {
    fn default() -> (m: Metadata)
        ensures
            m@ == MetadataView::empty(),
    {
        let m = Metadata {
            title: None,
            artists: Vec::new(),
            album: None,
            date: None,
            genres: Vec::new(),
            lyrics: None,
            isrc: None,
        };
        assert(m.artists.deep_view() =~= Seq::empty());
        assert(m.genres.deep_view() =~= Seq::empty());
        m
    }
}

impl Metadata {
    /// The first credited artist, if any artist is known.
    pub fn primary_artist(&self) -> (artist: Option<&String>)
        ensures
            artist.deep_view() == self@.primary_artist(),
            artist matches Some(a) ==> *a == self.artists[0],
    {
        if self.artists.len() > 0 {
            Some(&self.artists[0])
        } else {
            None
        }
    }

    /// Lays `rhs` over `self`: every field that `rhs` knows replaces the one
    /// in `self`, every field it does not know is left as it was.
    pub fn merge(&mut self, rhs: Metadata)
        ensures
            final(self)@ == old(self)@.merged(rhs@),
    {
        if rhs.title.is_some() {
            self.title = rhs.title;
        }
        if rhs.artists.len() > 0 {
            self.artists = rhs.artists;
        }
        if rhs.album.is_some() {
            self.album = rhs.album;
        }
        if rhs.date.is_some() {
            self.date = rhs.date;
        }
        if rhs.genres.len() > 0 {
            self.genres = rhs.genres;
        }
        if rhs.lyrics.is_some() {
            self.lyrics = rhs.lyrics;
        }
        if rhs.isrc.is_some() {
            self.isrc = rhs.isrc;
        }
    }
}

impl core::ops::BitOrAssign for Metadata {
    /// `a |= b` lays `b` over `a`.
    fn bitor_assign(&mut self, rhs: Metadata)
        ensures
            final(self)@ == old(self)@.merged(rhs@),
    {
        self.merge(rhs);
    }
}

/// Merging is associative: folding records left to right gives the same
/// record however the steps are grouped.
pub proof fn lemma_merge_associative(a: MetadataView, b: MetadataView, c: MetadataView)
    ensures
        a.merged(b).merged(c) == a.merged(b.merged(c)),
{
}

/// The record that knows nothing changes nothing, on either side.
pub proof fn lemma_merge_empty(a: MetadataView)
    ensures
        a.merged(MetadataView::empty()) == a,
        MetadataView::empty().merged(a) == a,
{
    assert(MetadataView::empty().merged(a).artists =~= a.artists);
    assert(MetadataView::empty().merged(a).genres =~= a.genres);
}

/// An overlay that knows no artist, or no genre, never erases the ones the
/// base has.
pub proof fn lemma_merge_keeps_lists(a: MetadataView, b: MetadataView)
    ensures
        b.artists.len() == 0 ==> a.merged(b).artists == a.artists,
        b.genres.len() == 0 ==> a.merged(b).genres == a.genres,
{
}

/// A field the overlay knows always wins.
pub proof fn lemma_merge_overlay_wins(a: MetadataView, b: MetadataView)
    ensures
        b.title is Some ==> a.merged(b).title == b.title,
        b.album is Some ==> a.merged(b).album == b.album,
        b.date is Some ==> a.merged(b).date == b.date,
        b.lyrics is Some ==> a.merged(b).lyrics == b.lyrics,
        b.isrc is Some ==> a.merged(b).isrc == b.isrc,
        b.artists.len() > 0 ==> a.merged(b).artists == b.artists,
        b.genres.len() > 0 ==> a.merged(b).genres == b.genres,
{
}

} // verus!
