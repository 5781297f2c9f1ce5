//! What a record changes in a file's tag when it is written there.

use crate::metadata::{Metadata, MetadataView};
use crate::text::{remove_char, without};
use vstd::prelude::*;

verus! {

/// One field of a tag, set to a new value.
#[derive(Debug, Clone, PartialEq, Eq)]
pub enum TagEdit {
    Title(String),
    Artists(Vec<String>),
    Album(String),
    /// The release date, written without dashes.
    Year(String),
    Genres(Vec<String>),
    Lyrics(String),
    Isrc(String),
}

/// The mathematical content of a [`TagEdit`].
pub enum TagEditView {
    Title(Seq<char>),
    Artists(Seq<Seq<char>>),
    Album(Seq<char>),
    Year(Seq<char>),
    Genres(Seq<Seq<char>>),
    Lyrics(Seq<char>),
    Isrc(Seq<char>),
}

impl DeepView for TagEdit {
    type V = TagEditView;

    open spec fn deep_view(&self) -> TagEditView {
        match self {
            TagEdit::Title(s) => TagEditView::Title(s@),
            TagEdit::Artists(v) => TagEditView::Artists(v.deep_view()),
            TagEdit::Album(s) => TagEditView::Album(s@),
            TagEdit::Year(s) => TagEditView::Year(s@),
            TagEdit::Genres(v) => TagEditView::Genres(v.deep_view()),
            TagEdit::Lyrics(s) => TagEditView::Lyrics(s@),
            TagEdit::Isrc(s) => TagEditView::Isrc(s@),
        }
    }
}

/// The edit that a field contributes: `edit` if the record knows the
/// field, none otherwise.
pub open spec fn edit_if(known: bool, edit: TagEditView) -> Seq<TagEditView> {
    if known {
        seq![edit]
    } else {
        Seq::empty()
    }
}

/// The date as a tag holds it: without its dashes.
pub open spec fn tag_year(date: Option<Seq<char>>) -> Option<Seq<char>> {
    match date {
        Some(d) => Some(without(d, '-')),
        None => None,
    }
}

/// The edits that writing `meta` makes, in the order in which they are
/// made: one for each field that `meta` knows. What `meta` does not know
/// stays in the tag as it is.
pub open spec fn edits_for(meta: MetadataView) -> Seq<TagEditView> {
    edit_if(meta.title is Some, TagEditView::Title(meta.title->Some_0)) + edit_if(
        meta.artists.len() > 0,
        TagEditView::Artists(meta.artists),
    ) + edit_if(meta.album is Some, TagEditView::Album(meta.album->Some_0)) + edit_if(
        meta.date is Some,
        TagEditView::Year(tag_year(meta.date)->Some_0),
    ) + edit_if(meta.genres.len() > 0, TagEditView::Genres(meta.genres)) + edit_if(
        meta.lyrics is Some,
        TagEditView::Lyrics(meta.lyrics->Some_0),
    ) + edit_if(meta.isrc is Some, TagEditView::Isrc(meta.isrc->Some_0))
}

/// Appends `edit` to `edits` if the field is known.
fn push_edit(edits: &mut Vec<TagEdit>, edit: Option<TagEdit>)
    ensures
        final(edits).deep_view() == old(edits).deep_view() + edit_if(
            edit is Some,
            edit->Some_0.deep_view(),
        ),
{
    match edit {
        Some(e) => {
            edits.push(e);
            assert(edits.deep_view() =~= old(edits).deep_view() + seq![e.deep_view()]);
        },
        None => {
            assert(edits.deep_view() =~= old(edits).deep_view() + Seq::empty());
        },
    }
}

impl Metadata {
    /// The edits that writing this record to a tag makes.
    pub fn tag_edits(self) -> (edits: Vec<TagEdit>)
        ensures
            edits.deep_view() == edits_for(self@),
    {
        let mut edits: Vec<TagEdit> = Vec::new();
        assert(edits.deep_view() =~= Seq::empty());
        push_edit(
            &mut edits,
            match self.title {
                Some(title) => Some(TagEdit::Title(title)),
                None => None,
            },
        );
        push_edit(
            &mut edits,
            if self.artists.len() > 0 {
                Some(TagEdit::Artists(self.artists))
            } else {
                None
            },
        );
        push_edit(
            &mut edits,
            match self.album {
                Some(album) => Some(TagEdit::Album(album)),
                None => None,
            },
        );
        push_edit(
            &mut edits,
            match self.date {
                Some(date) => Some(TagEdit::Year(remove_char(date.as_str(), '-'))),
                None => None,
            },
        );
        push_edit(
            &mut edits,
            if self.genres.len() > 0 {
                Some(TagEdit::Genres(self.genres))
            } else {
                None
            },
        );
        push_edit(
            &mut edits,
            match self.lyrics {
                Some(lyrics) => Some(TagEdit::Lyrics(lyrics)),
                None => None,
            },
        );
        push_edit(
            &mut edits,
            match self.isrc {
                Some(isrc) => Some(TagEdit::Isrc(isrc)),
                None => None,
            },
        );
        assert(edits.deep_view() =~= edits_for(self@));
        edits
    }
}

/// A record that knows nothing changes nothing in a tag.
pub proof fn lemma_nothing_known_nothing_written()
    ensures
        edits_for(MetadataView::empty()) == Seq::<TagEditView>::empty(),
{
    assert(edits_for(MetadataView::empty()) =~= Seq::<TagEditView>::empty());
}

} // verus!
