//! The local catalog: the parametrized lookup that is run against it, and
//! what becomes of the rows it returns.

use crate::jsonb::{read_strings, strings_in};
use crate::metadata::{Metadata, MetadataView};
use crate::text::{decimal, join, joined, lemma_decimal_injective, push_decimal};
use vstd::prelude::*;
use vstd::string::StringExecFns;

verus! {

/// The local catalog source: a database file.
#[derive(Debug, Clone, PartialEq, Eq)]
pub struct SpotifyDB {
    pub dbfile: String,
}

/// The name of the parameter that carries the artist at position `i`.
pub open spec fn artist_placeholder(i: int) -> Seq<char> {
    ":artist_"@ + decimal(i as nat)
}

/// The names of the parameters that carry `n` artists.
pub open spec fn artist_placeholders(n: nat) -> Seq<Seq<char>> {
    Seq::new(n, |i: int| artist_placeholder(i))
}

/// The conditions that a field contributes: `condition` if its value is
/// present, none otherwise.
pub open spec fn condition_for(condition: Seq<char>, value: Option<Seq<char>>) -> Seq<Seq<char>> {
    if value is Some {
        seq![condition]
    } else {
        Seq::empty()
    }
}

/// The parameters that a field contributes: its value under `name` if it
/// is present, none otherwise.
pub open spec fn param_for(name: Seq<char>, value: Option<Seq<char>>) -> Seq<
    (Seq<char>, Seq<char>),
> {
    match value {
        Some(v) => seq![(name, v)],
        None => Seq::empty(),
    }
}

impl SpotifyDB {
    /// The condition that holds of a track when one of its artists is among
    /// the `n` that the parameters carry.
    pub open spec fn any_artist(n: nat) -> Seq<char> {
        "    EXISTS (\n        SELECT 1\n        FROM track_artists ta\n        JOIN artists a ON ta.artist_rowid = a.rowid\n        WHERE ta.track_rowid = tracks.rowid\n            AND a.name IN ("@
            + joined(artist_placeholders(n), ", "@) + ")\n    )"@
    }

    /// The conditions for `meta`, in their order: title, artists, album,
    /// ISRC. All of them must hold of a track.
    pub open spec fn conditions(meta: MetadataView) -> Seq<Seq<char>> {
        condition_for("    tracks.name = :title"@, meta.title) + (if meta.artists.len() > 0 {
            seq![SpotifyDB::any_artist(meta.artists.len())]
        } else {
            Seq::empty()
        }) + condition_for("    albums.name = :album"@, meta.album) + condition_for(
            "    tracks.external_id_isrc = :isrc"@,
            meta.isrc,
        )
    }

    /// The lookup for `meta`: tracks with their album, artists and ISRC,
    /// of which every condition holds.
    pub open spec fn statement(meta: MetadataView) -> Seq<char> {
        "SELECT \n    tracks.name AS track,\n    albums.name AS album,\n    jsonb_group_array(artists.name) AS artists,\n    tracks.external_id_isrc AS isrc\nFROM tracks\n    JOIN albums ON tracks.album_rowid = albums.rowid\n    JOIN track_artists ON tracks.rowid = track_artists.track_rowid\n    JOIN artists ON track_artists.artist_rowid = artists.rowid\nWHERE\n"@
            + joined(SpotifyDB::conditions(meta), " AND\n"@) + "\nGROUP BY tracks.rowid;"@
    }

    /// The parameters that carry the artists, each under its placeholder.
    pub open spec fn artist_params(artists: Seq<Seq<char>>) -> Seq<(Seq<char>, Seq<char>)> {
        Seq::new(artists.len(), |i: int| (artist_placeholder(i), artists[i]))
    }

    /// The values that the lookup's parameters are bound to, in the order of
    /// the conditions.
    pub open spec fn bindings(meta: MetadataView) -> Seq<(Seq<char>, Seq<char>)> {
        param_for(":title"@, meta.title) + SpotifyDB::artist_params(meta.artists) + param_for(
            ":album"@,
            meta.album,
        ) + param_for(":isrc"@, meta.isrc)
    }

    /// The record made from one row: what the row holds, with the artists
    /// where they could be read.
    pub open spec fn candidate(
        title: Option<Seq<char>>,
        album: Option<Seq<char>>,
        artists: Option<Seq<Seq<char>>>,
        isrc: Option<Seq<char>>,
    ) -> MetadataView {
        MetadataView {
            title,
            album,
            artists: match artists {
                Some(a) => a,
                None => Seq::empty(),
            },
            isrc,
            ..MetadataView::empty()
        }
    }

    /// The artists that a row's column of artists holds: the list of texts
    /// that it encodes, as far as it can be read.
    pub open spec fn artists_in(column: Option<Seq<u8>>) -> Option<Seq<Seq<char>>> {
        match column {
            Some(bytes) => strings_in(bytes),
            None => None,
        }
    }

    /// The catalog kept in the file `dbfile`.
    pub fn new(dbfile: String) -> (db: SpotifyDB)
        ensures
            db.dbfile == dbfile,
    {
        SpotifyDB { dbfile }
    }

    /// Builds the lookup for `meta`: the statement and the values of its
    /// parameters. A track matches when its title, album and ISRC equal
    /// those `meta` knows, and one of its artists is among `meta`'s.
    pub fn build_query(meta: &Metadata) -> (q: (String, Vec<(String, String)>))
        ensures
            q.0@ == SpotifyDB::statement(meta@),
            q.1.deep_view() == SpotifyDB::bindings(meta@),
    {
        let mut where_clause: Vec<String> = Vec::new();
        let mut named_params: Vec<(String, String)> = Vec::new();
        assert(where_clause.deep_view() =~= Seq::empty());
        assert(named_params.deep_view() =~= Seq::empty());

        if let Some(title) = &meta.title {
            where_clause.push(String::from_str("    tracks.name = :title"));
            named_params.push((String::from_str(":title"), title.clone()));
        }
        assert(where_clause.deep_view() =~= condition_for(
            "    tracks.name = :title"@,
            meta@.title,
        ));
        assert(named_params.deep_view() =~= param_for(":title"@, meta@.title));
        if meta.artists.len() > 0 {
            let ghost before = named_params.deep_view();
            let mut artist_list: Vec<String> = Vec::new();
            let mut i: usize = 0;
            while i < meta.artists.len()
                invariant
                    i <= meta.artists.len(),
                    artist_list.deep_view() =~= artist_placeholders(i as nat),
                    named_params.deep_view() =~= before + SpotifyDB::artist_params(
                        meta@.artists,
                    ).take(i as int),
                decreases meta.artists.len() - i,
            {
                let ghost list_before = artist_list.deep_view();
                let ghost params_before = named_params.deep_view();
                let mut placeholder = String::from_str(":artist_");
                push_decimal(&mut placeholder, i);
                named_params.push((placeholder.clone(), meta.artists[i].clone()));
                artist_list.push(placeholder);
                proof {
                    assert(meta@.artists[i as int] == meta.artists[i as int]@);
                    assert(artist_list.deep_view() =~= list_before.push(
                        artist_placeholder(i as int),
                    ));
                    assert(named_params.deep_view() =~= params_before.push(
                        (artist_placeholder(i as int), meta@.artists[i as int]),
                    ));
                }
                i += 1;
            }
            assert(SpotifyDB::artist_params(meta@.artists).take(i as int)
                =~= SpotifyDB::artist_params(meta@.artists));
            let mut exists = String::from_str(
                "    EXISTS (\n        SELECT 1\n        FROM track_artists ta\n        JOIN artists a ON ta.artist_rowid = a.rowid\n        WHERE ta.track_rowid = tracks.rowid\n            AND a.name IN (",
            );
            exists.append(join(&artist_list, ", ").as_str());
            exists.append(")\n    )");
            where_clause.push(exists);
        } else {
            assert(SpotifyDB::artist_params(meta@.artists) =~= Seq::empty());
        }
        if let Some(album) = &meta.album {
            where_clause.push(String::from_str("    albums.name = :album"));
            named_params.push((String::from_str(":album"), album.clone()));
        }
        if let Some(isrc) = &meta.isrc {
            where_clause.push(String::from_str("    tracks.external_id_isrc = :isrc"));
            named_params.push((String::from_str(":isrc"), isrc.clone()));
        }
        assert(where_clause.deep_view() =~= SpotifyDB::conditions(meta@));
        assert(named_params.deep_view() =~= SpotifyDB::bindings(meta@));

        let mut statement = String::from_str(
            "SELECT \n    tracks.name AS track,\n    albums.name AS album,\n    jsonb_group_array(artists.name) AS artists,\n    tracks.external_id_isrc AS isrc\nFROM tracks\n    JOIN albums ON tracks.album_rowid = albums.rowid\n    JOIN track_artists ON tracks.rowid = track_artists.track_rowid\n    JOIN artists ON track_artists.artist_rowid = artists.rowid\nWHERE\n",
        );
        statement.append(join(&where_clause, " AND\n").as_str());
        statement.append("\nGROUP BY tracks.rowid;");
        (statement, named_params)
    }

    /// The record for one row of the lookup's answer, given its columns as
    /// far as they could be read. The artists come encoded, as the lookup
    /// groups them; where they cannot be decoded the record has none.
    pub fn row(
        title: Option<String>,
        album: Option<String>,
        artists: Option<Vec<u8>>,
        isrc: Option<String>,
    ) -> (m: Metadata)
        ensures
            m@ == SpotifyDB::candidate(
                title.deep_view(),
                album.deep_view(),
                SpotifyDB::artists_in(artists.deep_view()),
                isrc.deep_view(),
            ),
    {
        let names = match &artists {
            Some(bytes) => {
                assert(bytes.deep_view() =~= bytes@);
                read_strings(bytes.as_slice())
            },
            None => None,
        };
        SpotifyDB::record(title, album, names, isrc)
    }

    /// The record for one row of the lookup's answer, given its columns and
    /// the artists as far as they could be read.
    pub fn record(
        title: Option<String>,
        album: Option<String>,
        artists: Option<Vec<String>>,
        isrc: Option<String>,
    ) -> (m: Metadata)
        ensures
            m@ == SpotifyDB::candidate(
                title.deep_view(),
                album.deep_view(),
                artists.deep_view(),
                isrc.deep_view(),
            ),
    {
        let artists = match artists {
            Some(a) => a,
            None => {
                let a: Vec<String> = Vec::new();
                assert(a.deep_view() =~= Seq::empty());
                a
            },
        };
        let m = Metadata {
            title,
            artists,
            album,
            date: None,
            genres: Vec::new(),
            lyrics: None,
            isrc,
        };
        assert(m.genres.deep_view() =~= Seq::empty());
        m
    }
}

/// No two artists share a parameter: different positions have different
/// placeholders.
pub proof fn lemma_artist_placeholders_distinct(i: nat, j: nat)
    requires
        artist_placeholder(i as int) == artist_placeholder(j as int),
    ensures
        i == j,
{
    let prefix = ":artist_"@;
    assert(decimal(i) =~= artist_placeholder(i as int).skip(prefix.len() as int));
    assert(decimal(j) =~= artist_placeholder(j as int).skip(prefix.len() as int));
    lemma_decimal_injective(i, j);
}

/// Every artist of the record is bound, under the placeholder of its
/// position, and the lookup names that placeholder.
pub proof fn lemma_every_artist_is_bound(meta: MetadataView, i: int)
    requires
        0 <= i < meta.artists.len(),
    ensures
        SpotifyDB::bindings(meta).contains((artist_placeholder(i), meta.artists[i])),
        artist_placeholders(meta.artists.len())[i] == artist_placeholder(i),
        SpotifyDB::conditions(meta).contains(SpotifyDB::any_artist(meta.artists.len())),
{
    let before = param_for(":title"@, meta.title);
    let b = SpotifyDB::bindings(meta);
    assert(b[before.len() + i] == (artist_placeholder(i), meta.artists[i]));
    let c = SpotifyDB::conditions(meta);
    let k = condition_for("    tracks.name = :title"@, meta.title).len() as int;
    assert(c[k] == SpotifyDB::any_artist(meta.artists.len()));
}

} // verus!
