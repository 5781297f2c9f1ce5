use recordbox::metadata::Metadata;
use recordbox::spotifydb::SpotifyDB;

fn s(text: &str) -> String {
    text.to_string()
}

const HEAD: &str = "SELECT 
    tracks.name AS track,
    albums.name AS album,
    jsonb_group_array(artists.name) AS artists,
    tracks.external_id_isrc AS isrc
FROM tracks
    JOIN albums ON tracks.album_rowid = albums.rowid
    JOIN track_artists ON tracks.rowid = track_artists.track_rowid
    JOIN artists ON track_artists.artist_rowid = artists.rowid
WHERE
";

const TAIL: &str = "
GROUP BY tracks.rowid;";

fn any_artist(placeholders: &str) -> String {
    format!(
        "    EXISTS (
        SELECT 1
        FROM track_artists ta
        JOIN artists a ON ta.artist_rowid = a.rowid
        WHERE ta.track_rowid = tracks.rowid
            AND a.name IN ({})
    )",
        placeholders
    )
}

#[test]
fn build_query_with_every_field() {
    let m = Metadata {
        title: Some(s("Song")),
        artists: vec![s("A"), s("B")],
        album: Some(s("Album")),
        isrc: Some(s("USRC17607839")),
        date: Some(s("2020-01-01")),
        genres: vec![s("g")],
        lyrics: Some(s("l")),
    };
    let (sql, params) = SpotifyDB::build_query(&m);
    let expected = format!(
        "{}    tracks.name = :title AND\n{} AND\n    albums.name = :album AND\n    tracks.external_id_isrc = :isrc{}",
        HEAD,
        any_artist(":artist_0, :artist_1"),
        TAIL
    );
    assert_eq!(sql, expected);
    assert_eq!(
        params,
        vec![
            (s(":title"), s("Song")),
            (s(":artist_0"), s("A")),
            (s(":artist_1"), s("B")),
            (s(":album"), s("Album")),
            (s(":isrc"), s("USRC17607839")),
        ]
    );
}

#[test]
fn build_query_leaves_absent_fields_out() {
    let (sql, params) = SpotifyDB::build_query(&Metadata { title: Some(s("Song")), ..Metadata::default() });
    assert_eq!(sql, format!("{}    tracks.name = :title{}", HEAD, TAIL));
    assert_eq!(params, vec![(s(":title"), s("Song"))]);

    let (sql, params) = SpotifyDB::build_query(&Metadata { isrc: Some(s("I")), album: Some(s("Al")), ..Metadata::default() });
    assert_eq!(sql, format!("{}    albums.name = :album AND\n    tracks.external_id_isrc = :isrc{}", HEAD, TAIL));
    assert_eq!(params, vec![(s(":album"), s("Al")), (s(":isrc"), s("I"))]);

    let (sql, params) = SpotifyDB::build_query(&Metadata::default());
    assert_eq!(sql, format!("{}{}", HEAD, TAIL));
    assert_eq!(params, vec![]);
}

#[test]
fn build_query_names_one_placeholder_per_artist() {
    let artists: Vec<String> = (0..12).map(|i| format!("artist {}", i)).collect();
    let (sql, params) = SpotifyDB::build_query(&Metadata { artists: artists.clone(), ..Metadata::default() });
    let names: Vec<String> = (0..12).map(|i| format!(":artist_{}", i)).collect();
    assert_eq!(sql, format!("{}{}{}", HEAD, any_artist(&names.join(", ")), TAIL));
    let expected: Vec<(String, String)> = names.into_iter().zip(artists).collect();
    assert_eq!(params, expected);
}

#[test]
fn record_takes_the_columns() {
    assert_eq!(
        SpotifyDB::record(Some(s("T")), Some(s("Al")), Some(vec![s("A"), s("B")]), Some(s("I"))),
        Metadata {
            title: Some(s("T")),
            artists: vec![s("A"), s("B")],
            album: Some(s("Al")),
            isrc: Some(s("I")),
            ..Metadata::default()
        }
    );
    assert_eq!(SpotifyDB::record(None, None, None, None), Metadata::default());
    assert_eq!(SpotifyDB::record(None, None, Some(vec![]), None), Metadata::default());
}

#[test]
fn new_keeps_the_file() {
    assert_eq!(SpotifyDB::new(s("catalog.sqlite3")).dbfile, "catalog.sqlite3");
}
