use recordbox::error::{Error, Required};
use recordbox::metadata::Metadata;
use recordbox::sources::{MetadataSources, Provider};
use recordbox::spotifydb::SpotifyDB;

fn s(text: &str) -> String {
    text.to_string()
}

fn titled(title: &str) -> Metadata {
    Metadata { title: Some(s(title)), ..Metadata::default() }
}

#[test]
fn new_configures_the_catalog_only_with_a_file() {
    let without = MetadataSources::new(None);
    assert_eq!(without.spotifydb, None);
    let with = MetadataSources::new(Some(s("catalog.sqlite3")));
    assert_eq!(with.spotifydb, Some(SpotifyDB { dbfile: s("catalog.sqlite3") }));
}

#[test]
fn strict_asks_every_configured_source() {
    let four = MetadataSources::new(Some(s("db")));
    assert_eq!(
        four.providers(false),
        vec![Provider::SpotifyDB, Provider::LRCLib, Provider::Deezer, Provider::MusicBrainz]
    );
    let three = MetadataSources::new(None);
    assert_eq!(three.providers(false), vec![Provider::LRCLib, Provider::Deezer, Provider::MusicBrainz]);
}

#[test]
fn fuzzy_asks_only_the_free_text_sources() {
    let four = MetadataSources::new(Some(s("db")));
    assert_eq!(four.providers(true), vec![Provider::Deezer, Provider::MusicBrainz]);
    let three = MetadataSources::new(None);
    assert_eq!(three.providers(true), vec![Provider::Deezer, Provider::MusicBrainz]);
    for p in four.providers(true) {
        assert!(p.supports_fuzzy());
    }
}

#[test]
fn which_sources_support_fuzzy() {
    assert!(Provider::Deezer.supports_fuzzy());
    assert!(Provider::MusicBrainz.supports_fuzzy());
    assert!(!Provider::LRCLib.supports_fuzzy());
    assert!(!Provider::SpotifyDB.supports_fuzzy());
}

#[test]
fn one_failure_of_three_fails_the_call() {
    let boom = Error::TransportError(s("connection refused"));
    for k in 0..3 {
        let mut answers = vec![Ok(vec![titled("a")]), Ok(vec![titled("b"), titled("c")]), Ok(vec![])];
        answers[k] = Err(boom.clone());
        assert_eq!(MetadataSources::collect(answers), Err(boom.clone()), "failure at {}", k);
    }
}

#[test]
fn first_failure_in_dispatch_order_is_reported() {
    let answers = vec![
        Ok(vec![titled("a")]),
        Err(Error::ParseError(s("second"))),
        Err(Error::StorageError(s("third"))),
        Err(Error::MissingRequiredField(Required::Title)),
    ];
    assert_eq!(MetadataSources::collect(answers), Err(Error::ParseError(s("second"))));
    let all_fail = vec![Err(Error::MissingRequiredField(Required::Title)), Err(Error::TransportError(s("x")))];
    assert_eq!(MetadataSources::collect(all_fail), Err(Error::MissingRequiredField(Required::Title)));
}

#[test]
fn all_success_flattens_in_dispatch_order() {
    let answers = vec![
        Ok(vec![titled("a1"), titled("a2")]),
        Ok(vec![]),
        Ok(vec![titled("c1")]),
        Ok(vec![titled("a1")]),
    ];
    assert_eq!(
        MetadataSources::collect(answers),
        Ok(vec![titled("a1"), titled("a2"), titled("c1"), titled("a1")])
    );
}

#[test]
fn no_sources_no_records() {
    assert_eq!(MetadataSources::collect(vec![]), Ok(vec![]));
    assert_eq!(MetadataSources::collect(vec![Ok(vec![]), Ok(vec![])]), Ok(vec![]));
}
