use config::Config;
use recordbox::configuration::{Configuration, DirectoryProblem};
use recordbox::error::{Error, Required};
use recordbox::spotifydb::SpotifyDB;

fn settings(pairs: &[(&str, &str)]) -> Config {
    let mut builder = Config::builder();
    for (k, v) in pairs {
        builder = builder.set_override(*k, *v).unwrap();
    }
    builder.build().unwrap()
}

#[test]
fn open_configures_the_catalog_from_its_setting() {
    let with = Configuration::open(settings(&[("spotifydb", "catalog.sqlite3"), ("downloads", "/tmp")]));
    assert_eq!(with.metadatasources.spotifydb, Some(SpotifyDB { dbfile: "catalog.sqlite3".to_string() }));
    let without = Configuration::open(settings(&[("downloads", "/tmp")]));
    assert_eq!(without.metadatasources.spotifydb, None);
}

#[test]
fn get_bool_reads_truth_values() {
    let c = Configuration::open(settings(&[("yes", "true"), ("no", "false"), ("text", "maybe")]));
    assert_eq!(c.get_bool("yes"), Some(true));
    assert_eq!(c.get_bool("no"), Some(false));
    assert_eq!(c.get_bool("text"), None);
    assert_eq!(c.get_bool("absent"), None);
}

#[test]
fn get_directory_reads_the_setting_or_says_unset() {
    let c = Configuration::open(settings(&[("downloads", "/tmp/music")]));
    assert_eq!(c.get_directory("downloads"), Ok("/tmp/music".to_string()));
    assert_eq!(c.get_directory("uploads"), Err("Directory 'uploads' unset".to_string()));
}

#[test]
fn directory_problems_in_words() {
    assert_eq!(Configuration::directory_problem("downloads", DirectoryProblem::Unset), "Directory 'downloads' unset");
    assert_eq!(
        Configuration::directory_problem("downloads", DirectoryProblem::Missing),
        "Directory 'downloads' does not exist"
    );
    assert_eq!(
        Configuration::directory_problem("downloads", DirectoryProblem::WrongType),
        "Directory 'downloads' is of wrong type"
    );
}

#[test]
fn errors_in_words() {
    assert_eq!(Error::MissingRequiredField(Required::TitleOrIsrc).message(), "Required Fields: title or isrc");
    assert_eq!(Error::MissingRequiredField(Required::Title).message(), "Required Field: title");
    assert_eq!(Error::MissingRequiredField(Required::Artists).message(), "Required Field: artists");
    assert_eq!(Error::TransportError("timed out".to_string()).message(), "timed out");
    assert_eq!(Error::ParseError("missing field `data`".to_string()).message(), "missing field `data`");
    assert_eq!(Error::StorageError("no such table: tracks".to_string()).message(), "no such table: tracks");
}
