use recordbox::deezer::{Deezer, DeezerTrack};
use recordbox::error::{Error, Required};
use recordbox::metadata::Metadata;

fn s(text: &str) -> String {
    text.to_string()
}

fn missing() -> Result<String, Error> {
    Err(Error::MissingRequiredField(Required::TitleOrIsrc))
}

#[test]
fn rmparens_strips_round_and_square() {
    assert_eq!(Deezer::rmparens("Song (Remix) [Radio Edit]"), "Song");
}

#[test]
fn rmparens_unbalanced_open_drops_the_rest() {
    assert_eq!(Deezer::rmparens("Only (Paren"), "Only");
    assert_eq!(Deezer::rmparens("A [b (c) d"), "A");
    assert_eq!(Deezer::rmparens("(never closed"), "");
}

#[test]
fn rmparens_keeps_what_stands_outside() {
    assert_eq!(Deezer::rmparens("Plain title"), "Plain title");
    assert_eq!(Deezer::rmparens("A (x) B"), "A  B");
    assert_eq!(Deezer::rmparens("(Intro) Song"), "Song");
    assert_eq!(Deezer::rmparens("  spaced  "), "spaced");
    assert_eq!(Deezer::rmparens(""), "");
    assert_eq!(Deezer::rmparens("(all)"), "");
    assert_eq!(Deezer::rmparens("Été (live) à Paris"), "Été  à Paris");
}

#[test]
fn rmparens_nests_and_mixes_bracket_kinds() {
    assert_eq!(Deezer::rmparens("a (b (c) d) e"), "a  e");
    assert_eq!(Deezer::rmparens("a (b [c) d] e"), "a  e");
    assert_eq!(Deezer::rmparens("a (b] c"), "a  c");
}

#[test]
fn rmparens_stray_close_hides_until_reopened() {
    assert_eq!(Deezer::rmparens("a) b"), "a");
    assert_eq!(Deezer::rmparens("a) b ( c"), "a c");
    assert_eq!(Deezer::rmparens(")x(y"), "y");
}

#[test]
fn deezer_strict_fails_without_title_and_isrc() {
    assert_eq!(Deezer::query(&Metadata::default(), false), missing());
    let only_artist = Metadata { artists: vec![s("X")], ..Metadata::default() };
    assert_eq!(Deezer::query(&only_artist, false), missing());
    let rest = Metadata {
        artists: vec![s("X")],
        album: Some(s("Al")),
        date: Some(s("2020-01-01")),
        genres: vec![s("g")],
        lyrics: Some(s("l")),
        ..Metadata::default()
    };
    assert_eq!(Deezer::query(&rest, false), missing());
}

#[test]
fn deezer_strict_one_clause_per_present_field() {
    let all = Metadata {
        title: Some(s("Song")),
        artists: vec![s("First"), s("Second")],
        isrc: Some(s("USRC17607839")),
        album: Some(s("ignored")),
        ..Metadata::default()
    };
    assert_eq!(
        Deezer::query(&all, false),
        Ok(s("track:\"Song\" artist:\"First\" isrc:\"USRC17607839\""))
    );
    let title_only = Metadata { title: Some(s("Song (Live)")), ..Metadata::default() };
    assert_eq!(Deezer::query(&title_only, false), Ok(s("track:\"Song (Live)\"")));
    let isrc_only = Metadata { isrc: Some(s("USRC17607839")), ..Metadata::default() };
    assert_eq!(Deezer::query(&isrc_only, false), Ok(s("isrc:\"USRC17607839\"")));
    let title_artist = Metadata { title: Some(s("T")), artists: vec![s("A")], ..Metadata::default() };
    assert_eq!(Deezer::query(&title_artist, false), Ok(s("track:\"T\" artist:\"A\"")));
    let empty_title = Metadata { title: Some(s("")), ..Metadata::default() };
    assert_eq!(Deezer::query(&empty_title, false), Ok(s("track:\"\"")));
}

#[test]
fn deezer_fuzzy_isrc_wins_over_everything() {
    let isrc_only = Metadata { isrc: Some(s("USRC17607839")), ..Metadata::default() };
    assert_eq!(Deezer::query(&isrc_only, true), Ok(s("isrc: \"USRC17607839\"")));
    let all = Metadata {
        title: Some(s("Song")),
        artists: vec![s("First")],
        album: Some(s("Al")),
        date: Some(s("2020-01-01")),
        genres: vec![s("g")],
        lyrics: Some(s("l")),
        isrc: Some(s("USRC17607839")),
    };
    assert_eq!(Deezer::query(&all, true), Ok(s("isrc: \"USRC17607839\"")));
}

#[test]
fn deezer_fuzzy_artist_and_stripped_title() {
    let m = Metadata {
        title: Some(s("Song (Remix) [Radio Edit]")),
        artists: vec![s("First"), s("Second")],
        ..Metadata::default()
    };
    assert_eq!(Deezer::query(&m, true), Ok(s("First - Song")));
    let no_artist = Metadata { title: Some(s(" Song (Remix)")), ..Metadata::default() };
    assert_eq!(Deezer::query(&no_artist, true), Ok(s("Song")));
    let artist_only_left = Metadata { title: Some(s("(Remix)")), artists: vec![s("A")], ..Metadata::default() };
    assert_eq!(Deezer::query(&artist_only_left, true), Ok(s("A - ")));
}

#[test]
fn deezer_fuzzy_fails_without_title_and_isrc_or_on_empty_expression() {
    assert_eq!(Deezer::query(&Metadata::default(), true), missing());
    let only_artist = Metadata { artists: vec![s("X")], ..Metadata::default() };
    assert_eq!(Deezer::query(&only_artist, true), missing());
    let nothing_left = Metadata { title: Some(s("(Remix)")), ..Metadata::default() };
    assert_eq!(Deezer::query(&nothing_left, true), missing());
    let empty_title = Metadata { title: Some(s("")), ..Metadata::default() };
    assert_eq!(Deezer::query(&empty_title, true), missing());
}

#[test]
fn deezer_params_ask_for_the_best_match() {
    assert_eq!(
        Deezer::params(s("track:\"Song\"")),
        vec![(s("q"), s("track:\"Song\"")), (s("limit"), s("1"))]
    );
    assert_eq!(Deezer::ENDPOINT, "https://api.deezer.com/search/track");
}

fn track(n: &str) -> DeezerTrack {
    DeezerTrack {
        title_short: format!("title {}", n),
        isrc: format!("isrc {}", n),
        artist: format!("artist {}", n),
        album: format!("album {}", n),
    }
}

#[test]
fn deezer_candidates_keep_the_first_track_only() {
    assert_eq!(Deezer::candidates(vec![]), vec![]);
    let one = Metadata {
        title: Some(s("title 1")),
        artists: vec![s("artist 1")],
        album: Some(s("album 1")),
        isrc: Some(s("isrc 1")),
        ..Metadata::default()
    };
    assert_eq!(Deezer::candidates(vec![track("1")]), vec![one.clone()]);
    assert_eq!(Deezer::candidates(vec![track("1"), track("2"), track("3")]), vec![one]);
}

#[test]
fn rmparens_once_is_enough() {
    for title in [
        "Song (Remix) [Radio Edit]",
        "Only (Paren",
        "a) b ( c",
        "  (x)  y  [z]  ",
        ")(",
        "plain",
        "",
    ] {
        let once = Deezer::rmparens(title);
        assert!(!once.contains(|c| "()[]".contains(c)), "{:?}", title);
        assert_eq!(Deezer::rmparens(&once), once, "{:?}", title);
    }
}
