use recordbox::metadata::Metadata;

fn s(text: &str) -> String {
    text.to_string()
}

fn titled(title: &str) -> Metadata {
    Metadata { title: Some(s(title)), ..Metadata::default() }
}

#[test]
fn default_knows_nothing() {
    let m = Metadata::default();
    assert_eq!(m.title, None);
    assert!(m.artists.is_empty());
    assert_eq!(m.album, None);
    assert_eq!(m.date, None);
    assert!(m.genres.is_empty());
    assert_eq!(m.lyrics, None);
    assert_eq!(m.isrc, None);
}

#[test]
fn merge_keeps_title_and_takes_artists() {
    let mut base = titled("A");
    let overlay = Metadata { artists: vec![s("X")], ..Metadata::default() };
    base.merge(overlay);
    assert_eq!(base, Metadata { title: Some(s("A")), artists: vec![s("X")], ..Metadata::default() });
}

#[test]
fn merge_empty_list_never_overrides() {
    let mut base = Metadata { artists: vec![s("A")], ..Metadata::default() };
    base.merge(Metadata { artists: vec![], ..Metadata::default() });
    assert_eq!(base, Metadata { artists: vec![s("A")], ..Metadata::default() });

    let mut base = Metadata { genres: vec![s("rock")], ..Metadata::default() };
    base.merge(Metadata::default());
    assert_eq!(base.genres, vec![s("rock")]);
}

#[test]
fn merge_overlay_wins_field_by_field() {
    let mut base = Metadata {
        title: Some(s("old")),
        artists: vec![s("a"), s("b")],
        album: Some(s("old album")),
        date: Some(s("2001-01-01")),
        genres: vec![s("pop")],
        lyrics: Some(s("la")),
        isrc: Some(s("AAAA00000001")),
    };
    let overlay = Metadata {
        title: Some(s("new")),
        artists: vec![s("c")],
        album: None,
        date: Some(s("20020202")),
        genres: vec![],
        lyrics: None,
        isrc: Some(s("BBBB00000002")),
    };
    base.merge(overlay);
    assert_eq!(
        base,
        Metadata {
            title: Some(s("new")),
            artists: vec![s("c")],
            album: Some(s("old album")),
            date: Some(s("20020202")),
            genres: vec![s("pop")],
            lyrics: Some(s("la")),
            isrc: Some(s("BBBB00000002")),
        }
    );
}

#[test]
fn merge_present_empty_text_still_wins() {
    let mut base = titled("A");
    base.merge(titled(""));
    assert_eq!(base.title, Some(s("")));
}

#[test]
fn merge_with_nothing_is_identity() {
    let full = Metadata {
        title: Some(s("t")),
        artists: vec![s("a")],
        album: Some(s("al")),
        date: Some(s("2020-02-02")),
        genres: vec![s("g")],
        lyrics: Some(s("l")),
        isrc: Some(s("i")),
    };
    let mut left = full.clone();
    left.merge(Metadata::default());
    assert_eq!(left, full);
    let mut right = Metadata::default();
    right.merge(full.clone());
    assert_eq!(right, full);
}

#[test]
fn merge_is_associative_on_samples() {
    let a = Metadata { title: Some(s("a")), artists: vec![s("x")], ..Metadata::default() };
    let b = Metadata { album: Some(s("b")), artists: vec![], lyrics: Some(s("lb")), ..Metadata::default() };
    let c = Metadata { title: Some(s("c")), genres: vec![s("g")], ..Metadata::default() };

    let mut left = a.clone();
    left.merge(b.clone());
    left.merge(c.clone());

    let mut bc = b.clone();
    bc.merge(c.clone());
    let mut right = a.clone();
    right.merge(bc);

    assert_eq!(left, right);
    assert_eq!(
        left,
        Metadata {
            title: Some(s("c")),
            artists: vec![s("x")],
            album: Some(s("b")),
            date: None,
            genres: vec![s("g")],
            lyrics: Some(s("lb")),
            isrc: None,
        }
    );
}

#[test]
fn bitor_assign_is_merge() {
    let mut base = titled("A");
    base |= Metadata { artists: vec![s("X")], ..Metadata::default() };
    assert_eq!(base.title, Some(s("A")));
    assert_eq!(base.artists, vec![s("X")]);
}

#[test]
fn primary_artist_is_the_first() {
    let m = Metadata { artists: vec![s("first"), s("second")], ..Metadata::default() };
    assert_eq!(m.primary_artist(), Some(&s("first")));
    assert_eq!(Metadata::default().primary_artist(), None);
}
