use recordbox::metadata::Metadata;
use recordbox::tag::TagEdit;

fn s(text: &str) -> String {
    text.to_string()
}

#[test]
fn tag_edits_one_for_each_known_field() {
    let m = Metadata {
        title: Some(s("T")),
        artists: vec![s("A"), s("B")],
        album: Some(s("Al")),
        date: Some(s("2024-02-29")),
        genres: vec![s("rock")],
        lyrics: Some(s("la la")),
        isrc: Some(s("USRC17607839")),
    };
    assert_eq!(
        m.tag_edits(),
        vec![
            TagEdit::Title(s("T")),
            TagEdit::Artists(vec![s("A"), s("B")]),
            TagEdit::Album(s("Al")),
            TagEdit::Year(s("20240229")),
            TagEdit::Genres(vec![s("rock")]),
            TagEdit::Lyrics(s("la la")),
            TagEdit::Isrc(s("USRC17607839")),
        ]
    );
}

#[test]
fn tag_edits_leave_unknown_fields_alone() {
    assert_eq!(Metadata::default().tag_edits(), vec![]);
    let m = Metadata { album: Some(s("Al")), genres: vec![s("g")], ..Metadata::default() };
    assert_eq!(m.tag_edits(), vec![TagEdit::Album(s("Al")), TagEdit::Genres(vec![s("g")])]);
}

#[test]
fn tag_year_has_no_dashes() {
    for (date, year) in [("2024-02-29", "20240229"), ("20240229", "20240229"), ("2024", "2024"), ("-", ""), ("", "")] {
        let m = Metadata { date: Some(s(date)), ..Metadata::default() };
        assert_eq!(m.tag_edits(), vec![TagEdit::Year(s(year))], "{:?}", date);
    }
}
