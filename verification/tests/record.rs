use now_playing::json::{Member, SyntaxError};
use now_playing::player::{PlayerState, TrackInfo};
use now_playing::record::{classify, decode_record, Record, RecordFault, TrackField};

fn text(s: &str) -> Option<Member> {
    Some(Member::Text(s.to_string()))
}

fn record(tag: &str) -> Record {
    Record { tag: text(tag), artist: text("Radiohead"), name: text("Idioteque"), album: text("Kid A") }
}

fn track(artist: &str, name: &str, album: &str) -> TrackInfo {
    TrackInfo::new(artist.to_string(), name.to_string(), album.to_string()).unwrap()
}

fn idioteque() -> TrackInfo {
    track("Radiohead", "Idioteque", "Kid A")
}

const PLAYING: &str =
    "{\"type\":\"Playing\",\"artist\":\"Radiohead\",\"name\":\"Idioteque\",\"album\":\"Kid A\"}";

#[test]
fn a_track_has_no_empty_text() {
    assert_eq!(TrackInfo::new("".to_string(), "n".to_string(), "b".to_string()), None);
    assert_eq!(TrackInfo::new("a".to_string(), "".to_string(), "b".to_string()), None);
    assert_eq!(TrackInfo::new("a".to_string(), "n".to_string(), "".to_string()), None);
    assert_eq!(TrackInfo::new("".to_string(), "".to_string(), "".to_string()), None);
    let t = TrackInfo::new("a".to_string(), "n".to_string(), "b".to_string()).unwrap();
    assert_eq!(t.artist(), "a");
    assert_eq!(t.name(), "n");
    assert_eq!(t.album(), "b");
    assert_eq!(t.clone(), t);
}

#[test]
fn a_track_keeps_its_texts_as_they_are() {
    let t = track(" Sigur Rós", "Svefn-g-englar ", "\tÁgætis byrjun\n");
    assert_eq!(t.artist(), " Sigur Rós");
    assert_eq!(t.name(), "Svefn-g-englar ");
    assert_eq!(t.album(), "\tÁgætis byrjun\n");
    let blank = track(" ", "\n", "\u{a0}");
    assert_eq!(blank.artist(), " ");
    assert_eq!(blank.name(), "\n");
    assert_eq!(blank.album(), "\u{a0}");
}

#[test]
fn each_tag_leads_to_its_own_state() {
    assert_eq!(classify(record("Playing")), Ok(PlayerState::Playing(idioteque())));
    assert_eq!(classify(record("Paused")), Ok(PlayerState::Paused(idioteque())));
    assert_eq!(classify(record("Stopped")), Ok(PlayerState::Stopped));
    assert_eq!(classify(record("Off")), Ok(PlayerState::Off));
}

#[test]
fn any_other_tag_is_refused_under_its_name() {
    for tag in ["Buffering", "off", "OFF", "playing", "", " Off", "Off ", "Playing\n", "Stop"] {
        assert_eq!(classify(record(tag)), Err(RecordFault::UnknownTag(tag.to_string())));
    }
}

#[test]
fn a_record_without_tag_is_refused() {
    let mut r = record("Off");
    r.tag = None;
    assert_eq!(classify(r), Err(RecordFault::MissingTag));
}

#[test]
fn a_tag_that_is_no_text_is_refused() {
    for tag in [Member::Null, Member::Flag(true), Member::Number, Member::List, Member::Object] {
        let mut r = record("Off");
        r.tag = Some(tag);
        assert_eq!(classify(r), Err(RecordFault::TagNotText));
    }
}

#[test]
fn a_playing_record_needs_every_field() {
    let mut r = record("Playing");
    r.artist = None;
    assert_eq!(classify(r), Err(RecordFault::MissingField(TrackField::Artist)));
    let mut r = record("Playing");
    r.name = None;
    assert_eq!(classify(r), Err(RecordFault::MissingField(TrackField::Name)));
    let mut r = record("Paused");
    r.album = None;
    assert_eq!(classify(r), Err(RecordFault::MissingField(TrackField::Album)));
}

#[test]
fn a_field_that_is_no_text_is_refused() {
    let mut r = record("Playing");
    r.artist = Some(Member::Null);
    assert_eq!(classify(r), Err(RecordFault::FieldNotText(TrackField::Artist)));
    let mut r = record("Paused");
    r.name = Some(Member::Number);
    assert_eq!(classify(r), Err(RecordFault::FieldNotText(TrackField::Name)));
    let mut r = record("Playing");
    r.album = Some(Member::List);
    assert_eq!(classify(r), Err(RecordFault::FieldNotText(TrackField::Album)));
    let mut r = record("Playing");
    r.album = Some(Member::Object);
    assert_eq!(classify(r), Err(RecordFault::FieldNotText(TrackField::Album)));
    let mut r = record("Playing");
    r.name = Some(Member::Flag(false));
    assert_eq!(classify(r), Err(RecordFault::FieldNotText(TrackField::Name)));
}

#[test]
fn an_empty_field_is_refused() {
    let mut r = record("Playing");
    r.artist = text("");
    assert_eq!(classify(r), Err(RecordFault::EmptyField(TrackField::Artist)));
    let mut r = record("Paused");
    r.name = text("");
    assert_eq!(classify(r), Err(RecordFault::EmptyField(TrackField::Name)));
    let mut r = record("Playing");
    r.album = text("");
    assert_eq!(classify(r), Err(RecordFault::EmptyField(TrackField::Album)));
    assert_eq!(
        decode_record("{\"type\":\"Playing\",\"artist\":\"a\",\"name\":\"\",\"album\":\"b\"}"),
        Err(RecordFault::EmptyField(TrackField::Name))
    );
}

#[test]
fn the_first_field_at_fault_is_the_one_reported() {
    let r = Record { tag: text("Playing"), artist: None, name: Some(Member::Null), album: None };
    assert_eq!(classify(r), Err(RecordFault::MissingField(TrackField::Artist)));
    let r = Record {
        tag: text("Playing"),
        artist: text("a"),
        name: Some(Member::Flag(false)),
        album: None,
    };
    assert_eq!(classify(r), Err(RecordFault::FieldNotText(TrackField::Name)));
    let r = Record { tag: text("Paused"), artist: text(""), name: None, album: text("") };
    assert_eq!(classify(r), Err(RecordFault::EmptyField(TrackField::Artist)));
    let r = Record { tag: text("Paused"), artist: text("a"), name: text("n"), album: text("") };
    assert_eq!(classify(r), Err(RecordFault::EmptyField(TrackField::Album)));
}

#[test]
fn the_tag_is_looked_at_before_the_fields() {
    let r = Record { tag: None, artist: None, name: None, album: None };
    assert_eq!(classify(r), Err(RecordFault::MissingTag));
    let r = Record { tag: text("Buffering"), artist: None, name: None, album: None };
    assert_eq!(classify(r), Err(RecordFault::UnknownTag("Buffering".to_string())));
    let r = Record { tag: Some(Member::Number), artist: text(""), name: None, album: None };
    assert_eq!(classify(r), Err(RecordFault::TagNotText));
}

#[test]
fn stopped_and_off_ignore_the_fields() {
    let r = Record { tag: text("Stopped"), artist: None, name: None, album: None };
    assert_eq!(classify(r), Ok(PlayerState::Stopped));
    let r = Record { tag: text("Off"), artist: Some(Member::Number), name: None, album: text("") };
    assert_eq!(classify(r), Ok(PlayerState::Off));
}

#[test]
fn fields_are_kept_as_they_come() {
    let r = Record {
        tag: text("Playing"),
        artist: text("  Sigur Rós "),
        name: text(" "),
        album: text("( )\n"),
    };
    assert_eq!(classify(r), Ok(PlayerState::Playing(track("  Sigur Rós ", " ", "( )\n"))));
}

#[test]
fn a_playing_report_is_decoded() {
    assert_eq!(decode_record(PLAYING), Ok(PlayerState::Playing(idioteque())));
}

#[test]
fn a_paused_report_is_decoded() {
    let report = "{\"album\":\"Kid A\",\"name\":\"Idioteque\",\"type\":\"Paused\",\"artist\":\"Radiohead\"}";
    assert_eq!(decode_record(report), Ok(PlayerState::Paused(idioteque())));
}

#[test]
fn stopped_and_off_reports_are_decoded() {
    assert_eq!(decode_record("{\"type\":\"Stopped\"}"), Ok(PlayerState::Stopped));
    assert_eq!(decode_record("{\"type\":\"Off\"}"), Ok(PlayerState::Off));
    assert_eq!(decode_record("{ \"type\" : \"Off\", \"volume\": 11 }"), Ok(PlayerState::Off));
}

#[test]
fn escapes_in_a_report_are_resolved() {
    let report = "{\"type\":\"Playing\",\"artist\":\"AC\\/DC\",\"name\":\"\\\"Heroes\\\"\",\"album\":\"caf\\u00e9\"}";
    assert_eq!(
        decode_record(report),
        Ok(PlayerState::Playing(track("AC/DC", "\"Heroes\"", "café")))
    );
    assert_eq!(decode_record("{\"ty\\u0070e\":\"O\\u0066f\"}"), Ok(PlayerState::Off));
}

#[test]
fn an_unknown_tag_in_a_report_is_refused() {
    assert_eq!(
        decode_record("{\"type\":\"Buffering\"}"),
        Err(RecordFault::UnknownTag("Buffering".to_string()))
    );
    assert_eq!(
        decode_record("{\"type\":\"off\"}"),
        Err(RecordFault::UnknownTag("off".to_string()))
    );
    assert_eq!(decode_record("{\"type\":\"\"}"), Err(RecordFault::UnknownTag("".to_string())));
}

#[test]
fn a_report_without_tag_is_refused() {
    assert_eq!(decode_record("{}"), Err(RecordFault::MissingTag));
    assert_eq!(
        decode_record("{\"artist\":\"a\",\"name\":\"n\",\"album\":\"b\"}"),
        Err(RecordFault::MissingTag)
    );
    assert_eq!(decode_record("{\"Type\":\"Off\"}"), Err(RecordFault::MissingTag));
    assert_eq!(decode_record("42"), Err(RecordFault::MissingTag));
    assert_eq!(decode_record("\"Off\""), Err(RecordFault::MissingTag));
    assert_eq!(decode_record("[\"Off\"]"), Err(RecordFault::MissingTag));
    assert_eq!(decode_record("null"), Err(RecordFault::MissingTag));
}

#[test]
fn a_report_with_a_tag_of_another_kind_is_refused() {
    assert_eq!(decode_record("{\"type\":3}"), Err(RecordFault::TagNotText));
    assert_eq!(decode_record("{\"type\":null}"), Err(RecordFault::TagNotText));
    assert_eq!(decode_record("{\"type\":[\"Off\"]}"), Err(RecordFault::TagNotText));
    assert_eq!(decode_record("{\"type\":{\"type\":\"Off\"}}"), Err(RecordFault::TagNotText));
    assert_eq!(decode_record("{\"type\":true}"), Err(RecordFault::TagNotText));
}

#[test]
fn a_partial_report_is_refused() {
    assert_eq!(
        decode_record("{\"type\":\"Playing\",\"artist\":\"a\",\"name\":\"n\"}"),
        Err(RecordFault::MissingField(TrackField::Album))
    );
    assert_eq!(
        decode_record("{\"type\":\"Paused\"}"),
        Err(RecordFault::MissingField(TrackField::Artist))
    );
    assert_eq!(
        decode_record("{\"type\":\"Playing\",\"artist\":\"a\",\"name\":null,\"album\":\"b\"}"),
        Err(RecordFault::FieldNotText(TrackField::Name))
    );
    assert_eq!(
        decode_record("{\"type\":\"Playing\",\"artist\":7,\"name\":\"n\",\"album\":\"b\"}"),
        Err(RecordFault::FieldNotText(TrackField::Artist))
    );
}

#[test]
fn a_text_that_is_no_json_is_refused_with_the_place() {
    assert_eq!(
        decode_record("{\"type\":\"Off\""),
        Err(RecordFault::Syntax(SyntaxError {
            line: 1,
            column: 13,
            message: "EOF while parsing an object at line 1 column 13".to_string(),
        }))
    );
    match decode_record("") {
        Err(RecordFault::Syntax(e)) => {
            assert_eq!(e.line, 1);
            assert_eq!(e.column, 0);
        }
        other => panic!("{:?}", other),
    }
    match decode_record("{\"type\":\"Off\"}\n{\"type\":\"Off\"}") {
        Err(RecordFault::Syntax(e)) => {
            assert_eq!(e.line, 2);
            assert_eq!(e.column, 1);
        }
        other => panic!("{:?}", other),
    }
}

#[test]
fn the_last_of_two_members_of_one_name_counts() {
    assert_eq!(
        decode_record("{\"type\":\"Off\",\"type\":\"Stopped\"}"),
        Ok(PlayerState::Stopped)
    );
}
