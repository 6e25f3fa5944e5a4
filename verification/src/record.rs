//! Reading one report of the media player.
//!
//! A report is one JSON object with a `type` member, `Playing`, `Paused`,
//! `Stopped` or `Off`, and for the first two the members `artist`, `name`
//! and `album`, each a string that is not empty. Anything else is a fault.

use crate::json::{
    document_members, found_view, member, member_at, parse, parse_outcome, Member, MemberView,
    SyntaxError, SyntaxErrorView,
};
use crate::player::{lemma_tags_differ, PlayerState, PlayerStateView, TrackInfo, TrackView};
use crate::text::same_text;
use vstd::prelude::*;

verus! {

/// One of the three members that describe a track.
#[derive(Clone, Copy, Debug, PartialEq, Eq, Structural)]
pub enum TrackField {
    Artist,
    Name,
    Album,
}

/// Why a text is not a report of the player.
#[derive(Clone, Debug, PartialEq, Eq)]
pub enum RecordFault {
    /// The text is no JSON document.
    Syntax(SyntaxError),
    /// The document is no object, or it has no `type` member.
    MissingTag,
    /// The `type` member is not a string.
    TagNotText,
    /// The `type` member names no state of the player.
    UnknownTag(String),
    /// A playing or paused report lacks one of the track's members.
    MissingField(TrackField),
    /// One of the track's members is not a string.
    FieldNotText(TrackField),
    /// One of the track's members is the empty string.
    EmptyField(TrackField),
}

/// The mathematical value of a [`RecordFault`].
pub enum RecordFaultView {
    Syntax(SyntaxErrorView),
    MissingTag,
    TagNotText,
    UnknownTag(Seq<char>),
    MissingField(TrackField),
    FieldNotText(TrackField),
    EmptyField(TrackField),
}

impl View for RecordFault {
    type V = RecordFaultView;

    open spec fn view(&self) -> RecordFaultView {
        match self {
            RecordFault::Syntax(e) => RecordFaultView::Syntax(e@),
            RecordFault::MissingTag => RecordFaultView::MissingTag,
            RecordFault::TagNotText => RecordFaultView::TagNotText,
            RecordFault::UnknownTag(tag) => RecordFaultView::UnknownTag(tag@),
            RecordFault::MissingField(field) => RecordFaultView::MissingField(*field),
            RecordFault::FieldNotText(field) => RecordFaultView::FieldNotText(*field),
            RecordFault::EmptyField(field) => RecordFaultView::EmptyField(*field),
        }
    }
}

/// The four members of a report that this crate reads, each as it was found
/// in the document, if it was found.
#[derive(Clone, Debug, PartialEq, Eq)]
pub struct Record {
    pub tag: Option<Member>,
    pub artist: Option<Member>,
    pub name: Option<Member>,
    pub album: Option<Member>,
}

/// The mathematical value of a [`Record`].
pub struct RecordView {
    pub tag: Option<MemberView>,
    pub artist: Option<MemberView>,
    pub name: Option<MemberView>,
    pub album: Option<MemberView>,
}

impl View for Record {
    type V = RecordView;

    open spec fn view(&self) -> RecordView {
        RecordView {
            tag: found_view(self.tag),
            artist: found_view(self.artist),
            name: found_view(self.name),
            album: found_view(self.album),
        }
    }
}

/// The mathematical value of what reading a report gives.
pub open spec fn decoding_view(outcome: Result<PlayerState, RecordFault>) -> Result<
    PlayerStateView,
    RecordFaultView,
> {
    match outcome {
        Ok(state) => Ok(state@),
        Err(fault) => Err(fault@),
    }
}

/// The text of one of the track's members, or what is wrong with it: the
/// member must be there, be a string, and not be empty.
pub open spec fn field_text(found: Option<MemberView>, field: TrackField) -> Result<
    Seq<char>,
    RecordFaultView,
> {
    match found {
        None => Err(RecordFaultView::MissingField(field)),
        Some(MemberView::Text(text)) => if text.len() == 0 {
            Err(RecordFaultView::EmptyField(field))
        } else {
            Ok(text)
        },
        Some(_) => Err(RecordFaultView::FieldNotText(field)),
    }
}

/// The track that three members describe. They are looked at in the order
/// artist, name, album, and the first one at fault is reported.
pub open spec fn track_of(
    artist: Option<MemberView>,
    name: Option<MemberView>,
    album: Option<MemberView>,
) -> Result<TrackView, RecordFaultView> {
    match field_text(artist, TrackField::Artist) {
        Err(fault) => Err(fault),
        Ok(artist) => match field_text(name, TrackField::Name) {
            Err(fault) => Err(fault),
            Ok(name) => match field_text(album, TrackField::Album) {
                Err(fault) => Err(fault),
                Ok(album) => Ok(TrackView { artist, name, album }),
            },
        },
    }
}

/// The state that a record reports. The tag decides: `Playing` and `Paused`
/// need the whole track, `Stopped` and `Off` need nothing more and ignore
/// what else the record holds, and any other tag is a fault.
pub open spec fn classified(record: RecordView) -> Result<PlayerStateView, RecordFaultView> {
    match record.tag {
        None => Err(RecordFaultView::MissingTag),
        Some(MemberView::Text(tag)) => {
            if tag == "Playing"@ {
                match track_of(record.artist, record.name, record.album) {
                    Ok(track) => Ok(PlayerStateView::Playing(track)),
                    Err(fault) => Err(fault),
                }
            } else if tag == "Paused"@ {
                match track_of(record.artist, record.name, record.album) {
                    Ok(track) => Ok(PlayerStateView::Paused(track)),
                    Err(fault) => Err(fault),
                }
            } else if tag == "Stopped"@ {
                Ok(PlayerStateView::Stopped)
            } else if tag == "Off"@ {
                Ok(PlayerStateView::Off)
            } else {
                Err(RecordFaultView::UnknownTag(tag))
            }
        },
        Some(_) => Err(RecordFaultView::TagNotText),
    }
}

/// The record that the members of a document make.
pub open spec fn record_of(members: Map<Seq<char>, MemberView>) -> RecordView {
    RecordView {
        tag: member_at(members, "type"@),
        artist: member_at(members, "artist"@),
        name: member_at(members, "name"@),
        album: member_at(members, "album"@),
    }
}

/// What a text reports, given what the JSON parser makes of it.
pub open spec fn decoded(text: Seq<char>) -> Result<PlayerStateView, RecordFaultView> {
    match parse_outcome(text) {
        Ok(members) => classified(record_of(members)),
        Err(e) => Err(RecordFaultView::Syntax(e)),
    }
}

fn text_of(found: Option<Member>, field: TrackField) -> (outcome: Result<String, RecordFault>)
    ensures
        match outcome {
            Ok(text) => field_text(found_view(found), field) == Ok::<Seq<char>, RecordFaultView>(
                text@,
            ),
            Err(fault) => field_text(found_view(found), field) == Err::<
                Seq<char>,
                RecordFaultView,
            >(fault@),
        },
{
    match found {
        None => Err(RecordFault::MissingField(field)),
        Some(Member::Text(text)) => if text.as_str().is_empty() {
            Err(RecordFault::EmptyField(field))
        } else {
            Ok(text)
        },
        Some(_) => Err(RecordFault::FieldNotText(field)),
    }
}

fn track_from(artist: Option<Member>, name: Option<Member>, album: Option<Member>) -> (outcome:
    Result<TrackInfo, RecordFault>)
    ensures
        match outcome {
            Ok(track) => track_of(found_view(artist), found_view(name), found_view(album)) == Ok::<
                TrackView,
                RecordFaultView,
            >(track@),
            Err(fault) => track_of(found_view(artist), found_view(name), found_view(album))
                == Err::<TrackView, RecordFaultView>(fault@),
        },
{
    let artist = match text_of(artist, TrackField::Artist) {
        Ok(text) => text,
        Err(fault) => {
            return Err(fault);
        },
    };
    let name = match text_of(name, TrackField::Name) {
        Ok(text) => text,
        Err(fault) => {
            return Err(fault);
        },
    };
    let album = match text_of(album, TrackField::Album) {
        Ok(text) => text,
        Err(fault) => {
            return Err(fault);
        },
    };
    Ok(TrackInfo::of_texts(artist, name, album))
}

/// Decides which state a record reports.
pub fn classify(record: Record) -> (outcome: Result<PlayerState, RecordFault>)
    ensures
        decoding_view(outcome) == classified(record@),
        outcome matches Ok(state) ==> state@.well_formed(),
{
    let Record { tag, artist, name, album } = record;
    match tag {
        None => Err(RecordFault::MissingTag),
        Some(Member::Text(tag)) => {
            if same_text(tag.as_str(), "Playing") {
                match track_from(artist, name, album) {
                    Ok(track) => Ok(PlayerState::Playing(track)),
                    Err(fault) => Err(fault),
                }
            } else if same_text(tag.as_str(), "Paused") {
                match track_from(artist, name, album) {
                    Ok(track) => Ok(PlayerState::Paused(track)),
                    Err(fault) => Err(fault),
                }
            } else if same_text(tag.as_str(), "Stopped") {
                Ok(PlayerState::Stopped)
            } else if same_text(tag.as_str(), "Off") {
                Ok(PlayerState::Off)
            } else {
                Err(RecordFault::UnknownTag(tag))
            }
        },
        Some(_) => Err(RecordFault::TagNotText),
    }
}

/// Looks the four members of a report up in a parsed document.
fn record_in(doc: &serde_json::Value) -> (record: Record)
    ensures
        record@ == record_of(document_members(*doc)),
{
    Record {
        tag: member(doc, "type"),
        artist: member(doc, "artist"),
        name: member(doc, "name"),
        album: member(doc, "album"),
    }
}

/// Reads a text as a report of the player: parses it as JSON and classifies
/// the record it holds. The text is taken as it is; white space around it is
/// the caller's to remove.
pub fn decode_record(text: &str) -> (outcome: Result<PlayerState, RecordFault>)
    ensures
        decoding_view(outcome) == decoded(text@),
        outcome matches Ok(state) ==> state@.well_formed(),
{
    match parse(text) {
        Ok(doc) => classify(record_in(&doc)),
        Err(e) => Err(RecordFault::Syntax(e)),
    }
}

/// Every state that is read carries a whole track or none: a record with a
/// field that is missing, empty or no text gives no state at all.
pub proof fn lemma_read_states_are_well_formed(record: RecordView)
    ensures
        classified(record) matches Ok(state) ==> state.well_formed(),
{
}

/// The tag alone picks the variant. Each of the four tags leads to its own
/// state and to no other, a state is only ever reported under its own tag,
/// and a text tag that is none of the four is refused under its name.
pub proof fn lemma_tag_decides_the_state(record: RecordView)
    ensures
        record.tag == Some(MemberView::Text("Playing"@)) ==> classified(record) == match track_of(
            record.artist,
            record.name,
            record.album,
        ) {
            Ok(track) => Ok::<PlayerStateView, RecordFaultView>(PlayerStateView::Playing(track)),
            Err(fault) => Err(fault),
        },
        record.tag == Some(MemberView::Text("Paused"@)) ==> classified(record) == match track_of(
            record.artist,
            record.name,
            record.album,
        ) {
            Ok(track) => Ok::<PlayerStateView, RecordFaultView>(PlayerStateView::Paused(track)),
            Err(fault) => Err(fault),
        },
        record.tag == Some(MemberView::Text("Stopped"@)) ==> classified(record) == Ok::<
            PlayerStateView,
            RecordFaultView,
        >(PlayerStateView::Stopped),
        record.tag == Some(MemberView::Text("Off"@)) ==> classified(record) == Ok::<
            PlayerStateView,
            RecordFaultView,
        >(PlayerStateView::Off),
        classified(record) matches Ok(state) ==> record.tag == Some(MemberView::Text(state.tag())),
        record.tag matches Some(MemberView::Text(tag)) ==> (tag != "Playing"@ && tag != "Paused"@
            && tag != "Stopped"@ && tag != "Off"@ ==> classified(record) == Err::<
            PlayerStateView,
            RecordFaultView,
        >(RecordFaultView::UnknownTag(tag))),
{
    lemma_tags_differ();
}

} // verus!
