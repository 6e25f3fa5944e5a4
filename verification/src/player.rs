//! What the media player can be doing, and the track it does it with.

use vstd::prelude::*;

verus! {

/// The track that the player has loaded: its artist, its name and its
/// album, none of them empty, each kept as the player reported it. A track
/// cannot be changed once it is made.
#[derive(Debug, PartialEq, Eq)]
pub struct TrackInfo {
    artist: String,
    name: String,
    album: String,
}

/// The mathematical value of a [`TrackInfo`].
pub struct TrackView {
    pub artist: Seq<char>,
    pub name: Seq<char>,
    pub album: Seq<char>,
}

impl TrackView {
    /// A track is well formed when none of its three texts is empty.
    pub open spec fn well_formed(self) -> bool {
        self.artist.len() > 0 && self.name.len() > 0 && self.album.len() > 0
    }
}

impl View for TrackInfo {
    type V = TrackView;

    closed spec fn view(&self) -> TrackView {
        TrackView { artist: self.artist@, name: self.name@, album: self.album@ }
    }
}

impl Clone for TrackInfo {
    fn clone(&self) -> (copy: TrackInfo)
        ensures
            copy@ == self@,
    {
        proof {
            use_type_invariant(self);
        }
        TrackInfo {
            artist: self.artist.clone(),
            name: self.name.clone(),
            album: self.album.clone(),
        }
    }
}

impl TrackInfo {
    #[verifier::type_invariant]
    spec fn populated(self) -> bool {
        self@.well_formed()
    }

    /// Makes a track of three texts of which none is empty.
    pub(crate) fn of_texts(artist: String, name: String, album: String) -> (track: TrackInfo)
        requires
            (TrackView { artist: artist@, name: name@, album: album@ }).well_formed(),
        ensures
            track@ == (TrackView { artist: artist@, name: name@, album: album@ }),
    {
        TrackInfo { artist, name, album }
    }

    /// Makes a track of three texts, unless one of them is empty.
    pub fn new(artist: String, name: String, album: String) -> (track: Option<TrackInfo>)
        ensures
            match track {
                Some(t) => t@ == (TrackView { artist: artist@, name: name@, album: album@ })
                    && t@.well_formed(),
                None => !(TrackView { artist: artist@, name: name@, album: album@ }).well_formed(),
            },
    {
        if artist.as_str().is_empty() || name.as_str().is_empty() || album.as_str().is_empty() {
            None
        } else {
            Some(TrackInfo::of_texts(artist, name, album))
        }
    }

    /// The artist of the track.
    pub fn artist(&self) -> (text: &str)
        ensures
            text@ == self@.artist,
            self@.well_formed(),
    {
        proof {
            use_type_invariant(self);
        }
        self.artist.as_str()
    }

    /// The name of the track.
    pub fn name(&self) -> (text: &str)
        ensures
            text@ == self@.name,
            self@.well_formed(),
    {
        proof {
            use_type_invariant(self);
        }
        self.name.as_str()
    }

    /// The album of the track.
    pub fn album(&self) -> (text: &str)
        ensures
            text@ == self@.album,
            self@.well_formed(),
    {
        proof {
            use_type_invariant(self);
        }
        self.album.as_str()
    }
}

/// What the player is doing. There is no fifth state: a report that names
/// another one is refused.
#[derive(Clone, Debug, PartialEq, Eq)]
pub enum PlayerState {
    Playing(TrackInfo),
    Paused(TrackInfo),
    Stopped,
    Off,
}

/// The mathematical value of a [`PlayerState`].
pub enum PlayerStateView {
    Playing(TrackView),
    Paused(TrackView),
    Stopped,
    Off,
}

impl PlayerStateView {
    /// A state is well formed when the track it carries, if any, is.
    pub open spec fn well_formed(self) -> bool {
        match self {
            PlayerStateView::Playing(track) => track.well_formed(),
            PlayerStateView::Paused(track) => track.well_formed(),
            PlayerStateView::Stopped => true,
            PlayerStateView::Off => true,
        }
    }

    /// The tag under which the state is reported.
    pub open spec fn tag(self) -> Seq<char> {
        match self {
            PlayerStateView::Playing(_) => "Playing"@,
            PlayerStateView::Paused(_) => "Paused"@,
            PlayerStateView::Stopped => "Stopped"@,
            PlayerStateView::Off => "Off"@,
        }
    }
}

impl View for PlayerState {
    type V = PlayerStateView;

    open spec fn view(&self) -> PlayerStateView {
        match self {
            PlayerState::Playing(track) => PlayerStateView::Playing(track@),
            PlayerState::Paused(track) => PlayerStateView::Paused(track@),
            PlayerState::Stopped => PlayerStateView::Stopped,
            PlayerState::Off => PlayerStateView::Off,
        }
    }
}

/// No two of the four tags are the same text.
pub proof fn lemma_tags_differ()
    ensures
        "Playing"@ != "Paused"@,
        "Playing"@ != "Stopped"@,
        "Playing"@ != "Off"@,
        "Paused"@ != "Stopped"@,
        "Paused"@ != "Off"@,
        "Stopped"@ != "Off"@,
{
    reveal_strlit("Playing");
    reveal_strlit("Paused");
    reveal_strlit("Stopped");
    reveal_strlit("Off");
    assert("Paused"@.len() == 6);
    assert("Stopped"@.len() == 7 && "Stopped"@[0] == 'S');
    assert("Off"@.len() == 3);
}

} // verus!
