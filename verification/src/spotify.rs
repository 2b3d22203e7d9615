//! What the music service is playing.
//!
//! The service answers a request for the current item with a failure, with
//! nothing, or with a playback context that may hold a track, an episode of a
//! show, or something it could not name. Only a track with at least one artist
//! and an episode are songs that the board can show; every other answer counts
//! as nothing playing.

use vstd::prelude::*;

verus! {

/// What the board shows of the item that is playing.
#[derive(Debug, PartialEq, Eq)]
pub struct SpotifySong {
    /// The title of the track or of the episode.
    pub name: String,
    /// The first artist of the track, or the show of the episode.
    pub artist: String,
}

/// The item of a playback context.
#[derive(Debug, PartialEq, Eq)]
pub enum PlayableItem {
    /// A track with its artists, the main one first.
    Track { name: String, artists: Vec<String> },
    /// An episode of a show.
    Episode { name: String, show: String },
    /// An item that the service did not describe as a track or an episode.
    Unknown,
}

/// The playback context that the service reports.
#[derive(Debug, PartialEq, Eq)]
pub struct CurrentlyPlaying {
    /// The item that is playing, if the service named one.
    pub item: Option<PlayableItem>,
}

/// The request to the music service did not succeed.
#[derive(Clone, Copy, Debug, PartialEq, Eq, Structural)]
pub struct RequestFailed;

/// Title and artist of a song, as text.
pub struct SongView {
    pub name: Seq<char>,
    pub artist: Seq<char>,
}

impl View for SpotifySong {
    type V = SongView;

    open spec fn view(&self) -> SongView {
        SongView { name: self.name@, artist: self.artist@ }
    }
}

/// The song that `item` stands for, if it stands for one.
pub open spec fn song_of_item(item: PlayableItem) -> Option<SongView> {
    match item {
        PlayableItem::Track { name, artists } => if artists@.len() > 0 {
            Some(SongView { name: name@, artist: artists@[0]@ })
        } else {
            None
        },
        PlayableItem::Episode { name, show } => Some(SongView { name: name@, artist: show@ }),
        PlayableItem::Unknown => None,
    }
}

/// The song that the answer `response` of the service stands for, if any.
pub open spec fn song_of(response: Result<Option<CurrentlyPlaying>, RequestFailed>) -> Option<
    SongView,
> {
    match response {
        Ok(Some(context)) => match context.item {
            Some(item) => song_of_item(item),
            None => None,
        },
        _ => None,
    }
}

/// The song that is playing according to the answer `response` of the music
/// service: title and first artist of a track, title and show of an episode.
/// A failed request, an empty answer, a context without an item, an item of
/// unknown kind and a track without artists all give `None`.
pub fn get_currently_playing_song(
    response: Result<Option<CurrentlyPlaying>, RequestFailed>,
) -> (song: Option<SpotifySong>)
    ensures
        song is Some <==> song_of(response) is Some,
        song is Some ==> song.unwrap()@ == song_of(response).unwrap(),
{
    let context_opt = match response {
        Ok(context_opt) => context_opt,
        Err(_) => {
            return None;
        },
    };
    let context = match context_opt {
        Some(context) => context,
        None => {
            return None;
        },
    };
    match context.item {
        Some(PlayableItem::Track { name, artists }) => {
            if artists.len() > 0 {
                Some(SpotifySong { name, artist: artists[0].clone() })
            } else {
                None
            }
        },
        Some(PlayableItem::Episode { name, show }) => Some(SpotifySong { name, artist: show }),
        Some(PlayableItem::Unknown) => None,
        None => None,
    }
}

} // verus!
