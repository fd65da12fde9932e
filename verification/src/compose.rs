//! The message composer: the line to display for a playback state.

use vstd::prelude::*;
use vstd::string::StringExecFns;

verus! {

/// What a player is doing.
#[derive(Clone, Copy, Debug, PartialEq, Eq, Structural)]
pub enum PlaybackState {
    Playing,
    Paused,
    Stopped,
}

/// What is known of the current track.
#[derive(Clone, Debug, PartialEq, Eq)]
pub struct TrackMetadata {
    /// The track's title, where it has one.
    pub title: Option<String>,
    /// The artists, in the order in which they are shown.
    pub artists: Vec<String>,
}

/// Why no message could be composed.
#[derive(Clone, Copy, Debug, PartialEq, Eq, Structural)]
pub enum ComposeError {
    /// The player is playing, but there is no metadata for its track.
    MissingMetadata,
}

impl ComposeError {
    /// A line that says what went wrong.
    pub fn message(&self) -> (text: String)
        ensures
            text@ == "Could not get player metadata"@,
    {
        String::from_str("Could not get player metadata")
    }
}

/// The names, with ", " between each two of them.
pub open spec fn joined_names(names: Seq<Seq<char>>) -> Seq<char>
    decreases names.len(),
{
    if names.len() == 0 {
        Seq::empty()
    } else if names.len() == 1 {
        names[0]
    } else {
        joined_names(names.drop_last()) + ", "@ + names.last()
    }
}

impl TrackMetadata {
    /// The title to show: the track's own, or "No Title".
    pub open spec fn title_text(&self) -> Seq<char> {
        match self.title {
            Some(title) => title@,
            None => "No Title"@,
        }
    }

    /// The artists' names as texts, in order.
    pub open spec fn artist_names(&self) -> Seq<Seq<char>> {
        Seq::new(self.artists@.len(), |i: int| self.artists@[i]@)
    }

    /// The line for a playing track: title, a dash, the artists.
    pub open spec fn track_line(&self) -> Seq<char> {
        self.title_text() + " — "@ + joined_names(self.artist_names())
    }

    /// The artists' names in one string, separated by ", ".
    pub fn artist_list(&self) -> (out: String)
        ensures
            out@ == joined_names(self.artist_names()),
    {
        let mut out = String::new();
        let mut i: usize = 0;
        while i < self.artists.len()
            invariant
                i <= self.artists.len(),
                out@ == joined_names(self.artist_names().take(i as int)),
            decreases self.artists.len() - i,
        {
            proof {
                let names = self.artist_names();
                assert(names.take(i + 1).drop_last() =~= names.take(i as int));
                assert(names.take(i + 1).last() == self.artists[i as int]@);
                assert(names.take(i + 1).len() == i + 1);
                if i == 0 {
                    assert(names.take(1)[0] == self.artists[0]@);
                    assert(out@ + self.artists[0]@ =~= self.artists[0]@);
                }
            }
            if i != 0 {
                out.append(", ");
            }
            out.append(self.artists[i].as_str());
            i += 1;
        }
        assert(self.artist_names().take(self.artists.len() as int) =~= self.artist_names());
        out
    }
}

/// The display message for a playback state.
///
/// Where the status could not be read, a fixed line that says so, whatever
/// else is passed. Otherwise: for `Paused` the pause glyph; for `Stopped`
/// nothing; for `Playing` the track line of the metadata, and an error where
/// there is none.
pub open spec fn message_text(
    state: PlaybackState,
    metadata: Option<&TrackMetadata>,
    status_lookup_failed: bool,
) -> Result<Seq<char>, ComposeError> {
    if status_lookup_failed {
        Ok("Could not get playback status"@)
    } else {
        match state {
            PlaybackState::Paused => Ok("⏸"@),
            PlaybackState::Stopped => Ok(Seq::empty()),
            PlaybackState::Playing => match metadata {
                Some(track) => Ok(track.track_line()),
                None => Err(ComposeError::MissingMetadata),
            },
        }
    }
}

/// Composes the display message: see `message_text`. The one failure is a
/// playing state without metadata, when the status itself was read.
pub fn get_message(
    state: PlaybackState,
    metadata: Option<&TrackMetadata>,
    status_lookup_failed: bool,
) -> (out: Result<String, ComposeError>)
    ensures
        out is Err <==> !status_lookup_failed && state == PlaybackState::Playing
            && metadata is None,
        match out {
            Ok(text) => message_text(state, metadata, status_lookup_failed) == Ok::<
                Seq<char>,
                ComposeError,
            >(text@),
            Err(e) => message_text(state, metadata, status_lookup_failed) == Err::<
                Seq<char>,
                ComposeError,
            >(e),
        },
{
    if status_lookup_failed {
        return Ok(String::from_str("Could not get playback status"));
    }
    match state {
        PlaybackState::Paused => Ok(String::from_str("⏸")),
        PlaybackState::Stopped => Ok(String::new()),
        PlaybackState::Playing => match metadata {
            None => Err(ComposeError::MissingMetadata),
            Some(track) => {
                let mut out = match &track.title {
                    Some(title) => title.clone(),
                    None => String::from_str("No Title"),
                };
                out.append(" — ");
                let artists = track.artist_list();
                out.append(artists.as_str());
                Ok(out)
            },
        },
    }
}

/// A paused player shows the pause glyph, whatever the metadata holds.
pub proof fn lemma_paused_ignores_metadata(metadata: Option<&TrackMetadata>)
    ensures
        message_text(PlaybackState::Paused, metadata, false) == Ok::<Seq<char>, ComposeError>(
            "⏸"@,
        ),
{
}

/// A status that could not be read gives the same line whatever the state
/// and the metadata.
pub proof fn lemma_failed_lookup_ignores_the_rest(
    state: PlaybackState,
    metadata: Option<&TrackMetadata>,
)
    ensures
        message_text(state, metadata, true) == Ok::<Seq<char>, ComposeError>(
            "Could not get playback status"@,
        ),
{
}

} // verus!
