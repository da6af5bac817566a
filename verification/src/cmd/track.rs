//! The commands on what is playing.

use vstd::prelude::*;
use vstd::string::*;
use crate::error::{Error, ErrorView};
use crate::model::{
    Artist,
    Context,
    CurrentlyPlayingContext,
    PlaylistTrack,
    StartResumeAUsersPlaybackRequest,
    Track,
    TrackOrEpisode,
};
use crate::rest::{MayBeEmpty, Method};
use crate::text::{joined, same_text};

verus! {

/// A call to the player: the path to request and the method to use.
#[derive(Debug, Clone, Copy, PartialEq, Eq)]
pub struct Call {
    pub path: &'static str,
    pub method: Method,
}

/// What is said where nothing is playing.
pub const NOT_PLAYING: &'static str = "currently not playing.";

/// What is said where what is playing has no context.
pub const NO_CONTEXT: &'static str =
    "could not list tracks. because currently playing is not artist, playlist, album, show.";

/// Where the player's state is found.
pub const PLAYER: &'static str = "/v1/me/player";

/// Where the current user's profile is found.
pub const PROFILE: &'static str = "/v1/me";

/// The call that skips to the next track.
pub fn next() -> (call: Call)
    ensures
        call.path@ == "/v1/me/player/next"@,
        call.method == Method::Post,
{
    Call { path: "/v1/me/player/next", method: Method::Post }
}

/// The call that skips to the previous track.
pub fn prev() -> (call: Call)
    ensures
        call.path@ == "/v1/me/player/previous"@,
        call.method == Method::Post,
{
    Call { path: "/v1/me/player/previous", method: Method::Post }
}

/// The call that plays the track with the given URI, and its body.
pub fn play(uri: &str) -> (r: (Call, StartResumeAUsersPlaybackRequest))
    ensures
        r.0.path@ == "/v1/me/player/play"@,
        r.0.method == Method::Put,
        r.1.context_uri is None,
        r.1.offset is None,
        r.1.position_ms is None,
        r.1.uris matches Some(uris) && uris@.len() == 1 && uris@[0]@ == uri@,
{
    let mut uris: Vec<String> = Vec::new();
    uris.push(String::from_str(uri));
    let request = StartResumeAUsersPlaybackRequest {
        context_uri: None,
        uris: Some(uris),
        offset: None,
        position_ms: None,
    };
    (Call { path: "/v1/me/player/play", method: Method::Put }, request)
}

/// The call that resumes playback. It has no body.
pub fn resume() -> (call: Call)
    ensures
        call.path@ == "/v1/me/player/play"@,
        call.method == Method::Put,
{
    Call { path: "/v1/me/player/play", method: Method::Put }
}

/// The call that pauses playback.
pub fn stop() -> (call: Call)
    ensures
        call.path@ == "/v1/me/player/pause"@,
        call.method == Method::Put,
{
    Call { path: "/v1/me/player/pause", method: Method::Put }
}

/// Where the tracks of what is playing are found.
#[derive(Debug, PartialEq, Eq)]
pub enum Listing {
    /// The top tracks of an artist; the market is still to be added.
    Artist { href: String },
    /// The entries of a playlist.
    Playlist { url: String },
    /// The tracks of an album.
    Album { url: String },
}

/// A `Listing` as plain values.
pub enum ListingView {
    Artist { href: Seq<char> },
    Playlist { url: Seq<char> },
    Album { url: Seq<char> },
}

impl View for Listing {
    type V = ListingView;

    open spec fn view(&self) -> ListingView {
        match self {
            Listing::Artist { href } => ListingView::Artist { href: href@ },
            Listing::Playlist { url } => ListingView::Playlist { url: url@ },
            Listing::Album { url } => ListingView::Album { url: url@ },
        }
    }
}

/// Where the tracks of a context of the given kind are found. A show is not
/// handled yet; any other kind is unknown.
pub open spec fn listing_of(kind: Seq<char>, href: Seq<char>) -> Result<ListingView, ErrorView> {
    if kind == "artist"@ {
        Ok(ListingView::Artist { href })
    } else if kind == "playlist"@ {
        Ok(ListingView::Playlist { url: href + "/tracks?additional_types=track"@ })
    } else if kind == "album"@ {
        Ok(ListingView::Album { url: href + "/tracks"@ })
    } else if kind == "show"@ {
        Err(ErrorView::NotImplemented)
    } else {
        Err(ErrorView::Command("unknown context: "@ + kind))
    }
}

/// A listing, or the failure to find one, as plain values.
pub open spec fn listing_view(r: Result<Listing, Error>) -> Result<ListingView, ErrorView> {
    match r {
        Ok(listing) => Ok(listing@),
        Err(e) => Err(e@),
    }
}

/// Where the tracks of a context are found.
pub fn listing(context: &Context) -> (r: Result<Listing, Error>)
    ensures
        listing_view(r) == listing_of(context.kind@, context.href@),
{
    let kind = context.kind.as_str();
    let href = context.href.as_str();
    if same_text(kind, "artist") {
        Ok(Listing::Artist { href: String::from_str(href) })
    } else if same_text(kind, "playlist") {
        Ok(Listing::Playlist { url: joined(href, "/tracks?additional_types=track") })
    } else if same_text(kind, "album") {
        Ok(Listing::Album { url: joined(href, "/tracks") })
    } else if same_text(kind, "show") {
        Err(Error::NotImplemented)
    } else {
        Err(Error::Command(joined("unknown context: ", kind)))
    }
}

/// Where the tracks of what is playing are found: nothing may be playing,
/// and what is playing may have no context.
pub fn list(current: &MayBeEmpty<CurrentlyPlayingContext>) -> (r: Result<Listing, Error>)
    ensures
        listing_view(r) == (match current {
            MayBeEmpty::Empty => Err(ErrorView::Command(NOT_PLAYING@)),
            MayBeEmpty::Present(playing) => match playing.context {
                None => Err(ErrorView::Command(NO_CONTEXT@)),
                Some(context) => listing_of(context.kind@, context.href@),
            },
        }),
{
    match current {
        MayBeEmpty::Empty => Err(Error::Command(String::from_str(NOT_PLAYING))),
        MayBeEmpty::Present(playing) => match &playing.context {
            None => Err(Error::Command(String::from_str(NO_CONTEXT))),
            Some(context) => listing(context),
        },
    }
}

/// Where the top tracks of an artist are found for a user of the given
/// country.
pub fn top_tracks(href: &str, country: &str) -> (url: String)
    ensures
        url@ == href@ + "/top-tracks?additional_types=track&market="@ + country@,
{
    let mut url = String::from_str(href);
    url.append("/top-tracks?additional_types=track&market=");
    url.append(country);
    url
}

/// The names of the artists, each after a blank but the first.
pub open spec fn names_of(artists: Seq<Artist>) -> Seq<char>
    decreases artists.len(),
{
    if artists.len() == 0 {
        Seq::empty()
    } else if artists.len() == 1 {
        artists[0].name@
    } else {
        names_of(artists.drop_last()) + seq![' '] + artists.last().name@
    }
}

/// The line that lists a track: its URI, its name and, in brackets, the
/// names of its artists.
pub open spec fn line_of(track: Track) -> Seq<char> {
    track.uri@ + seq![' '] + track.name@ + seq![' ', '('] + names_of(track.artists@) + seq![')']
}

/// The line that lists a track.
pub fn line(track: &Track) -> (text: String)
    ensures
        text@ == line_of(*track),
{
    proof {
        reveal_strlit(" ");
        reveal_strlit(" (");
        reveal_strlit(")");
        assert(" "@ =~= seq![' ']);
        assert(" ("@ =~= seq![' ', '(']);
        assert(")"@ =~= seq![')']);
    }
    let mut names = String::new();
    let mut i: usize = 0;
    while i < track.artists.len()
        invariant
            i <= track.artists.len(),
            " "@ == seq![' '],
            names@ == names_of(track.artists@.take(i as int)),
        decreases track.artists.len() - i,
    {
        proof {
            let upto = track.artists@.take(i + 1);
            assert(upto.drop_last() =~= track.artists@.take(i as int));
            assert(upto.last() == track.artists@[i as int]);
            if i == 0 {
                assert(names@ =~= Seq::<char>::empty());
                assert(Seq::<char>::empty() + track.artists@[0].name@ =~= track.artists@[0].name@);
            }
        }
        if i > 0 {
            names.append(" ");
        }
        names.append(track.artists[i].name.as_str());
        i = i + 1;
    }
    assert(track.artists@.take(i as int) =~= track.artists@);
    let mut text = String::from_str(track.uri.as_str());
    text.append(" ");
    text.append(track.name.as_str());
    text.append(" (");
    text.append(names.as_str());
    text.append(")");
    text
}

/// The line that lists an entry of a playlist. Only tracks are handled yet.
pub fn entry_line(entry: &PlaylistTrack) -> (r: Result<String, Error>)
    ensures
        match entry.track {
            Some(TrackOrEpisode::Track { inner }) => r matches Ok(text) && text@ == line_of(inner),
            _ => r matches Err(e) && e@ == ErrorView::NotImplemented,
        },
{
    match &entry.track {
        Some(TrackOrEpisode::Track { inner }) => Ok(line(inner)),
        _ => Err(Error::NotImplemented),
    }
}

} // verus!
