//! The resources of the provider's API, as plain data. A field that the
//! provider calls `type` is called `kind` here.

use vstd::prelude::*;

verus! {

/// Body of the request that starts or resumes playback.
#[derive(Debug)]
pub struct StartResumeAUsersPlaybackRequest {
    pub context_uri: Option<String>,
    pub uris: Option<Vec<String>>,
    pub offset: Option<()>,
    pub position_ms: Option<u64>,
}

impl Default for StartResumeAUsersPlaybackRequest {
    /// The request that names nothing: playback resumes where it stopped.
    fn default() -> (r: Self)
        ensures
            r.context_uri is None,
            r.uris is None,
            r.offset is None,
            r.position_ms is None,
    {
        StartResumeAUsersPlaybackRequest {
            context_uri: None,
            uris: None,
            offset: None,
            position_ms: None,
        }
    }
}

/// Body of the request that moves playback to other devices.
#[derive(Debug)]
pub struct TransferUserPlaybackRequest {
    pub device_ids: Vec<String>,
    pub play: bool,
}

/// A device that can play.
#[derive(Debug)]
pub struct Device {
    pub id: String,
    pub is_active: bool,
    pub is_private_session: bool,
    pub is_restricted: bool,
    pub name: String,
    pub kind: String,
    pub volume_percent: u8,
}

/// The devices of a user.
#[derive(Debug)]
pub struct Devices {
    pub devices: Vec<Device>,
}

/// The player actions that are not allowed at the moment.
#[derive(Debug)]
pub struct Disallows {
    pub interrupting_playback: Option<bool>,
    pub pausing: Option<bool>,
    pub resuming: Option<bool>,
    pub seeking: Option<bool>,
    pub skipping_next: Option<bool>,
    pub skipping_prev: Option<bool>,
    pub toggling_repeat_context: Option<bool>,
    pub toggling_repeat_track: Option<bool>,
    pub toggling_shuffle: Option<bool>,
    pub transferring_playback: Option<bool>,
}

/// Where an object can be found outside the API.
#[derive(Debug)]
pub struct ExternalUrl {
    pub spotify: String,
}

/// What a track is played from: an album, an artist, a playlist or a show.
#[derive(Debug)]
pub struct Context {
    pub external_urls: ExternalUrl,
    pub href: String,
    pub kind: String,
    pub uri: String,
}

/// An artist, in short form.
#[derive(Debug)]
pub struct SimplifiedArtist {
    pub external_urls: ExternalUrl,
    pub href: String,
    pub id: String,
    pub name: String,
    pub kind: String,
    pub uri: String,
}

/// A cover image. None of its fields is read.
#[derive(Debug)]
pub struct Image {
}

/// Why an album is not available.
#[derive(Debug)]
pub struct AlbumRestriction {
    pub reason: String,
}

/// An album, in short form.
#[derive(Debug)]
pub struct SimplifiedAlbum {
    pub album_group: Option<String>,
    pub album_type: String,
    pub artists: Vec<SimplifiedArtist>,
    pub available_markets: Vec<String>,
    pub external_urls: ExternalUrl,
    pub href: String,
    pub id: String,
    pub images: Vec<Image>,
    pub name: String,
    pub release_date: String,
    pub release_date_precision: String,
    pub restrictions: Option<AlbumRestriction>,
    pub total_tracks: u64,
    pub kind: String,
    pub uri: String,
}

/// The followers of an artist, a playlist or a user.
#[derive(Debug)]
pub struct Followers {
    pub href: Option<String>,
    pub total: u64,
}

/// An artist.
#[derive(Debug)]
pub struct Artist {
    pub external_urls: ExternalUrl,
    pub followers: Option<Followers>,
    pub genres: Vec<String>,
    pub href: String,
    pub id: String,
    pub images: Vec<Image>,
    pub name: String,
    pub popularity: Option<u64>,
    pub kind: String,
    pub uri: String,
}

/// Identifiers of a track in other catalogues.
#[derive(Debug)]
pub struct ExternalId {
    pub ean: Option<String>,
    pub isrc: Option<String>,
    pub upc: Option<String>,
}

/// Why a track is not available.
#[derive(Debug)]
pub struct TrackRestriction {
    pub reason: String,
}

/// A track.
#[derive(Debug)]
pub struct Track {
    pub album: Option<SimplifiedAlbum>,
    pub artists: Vec<Artist>,
    pub available_markets: Vec<String>,
    pub disc_number: u64,
    pub duration_ms: u64,
    pub explicit: bool,
    pub external_ids: Option<ExternalId>,
    pub external_urls: ExternalUrl,
    pub href: String,
    pub id: String,
    pub is_local: bool,
    pub is_playable: Option<bool>,
    pub name: String,
    pub popularity: Option<u64>,
    pub preview_url: Option<String>,
    pub restrictions: Option<TrackRestriction>,
    pub track_number: u64,
    pub kind: String,
    pub uri: String,
}

/// Where the user stopped listening to an episode.
#[derive(Debug)]
pub struct ResumePoint {
    pub fully_played: bool,
    pub resume_position_ms: u64,
}

/// A copyright statement.
#[derive(Debug)]
pub struct Copyright {
    pub text: String,
    pub kind: String,
}

/// A show, in short form.
#[derive(Debug)]
pub struct SimplifiedShow {
    pub available_markets: Vec<String>,
    pub copyrights: Vec<Copyright>,
    pub description: String,
    pub explicit: bool,
    pub external_urls: ExternalUrl,
    pub href: String,
    pub html_description: String,
    pub id: String,
    pub images: Vec<Image>,
    pub is_externally_hosted: bool,
    pub languages: Vec<String>,
    pub media_type: String,
    pub name: String,
    pub publisher: String,
    pub kind: String,
    pub uri: String,
}

/// An episode of a show.
#[derive(Debug)]
pub struct Episode {
    pub audio_preview_url: String,
    pub description: String,
    pub duration_ms: u64,
    pub explicit: bool,
    pub external_urls: ExternalUrl,
    pub href: String,
    pub html_description: String,
    pub id: String,
    pub images: Vec<Image>,
    pub is_externally_hosted: bool,
    pub is_playable: Option<bool>,
    pub language: String,
    pub languages: Vec<String>,
    pub name: String,
    pub release_date: String,
    pub release_date_precision: String,
    pub restrictions: Option<EpisodeRestriction>,
    pub resume_point: ResumePoint,
    pub show: SimplifiedShow,
    pub kind: String,
    pub uri: String,
}

/// Why an episode is not available.
#[derive(Debug)]
pub struct EpisodeRestriction {
    pub reason: String,
}

/// What can be played: a track or an episode. The provider tells them apart
/// by the field `type`.
#[derive(Debug)]
#[allow(inconsistent_fields)]
pub enum TrackOrEpisode {
    Track {
        inner: Track,
    },
    Episode {
        inner: Episode,
    },
}

/// What the player is doing.
#[derive(Debug)]
pub struct CurrentlyPlayingContext {
    pub actions: Disallows,
    pub context: Option<Context>,
    pub currently_playing_type: String,
    pub device: Device,
    pub is_playing: bool,
    pub item: TrackOrEpisode,
    pub progress_ms: Option<u64>,
    pub repeat_state: String,
    pub shuffle_state: bool,
    pub timestamp: u64,
}

/// A user's public profile.
#[derive(Debug)]
pub struct PublicUser {
    pub display_name: Option<String>,
    pub external_urls: ExternalUrl,
    pub followers: Option<Followers>,
    pub href: String,
    pub id: String,
    pub images: Vec<Image>,
    pub kind: String,
    pub uri: String,
}

/// An entry of a playlist.
#[derive(Debug)]
pub struct PlaylistTrack {
    pub added_at: Option<String>,
    pub added_by: Option<PublicUser>,
    pub is_local: bool,
    pub track: Option<TrackOrEpisode>,
}

/// A playlist.
#[derive(Debug)]
pub struct Playlist {
    pub collaborative: bool,
    pub description: Option<String>,
    pub external_urls: ExternalUrl,
    pub followers: Option<Followers>,
    pub href: String,
    pub id: String,
    pub images: Vec<Image>,
    pub name: String,
    pub owner: PublicUser,
    pub public: bool,
    pub snapshot_id: String,
    pub tracks: Option<PlaylistTrack>,
    pub kind: String,
    pub uri: String,
}

/// One page of a longer list.
#[derive(Debug)]
pub struct Paging<T> {
    pub href: String,
    pub items: Vec<T>,
    pub limit: u64,
    pub next: Option<String>,
    pub offset: u64,
    pub previous: Option<String>,
    pub total: u64,
}

/// The track that was asked for, where another one was played in its place.
#[derive(Debug)]
pub struct LinkedTrack {
    pub external_urls: ExternalUrl,
    pub href: String,
    pub id: String,
    pub kind: String,
    pub uri: String,
}

/// A track, in short form.
#[derive(Debug)]
pub struct SimplifiedTrack {
    pub artists: Vec<SimplifiedArtist>,
    pub available_markets: Vec<String>,
    pub disc_number: u64,
    pub duration_ms: u64,
    pub explicit: bool,
    pub external_urls: ExternalUrl,
    pub href: String,
    pub id: String,
    pub is_local: bool,
    pub is_playable: bool,
    pub linked_from: LinkedTrack,
    pub name: String,
    pub preview_url: String,
    pub restrictions: Option<TrackRestriction>,
    pub track_number: u64,
    pub kind: String,
    pub uri: String,
}

/// A user's settings for explicit content.
#[derive(Debug)]
pub struct ExplicitContentSettings {
    pub filter_enabled: bool,
    pub filter_locked: bool,
}

/// The current user's own profile.
#[derive(Debug)]
pub struct PrivateUser {
    pub country: String,
    pub display_name: String,
    pub email: String,
    pub explicit_content: ExplicitContentSettings,
    pub external_urls: ExternalUrl,
    pub followers: Option<Followers>,
    pub href: String,
    pub id: String,
    pub image: Vec<Image>,
    pub product: String,
    pub kind: String,
    pub uri: String,
}

/// A list of tracks.
#[derive(Debug)]
pub struct Tracks {
    pub tracks: Vec<Track>,
}

} // verus!
