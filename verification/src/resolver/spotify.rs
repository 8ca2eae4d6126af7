//! Links into the music catalogue, what it answers, and their metadata.

use vstd::prelude::*;
use super::{metadata_views, Metadata, MetadataView};
use crate::text::starts_with;

verus! {

/// Why a text is no identifier of the music catalogue.
#[derive(Clone, Copy, Debug, PartialEq, Eq, Structural)]
pub enum IdError {
    /// The text starts neither with `spotify:` nor with `spotify/`.
    InvalidPrefix,
    /// The text cannot be split into kind and identifier.
    InvalidFormat,
    /// The kind is unknown or is not the one that was asked for.
    InvalidType,
    /// The identifier holds characters that no identifier has.
    InvalidId,
}

/// The mathematical value of a [`SpotifyResolverError`].
pub enum SpotifyResolverErrorView {
    Unsupported,
    IdError(IdError),
    ClientError(Seq<char>),
    MissingHref,
}

/// What can go wrong while a link into the music catalogue is resolved.
#[derive(Debug, PartialEq, Eq)]
pub enum SpotifyResolverError {
    /// Unsupported operation.
    Unsupported,
    /// Malformed identifier.
    IdError(IdError),
    /// The catalogue's client failed; holds its report.
    ClientError(String),
    /// The catalogue named no address for a track.
    MissingHref,
}

impl View for SpotifyResolverError {
    type V = SpotifyResolverErrorView;

    open spec fn view(&self) -> SpotifyResolverErrorView {
        match self {
            SpotifyResolverError::Unsupported => SpotifyResolverErrorView::Unsupported,
            SpotifyResolverError::IdError(e) => SpotifyResolverErrorView::IdError(*e),
            SpotifyResolverError::ClientError(report) => SpotifyResolverErrorView::ClientError(
                report@,
            ),
            SpotifyResolverError::MissingHref => SpotifyResolverErrorView::MissingHref,
        }
    }
}

/// The kind of thing a link into the music catalogue points at.
#[derive(Clone, Copy, Debug, PartialEq, Eq, Structural)]
pub enum SpotifyLink {
    Album,
    Playlist,
    Track,
}

/// The mathematical value of a [`SpotifyRequest`].
pub enum SpotifyRequestView {
    Album(Seq<char>),
    Playlist(Seq<char>),
    Track(Seq<char>),
}

/// What is to be fetched from the music catalogue, by its identifier.
#[derive(Debug, PartialEq, Eq)]
pub enum SpotifyRequest {
    Album(String),
    Playlist(String),
    Track(String),
}

impl View for SpotifyRequest {
    type V = SpotifyRequestView;

    open spec fn view(&self) -> SpotifyRequestView {
        match self {
            SpotifyRequest::Album(id) => SpotifyRequestView::Album(id@),
            SpotifyRequest::Playlist(id) => SpotifyRequestView::Playlist(id@),
            SpotifyRequest::Track(id) => SpotifyRequestView::Track(id@),
        }
    }
}

/// The kind of thing that `url` points at in the music catalogue, if it
/// points at an album, a playlist or a track there.
pub open spec fn link_kind(url: Seq<char>) -> Option<SpotifyLink> {
    if !"https://open.spotify.com/"@.is_prefix_of(url) {
        None
    } else if "https://open.spotify.com/album/"@.is_prefix_of(url) {
        Some(SpotifyLink::Album)
    } else if "https://open.spotify.com/playlist/"@.is_prefix_of(url) {
        Some(SpotifyLink::Playlist)
    } else if "https://open.spotify.com/track/"@.is_prefix_of(url) {
        Some(SpotifyLink::Track)
    } else {
        None
    }
}

/// Whether a text starts as the catalogue's own identifiers do.
pub open spec fn has_uri_prefix(uri: Seq<char>) -> bool {
    "spotify:"@.is_prefix_of(uri) || "spotify/"@.is_prefix_of(uri)
}

/// The value of a parsed identifier.
pub open spec fn id_view(parsed: Result<String, IdError>) -> Result<Seq<char>, IdError> {
    match parsed {
        Ok(id) => Ok(id@),
        Err(e) => Err(e),
    }
}

/// What `rspotify::model::AlbumId::from_uri` makes of a text.
pub uninterp spec fn album_id_of(uri: Seq<char>) -> Result<Seq<char>, IdError>;

/// What `rspotify::model::PlaylistId::from_uri` makes of a text.
pub uninterp spec fn playlist_id_of(uri: Seq<char>) -> Result<Seq<char>, IdError>;

/// What `rspotify::model::TrackId::from_uri` makes of a text.
pub uninterp spec fn track_id_of(uri: Seq<char>) -> Result<Seq<char>, IdError>;

/// `rspotify::model::AlbumId::from_uri`, with the identifier handed back as
/// its text. The result depends on the text alone; a text that starts neither
/// with `spotify:` nor with `spotify/` is refused with `InvalidPrefix`, as the
/// crate documents. Nothing else is claimed, and nothing is proved.
#[verifier::external_body]
fn album_id_from_uri(uri: &str) -> (parsed: Result<String, IdError>)
    ensures
        id_view(parsed) == album_id_of(uri@),
        !has_uri_prefix(uri@) ==> parsed is Err && parsed->Err_0 == IdError::InvalidPrefix,
{
    match rspotify::model::AlbumId::from_uri(uri) {
        Ok(id) => Ok(rspotify::model::Id::id(&id).to_owned()),
        Err(rspotify::model::IdError::InvalidPrefix) => Err(IdError::InvalidPrefix),
        Err(rspotify::model::IdError::InvalidFormat) => Err(IdError::InvalidFormat),
        Err(rspotify::model::IdError::InvalidType) => Err(IdError::InvalidType),
        Err(rspotify::model::IdError::InvalidId) => Err(IdError::InvalidId),
    }
}

/// `rspotify::model::PlaylistId::from_uri`, with the identifier handed back
/// as its text. The result depends on the text alone; a text that starts
/// neither with `spotify:` nor with `spotify/` is refused with
/// `InvalidPrefix`, as the crate documents. Nothing else is claimed, and
/// nothing is proved.
#[verifier::external_body]
fn playlist_id_from_uri(uri: &str) -> (parsed: Result<String, IdError>)
    ensures
        id_view(parsed) == playlist_id_of(uri@),
        !has_uri_prefix(uri@) ==> parsed is Err && parsed->Err_0 == IdError::InvalidPrefix,
{
    match rspotify::model::PlaylistId::from_uri(uri) {
        Ok(id) => Ok(rspotify::model::Id::id(&id).to_owned()),
        Err(rspotify::model::IdError::InvalidPrefix) => Err(IdError::InvalidPrefix),
        Err(rspotify::model::IdError::InvalidFormat) => Err(IdError::InvalidFormat),
        Err(rspotify::model::IdError::InvalidType) => Err(IdError::InvalidType),
        Err(rspotify::model::IdError::InvalidId) => Err(IdError::InvalidId),
    }
}

/// `rspotify::model::TrackId::from_uri`, with the identifier handed back as
/// its text. The result depends on the text alone; a text that starts neither
/// with `spotify:` nor with `spotify/` is refused with `InvalidPrefix`, as the
/// crate documents. Nothing else is claimed, and nothing is proved.
#[verifier::external_body]
fn track_id_from_uri(uri: &str) -> (parsed: Result<String, IdError>)
    ensures
        id_view(parsed) == track_id_of(uri@),
        !has_uri_prefix(uri@) ==> parsed is Err && parsed->Err_0 == IdError::InvalidPrefix,
{
    match rspotify::model::TrackId::from_uri(uri) {
        Ok(id) => Ok(rspotify::model::Id::id(&id).to_owned()),
        Err(rspotify::model::IdError::InvalidPrefix) => Err(IdError::InvalidPrefix),
        Err(rspotify::model::IdError::InvalidFormat) => Err(IdError::InvalidFormat),
        Err(rspotify::model::IdError::InvalidType) => Err(IdError::InvalidType),
        Err(rspotify::model::IdError::InvalidId) => Err(IdError::InvalidId),
    }
}

/// What is asked of the catalogue for a link of kind `link` whose identifier
/// was parsed as `parsed`.
pub open spec fn request_of(link: Option<SpotifyLink>, parsed: Result<Seq<char>, IdError>) -> Result<
    SpotifyRequestView,
    SpotifyResolverErrorView,
> {
    match link {
        None => Err(SpotifyResolverErrorView::Unsupported),
        Some(kind) => match parsed {
            Err(e) => Err(SpotifyResolverErrorView::IdError(e)),
            Ok(id) => Ok(
                match kind {
                    SpotifyLink::Album => SpotifyRequestView::Album(id),
                    SpotifyLink::Playlist => SpotifyRequestView::Playlist(id),
                    SpotifyLink::Track => SpotifyRequestView::Track(id),
                },
            ),
        },
    }
}

/// The text that a link of kind `link` has its identifier parsed from, as
/// parsed by the catalogue's rules for that kind.
pub open spec fn parsed_id(link: Option<SpotifyLink>, url: Seq<char>) -> Result<Seq<char>, IdError> {
    match link {
        Some(SpotifyLink::Album) => album_id_of(url),
        Some(SpotifyLink::Playlist) => playlist_id_of(url),
        Some(SpotifyLink::Track) => track_id_of(url),
        None => Err(IdError::InvalidPrefix),
    }
}

/// The value of a request or of the error in its place.
pub open spec fn request_view(request: Result<SpotifyRequest, SpotifyResolverError>) -> Result<
    SpotifyRequestView,
    SpotifyResolverErrorView,
> {
    match request {
        Ok(r) => Ok(r@),
        Err(e) => Err(e@),
    }
}

/// Tells an album, a playlist and a track of the music catalogue apart by
/// the start of their address; any other address is of no kind.
pub fn classify(url: &str) -> (link: Option<SpotifyLink>)
    ensures
        link == link_kind(url@),
{
    if !starts_with(url, "https://open.spotify.com/") {
        None
    } else if starts_with(url, "https://open.spotify.com/album/") {
        Some(SpotifyLink::Album)
    } else if starts_with(url, "https://open.spotify.com/playlist/") {
        Some(SpotifyLink::Playlist)
    } else if starts_with(url, "https://open.spotify.com/track/") {
        Some(SpotifyLink::Track)
    } else {
        None
    }
}

/// Decides what is asked of the catalogue once the kind of a link and its
/// parsed identifier are known: an address of no kind is unsupported, an
/// identifier that did not parse is reported with the reason, and otherwise
/// the thing of that kind with that identifier is asked for.
pub fn request_for(link: Option<SpotifyLink>, parsed: Result<String, IdError>) -> (request: Result<
    SpotifyRequest,
    SpotifyResolverError,
>)
    ensures
        request_view(request) == request_of(link, id_view(parsed)),
{
    match link {
        None => Err(SpotifyResolverError::Unsupported),
        Some(kind) => match parsed {
            Err(e) => Err(SpotifyResolverError::IdError(e)),
            Ok(id) => Ok(
                match kind {
                    SpotifyLink::Album => SpotifyRequest::Album(id),
                    SpotifyLink::Playlist => SpotifyRequest::Playlist(id),
                    SpotifyLink::Track => SpotifyRequest::Track(id),
                },
            ),
        },
    }
}

/// An address of the music catalogue does not start as the catalogue's own
/// identifiers do.
pub proof fn lemma_link_has_no_uri_prefix(url: Seq<char>)
    requires
        link_kind(url) is Some,
    ensures
        !has_uri_prefix(url),
{
    reveal_strlit("https://open.spotify.com/");
    reveal_strlit("spotify:");
    reveal_strlit("spotify/");
    let head = "https://open.spotify.com/"@;
    assert(head.is_prefix_of(url));
    assert(url[0] == head[0]);
    if "spotify:"@.is_prefix_of(url) {
        assert(url[0] == "spotify:"@[0]);
    }
    if "spotify/"@.is_prefix_of(url) {
        assert(url[0] == "spotify/"@[0]);
    }
}

/// The mathematical value of a [`SimplifiedTrack`] and of a [`FullTrack`].
pub struct TrackView {
    pub name: Seq<char>,
    pub duration: i64,
    pub href: Option<Seq<char>>,
}

/// A track as an album lists it.
#[derive(Debug, PartialEq, Eq)]
pub struct SimplifiedTrack {
    pub name: String,
    /// The playing time in whole seconds, as the catalogue's signed count.
    pub duration: i64,
    /// The address of the track, where the catalogue names one.
    pub href: Option<String>,
}

/// A track as the catalogue describes it by itself or in a playlist.
#[derive(Debug, PartialEq, Eq)]
pub struct FullTrack {
    pub name: String,
    /// The playing time in whole seconds, as the catalogue's signed count.
    pub duration: i64,
    /// The address of the track, where the catalogue names one.
    pub href: Option<String>,
}

impl View for SimplifiedTrack {
    type V = TrackView;

    open spec fn view(&self) -> TrackView {
        TrackView { name: self.name@, duration: self.duration, href: super::text_view_opt(self.href) }
    }
}

impl View for FullTrack {
    type V = TrackView;

    open spec fn view(&self) -> TrackView {
        TrackView { name: self.name@, duration: self.duration, href: super::text_view_opt(self.href) }
    }
}

/// The mathematical value of a [`PlayableItem`].
pub enum PlayableItemView {
    Track(TrackView),
    Episode,
}

/// What a playlist can hold.
#[derive(Debug, PartialEq, Eq)]
pub enum PlayableItem {
    Track(FullTrack),
    /// An episode of a show; nothing of it is read.
    Episode,
}

impl View for PlayableItem {
    type V = PlayableItemView;

    open spec fn view(&self) -> PlayableItemView {
        match self {
            PlayableItem::Track(track) => PlayableItemView::Track(track@),
            PlayableItem::Episode => PlayableItemView::Episode,
        }
    }
}

/// An entry of a playlist; the catalogue may leave out what it holds.
#[derive(Debug, PartialEq, Eq)]
pub struct PlaylistItem {
    pub track: Option<PlayableItem>,
}

impl View for PlaylistItem {
    type V = Option<PlayableItemView>;

    open spec fn view(&self) -> Option<PlayableItemView> {
        match self.track {
            Some(item) => Some(item@),
            None => None,
        }
    }
}

/// The mathematical value of an [`Album`].
pub struct AlbumView {
    pub name: Seq<char>,
    pub artists: Seq<Seq<char>>,
    pub href: Seq<char>,
    pub tracks: Seq<TrackView>,
}

/// An album as the catalogue describes it.
#[derive(Debug, PartialEq, Eq)]
pub struct Album {
    pub name: String,
    /// The names of the artists, as the catalogue orders them.
    pub artists: Vec<String>,
    pub href: String,
    pub tracks: Vec<SimplifiedTrack>,
}

impl View for Album {
    type V = AlbumView;

    open spec fn view(&self) -> AlbumView {
        AlbumView {
            name: self.name@,
            artists: Seq::new(self.artists@.len(), |i: int| self.artists@[i]@),
            href: self.href@,
            tracks: Seq::new(self.tracks@.len(), |i: int| self.tracks@[i]@),
        }
    }
}

/// The mathematical value of a [`Playlist`].
pub struct PlaylistView {
    pub name: Seq<char>,
    pub href: Seq<char>,
    pub tracks: Seq<Option<PlayableItemView>>,
}

/// A playlist as the catalogue describes it.
#[derive(Debug, PartialEq, Eq)]
pub struct Playlist {
    pub name: String,
    pub href: String,
    pub tracks: Vec<PlaylistItem>,
}

impl View for Playlist {
    type V = PlaylistView;

    open spec fn view(&self) -> PlaylistView {
        PlaylistView {
            name: self.name@,
            href: self.href@,
            tracks: Seq::new(self.tracks@.len(), |i: int| self.tracks@[i]@),
        }
    }
}

/// A signed count of seconds read as an unsigned one of the same width: a
/// count below zero wraps around.
pub open spec fn seconds_unsigned(seconds: i64) -> u64 {
    if seconds >= 0 {
        seconds as u64
    } else {
        (seconds + 0x1_0000_0000_0000_0000) as u64
    }
}

impl TrackView {
    /// The metadata of a track: its name, no description and no image, its
    /// playing time and its address. A track without an address has none.
    pub open spec fn metadata(self) -> Result<MetadataView, SpotifyResolverErrorView> {
        match self.href {
            Some(url) => Ok(
                MetadataView::Single {
                    title: self.name,
                    description: Seq::empty(),
                    image_url: None,
                    duration: seconds_unsigned(self.duration),
                    url,
                },
            ),
            None => Err(SpotifyResolverErrorView::MissingHref),
        }
    }
}

impl PlayableItemView {
    /// The metadata of a track in a playlist; an episode has none.
    pub open spec fn metadata(self) -> Result<MetadataView, SpotifyResolverErrorView> {
        match self {
            PlayableItemView::Track(track) => track.metadata(),
            PlayableItemView::Episode => Err(SpotifyResolverErrorView::Unsupported),
        }
    }
}

/// The metadata of an entry of a playlist; an entry that holds nothing has
/// none.
pub open spec fn entry_metadata(entry: Option<PlayableItemView>) -> Result<
    MetadataView,
    SpotifyResolverErrorView,
> {
    match entry {
        Some(item) => item.metadata(),
        None => Err(SpotifyResolverErrorView::Unsupported),
    }
}

/// The metadata that were made, in their order, leaving out what failed.
pub open spec fn successes(made: Seq<Result<MetadataView, SpotifyResolverErrorView>>) -> Seq<
    MetadataView,
>
    decreases made.len(),
{
    if made.len() == 0 {
        Seq::empty()
    } else {
        match made.last() {
            Ok(metadata) => successes(made.drop_last()).push(metadata),
            Err(_) => successes(made.drop_last()),
        }
    }
}

impl AlbumView {
    /// The metadata of an album: a playlist under the album's name and
    /// address, described by the name of its first artist, that holds every
    /// track that has metadata, in the album's order.
    pub open spec fn metadata(self) -> MetadataView {
        MetadataView::Playlist {
            title: self.name,
            description: if self.artists.len() > 0 {
                self.artists[0]
            } else {
                Seq::empty()
            },
            url: self.href,
            contents: successes(self.tracks.map_values(|t: TrackView| t.metadata())),
        }
    }
}

impl PlaylistView {
    /// The metadata of a playlist: its name and address, no description, and
    /// every entry that has metadata, in the playlist's order.
    pub open spec fn metadata(self) -> MetadataView {
        MetadataView::Playlist {
            title: self.name,
            description: Seq::empty(),
            url: self.href,
            contents: successes(
                self.tracks.map_values(|e: Option<PlayableItemView>| entry_metadata(e)),
            ),
        }
    }
}

/// The value of metadata or of the error in their place.
pub open spec fn made_view(made: Result<Metadata, SpotifyResolverError>) -> Result<
    MetadataView,
    SpotifyResolverErrorView,
> {
    match made {
        Ok(m) => Ok(m@),
        Err(e) => Err(e@),
    }
}

/// Reads a signed count of seconds as an unsigned one.
fn unsigned_seconds(seconds: i64) -> (unsigned: u64)
    ensures
        unsigned == seconds_unsigned(seconds),
{
    if seconds >= 0 {
        seconds as u64
    } else {
        u64::MAX - ((-(seconds + 1)) as u64)
    }
}

/// The metadata of a track given by its three parts.
fn track_metadata(name: String, duration: i64, href: Option<String>) -> (made: Result<
    Metadata,
    SpotifyResolverError,
>)
    ensures
        made_view(made) == (TrackView {
            name: name@,
            duration,
            href: super::text_view_opt(href),
        }).metadata(),
{
    match href {
        Some(url) => Ok(
            Metadata::Single {
                title: name,
                description: String::new(),
                image_url: None,
                duration: unsigned_seconds(duration),
                url,
            },
        ),
        None => Err(SpotifyResolverError::MissingHref),
    }
}

impl TryFrom<SimplifiedTrack> for Metadata {
    type Error = SpotifyResolverError;

    fn try_from(track: SimplifiedTrack) -> (made: Result<Metadata, SpotifyResolverError>)
        ensures
            made_view(made) == track@.metadata(),
    {
        track_metadata(track.name, track.duration, track.href)
    }
}

impl vstd::std_specs::convert::TryFromSpecImpl<SimplifiedTrack> for Metadata {
    open spec fn obeys_try_from_spec() -> bool {
        false
    }

    open spec fn try_from_spec(track: SimplifiedTrack) -> Result<Metadata, SpotifyResolverError> {
        arbitrary()
    }
}

impl TryFrom<FullTrack> for Metadata {
    type Error = SpotifyResolverError;

    fn try_from(track: FullTrack) -> (made: Result<Metadata, SpotifyResolverError>)
        ensures
            made_view(made) == track@.metadata(),
    {
        track_metadata(track.name, track.duration, track.href)
    }
}

impl vstd::std_specs::convert::TryFromSpecImpl<FullTrack> for Metadata {
    open spec fn obeys_try_from_spec() -> bool {
        false
    }

    open spec fn try_from_spec(track: FullTrack) -> Result<Metadata, SpotifyResolverError> {
        arbitrary()
    }
}

impl TryFrom<PlayableItem> for Metadata {
    type Error = SpotifyResolverError;

    fn try_from(item: PlayableItem) -> (made: Result<Metadata, SpotifyResolverError>)
        ensures
            made_view(made) == item@.metadata(),
    {
        match item {
            PlayableItem::Track(track) => Metadata::try_from(track),
            PlayableItem::Episode => Err(SpotifyResolverError::Unsupported),
        }
    }
}

impl vstd::std_specs::convert::TryFromSpecImpl<PlayableItem> for Metadata {
    open spec fn obeys_try_from_spec() -> bool {
        false
    }

    open spec fn try_from_spec(item: PlayableItem) -> Result<Metadata, SpotifyResolverError> {
        arbitrary()
    }
}

impl TryFrom<PlaylistItem> for Metadata {
    type Error = SpotifyResolverError;

    fn try_from(item: PlaylistItem) -> (made: Result<Metadata, SpotifyResolverError>)
        ensures
            made_view(made) == entry_metadata(item@),
    {
        match item.track {
            Some(track) => Metadata::try_from(track),
            None => Err(SpotifyResolverError::Unsupported),
        }
    }
}

impl vstd::std_specs::convert::TryFromSpecImpl<PlaylistItem> for Metadata {
    open spec fn obeys_try_from_spec() -> bool {
        false
    }

    open spec fn try_from_spec(item: PlaylistItem) -> Result<Metadata, SpotifyResolverError> {
        arbitrary()
    }
}

/// The metadata of a track that stays with its owner.
fn listed_track_metadata(track: &SimplifiedTrack) -> (made: Result<Metadata, SpotifyResolverError>)
    ensures
        made_view(made) == track@.metadata(),
{
    let href = match &track.href {
        Some(url) => Some(url.clone()),
        None => None,
    };
    track_metadata(track.name.clone(), track.duration, href)
}

/// The metadata of a playlist entry that stays with its owner.
fn listed_entry_metadata(entry: &PlaylistItem) -> (made: Result<Metadata, SpotifyResolverError>)
    ensures
        made_view(made) == entry_metadata(entry@),
{
    match &entry.track {
        Some(PlayableItem::Track(track)) => {
            let href = match &track.href {
                Some(url) => Some(url.clone()),
                None => None,
            };
            track_metadata(track.name.clone(), track.duration, href)
        },
        Some(PlayableItem::Episode) => Err(SpotifyResolverError::Unsupported),
        None => Err(SpotifyResolverError::Unsupported),
    }
}

/// The value of a list of metadata or of the error in its place.
pub open spec fn resolved_view(resolved: Result<Vec<Metadata>, SpotifyResolverError>) -> Result<
    Seq<MetadataView>,
    SpotifyResolverErrorView,
> {
    match resolved {
        Ok(list) => Ok(metadata_views(list@)),
        Err(e) => Err(e@),
    }
}

/// A resolver for the music catalogue.
///
/// The catalogue streams nothing itself: the resolver looks up what a link
/// points at, and other resolvers find a source for it.
#[derive(Debug, PartialEq, Eq)]
pub struct SpotifyResolver {
    client_id: String,
    client_secret: String,
}

impl SpotifyResolver {
    pub closed spec fn spec_client_id(&self) -> Seq<char> {
        self.client_id@
    }

    pub closed spec fn spec_client_secret(&self) -> Seq<char> {
        self.client_secret@
    }

    /// Creates a resolver that presents the given credentials to the
    /// catalogue.
    pub fn new(client_id: &str, client_secret: &str) -> (resolver: Self)
        ensures
            resolver.spec_client_id() == client_id@,
            resolver.spec_client_secret() == client_secret@,
    {
        SpotifyResolver {
            client_id: client_id.to_owned(),
            client_secret: client_secret.to_owned(),
        }
    }

    /// The identifier that the resolver presents to the catalogue.
    pub fn client_id(&self) -> (id: &String)
        ensures
            id@ == self.spec_client_id(),
    {
        &self.client_id
    }

    /// The secret that the resolver presents to the catalogue.
    pub fn client_secret(&self) -> (secret: &String)
        ensures
            secret@ == self.spec_client_secret(),
    {
        &self.client_secret
    }

    /// Decides what is to be fetched for `url`.
    ///
    /// An address that is no album, playlist or track of the catalogue is
    /// unsupported. For one that is, the whole address is parsed as an
    /// identifier of its kind, and an identifier that does not parse is
    /// reported with the reason. An address of the catalogue never starts as
    /// an identifier does, so for every such address the reason is
    /// `InvalidPrefix`.
    pub fn request(&self, url: &str) -> (request: Result<SpotifyRequest, SpotifyResolverError>)
        ensures
            request_view(request) == request_of(link_kind(url@), parsed_id(link_kind(url@), url@)),
            link_kind(url@) is None ==> request_view(request) == Err::<
                SpotifyRequestView,
                SpotifyResolverErrorView,
            >(SpotifyResolverErrorView::Unsupported),
            link_kind(url@) is Some ==> request_view(request) == Err::<
                SpotifyRequestView,
                SpotifyResolverErrorView,
            >(SpotifyResolverErrorView::IdError(IdError::InvalidPrefix)),
    {
        let link = classify(url);
        proof {
            if link is Some {
                lemma_link_has_no_uri_prefix(url@);
            }
        }
        let parsed = match link {
            Some(SpotifyLink::Album) => album_id_from_uri(url),
            Some(SpotifyLink::Playlist) => playlist_id_from_uri(url),
            Some(SpotifyLink::Track) => track_id_from_uri(url),
            None => Err(IdError::InvalidPrefix),
        };
        request_for(link, parsed)
    }

    /// Turns the catalogue's answer for an album into metadata: one playlist
    /// that holds the album's tracks. A failure of the client is reported
    /// with its text.
    pub fn album(&self, fetched: Result<Album, String>) -> (resolved: Result<
        Vec<Metadata>,
        SpotifyResolverError,
    >)
        ensures
            resolved_view(resolved) == match fetched {
                Ok(album) => Ok(seq![album@.metadata()]),
                Err(report) => Err(SpotifyResolverErrorView::ClientError(report@)),
            },
    {
        match fetched {
            Err(report) => Err(SpotifyResolverError::ClientError(report)),
            Ok(album) => {
                let ghost made = album@.tracks.map_values(|t: TrackView| t.metadata());
                let mut contents: Vec<Metadata> = Vec::new();
                let mut i: usize = 0;
                assert(made.take(0) =~= Seq::empty());
                while i < album.tracks.len()
                    invariant
                        i <= album.tracks@.len(),
                        made == album@.tracks.map_values(|t: TrackView| t.metadata()),
                        metadata_views(contents@) == successes(made.take(i as int)),
                    decreases album.tracks@.len() - i,
                {
                    let ghost before = metadata_views(contents@);
                    assert(made.take(i + 1).drop_last() =~= made.take(i as int));
                    assert(made.take(i + 1).last() == album.tracks@[i as int]@.metadata());
                    match listed_track_metadata(&album.tracks[i]) {
                        Ok(metadata) => {
                            contents.push(metadata);
                            assert(metadata_views(contents@) =~= before.push(metadata@));
                        },
                        Err(_) => {},
                    }
                    i = i + 1;
                }
                assert(made.take(i as int) =~= made);
                let description = if album.artists.len() > 0 {
                    album.artists[0].clone()
                } else {
                    String::new()
                };
                let playlist = Metadata::playlist(album.name, description, album.href, contents);
                let mut list: Vec<Metadata> = Vec::new();
                list.push(playlist);
                assert(metadata_views(list@) =~= seq![album@.metadata()]);
                Ok(list)
            },
        }
    }

    /// Turns the catalogue's answer for a playlist into metadata: one
    /// playlist that holds the entries that are tracks with an address. A
    /// failure of the client is reported with its text.
    pub fn playlist(&self, fetched: Result<Playlist, String>) -> (resolved: Result<
        Vec<Metadata>,
        SpotifyResolverError,
    >)
        ensures
            resolved_view(resolved) == match fetched {
                Ok(playlist) => Ok(seq![playlist@.metadata()]),
                Err(report) => Err(SpotifyResolverErrorView::ClientError(report@)),
            },
    {
        match fetched {
            Err(report) => Err(SpotifyResolverError::ClientError(report)),
            Ok(playlist) => {
                let ghost made = playlist@.tracks.map_values(
                    |e: Option<PlayableItemView>| entry_metadata(e),
                );
                let mut contents: Vec<Metadata> = Vec::new();
                let mut i: usize = 0;
                assert(made.take(0) =~= Seq::empty());
                while i < playlist.tracks.len()
                    invariant
                        i <= playlist.tracks@.len(),
                        made == playlist@.tracks.map_values(
                            |e: Option<PlayableItemView>| entry_metadata(e),
                        ),
                        metadata_views(contents@) == successes(made.take(i as int)),
                    decreases playlist.tracks@.len() - i,
                {
                    let ghost before = metadata_views(contents@);
                    assert(made.take(i + 1).drop_last() =~= made.take(i as int));
                    assert(made.take(i + 1).last() == entry_metadata(playlist.tracks@[i as int]@));
                    match listed_entry_metadata(&playlist.tracks[i]) {
                        Ok(metadata) => {
                            contents.push(metadata);
                            assert(metadata_views(contents@) =~= before.push(metadata@));
                        },
                        Err(_) => {},
                    }
                    i = i + 1;
                }
                assert(made.take(i as int) =~= made);
                let entry = Metadata::playlist(
                    playlist.name,
                    String::new(),
                    playlist.href,
                    contents,
                );
                let mut list: Vec<Metadata> = Vec::new();
                list.push(entry);
                assert(metadata_views(list@) =~= seq![playlist@.metadata()]);
                Ok(list)
            },
        }
    }

    /// Turns the catalogue's answer for a track into metadata: the track by
    /// itself. A failure of the client is reported with its text, a track
    /// without an address as `MissingHref`.
    pub fn track(&self, fetched: Result<FullTrack, String>) -> (resolved: Result<
        Vec<Metadata>,
        SpotifyResolverError,
    >)
        ensures
            resolved_view(resolved) == match fetched {
                Ok(track) => match track@.metadata() {
                    Ok(metadata) => Ok(seq![metadata]),
                    Err(e) => Err(e),
                },
                Err(report) => Err(SpotifyResolverErrorView::ClientError(report@)),
            },
    {
        match fetched {
            Err(report) => Err(SpotifyResolverError::ClientError(report)),
            Ok(track) => match Metadata::try_from(track) {
                Ok(metadata) => {
                    let mut list: Vec<Metadata> = Vec::new();
                    list.push(metadata);
                    assert(metadata_views(list@) =~= seq![metadata@]);
                    Ok(list)
                },
                Err(e) => Err(e),
            },
        }
    }
}

} // verus!
