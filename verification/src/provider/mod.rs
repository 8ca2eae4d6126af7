//! Choosing the backend that turns metadata into an audio source.
//!
//! Opening a stream is left to the caller: a provider says whether an
//! address is its own, and the global provider says which backend is to be
//! asked for a source.

pub mod spotify;
pub mod youtube;

use vstd::prelude::*;
use self::spotify::{SpotifyProvider, SpotifyProviderError};
use self::youtube::YoutubeProvider;
use crate::resolver::Metadata;

verus! {

/// A provider of sources.
pub trait Provider {
    /// The addresses that this provider handles.
    spec fn handles(&self, url: Seq<char>) -> bool;

    /// Returns true if a given address can be handled by this provider.
    fn matches(&self, url: &str) -> (handled: bool)
        ensures
            handled == self.handles(url@),
    ;
}

/// The backend that opens the stream for a source.
#[derive(Clone, Copy, Debug, PartialEq, Eq, Structural)]
pub enum Backend {
    /// The video catalogue streams the source itself.
    Youtube,
}

/// Why the global provider has no source.
#[derive(Debug, PartialEq, Eq)]
pub enum GlobalProviderError {
    YoutubeError,
    SpotifyError(SpotifyProviderError),
}

/// A provider that knows every backend.
#[derive(Debug)]
pub struct GlobalProvider {
    youtube: YoutubeProvider,
    spotify: SpotifyProvider,
}

impl Provider for GlobalProvider {
    /// The global provider takes every address.
    open spec fn handles(&self, url: Seq<char>) -> bool {
        true
    }

    fn matches(&self, url: &str) -> (handled: bool) {
        true
    }
}

impl GlobalProvider {
    pub closed spec fn spec_youtube(&self) -> YoutubeProvider {
        self.youtube
    }

    pub closed spec fn spec_spotify(&self) -> SpotifyProvider {
        self.spotify
    }

    /// Initializes a new global provider: the provider for the video
    /// catalogue, and one for the music catalogue with the given credentials.
    pub fn new(client_id: &str, client_secret: &str) -> (provider: Self)
        ensures
            provider.spec_spotify().spec_client_id() == client_id@,
            provider.spec_spotify().spec_client_secret() == client_secret@,
    {
        GlobalProvider {
            youtube: YoutubeProvider,
            spotify: SpotifyProvider::new(client_id, client_secret),
        }
    }

    /// The provider for the video catalogue.
    pub fn youtube(&self) -> (provider: &YoutubeProvider)
        ensures
            *provider == self.spec_youtube(),
    {
        &self.youtube
    }

    /// The provider for the music catalogue.
    pub fn spotify(&self) -> (provider: &SpotifyProvider)
        ensures
            *provider == self.spec_spotify(),
    {
        &self.spotify
    }

    /// Whether one of the backends handles `url`.
    pub open spec fn routable(&self, url: Seq<char>) -> bool {
        self.spec_youtube().handles(url) || self.spec_spotify().handles(url)
    }

    /// Says whether [`GlobalProvider::source`] accepts `metadata`.
    pub fn can_route(&self, metadata: &Metadata) -> (routable: bool)
        ensures
            routable == self.routable(metadata@.url()),
    {
        let url = metadata.url();
        self.youtube.matches(url.as_str()) || self.spotify.matches(url.as_str())
    }

    /// Chooses the backend for the source that `metadata` describes. The
    /// video catalogue is asked first: an address of its own is streamed by
    /// it. An address of the music catalogue has no source, since that
    /// catalogue streams nothing. An address of neither is not accepted.
    pub fn source(&self, metadata: &Metadata) -> (chosen: Result<Backend, GlobalProviderError>)
        requires
            self.routable(metadata@.url()),
        ensures
            self.spec_youtube().handles(metadata@.url()) ==> chosen == Ok::<
                Backend,
                GlobalProviderError,
            >(Backend::Youtube),
            !self.spec_youtube().handles(metadata@.url()) ==> chosen == Err::<
                Backend,
                GlobalProviderError,
            >(GlobalProviderError::SpotifyError(SpotifyProviderError::Unsupported)),
    {
        let url = metadata.url();
        if self.youtube.matches(url.as_str()) {
            Ok(Backend::Youtube)
        } else {
            match self.spotify.source(metadata) {
                Ok(backend) => Ok(backend),
                Err(e) => Err(GlobalProviderError::SpotifyError(e)),
            }
        }
    }
}

} // verus!
