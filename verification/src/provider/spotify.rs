//! The provider for the music catalogue.

use vstd::prelude::*;
use super::{Backend, Provider};
use crate::resolver::Metadata;
use crate::text::starts_with;

verus! {

/// Why the music catalogue has no source.
#[derive(Clone, Copy, Debug, PartialEq, Eq, Structural)]
pub enum SpotifyProviderError {
    /// Unsupported operation.
    Unsupported,
}

/// The provider for the music catalogue, which describes tracks and streams
/// none.
#[derive(Debug, PartialEq, Eq)]
pub struct SpotifyProvider {
    client_id: String,
    client_secret: String,
}

impl SpotifyProvider {
    pub closed spec fn spec_client_id(&self) -> Seq<char> {
        self.client_id@
    }

    pub closed spec fn spec_client_secret(&self) -> Seq<char> {
        self.client_secret@
    }

    /// Creates a provider that presents the given credentials to the
    /// catalogue.
    pub fn new(client_id: &str, client_secret: &str) -> (provider: Self)
        ensures
            provider.spec_client_id() == client_id@,
            provider.spec_client_secret() == client_secret@,
    {
        SpotifyProvider {
            client_id: client_id.to_owned(),
            client_secret: client_secret.to_owned(),
        }
    }

    /// The identifier that the provider presents to the catalogue.
    pub fn client_id(&self) -> (id: &String)
        ensures
            id@ == self.spec_client_id(),
    {
        &self.client_id
    }

    /// The secret that the provider presents to the catalogue.
    pub fn client_secret(&self) -> (secret: &String)
        ensures
            secret@ == self.spec_client_secret(),
    {
        &self.client_secret
    }

    /// The music catalogue streams nothing: whatever is asked for, there is
    /// no source.
    pub fn source(&self, metadata: &Metadata) -> (chosen: Result<Backend, SpotifyProviderError>)
        ensures
            chosen == Err::<Backend, SpotifyProviderError>(SpotifyProviderError::Unsupported),
    {
        Err(SpotifyProviderError::Unsupported)
    }
}

impl Provider for SpotifyProvider {
    /// The addresses of the music catalogue.
    open spec fn handles(&self, url: Seq<char>) -> bool {
        "https://open.spotify.com/"@.is_prefix_of(url)
    }

    fn matches(&self, url: &str) -> (handled: bool) {
        starts_with(url, "https://open.spotify.com/")
    }
}

} // verus!
