//! Turning what the catalogues answer into metadata of playable sources.
//!
//! Talking to a catalogue suspends the caller and is not done here. The
//! resolvers decide what is to be asked and turn the answers, handed in as
//! plain values, into [`Metadata`].

pub mod spotify;
pub mod youtube;

use vstd::prelude::*;
use self::spotify::{SpotifyResolver, SpotifyResolverError};
use self::youtube::YoutubeResolver;

verus! {

/// The mathematical value of a [`Metadata`].
pub enum MetadataView {
    Single {
        title: Seq<char>,
        description: Seq<char>,
        image_url: Option<Seq<char>>,
        duration: u64,
        url: Seq<char>,
    },
    Playlist { title: Seq<char>, description: Seq<char>, url: Seq<char>, contents: Seq<MetadataView> },
}

/// Metadata associated with a source.
#[derive(Debug, PartialEq, Eq)]
pub enum Metadata {
    Single {
        title: String,
        description: String,
        image_url: Option<String>,
        /// The playing time in whole seconds.
        duration: u64,
        url: String,
    },
    Playlist { title: String, description: String, url: String, contents: Vec<Metadata> },
}

/// The value of an optional text.
pub open spec fn text_view_opt(text: Option<String>) -> Option<Seq<char>> {
    match text {
        Some(t) => Some(t@),
        None => None,
    }
}

/// The value of `metadata`: the values of its texts and, for a playlist, of
/// its entries in their order.
pub open spec fn metadata_view(metadata: Metadata) -> MetadataView
    decreases metadata,
{
    match metadata {
        Metadata::Single { title, description, image_url, duration, url } => MetadataView::Single {
            title: title@,
            description: description@,
            image_url: text_view_opt(image_url),
            duration,
            url: url@,
        },
        Metadata::Playlist { title, description, url, contents } => MetadataView::Playlist {
            title: title@,
            description: description@,
            url: url@,
            contents: Seq::new(
                contents@.len(),
                |i: int|
                    if 0 <= i < contents@.len() {
                        metadata_view(contents@[i])
                    } else {
                        arbitrary()
                    },
            ),
        },
    }
}

impl View for Metadata {
    type V = MetadataView;

    open spec fn view(&self) -> MetadataView {
        metadata_view(*self)
    }
}

/// The values of a list of metadata, in its order.
pub open spec fn metadata_views(list: Seq<Metadata>) -> Seq<MetadataView> {
    Seq::new(list.len(), |i: int| list[i]@)
}

impl MetadataView {
    /// Where the source is found.
    pub open spec fn url(self) -> Seq<char> {
        match self {
            MetadataView::Single { url, .. } => url,
            MetadataView::Playlist { url, .. } => url,
        }
    }
}

impl Metadata {
    /// The metadata of a playlist with the given parts.
    pub fn playlist(title: String, description: String, url: String, contents: Vec<Metadata>) -> (made:
        Metadata)
        ensures
            made@ == (MetadataView::Playlist {
                title: title@,
                description: description@,
                url: url@,
                contents: metadata_views(contents@),
            }),
    {
        let ghost items = contents@;
        let made = Metadata::Playlist { title, description, url, contents };
        assert(made@->Playlist_contents =~= metadata_views(items));
        made
    }

    /// The address of the source, of a single track and of a playlist alike.
    pub fn url(&self) -> (url: &String)
        ensures
            url@ == self@.url(),
    {
        match self {
            Metadata::Single { url, .. } => url,
            Metadata::Playlist { url, .. } => url,
        }
    }
}

/// The mathematical value of a [`GlobalResolverError`].
pub enum GlobalResolverErrorView {
    Youtube(Seq<char>),
}

/// An error that can occur when resolving addresses.
#[derive(Debug, PartialEq, Eq)]
pub enum GlobalResolverError {
    /// The video catalogue failed; holds its report.
    Youtube(String),
}

impl View for GlobalResolverError {
    type V = GlobalResolverErrorView;

    open spec fn view(&self) -> GlobalResolverErrorView {
        match self {
            GlobalResolverError::Youtube(report) => GlobalResolverErrorView::Youtube(report@),
        }
    }
}

/// What a backend contributes: what it found, or nothing where it failed.
pub open spec fn contribution<E>(answer: Result<Vec<Metadata>, E>) -> Seq<MetadataView> {
    match answer {
        Ok(list) => metadata_views(list@),
        Err(_) => Seq::empty(),
    }
}

/// A resolver that asks every catalogue it knows.
#[derive(Debug)]
pub struct GlobalResolver {
    youtube: YoutubeResolver,
    spotify: SpotifyResolver,
}

impl GlobalResolver {
    pub closed spec fn spec_youtube(&self) -> YoutubeResolver {
        self.youtube
    }

    pub closed spec fn spec_spotify(&self) -> SpotifyResolver {
        self.spotify
    }

    /// Initializes a new global resolver: a resolver for the video
    /// catalogue with its usual search options, and one for the music
    /// catalogue with the given credentials.
    pub fn new(spotify_client_id: &str, spotify_client_secret: &str) -> (resolver: Self)
        ensures
            resolver.spec_youtube().spec_limit() == 25,
            !resolver.spec_youtube().spec_safe_search(),
            resolver.spec_spotify().spec_client_id() == spotify_client_id@,
            resolver.spec_spotify().spec_client_secret() == spotify_client_secret@,
    {
        GlobalResolver {
            youtube: YoutubeResolver::default(),
            spotify: SpotifyResolver::new(spotify_client_id, spotify_client_secret),
        }
    }

    /// The resolver for the video catalogue.
    pub fn youtube(&self) -> (resolver: &YoutubeResolver)
        ensures
            *resolver == self.spec_youtube(),
    {
        &self.youtube
    }

    /// The resolver for the music catalogue.
    pub fn spotify(&self) -> (resolver: &SpotifyResolver)
        ensures
            *resolver == self.spec_spotify(),
    {
        &self.spotify
    }

    /// Combines what the backends answered to one query: what the video
    /// catalogue found, then what the music catalogue found. A backend that
    /// failed contributes nothing and its error is dropped, so the call
    /// succeeds whatever the backends did.
    pub fn resolve(
        &self,
        youtube: Result<Vec<Metadata>, String>,
        spotify: Result<Vec<Metadata>, SpotifyResolverError>,
    ) -> (resolved: Result<Vec<Metadata>, GlobalResolverError>)
        ensures
            resolved is Ok,
            metadata_views(resolved->Ok_0@) == contribution(youtube) + contribution(spotify),
    {
        let mut results: Vec<Metadata> = Vec::new();
        assert(metadata_views(results@) =~= Seq::<MetadataView>::empty());
        match youtube {
            Ok(mut found) => {
                let ghost added = found@;
                results.append(&mut found);
                assert(results@ =~= added);
            },
            Err(_) => {},
        }
        let ghost first = results@;
        match spotify {
            Ok(mut found) => {
                let ghost added = found@;
                results.append(&mut found);
                assert(metadata_views(results@) =~= metadata_views(first) + metadata_views(added));
            },
            Err(_) => {
                assert(metadata_views(first) + Seq::<MetadataView>::empty() =~= metadata_views(
                    first,
                ));
            },
        }
        Ok(results)
    }
}

} // verus!
