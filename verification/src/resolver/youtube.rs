//! Search results of the video catalogue, and their metadata.

use vstd::prelude::*;
use super::{metadata_views, text_view_opt, Metadata, MetadataView};

verus! {

/// The mathematical value of a [`Video`].
pub struct VideoView {
    pub title: Seq<char>,
    pub description: Seq<char>,
    pub thumbnails: Seq<Seq<char>>,
    pub duration: u64,
    pub url: Seq<char>,
}

/// A video as the search reports it.
#[derive(Debug, PartialEq, Eq)]
pub struct Video {
    pub title: String,
    pub description: String,
    /// The addresses of the preview images, as the catalogue orders them.
    pub thumbnails: Vec<String>,
    /// The playing time in whole seconds.
    pub duration: u64,
    pub url: String,
}

/// The values of a list of texts, in its order.
pub open spec fn text_views(texts: Seq<String>) -> Seq<Seq<char>> {
    Seq::new(texts.len(), |i: int| texts[i]@)
}

impl View for Video {
    type V = VideoView;

    open spec fn view(&self) -> VideoView {
        VideoView {
            title: self.title@,
            description: self.description@,
            thumbnails: text_views(self.thumbnails@),
            duration: self.duration,
            url: self.url@,
        }
    }
}

/// The mathematical value of a [`Playlist`].
pub struct PlaylistView {
    pub name: Seq<char>,
    pub url: Seq<char>,
    pub videos: Seq<VideoView>,
}

/// A playlist as the search reports it.
#[derive(Debug, PartialEq, Eq)]
pub struct Playlist {
    pub name: String,
    pub url: String,
    pub videos: Vec<Video>,
}

/// The values of a list of videos, in its order.
pub open spec fn video_views(videos: Seq<Video>) -> Seq<VideoView> {
    Seq::new(videos.len(), |i: int| videos[i]@)
}

impl View for Playlist {
    type V = PlaylistView;

    open spec fn view(&self) -> PlaylistView {
        PlaylistView { name: self.name@, url: self.url@, videos: video_views(self.videos@) }
    }
}

/// The mathematical value of a [`SearchResult`].
pub enum SearchResultView {
    Video(VideoView),
    Playlist(PlaylistView),
    Channel,
}

/// One entry of what a search found.
#[derive(Debug, PartialEq, Eq)]
pub enum SearchResult {
    Video(Video),
    Playlist(Playlist),
    /// A channel; nothing of it is read.
    Channel,
}

impl View for SearchResult {
    type V = SearchResultView;

    open spec fn view(&self) -> SearchResultView {
        match self {
            SearchResult::Video(video) => SearchResultView::Video(video@),
            SearchResult::Playlist(playlist) => SearchResultView::Playlist(playlist@),
            SearchResult::Channel => SearchResultView::Channel,
        }
    }
}

/// The values of a list of search results, in its order.
pub open spec fn result_views(results: Seq<SearchResult>) -> Seq<SearchResultView> {
    Seq::new(results.len(), |i: int| results[i]@)
}

impl VideoView {
    /// The metadata of a video: its own title, description, playing time and
    /// address, and its first preview image where it has one.
    pub open spec fn metadata(self) -> MetadataView {
        MetadataView::Single {
            title: self.title,
            description: self.description,
            image_url: if self.thumbnails.len() > 0 {
                Some(self.thumbnails[0])
            } else {
                None
            },
            duration: self.duration,
            url: self.url,
        }
    }
}

impl PlaylistView {
    /// The metadata of a playlist: its name and address, no description, and
    /// the metadata of its videos in their order.
    pub open spec fn metadata(self) -> MetadataView {
        MetadataView::Playlist {
            title: self.name,
            description: Seq::empty(),
            url: self.url,
            contents: Seq::new(self.videos.len(), |i: int| self.videos[i].metadata()),
        }
    }
}

/// The metadata of every entry of `results` that is no channel, in the order
/// of `results`.
pub open spec fn playable(results: Seq<SearchResultView>) -> Seq<MetadataView>
    decreases results.len(),
{
    if results.len() == 0 {
        Seq::empty()
    } else {
        let before = playable(results.drop_last());
        match results.last() {
            SearchResultView::Video(video) => before.push(video.metadata()),
            SearchResultView::Playlist(playlist) => before.push(playlist.metadata()),
            SearchResultView::Channel => before,
        }
    }
}

/// The metadata of a video that stays with its owner.
fn video_metadata(video: &Video) -> (made: Metadata)
    ensures
        made@ == video@.metadata(),
{
    let image_url = if video.thumbnails.len() > 0 {
        Some(video.thumbnails[0].clone())
    } else {
        None
    };
    Metadata::Single {
        title: video.title.clone(),
        description: video.description.clone(),
        image_url,
        duration: video.duration,
        url: video.url.clone(),
    }
}

impl From<Video> for Metadata {
    fn from(video: Video) -> (made: Metadata)
        ensures
            made@ == video@.metadata(),
    {
        let image_url = if video.thumbnails.len() > 0 {
            Some(video.thumbnails[0].clone())
        } else {
            None
        };
        Metadata::Single {
            title: video.title,
            description: video.description,
            image_url,
            duration: video.duration,
            url: video.url,
        }
    }
}

impl vstd::std_specs::convert::FromSpecImpl<Video> for Metadata {
    open spec fn obeys_from_spec() -> bool {
        false
    }

    open spec fn from_spec(video: Video) -> Metadata {
        arbitrary()
    }
}

/// The metadata of a playlist that stays with its owner.
fn playlist_metadata(playlist: &Playlist) -> (made: Metadata)
    ensures
        made@ == playlist@.metadata(),
{
    let mut contents: Vec<Metadata> = Vec::new();
    let mut i: usize = 0;
    while i < playlist.videos.len()
        invariant
            i <= playlist.videos@.len(),
            contents@.len() == i,
            forall|k: int| 0 <= k < i ==> contents@[k]@ == playlist.videos@[k]@.metadata(),
        decreases playlist.videos@.len() - i,
    {
        contents.push(video_metadata(&playlist.videos[i]));
        i = i + 1;
    }
    assert(metadata_views(contents@) =~= playlist@.metadata()->Playlist_contents);
    Metadata::playlist(playlist.name.clone(), String::new(), playlist.url.clone(), contents)
}

impl From<Playlist> for Metadata {
    fn from(playlist: Playlist) -> (made: Metadata)
        ensures
            made@ == playlist@.metadata(),
    {
        playlist_metadata(&playlist)
    }
}

impl vstd::std_specs::convert::FromSpecImpl<Playlist> for Metadata {
    open spec fn obeys_from_spec() -> bool {
        false
    }

    open spec fn from_spec(playlist: Playlist) -> Metadata {
        arbitrary()
    }
}

impl Metadata {
    /// The metadata of a search result that is a video or a playlist. A
    /// channel has none and is not accepted.
    pub fn from_search_result(result: SearchResult) -> (made: Metadata)
        requires
            !(result@ is Channel),
        ensures
            result@ matches SearchResultView::Video(video) ==> made@ == video.metadata(),
            result@ matches SearchResultView::Playlist(playlist) ==> made@ == playlist.metadata(),
    {
        match result {
            SearchResult::Video(video) => Metadata::from(video),
            SearchResult::Playlist(playlist) => Metadata::from(playlist),
            SearchResult::Channel => vstd::pervasive::unreached(),
        }
    }
}

/// A resolver for the video catalogue: it searches for a query and keeps the
/// videos and playlists that were found.
#[derive(Debug, PartialEq, Eq)]
pub struct YoutubeResolver {
    limit: u64,
    safe_search: bool,
}

impl Default for YoutubeResolver {
    /// A resolver that asks for at most 25 results of every kind, with the
    /// safe search off.
    fn default() -> (resolver: Self)
        ensures
            resolver.spec_limit() == 25,
            !resolver.spec_safe_search(),
    {
        YoutubeResolver { limit: 25, safe_search: false }
    }
}

impl YoutubeResolver {
    pub closed spec fn spec_limit(&self) -> u64 {
        self.limit
    }

    pub closed spec fn spec_safe_search(&self) -> bool {
        self.safe_search
    }

    /// The largest number of results that a search is asked for.
    #[verifier::when_used_as_spec(spec_limit)]
    pub fn limit(&self) -> (limit: u64)
        ensures
            limit == self.spec_limit(),
    {
        self.limit
    }

    /// Whether a search is asked to leave out restricted results.
    #[verifier::when_used_as_spec(spec_safe_search)]
    pub fn safe_search(&self) -> (safe: bool)
        ensures
            safe == self.spec_safe_search(),
    {
        self.safe_search
    }

    /// Turns the answer to a search into metadata: a failed search is handed
    /// on with its report; of a search that succeeded, every video and every
    /// playlist gives its metadata, in the order found, and channels are left
    /// out.
    pub fn resolve(&self, found: Result<Vec<SearchResult>, String>) -> (resolved: Result<
        Vec<Metadata>,
        String,
    >)
        ensures
            match found {
                Ok(results) => resolved is Ok && metadata_views(resolved->Ok_0@) == playable(
                    result_views(results@),
                ),
                Err(report) => resolved is Err && resolved->Err_0 == report,
            },
    {
        match found {
            Err(report) => Err(report),
            Ok(results) => {
                let mut kept: Vec<Metadata> = Vec::new();
                let mut i: usize = 0;
                assert(result_views(results@).take(0) =~= Seq::<SearchResultView>::empty());
                while i < results.len()
                    invariant
                        i <= results@.len(),
                        metadata_views(kept@) == playable(result_views(results@).take(i as int)),
                    decreases results@.len() - i,
                {
                    let ghost before = metadata_views(kept@);
                    let ghost views = result_views(results@);
                    assert(views.take(i + 1).drop_last() =~= views.take(i as int));
                    assert(views.take(i + 1).last() == results@[i as int]@);
                    match &results[i] {
                        SearchResult::Video(video) => {
                            kept.push(video_metadata(video));
                            assert(metadata_views(kept@) =~= before.push(video@.metadata()));
                        },
                        SearchResult::Playlist(playlist) => {
                            kept.push(playlist_metadata(playlist));
                            assert(metadata_views(kept@) =~= before.push(playlist@.metadata()));
                        },
                        SearchResult::Channel => {},
                    }
                    i = i + 1;
                }
                assert(result_views(results@).take(i as int) =~= result_views(results@));
                Ok(kept)
            },
        }
    }
}

} // verus!
