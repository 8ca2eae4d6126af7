//! The provider for the video catalogue.

use vstd::prelude::*;
use super::Provider;
use crate::resolver::youtube::text_views;
use crate::resolver::{Metadata, MetadataView};
use crate::text::{parse_u64, parsed_u64, starts_with};

verus! {

/// An audio provider for the video catalogue.
#[derive(Clone, Copy, Debug, PartialEq, Eq, Structural)]
pub struct YoutubeProvider;

impl Provider for YoutubeProvider {
    /// The addresses of single videos.
    open spec fn handles(&self, url: Seq<char>) -> bool {
        "https://www.youtube.com/watch?v="@.is_prefix_of(url)
    }

    fn matches(&self, url: &str) -> (handled: bool) {
        starts_with(url, "https://www.youtube.com/watch?v=")
    }
}

/// Why the video catalogue has no source.
#[derive(Debug, PartialEq, Eq)]
pub enum YoutubeProviderError {
    /// The catalogue failed on the video; holds its report.
    VideoError(String),
}

/// The mathematical value of a [`VideoDetails`].
pub struct VideoDetailsView {
    pub title: Seq<char>,
    pub description: Seq<char>,
    pub thumbnails: Seq<Seq<char>>,
    pub length_seconds: Seq<char>,
    pub video_url: Seq<char>,
}

/// What the video catalogue tells about one video.
#[derive(Debug, PartialEq, Eq)]
pub struct VideoDetails {
    pub title: String,
    pub description: String,
    /// The addresses of the preview images, as the catalogue orders them.
    pub thumbnails: Vec<String>,
    /// The playing time in seconds, as the text that the catalogue sends.
    pub length_seconds: String,
    pub video_url: String,
}

impl View for VideoDetails {
    type V = VideoDetailsView;

    open spec fn view(&self) -> VideoDetailsView {
        VideoDetailsView {
            title: self.title@,
            description: self.description@,
            thumbnails: text_views(self.thumbnails@),
            length_seconds: self.length_seconds@,
            video_url: self.video_url@,
        }
    }
}

/// The playing time that is taken from a parsed text: the number that was
/// read, and zero where none was read.
pub open spec fn seconds_or_zero(parsed: Option<u64>) -> u64 {
    match parsed {
        Some(seconds) => seconds,
        None => 0,
    }
}

impl VideoDetailsView {
    /// The metadata of a video whose playing time was parsed as `parsed`: its
    /// title, description and address, its first preview image where it has
    /// one, and the playing time that was read, or zero.
    pub open spec fn metadata(self, parsed: Option<u64>) -> MetadataView {
        MetadataView::Single {
            title: self.title,
            description: self.description,
            image_url: if self.thumbnails.len() > 0 {
                Some(self.thumbnails[0])
            } else {
                None
            },
            duration: seconds_or_zero(parsed),
            url: self.video_url,
        }
    }
}

impl Metadata {
    /// The metadata of a video from its details and from what its playing
    /// time was parsed as.
    pub fn from_details(details: VideoDetails, parsed: Option<u64>) -> (made: Metadata)
        ensures
            made@ == details@.metadata(parsed),
    {
        let image_url = if details.thumbnails.len() > 0 {
            Some(details.thumbnails[0].clone())
        } else {
            None
        };
        let duration = match parsed {
            Some(seconds) => seconds,
            None => 0,
        };
        Metadata::Single {
            title: details.title,
            description: details.description,
            image_url,
            duration,
            url: details.video_url,
        }
    }
}

impl From<VideoDetails> for Metadata {
    /// The metadata of a video from its details; a playing time that does
    /// not parse as a number counts as zero.
    fn from(details: VideoDetails) -> (made: Metadata)
        ensures
            made@ == details@.metadata(parsed_u64(details@.length_seconds)),
    {
        let parsed = parse_u64(details.length_seconds.as_str());
        Metadata::from_details(details, parsed)
    }
}

impl vstd::std_specs::convert::FromSpecImpl<VideoDetails> for Metadata {
    open spec fn obeys_from_spec() -> bool {
        false
    }

    open spec fn from_spec(details: VideoDetails) -> Metadata {
        arbitrary()
    }
}

} // verus!
