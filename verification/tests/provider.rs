use keyboard_cat::provider::spotify::{SpotifyProvider, SpotifyProviderError};
use keyboard_cat::provider::youtube::{VideoDetails, YoutubeProvider};
use keyboard_cat::provider::{Backend, GlobalProvider, GlobalProviderError, Provider};
use keyboard_cat::resolver::Metadata;

fn at(url: &str) -> Metadata {
    Metadata::Single {
        title: "t".to_string(),
        description: "d".to_string(),
        image_url: None,
        duration: 1,
        url: url.to_string(),
    }
}

fn details(length_seconds: &str, thumbnails: &[&str]) -> VideoDetails {
    VideoDetails {
        title: "clip".to_string(),
        description: "a clip".to_string(),
        thumbnails: thumbnails.iter().map(|t| t.to_string()).collect(),
        length_seconds: length_seconds.to_string(),
        video_url: "https://www.youtube.com/watch?v=clip".to_string(),
    }
}

fn clip(image: Option<&str>, duration: u64) -> Metadata {
    Metadata::Single {
        title: "clip".to_string(),
        description: "a clip".to_string(),
        image_url: image.map(|i| i.to_string()),
        duration,
        url: "https://www.youtube.com/watch?v=clip".to_string(),
    }
}

#[test]
fn the_video_provider_takes_single_videos() {
    let provider = YoutubeProvider;
    assert!(provider.matches("https://www.youtube.com/watch?v=abc"));
    assert!(provider.matches("https://www.youtube.com/watch?v="));
    assert!(!provider.matches("https://www.youtube.com/watch?v"));
    assert!(!provider.matches("https://www.youtube.com/playlist?list=abc"));
    assert!(!provider.matches("see https://www.youtube.com/watch?v=abc"));
    assert!(!provider.matches("https://open.spotify.com/track/1"));
    assert!(!provider.matches(""));
}

#[test]
fn the_music_provider_takes_its_catalogue() {
    let provider = SpotifyProvider::new("id", "secret");
    assert!(provider.matches("https://open.spotify.com/track/1"));
    assert!(provider.matches("https://open.spotify.com/"));
    assert!(!provider.matches("https://open.spotify.com"));
    assert!(!provider.matches("http://open.spotify.com/track/1"));
    assert!(!provider.matches("https://www.youtube.com/watch?v=abc"));
}

#[test]
fn the_music_provider_keeps_its_credentials_and_has_no_source() {
    let provider = SpotifyProvider::new("the id", "the secret");
    assert_eq!(provider.client_id(), "the id");
    assert_eq!(provider.client_secret(), "the secret");
    assert_eq!(
        provider.source(&at("https://open.spotify.com/track/1")),
        Err(SpotifyProviderError::Unsupported)
    );
}

#[test]
fn the_global_provider_takes_everything() {
    let provider = GlobalProvider::new("id", "secret");
    assert!(provider.matches("https://www.youtube.com/watch?v=abc"));
    assert!(provider.matches("anything"));
    assert!(provider.matches(""));
    assert_eq!(provider.spotify().client_id(), "id");
    assert_eq!(provider.spotify().client_secret(), "secret");
    assert_eq!(*provider.youtube(), YoutubeProvider);
}

#[test]
fn the_video_catalogue_is_asked_first() {
    let provider = GlobalProvider::new("id", "secret");
    let video = at("https://www.youtube.com/watch?v=abc");
    assert!(provider.can_route(&video));
    assert_eq!(provider.source(&video).ok(), Some(Backend::Youtube));
}

#[test]
fn the_music_catalogue_streams_nothing() {
    let provider = GlobalProvider::new("id", "secret");
    let track = at("https://open.spotify.com/track/1");
    assert!(provider.can_route(&track));
    assert_eq!(
        provider.source(&track).err(),
        Some(GlobalProviderError::SpotifyError(SpotifyProviderError::Unsupported))
    );
}

#[test]
fn other_addresses_have_no_backend() {
    let provider = GlobalProvider::new("id", "secret");
    assert!(!provider.can_route(&at("https://example.org/a.mp3")));
    let playlist = Metadata::playlist(
        "p".to_string(),
        String::new(),
        "https://www.youtube.com/playlist?list=1".to_string(),
        vec![],
    );
    assert!(!provider.can_route(&playlist));
}

#[test]
fn the_playing_time_is_read_from_its_text() {
    assert_eq!(Metadata::from(details("213", &["a.png", "b.png"])), clip(Some("a.png"), 213));
    assert_eq!(Metadata::from(details("0", &[])), clip(None, 0));
    assert_eq!(
        Metadata::from(details("18446744073709551615", &[])),
        clip(None, u64::MAX)
    );
}

#[test]
fn a_playing_time_that_is_no_number_counts_as_zero() {
    assert_eq!(Metadata::from(details("", &[])), clip(None, 0));
    assert_eq!(Metadata::from(details("3:33", &[])), clip(None, 0));
    assert_eq!(Metadata::from(details("-5", &[])), clip(None, 0));
    assert_eq!(Metadata::from(details("18446744073709551616", &[])), clip(None, 0));
}

#[test]
fn metadata_from_details_and_a_parsed_time() {
    assert_eq!(Metadata::from_details(details("x", &["i"]), Some(9)), clip(Some("i"), 9));
    assert_eq!(Metadata::from_details(details("9", &[]), None), clip(None, 0));
}
