use cktool::downloader::media::classify_extension;
use cktool::downloader::media::extension_of;
use cktool::downloader::media::kind_of_name;
use cktool::downloader::media::MediaFilter;
use cktool::downloader::media::MediaKind;

#[test]
fn extension_is_what_follows_the_last_dot() {
    assert_eq!(extension_of("clip.mp4"), Some("mp4".to_string()));
    assert_eq!(extension_of("archive.tar.gz"), Some("gz".to_string()));
    assert_eq!(extension_of("Cover.PNG"), Some("PNG".to_string()));
    assert_eq!(extension_of("trailing."), Some(String::new()));
    assert_eq!(extension_of(".hidden.txt"), Some("txt".to_string()));
    assert_eq!(extension_of("a..b"), Some("b".to_string()));
}

#[test]
fn some_names_have_no_extension() {
    assert_eq!(extension_of("notes"), None);
    assert_eq!(extension_of(""), None);
    assert_eq!(extension_of(".hidden"), None);
    assert_eq!(extension_of("."), None);
    assert_eq!(extension_of(".."), None);
}

#[test]
fn extensions_are_classified() {
    for image in ["jpg", "jpeg", "png", "gif", "webp", "bmp", "tiff", "svg", "heic"] {
        assert_eq!(classify_extension(image), MediaKind::Image);
    }
    for video in ["mp4", "webm", "mkv", "avi", "mov", "flv", "wmv", "mpg", "mpeg", "m4v"] {
        assert_eq!(classify_extension(video), MediaKind::Video);
    }
    for other in ["", "txt", "zip", "mp3", "pn", "pngx", "PNG"] {
        assert_eq!(classify_extension(other), MediaKind::Other);
    }
}

#[test]
fn image_only_passes_over_a_video() {
    assert!(MediaFilter::ImageOnly.skips("clip.mp4"));
}

#[test]
fn image_only_passes_over_a_name_without_extension() {
    assert!(MediaFilter::ImageOnly.skips("clip"));
    assert!(MediaFilter::ImageOnly.skips(".png"));
    assert!(MediaFilter::ImageOnly.skips("picture."));
}

#[test]
fn filters_disregard_case() {
    assert!(!MediaFilter::ImageOnly.skips("Cover.PNG"));
    assert!(!MediaFilter::ImageOnly.skips("cover.JpEg"));
    assert!(!MediaFilter::VideoOnly.skips("CLIP.MP4"));
    assert!(MediaFilter::VideoOnly.skips("Cover.PNG"));
}

#[test]
fn filters_take_their_own_kind() {
    assert!(!MediaFilter::ImageOnly.skips("a.webp"));
    assert!(MediaFilter::ImageOnly.skips("a.webm"));
    assert!(!MediaFilter::VideoOnly.skips("a.webm"));
    assert!(MediaFilter::VideoOnly.skips("a.webp"));
    assert!(MediaFilter::VideoOnly.skips("a.zip"));
    assert!(MediaFilter::VideoOnly.skips("notes"));
}

#[test]
fn no_filter_takes_every_file() {
    for name in ["clip.mp4", "cover.png", "notes", "", "a.zip", ".."] {
        assert!(!MediaFilter::Everything.skips(name));
    }
}

#[test]
fn the_filter_decides_by_the_kind() {
    let kinds = [None, Some(MediaKind::Image), Some(MediaKind::Video), Some(MediaKind::Other)];
    for kind in kinds {
        assert!(!MediaFilter::Everything.passes(kind));
        assert_eq!(MediaFilter::ImageOnly.passes(kind), kind != Some(MediaKind::Image));
        assert_eq!(MediaFilter::VideoOnly.passes(kind), kind != Some(MediaKind::Video));
    }
    assert!(MediaFilter::ImageOnly.passes(Some(MediaKind::Video)));
    assert!(MediaFilter::ImageOnly.passes(None));
}

#[test]
fn names_tell_their_kind() {
    assert_eq!(kind_of_name("clip.mp4"), Some(MediaKind::Video));
    assert_eq!(kind_of_name("CLIP.Mp4"), Some(MediaKind::Video));
    assert_eq!(kind_of_name("Cover.PNG"), Some(MediaKind::Image));
    assert_eq!(kind_of_name("notes.txt"), Some(MediaKind::Other));
    assert_eq!(kind_of_name("trailing."), Some(MediaKind::Other));
    assert_eq!(kind_of_name("clip"), None);
    assert_eq!(kind_of_name(".mp4"), None);
    assert!(MediaFilter::ImageOnly.passes(kind_of_name("clip.mp4")));
}
