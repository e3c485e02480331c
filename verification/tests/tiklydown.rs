use faustok::text::{contains, decimal};
use faustok::tiklydown::{
    format_url, get_image, get_music, get_video, image_downloads, image_filename, music_filename,
    resolve, video_filename, Download, ImageStuff, MediaKind, MusicStuff, RelayError,
    ResolvedMedia, TiklydownApiOne, VideoStuff,
};

fn only_video() -> TiklydownApiOne {
    TiklydownApiOne {
        images: None,
        video: Some(VideoStuff { video_url: "https://cdn.example/v.mp4".to_string() }),
        music: None,
    }
}

fn slideshow(n: usize) -> TiklydownApiOne {
    let mut images = Vec::new();
    for i in 0..n {
        images.push(ImageStuff { image_url: format!("https://cdn.example/{}.jpg", i) });
    }
    TiklydownApiOne {
        images: Some(images),
        video: None,
        music: Some(MusicStuff { music_url: "https://cdn.example/m.mp3".to_string() }),
    }
}

#[test]
fn request_is_endpoint_followed_by_link() {
    assert_eq!(
        format_url("https://vt.tiktok.com/ZS2fMDLkU/"),
        "https://api.tiklydown.eu.org/api/download?url=https://vt.tiktok.com/ZS2fMDLkU/"
    );
    assert_eq!(format_url(""), "https://api.tiklydown.eu.org/api/download?url=");
}

#[test]
fn video_only_answer_has_no_images() {
    assert_eq!(
        resolve(&only_video(), MediaKind::Images),
        Err(RelayError::MediaNotFound(MediaKind::Images))
    );
    assert_eq!(
        resolve(&only_video(), MediaKind::Audio),
        Err(RelayError::MediaNotFound(MediaKind::Audio))
    );
}

#[test]
fn video_only_answer_gives_its_url_unchanged() {
    assert_eq!(
        resolve(&only_video(), MediaKind::Video),
        Ok(ResolvedMedia::Video("https://cdn.example/v.mp4".to_string()))
    );
}

#[test]
fn slideshow_answer_gives_images_in_order_and_sound() {
    assert_eq!(
        resolve(&slideshow(3), MediaKind::Images),
        Ok(ResolvedMedia::Images(vec![
            "https://cdn.example/0.jpg".to_string(),
            "https://cdn.example/1.jpg".to_string(),
            "https://cdn.example/2.jpg".to_string(),
        ]))
    );
    assert_eq!(
        resolve(&slideshow(3), MediaKind::Audio),
        Ok(ResolvedMedia::Audio("https://cdn.example/m.mp3".to_string()))
    );
    assert_eq!(
        resolve(&slideshow(3), MediaKind::Video),
        Err(RelayError::MediaNotFound(MediaKind::Video))
    );
}

#[test]
fn empty_image_list_counts_as_none() {
    assert_eq!(
        resolve(&slideshow(0), MediaKind::Images),
        Err(RelayError::MediaNotFound(MediaKind::Images))
    );
    assert_eq!(
        get_image(&slideshow(0), "7"),
        Err(RelayError::MediaNotFound(MediaKind::Images))
    );
}

#[test]
fn video_download_goes_to_the_given_file() {
    assert_eq!(
        get_video(&only_video(), "7.mp4"),
        Ok(Download { url: "https://cdn.example/v.mp4".to_string(), path: "7.mp4".to_string() })
    );
    assert_eq!(
        get_video(&slideshow(2), "7.mp4"),
        Err(RelayError::MediaNotFound(MediaKind::Video))
    );
}

#[test]
fn music_download_goes_to_the_given_file() {
    assert_eq!(
        get_music(&slideshow(1), "7.mp3"),
        Ok(Download { url: "https://cdn.example/m.mp3".to_string(), path: "7.mp3".to_string() })
    );
    assert_eq!(
        get_music(&only_video(), "7.mp3"),
        Err(RelayError::MediaNotFound(MediaKind::Audio))
    );
}

#[test]
fn image_downloads_are_numbered_from_zero() {
    let downloads = get_image(&slideshow(12), "7").unwrap();
    assert_eq!(downloads.len(), 12);
    assert_eq!(
        downloads[0],
        Download { url: "https://cdn.example/0.jpg".to_string(), path: "7_0.jpg".to_string() }
    );
    assert_eq!(
        downloads[11],
        Download { url: "https://cdn.example/11.jpg".to_string(), path: "7_11.jpg".to_string() }
    );
    assert_eq!(get_image(&only_video(), "7"), Err(RelayError::MediaNotFound(MediaKind::Images)));
    assert_eq!(image_downloads(&Vec::new(), "7"), Vec::new());
}

#[test]
fn file_names_come_from_the_user() {
    assert_eq!(video_filename("123"), "123.mp4");
    assert_eq!(music_filename("123"), "123.mp3");
    assert_eq!(image_filename("123", 0), "123_0.jpg");
    assert_eq!(image_filename("123", 10), "123_10.jpg");
    assert_eq!(image_filename("", 7), "_7.jpg");
}

#[test]
fn decimal_numerals() {
    assert_eq!(decimal(0), "0");
    assert_eq!(decimal(7), "7");
    assert_eq!(decimal(10), "10");
    assert_eq!(decimal(105), "105");
    assert_eq!(decimal(9876543210), "9876543210");
    assert_eq!(decimal(usize::MAX), usize::MAX.to_string());
}

#[test]
fn containment_is_by_substring() {
    assert!(contains("abc", ""));
    assert!(contains("", ""));
    assert!(contains("abc", "abc"));
    assert!(contains("xxabc", "abc"));
    assert!(contains("abcxx", "abc"));
    assert!(contains("ababc", "abc"));
    assert!(!contains("ab", "abc"));
    assert!(!contains("", "a"));
    assert!(!contains("acb", "ab"));
    assert!(contains("h\u{e9}llo w\u{f6}rld", "w\u{f6}r"));
}
