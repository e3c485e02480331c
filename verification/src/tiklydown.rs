//! The resolver's answer and what the bot takes from it: which media it
//! offers, and where each download is stored.

use crate::text::{decimal, spec_decimal};
use vstd::prelude::*;
use vstd::string::StringExecFns;

verus! {

/// The resolver's endpoint; the link to resolve is appended to it.
pub const TIKLYDOWN_BASE_URL: &'static str = "https://api.tiklydown.eu.org/api/download?url=";

/// The kinds of media a command can ask for.
#[derive(Clone, Copy, Debug, PartialEq, Eq, Structural)]
pub enum MediaKind {
    Video,
    Audio,
    Images,
}

/// Why relaying a link's media failed.
#[derive(Clone, Copy, Debug, PartialEq, Eq, Structural)]
pub enum RelayError {
    /// The command could not be acknowledged on the chat platform.
    AcknowledgeError,
    /// The resolver could not be reached or its answer could not be read.
    ResolveError,
    /// The resolver's answer holds no media of the kind asked for.
    MediaNotFound(MediaKind),
    /// A download failed, in transport or while the file was written.
    DownloadError,
    /// The chat platform refused an attachment.
    UploadError,
    /// Everything was uploaded, but a file could not be deleted afterwards.
    DeleteError,
}

/// The video of a resolved link.
#[derive(Clone, Debug, PartialEq, Eq)]
pub struct VideoStuff {
    /// Direct URL of the video without watermark.
    pub video_url: String,
}

/// One image of a resolved slideshow.
#[derive(Clone, Debug, PartialEq, Eq)]
pub struct ImageStuff {
    /// Direct URL of the image.
    pub image_url: String,
}

/// The sound of a resolved link.
#[derive(Clone, Debug, PartialEq, Eq)]
pub struct MusicStuff {
    /// Direct URL of the audio track.
    pub music_url: String,
}

/// The resolver's answer; each part may be absent whatever the others are.
#[derive(Clone, Debug, PartialEq, Eq)]
pub struct TiklydownApiOne {
    pub images: Option<Vec<ImageStuff>>,
    pub video: Option<VideoStuff>,
    pub music: Option<MusicStuff>,
}

/// A resolver's answer with its URLs as character sequences.
pub struct ApiResponse {
    pub images: Option<Seq<Seq<char>>>,
    pub video: Option<Seq<char>>,
    pub music: Option<Seq<char>>,
}

/// The URLs of a list of images, in order.
pub open spec fn image_urls(images: Seq<ImageStuff>) -> Seq<Seq<char>> {
    images.map_values(|image: ImageStuff| image.image_url@)
}

impl View for TiklydownApiOne {
    type V = ApiResponse;

    open spec fn view(&self) -> ApiResponse {
        ApiResponse {
            images: match self.images {
                Some(images) => Some(image_urls(images@)),
                None => None,
            },
            video: match self.video {
                Some(video) => Some(video.video_url@),
                None => None,
            },
            music: match self.music {
                Some(music) => Some(music.music_url@),
                None => None,
            },
        }
    }
}

/// The media of one kind taken from a resolver's answer.
#[derive(Clone, Debug, PartialEq, Eq)]
pub enum ResolvedMedia {
    Video(String),
    Audio(String),
    Images(Vec<String>),
}

/// A `ResolvedMedia` with its URLs as character sequences.
pub enum Resolved {
    Video(Seq<char>),
    Audio(Seq<char>),
    Images(Seq<Seq<char>>),
}

/// The character sequences of a list of texts, in order.
pub open spec fn texts(list: Seq<String>) -> Seq<Seq<char>> {
    list.map_values(|text: String| text@)
}

impl View for ResolvedMedia {
    type V = Resolved;

    open spec fn view(&self) -> Resolved {
        match self {
            ResolvedMedia::Video(url) => Resolved::Video(url@),
            ResolvedMedia::Audio(url) => Resolved::Audio(url@),
            ResolvedMedia::Images(urls) => Resolved::Images(texts(urls@)),
        }
    }
}

/// The request that resolves `url`.
pub open spec fn spec_format_url(url: Seq<char>) -> Seq<char> {
    TIKLYDOWN_BASE_URL@ + url
}

/// The resolver request for a link: the endpoint followed by the link as given.
pub fn format_url(url: &str) -> (request: String)
    ensures
        request@ == spec_format_url(url@),
{
    String::from_str(TIKLYDOWN_BASE_URL).concat(url)
}

/// Selection by kind: the part asked for, or `MediaNotFound` of that kind
/// when the answer lacks it, whatever else it holds. An empty list of images
/// counts as none.
pub open spec fn spec_resolve(response: ApiResponse, kind: MediaKind) -> Result<Resolved, RelayError> {
    match kind {
        MediaKind::Video => match response.video {
            Some(url) => Ok(Resolved::Video(url)),
            None => Err(RelayError::MediaNotFound(MediaKind::Video)),
        },
        MediaKind::Audio => match response.music {
            Some(url) => Ok(Resolved::Audio(url)),
            None => Err(RelayError::MediaNotFound(MediaKind::Audio)),
        },
        MediaKind::Images => match response.images {
            Some(urls) => if urls.len() > 0 {
                Ok(Resolved::Images(urls))
            } else {
                Err(RelayError::MediaNotFound(MediaKind::Images))
            },
            None => Err(RelayError::MediaNotFound(MediaKind::Images)),
        },
    }
}

/// The URLs of `images`, copied in order.
fn copy_image_urls(images: &Vec<ImageStuff>) -> (urls: Vec<String>)
    ensures
        texts(urls@) == image_urls(images@),
{
    let mut urls: Vec<String> = Vec::new();
    let mut i: usize = 0;
    while i < images.len()
        invariant
            i <= images.len(),
            urls@.len() == i,
            forall|j: int| 0 <= j < i ==> (#[trigger] urls@[j])@ == images@[j].image_url@,
        decreases images.len() - i,
    {
        urls.push(images[i].image_url.clone());
        i += 1;
    }
    assert(texts(urls@) =~= image_urls(images@));
    urls
}

/// Takes from `response` the media of the kind asked for.
pub fn resolve(response: &TiklydownApiOne, kind: MediaKind) -> (result: Result<
    ResolvedMedia,
    RelayError,
>)
    ensures
        match result {
            Ok(media) => spec_resolve(response@, kind) == Ok::<Resolved, RelayError>(media@),
            Err(error) => spec_resolve(response@, kind) == Err::<Resolved, RelayError>(error),
        },
{
    match kind {
        MediaKind::Video => match &response.video {
            Some(video) => Ok(ResolvedMedia::Video(video.video_url.clone())),
            None => Err(RelayError::MediaNotFound(MediaKind::Video)),
        },
        MediaKind::Audio => match &response.music {
            Some(music) => Ok(ResolvedMedia::Audio(music.music_url.clone())),
            None => Err(RelayError::MediaNotFound(MediaKind::Audio)),
        },
        MediaKind::Images => match &response.images {
            Some(images) => {
                if images.len() > 0 {
                    Ok(ResolvedMedia::Images(copy_image_urls(images)))
                } else {
                    Err(RelayError::MediaNotFound(MediaKind::Images))
                }
            },
            None => Err(RelayError::MediaNotFound(MediaKind::Images)),
        },
    }
}

/// One download: the direct URL and the local file that takes its bytes.
#[derive(Clone, Debug, PartialEq, Eq)]
pub struct Download {
    pub url: String,
    pub path: String,
}

/// A `Download` with its texts as character sequences.
pub struct Transfer {
    pub url: Seq<char>,
    pub path: Seq<char>,
}

impl View for Download {
    type V = Transfer;

    open spec fn view(&self) -> Transfer {
        Transfer { url: self.url@, path: self.path@ }
    }
}

/// The transfers of a list of downloads, in order.
pub open spec fn transfers(list: Seq<Download>) -> Seq<Transfer> {
    list.map_values(|download: Download| download@)
}

/// Name of the file that holds a user's video.
pub open spec fn spec_video_filename(user_id: Seq<char>) -> Seq<char> {
    user_id + ".mp4"@
}

/// Name of the file that holds a user's audio track.
pub open spec fn spec_music_filename(user_id: Seq<char>) -> Seq<char> {
    user_id + ".mp3"@
}

/// Name of the file that holds image number `index` of a user's slideshow.
pub open spec fn spec_image_filename(user_id: Seq<char>, index: nat) -> Seq<char> {
    user_id + "_"@ + spec_decimal(index) + ".jpg"@
}

/// The video file of `user_id`: the identifier followed by `.mp4`.
pub fn video_filename(user_id: &str) -> (name: String)
    ensures
        name@ == spec_video_filename(user_id@),
{
    user_id.to_owned().concat(".mp4")
}

/// The audio file of `user_id`: the identifier followed by `.mp3`.
pub fn music_filename(user_id: &str) -> (name: String)
    ensures
        name@ == spec_music_filename(user_id@),
{
    user_id.to_owned().concat(".mp3")
}

/// The file of image `index` of `user_id`: the identifier, an underscore,
/// the index in decimal and `.jpg`.
pub fn image_filename(user_id: &str, index: usize) -> (name: String)
    ensures
        name@ == spec_image_filename(user_id@, index as nat),
{
    let number = decimal(index);
    user_id.to_owned().concat("_").concat(number.as_str()).concat(".jpg")
}

/// The downloads of a slideshow: image `i` goes to the user's file number `i`.
pub open spec fn spec_image_downloads(urls: Seq<Seq<char>>, user_id: Seq<char>) -> Seq<Transfer> {
    Seq::new(
        urls.len(),
        |i: int| Transfer { url: urls[i], path: spec_image_filename(user_id, i as nat) },
    )
}

/// The video download of a resolver's answer, stored under `filename`;
/// `MediaNotFound` when the answer holds no video.
pub fn get_video(api_response: &TiklydownApiOne, filename: &str) -> (result: Result<
    Download,
    RelayError,
>)
    ensures
        match result {
            Ok(download) => api_response@.video == Some(download@.url) && download@.path
                == filename@,
            Err(error) => api_response@.video is None && error == RelayError::MediaNotFound(
                MediaKind::Video,
            ),
        },
{
    match resolve(api_response, MediaKind::Video) {
        Ok(ResolvedMedia::Video(url)) => Ok(Download { url, path: filename.to_owned() }),
        Ok(_) => Err(RelayError::MediaNotFound(MediaKind::Video)),
        Err(error) => Err(error),
    }
}

/// The audio download of a resolver's answer, stored under `filename`;
/// `MediaNotFound` when the answer holds no sound.
pub fn get_music(api_response: &TiklydownApiOne, filename: &str) -> (result: Result<
    Download,
    RelayError,
>)
    ensures
        match result {
            Ok(download) => api_response@.music == Some(download@.url) && download@.path
                == filename@,
            Err(error) => api_response@.music is None && error == RelayError::MediaNotFound(
                MediaKind::Audio,
            ),
        },
{
    match resolve(api_response, MediaKind::Audio) {
        Ok(ResolvedMedia::Audio(url)) => Ok(Download { url, path: filename.to_owned() }),
        Ok(_) => Err(RelayError::MediaNotFound(MediaKind::Audio)),
        Err(error) => Err(error),
    }
}

/// The downloads of a list of image URLs for `userid`, in order.
pub fn image_downloads(urls: &Vec<String>, userid: &str) -> (downloads: Vec<Download>)
    ensures
        transfers(downloads@) == spec_image_downloads(texts(urls@), userid@),
{
    let mut downloads: Vec<Download> = Vec::new();
    let mut index: usize = 0;
    while index < urls.len()
        invariant
            index <= urls.len(),
            downloads@.len() == index,
            forall|j: int|
                0 <= j < index ==> (#[trigger] downloads@[j])@ == (Transfer {
                    url: urls@[j]@,
                    path: spec_image_filename(userid@, j as nat),
                }),
        decreases urls.len() - index,
    {
        let path = image_filename(userid, index);
        downloads.push(Download { url: urls[index].clone(), path });
        index += 1;
    }
    assert(transfers(downloads@) =~= spec_image_downloads(texts(urls@), userid@));
    downloads
}

/// The image downloads of a resolver's answer, in the answer's order, image
/// `i` stored in file `i` of `userid`; `MediaNotFound` when the answer holds
/// no image.
pub fn get_image(api_response: &TiklydownApiOne, userid: &str) -> (result: Result<
    Vec<Download>,
    RelayError,
>)
    ensures
        match result {
            Ok(downloads) => {
                &&& api_response@.images matches Some(urls)
                &&& urls.len() > 0
                &&& transfers(downloads@) == spec_image_downloads(urls, userid@)
            },
            Err(error) => {
                &&& error == RelayError::MediaNotFound(MediaKind::Images)
                &&& api_response@.images matches Some(urls) ==> urls.len() == 0
            },
        },
{
    match resolve(api_response, MediaKind::Images) {
        Ok(ResolvedMedia::Images(urls)) => Ok(image_downloads(&urls, userid)),
        Ok(_) => Err(RelayError::MediaNotFound(MediaKind::Images)),
        Err(error) => Err(error),
    }
}

} // verus!
