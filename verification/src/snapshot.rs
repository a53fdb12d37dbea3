//! The worker's record of the active track.
//!
//! Besides the metadata, the playback status and the position, the record
//! caches three texts that are derived from the metadata: the address of the
//! cover image, the address of the track's page and the line "title — artist".
//! They change only when the metadata does.

use crate::model::{MetadataPayload, MetadataView, PlaybackStatus};
use crate::text::{append_decimal, before_first, cut_before, decimal, ends_with, replace, replace_all, same_text, starts_with};
use vstd::prelude::*;
use vstd::string::*;

verus! {

/// The host of `url` as `url::Url::parse` followed by `Url::host_str` gives it:
/// `None` where the text does not parse as an absolute URL or the URL has no
/// host.
pub uninterp spec fn url_host(url: Seq<char>) -> Option<Seq<char>>;

/// The text of an optional string slice.
pub open spec fn optional_text(text: Option<&str>) -> Option<Seq<char>> {
    match text {
        Some(t) => Some(t@),
        None => None,
    }
}

/// Whether `host` is the image host of the music service or one of its
/// subdomains.
pub open spec fn is_image_host(host: Seq<char>) -> bool {
    host == "music.126.net"@ || ".music.126.net"@.is_suffix_of(host)
}

/// The cover address for `url` whose host is `host`: the address without its
/// query, and with the thumbnail parameters where the image host serves it.
pub open spec fn cover_url_on_host(url: Seq<char>, host: Option<Seq<char>>) -> Seq<char> {
    let base = before_first(url, '?');
    if host is Some && is_image_host(host->0) {
        base + "?imageView&enlarge=1&type=jpeg&quality=90&thumbnail=150y150"@
    } else {
        base
    }
}

/// The cover address to show for a track whose cover was found at `original`:
/// the bundled icon where there is none or it is no web address, else the
/// address over https, cut and extended as `cover_url_on_host` says.
pub open spec fn cover_url_for(original: Option<Seq<char>>) -> Seq<char> {
    if original is Some && "http"@.is_prefix_of(original->0) {
        let secure = replace_all(original->0, "http://"@, "https://"@);
        cover_url_on_host(secure, url_host(secure))
    } else {
        "logo-icon"@
    }
}

/// The address of the page of the track `ncm_id`, or of the music service
/// where the track has no identifier.
pub open spec fn song_url_for(ncm_id: Option<i64>) -> Seq<char> {
    match ncm_id {
        Some(id) => "https://music.163.com/song?id="@ + decimal(id as int),
        None => "https://music.163.com/"@,
    }
}

/// The line that names a track together with its artist.
pub open spec fn full_info_for(song_name: Seq<char>, author_name: Seq<char>) -> Seq<char> {
    song_name + " — "@ + author_name
}

/// The asset key of the bundled application icon.
pub fn icon_asset_key() -> (key: &'static str)
    ensures
        key@ == "logo-icon"@,
{
    "logo-icon"
}

/// Parses `url` with `url::Url::parse` and returns what `Url::host_str` gives
/// for the result, or `None` where parsing fails. Trusted: the result is
/// `url_host` of the text, which says no more than that the same text always
/// has the same host.
#[verifier::external_body]
fn parse_host(url: &str) -> (host: Option<String>)
    ensures
        host.deep_view() == url_host(url@),
{
    match url::Url::parse(url) {
        Ok(parsed) => match parsed.host_str() {
            Some(host) => Some(host.to_string()),
            None => None,
        },
        Err(_) => None,
    }
}

/// Whether `host` is the image host of the music service or one of its
/// subdomains.
pub fn serves_thumbnails(host: &str) -> (r: bool)
    ensures
        r == is_image_host(host@),
{
    same_text(host, "music.126.net") || ends_with(host, ".music.126.net")
}

/// The cover address for `url`, given the host that the URL parser found in it.
pub fn cover_url_with_host(url: &str, host: Option<&str>) -> (r: String)
    ensures
        r@ == cover_url_on_host(url@, optional_text(host)),
{
    let mut cover = String::from_str(cut_before(url, '?'));
    let thumbnails = match host {
        Some(h) => serves_thumbnails(h),
        None => false,
    };
    if thumbnails {
        cover.append("?imageView&enlarge=1&type=jpeg&quality=90&thumbnail=150y150");
    }
    cover
}

/// The cover address to show for a track whose cover was found at
/// `original_url`.
pub fn process_cover_url(original_url: Option<&str>) -> (r: String)
    ensures
        r@ == cover_url_for(optional_text(original_url)),
{
    match original_url {
        None => String::from_str(icon_asset_key()),
        Some(url) => {
            if !starts_with(url, "http") {
                return String::from_str(icon_asset_key());
            }
            let secure = replace(url, "http://", "https://");
            let host = parse_host(secure.as_str());
            match &host {
                Some(h) => cover_url_with_host(secure.as_str(), Some(h.as_str())),
                None => cover_url_with_host(secure.as_str(), None),
            }
        },
    }
}

/// The address of the page of the track `ncm_id`.
pub fn process_song_url(ncm_id: Option<i64>) -> (r: String)
    ensures
        r@ == song_url_for(ncm_id),
{
    match ncm_id {
        None => String::from_str("https://music.163.com/"),
        Some(id) => {
            let mut address = String::from_str("https://music.163.com/song?id=");
            append_decimal(&mut address, id);
            address
        },
    }
}

/// The line that names a track together with its artist.
pub fn full_info(song_name: &str, author_name: &str) -> (r: String)
    ensures
        r@ == full_info_for(song_name@, author_name@),
{
    let mut line = String::from_str(song_name);
    line.append(" — ");
    line.append(author_name);
    line
}

/// The worker's record of the active track.
#[derive(Debug, Clone, PartialEq, Eq)]
pub struct ActivityData {
    pub metadata: MetadataPayload,
    pub status: PlaybackStatus,
    /// The playback position in milliseconds.
    pub current_time: i64,
    pub cached_cover_url: String,
    pub cached_song_url: String,
    pub cached_full_info: String,
}

/// An `ActivityData` with its text as sequences of characters.
pub struct ActivityDataView {
    pub metadata: MetadataView,
    pub status: PlaybackStatus,
    pub current_time: i64,
    pub cached_cover_url: Seq<char>,
    pub cached_song_url: Seq<char>,
    pub cached_full_info: Seq<char>,
}

impl View for ActivityData {
    type V = ActivityDataView;

    open spec fn view(&self) -> ActivityDataView {
        ActivityDataView {
            metadata: self.metadata@,
            status: self.status,
            current_time: self.current_time,
            cached_cover_url: self.cached_cover_url@,
            cached_song_url: self.cached_song_url@,
            cached_full_info: self.cached_full_info@,
        }
    }
}

impl ActivityDataView {
    /// The record of a track with the given metadata, status and position.
    pub open spec fn of(
        metadata: MetadataView,
        status: PlaybackStatus,
        current_time: i64,
    ) -> ActivityDataView {
        ActivityDataView {
            metadata,
            status,
            current_time,
            cached_cover_url: cover_url_for(metadata.original_cover_url),
            cached_song_url: song_url_for(metadata.ncm_id),
            cached_full_info: full_info_for(metadata.song_name, metadata.author_name),
        }
    }

    /// Whether the cached texts are the ones derived from the metadata.
    pub open spec fn well_formed(self) -> bool {
        self == Self::of(self.metadata, self.status, self.current_time)
    }
}

impl ActivityData {
    /// The record of a track that was just announced: paused, at position 0.
    pub fn from_metadata(metadata: MetadataPayload) -> (data: ActivityData)
        ensures
            data@ == ActivityDataView::of(metadata@, PlaybackStatus::Paused, 0),
    {
        let cached_cover_url = process_cover_url(
            match &metadata.original_cover_url {
                Some(url) => Some(url.as_str()),
                None => None,
            },
        );
        let cached_song_url = process_song_url(metadata.ncm_id);
        let cached_full_info = full_info(
            metadata.song_name.as_str(),
            metadata.author_name.as_str(),
        );
        ActivityData {
            metadata,
            status: PlaybackStatus::Paused,
            current_time: 0,
            cached_cover_url,
            cached_song_url,
            cached_full_info,
        }
    }

    /// Replaces the metadata: the cached texts are derived anew, the position
    /// goes back to 0 and the status stays.
    pub fn update_metadata(&mut self, metadata: MetadataPayload)
        ensures
            final(self)@ == ActivityDataView::of(metadata@, old(self).status, 0),
    {
        self.cached_cover_url = process_cover_url(
            match &metadata.original_cover_url {
                Some(url) => Some(url.as_str()),
                None => None,
            },
        );
        self.cached_song_url = process_song_url(metadata.ncm_id);
        self.cached_full_info = full_info(
            metadata.song_name.as_str(),
            metadata.author_name.as_str(),
        );
        self.metadata = metadata;
        self.current_time = 0;
    }
}

} // verus!
