//! Metadata enrichment: turning what the metadata services report into
//! the library's own records, and naming the files that media is cached
//! in. Asking the services and downloading is the caller's business.

use std::fmt::Write;
use vstd::prelude::*;
use sha2::Digest;
use crate::models::{clone_opt_string, GameMedia, GameMediaView, GameMetadata, GameMetadataView};
use crate::text::{concat2, concat3, same_text};

verus! {

/// An image of the metadata service.
#[derive(Debug, PartialEq, Eq)]
pub struct IgdbImage {
    pub id: i64,
    pub image_id: String,
    pub url_path: Option<String>,
}

/// A company of the metadata service.
#[derive(Debug, PartialEq, Eq)]
pub struct IgdbCompanyInfo {
    pub id: i64,
    pub name: String,
    pub logo: Option<IgdbImage>,
}

/// A company's part in a game.
#[derive(Debug, PartialEq, Eq)]
pub struct IgdbCompany {
    pub company: IgdbCompanyInfo,
    pub developer: bool,
    pub publisher: bool,
}

/// A genre of the metadata service.
#[derive(Debug, PartialEq, Eq)]
pub struct IgdbGenre {
    pub id: i64,
    pub name: String,
}

/// A game as the metadata service describes it.
#[derive(Debug, PartialEq, Eq)]
pub struct IgdbGame {
    pub id: i64,
    pub name: String,
    pub summary: Option<String>,
    pub cover: Option<IgdbImage>,
    pub artworks: Option<Vec<IgdbImage>>,
    pub screenshots: Option<Vec<IgdbImage>>,
    pub first_release_date: Option<i64>,
    pub involved_companies: Option<Vec<IgdbCompany>>,
    pub genres: Option<Vec<IgdbGenre>>,
}

/// One hit of a search of the metadata service.
#[derive(Debug, PartialEq, Eq)]
pub struct IgdbSearchResult {
    pub id: i64,
    pub name: String,
    pub release_date: Option<String>,
    pub cover_url: Option<String>,
    pub company: Option<String>,
}

/// A moment written out in a format, as `chrono::DateTime::format` writes
/// the moment that `chrono::DateTime::from_timestamp` makes of a count of
/// seconds since the epoch; `None` where the count is out of range or the
/// format cannot be written.
pub uninterp spec fn formatted_time(secs: i64, format: Seq<char>) -> Option<Seq<char>>;

/// Makes the moment with `chrono::DateTime::from_timestamp` and writes it
/// out with `chrono::DateTime::format`. The result is named, not
/// described.
#[verifier::external_body]
fn format_timestamp(secs: i64, format: &str) -> (r: Option<String>)
    ensures
        r.deep_view() == formatted_time(secs, format@),
{
    let moment = chrono::DateTime::from_timestamp(secs, 0)?;
    let mut out = String::new();
    write!(out, "{}", moment.format(format)).ok()?;
    Some(out)
}

/// The day of a release, written as year, month and day; empty where the
/// moment cannot be written.
pub open spec fn release_day(secs: i64) -> Seq<char> {
    match formatted_time(secs, "%Y-%m-%d"@) {
        Some(d) => d,
        None => Seq::empty(),
    }
}

/// The name of the first company that developed the game.
pub open spec fn first_developer(companies: Seq<IgdbCompany>) -> Option<Seq<char>>
    decreases companies.len(),
{
    if companies.len() == 0 {
        None
    } else if companies[0].developer {
        Some(companies[0].company.name@)
    } else {
        first_developer(companies.drop_first())
    }
}

/// The name of the first company that published the game.
pub open spec fn first_publisher(companies: Seq<IgdbCompany>) -> Option<Seq<char>>
    decreases companies.len(),
{
    if companies.len() == 0 {
        None
    } else if companies[0].publisher {
        Some(companies[0].company.name@)
    } else {
        first_publisher(companies.drop_first())
    }
}

/// The names of a run of genres.
pub open spec fn genre_names(genres: Seq<IgdbGenre>) -> Seq<Seq<char>> {
    Seq::new(genres.len(), |i: int| genres[i].name@)
}

/// The metadata that the service's description of a game amounts to.
pub open spec fn metadata_of(game: IgdbGame) -> GameMetadataView {
    GameMetadataView {
        title: game.name@,
        description: game.summary.deep_view(),
        developer: match game.involved_companies {
            Some(c) => first_developer(c@),
            None => None,
        },
        publisher: match game.involved_companies {
            Some(c) => first_publisher(c@),
            None => None,
        },
        release_date: match game.first_release_date {
            Some(ts) => Some(release_day(ts)),
            None => None,
        },
        genres: match game.genres {
            Some(g) => genre_names(g@),
            None => Seq::empty(),
        },
        tags: Seq::empty(),
        media: None,
    }
}

/// The address of an image of the service in a given size.
pub open spec fn image_address(image_id: Seq<char>, size: Seq<char>) -> Seq<char> {
    "https://images.igdb.com/igdb/image/upload/t_"@ + size + "/"@ + image_id + ".jpg"@
}

/// The media of a game once its files are cached: the cover doubles as
/// thumbnail, and the first screenshot as background.
pub open spec fn media_from(
    thumbnail: Option<Seq<char>>,
    logo: Option<Seq<char>>,
    icon: Option<Seq<char>>,
    screenshots: Seq<Seq<char>>,
) -> GameMediaView {
    GameMediaView {
        thumbnail,
        cover: thumbnail,
        screenshots,
        background: if screenshots.len() > 0 {
            Some(screenshots[0])
        } else {
            None
        },
        icon,
        logo,
    }
}

/// The addresses of the images that make up a game's media.
#[derive(Debug, PartialEq, Eq)]
pub struct MediaPlan {
    /// The cover, in the size of a thumbnail.
    pub thumbnail: Option<String>,
    /// The first artwork, in the size of a logo.
    pub logo: Option<String>,
    /// The logo of the first company, in the size of an icon.
    pub icon: Option<String>,
    /// Every screenshot, in order.
    pub screenshots: Vec<String>,
}

/// The addresses of a run of screenshots.
pub open spec fn screenshot_addresses(images: Seq<IgdbImage>) -> Seq<Seq<char>> {
    Seq::new(images.len(), |i: int| image_address(images[i].image_id@, "screenshot_big"@))
}

impl IgdbGame {
    /// The day of the game's first release: see [`release_day`].
    pub fn release_date(&self) -> (r: Option<String>)
        ensures
            r.deep_view() == match self.first_release_date {
                Some(ts) => Some(release_day(ts)),
                None => None,
            },
    {
        match self.first_release_date {
            Some(ts) => match format_timestamp(ts, "%Y-%m-%d") {
                Some(d) => Some(d),
                None => Some(String::new()),
            },
            None => None,
        }
    }

    /// The name of the first company that developed the game.
    pub fn developer(&self) -> (r: Option<String>)
        ensures
            r.deep_view() == match self.involved_companies {
                Some(c) => first_developer(c@),
                None => None,
            },
    {
        match &self.involved_companies {
            Some(companies) => developer_among(companies),
            None => None,
        }
    }

    /// The name of the first company that published the game.
    pub fn publisher(&self) -> (r: Option<String>)
        ensures
            r.deep_view() == match self.involved_companies {
                Some(c) => first_publisher(c@),
                None => None,
            },
    {
        match &self.involved_companies {
            Some(companies) => publisher_among(companies),
            None => None,
        }
    }

    /// The names of the game's genres, in order.
    pub fn genre_names(&self) -> (r: Vec<String>)
        ensures
            r.deep_view() == match self.genres {
                Some(g) => genre_names(g@),
                None => Seq::empty(),
            },
    {
        let mut out: Vec<String> = Vec::new();
        match &self.genres {
            Some(genres) => {
                let mut i: usize = 0;
                while i < genres.len()
                    invariant
                        i <= genres.len(),
                        out.len() == i,
                        forall|j: int| 0 <= j < i ==> out[j]@ == genres[j].name@,
                    decreases genres.len() - i,
                {
                    out.push(genres[i].name.clone());
                    i += 1;
                }
                assert(out.deep_view() =~= genre_names(genres@));
            },
            None => {
                assert(out.deep_view() =~= Seq::empty());
            },
        }
        out
    }

    /// The metadata that this description amounts to: see
    /// [`metadata_of`].
    pub fn to_metadata(&self) -> (m: GameMetadata)
        ensures
            m@ == metadata_of(*self),
    {
        let tags: Vec<String> = Vec::new();
        assert(tags.deep_view() =~= Seq::empty());
        GameMetadata {
            title: self.name.clone(),
            description: clone_opt_string(&self.summary),
            developer: self.developer(),
            publisher: self.publisher(),
            release_date: self.release_date(),
            genres: self.genre_names(),
            tags,
            media: None,
        }
    }

    /// The hit that this description makes in a list of search results:
    /// its cover's address as reported, and its first company whatever its
    /// part.
    pub fn to_search_result(&self) -> (r: IgdbSearchResult)
        ensures
            r.id == self.id,
            r.name@ == self.name@,
            r.release_date.deep_view() == match self.first_release_date {
                Some(ts) => Some(release_day(ts)),
                None => None,
            },
            r.cover_url.deep_view() == match self.cover {
                Some(c) => c.url_path.deep_view(),
                None => None,
            },
            r.company.deep_view() == match self.involved_companies {
                Some(c) => if c@.len() > 0 {
                    Some(c@[0].company.name@)
                } else {
                    None
                },
                None => None,
            },
    {
        IgdbSearchResult {
            id: self.id,
            name: self.name.clone(),
            release_date: self.release_date(),
            cover_url: match &self.cover {
                Some(c) => clone_opt_string(&c.url_path),
                None => None,
            },
            company: match &self.involved_companies {
                Some(c) => if c.len() > 0 {
                    Some(c[0].company.name.clone())
                } else {
                    None
                },
                None => None,
            },
        }
    }

    /// The addresses of the images that make up the game's media.
    pub fn media_plan(&self) -> (p: MediaPlan)
        ensures
            p.thumbnail.deep_view() == match self.cover {
                Some(c) => Some(image_address(c.image_id@, "cover_big"@)),
                None => None,
            },
            p.logo.deep_view() == match self.artworks {
                Some(a) => if a@.len() > 0 {
                    Some(image_address(a@[0].image_id@, "logo_med"@))
                } else {
                    None
                },
                None => None,
            },
            p.icon.deep_view() == match self.involved_companies {
                Some(c) => if c@.len() > 0 {
                    match c@[0].company.logo {
                        Some(l) => Some(image_address(l.image_id@, "thumb"@)),
                        None => None,
                    }
                } else {
                    None
                },
                None => None,
            },
            p.screenshots.deep_view() == match self.screenshots {
                Some(s) => screenshot_addresses(s@),
                None => Seq::empty(),
            },
    {
        let thumbnail = match &self.cover {
            Some(c) => Some(image_url(c.image_id.as_str(), "cover_big")),
            None => None,
        };
        let logo = match &self.artworks {
            Some(a) => if a.len() > 0 {
                Some(image_url(a[0].image_id.as_str(), "logo_med"))
            } else {
                None
            },
            None => None,
        };
        let icon = match &self.involved_companies {
            Some(c) => if c.len() > 0 {
                match &c[0].company.logo {
                    Some(l) => Some(image_url(l.image_id.as_str(), "thumb")),
                    None => None,
                }
            } else {
                None
            },
            None => None,
        };
        let mut screenshots: Vec<String> = Vec::new();
        match &self.screenshots {
            Some(screens) => {
                let mut i: usize = 0;
                while i < screens.len()
                    invariant
                        i <= screens.len(),
                        screenshots.len() == i,
                        forall|j: int|
                            0 <= j < i ==> screenshots[j]@ == image_address(
                                screens[j].image_id@,
                                "screenshot_big"@,
                            ),
                    decreases screens.len() - i,
                {
                    screenshots.push(image_url(screens[i].image_id.as_str(), "screenshot_big"));
                    i += 1;
                }
                assert(screenshots.deep_view() =~= screenshot_addresses(screens@));
            },
            None => {
                assert(screenshots.deep_view() =~= Seq::empty());
            },
        }
        MediaPlan { thumbnail, logo, icon, screenshots }
    }
}

/// The name of the first of the companies that developed the game.
pub fn developer_among(companies: &Vec<IgdbCompany>) -> (r: Option<String>)
    ensures
        r.deep_view() == first_developer(companies@),
{
    let mut i: usize = 0;
    assert(companies@.skip(0) =~= companies@);
    while i < companies.len()
        invariant
            i <= companies.len(),
            first_developer(companies@) == first_developer(companies@.skip(i as int)),
        decreases companies.len() - i,
    {
        let ghost rest = companies@.skip(i as int);
        assert(rest[0] == companies@[i as int]);
        assert(rest.drop_first() =~= companies@.skip(i + 1));
        if companies[i].developer {
            return Some(companies[i].company.name.clone());
        }
        i += 1;
    }
    None
}

/// The name of the first of the companies that published the game.
pub fn publisher_among(companies: &Vec<IgdbCompany>) -> (r: Option<String>)
    ensures
        r.deep_view() == first_publisher(companies@),
{
    let mut i: usize = 0;
    assert(companies@.skip(0) =~= companies@);
    while i < companies.len()
        invariant
            i <= companies.len(),
            first_publisher(companies@) == first_publisher(companies@.skip(i as int)),
        decreases companies.len() - i,
    {
        let ghost rest = companies@.skip(i as int);
        assert(rest[0] == companies@[i as int]);
        assert(rest.drop_first() =~= companies@.skip(i + 1));
        if companies[i].publisher {
            return Some(companies[i].company.name.clone());
        }
        i += 1;
    }
    None
}

/// The address of an image of the service in a given size.
pub fn image_url(image_id: &str, size: &str) -> (r: String)
    ensures
        r@ == image_address(image_id@, size@),
{
    let head = concat3("https://images.igdb.com/igdb/image/upload/t_", size, "/");
    concat3(head.as_str(), image_id, ".jpg")
}

/// Puts a game's media together from the files its images were cached
/// in: see [`media_from`].
pub fn assemble_media(
    thumbnail: Option<String>,
    logo: Option<String>,
    icon: Option<String>,
    screenshots: Vec<String>,
) -> (m: GameMedia)
    ensures
        m@ == media_from(
            thumbnail.deep_view(),
            logo.deep_view(),
            icon.deep_view(),
            screenshots.deep_view(),
        ),
{
    let cover = clone_opt_string(&thumbnail);
    let background = if screenshots.len() > 0 {
        assert(screenshots.deep_view()[0] == screenshots[0]@);
        Some(screenshots[0].clone())
    } else {
        None
    };
    GameMedia { thumbnail, cover, screenshots, background, icon, logo }
}

/// A company of the second metadata service.
#[derive(Debug, PartialEq, Eq)]
pub struct RawgCompany {
    pub id: i32,
    pub name: String,
}

/// A genre of the second metadata service.
#[derive(Debug, PartialEq, Eq)]
pub struct RawgGenre {
    pub id: i32,
    pub name: String,
}

/// A tag of the second metadata service.
#[derive(Debug, PartialEq, Eq)]
pub struct RawgTag {
    pub id: i32,
    pub name: String,
}

/// A screenshot of the second metadata service.
#[derive(Debug, PartialEq, Eq)]
pub struct RawgScreenshot {
    pub id: i32,
    pub image: String,
}

/// The screenshots of a game of the second metadata service.
#[derive(Debug, PartialEq, Eq)]
pub struct RawgScreenshots {
    pub results: Vec<RawgScreenshot>,
}

/// A game as the second metadata service describes it.
#[derive(Debug, PartialEq, Eq)]
pub struct RawgGame {
    pub id: i32,
    pub name: String,
    pub description: Option<String>,
    pub description_raw: Option<String>,
    pub released: Option<String>,
    pub background_image: Option<String>,
    pub background_image_additional: Option<String>,
    pub website: Option<String>,
    pub metacritic: Option<i32>,
    pub developers: Vec<RawgCompany>,
    pub publishers: Vec<RawgCompany>,
    pub genres: Vec<RawgGenre>,
    pub tags: Vec<RawgTag>,
    pub screenshots: Option<RawgScreenshots>,
}

/// The name of the first of a run of companies.
pub open spec fn first_company(companies: Seq<RawgCompany>) -> Option<Seq<char>> {
    if companies.len() > 0 {
        Some(companies[0].name@)
    } else {
        None
    }
}

/// The media of a game of the second service once its files are cached:
/// the background doubles as cover, and as thumbnail where there is no
/// other.
pub open spec fn rawg_media_from(
    background: Option<Seq<char>>,
    additional: Option<Seq<char>>,
    screenshots: Seq<Seq<char>>,
) -> GameMediaView {
    GameMediaView {
        thumbnail: match additional {
            Some(t) => Some(t),
            None => background,
        },
        cover: background,
        screenshots,
        background,
        icon: None,
        logo: None,
    }
}

impl RawgGame {
    /// The metadata that this description amounts to, given the media
    /// that was cached for the game.
    pub fn to_metadata(&self, media: &GameMedia) -> (m: GameMetadata)
        ensures
            m@ == (GameMetadataView {
                title: self.name@,
                description: self.description_raw.deep_view(),
                developer: first_company(self.developers@),
                publisher: first_company(self.publishers@),
                release_date: self.released.deep_view(),
                genres: Seq::new(self.genres@.len(), |i: int| self.genres@[i].name@),
                tags: Seq::new(self.tags@.len(), |i: int| self.tags@[i].name@),
                media: Some(media@),
            }),
    {
        let mut genres: Vec<String> = Vec::new();
        let mut i: usize = 0;
        while i < self.genres.len()
            invariant
                i <= self.genres.len(),
                genres.len() == i,
                forall|j: int| 0 <= j < i ==> genres[j]@ == self.genres[j].name@,
            decreases self.genres.len() - i,
        {
            genres.push(self.genres[i].name.clone());
            i += 1;
        }
        let mut tags: Vec<String> = Vec::new();
        let mut k: usize = 0;
        while k < self.tags.len()
            invariant
                k <= self.tags.len(),
                tags.len() == k,
                forall|j: int| 0 <= j < k ==> tags[j]@ == self.tags[j].name@,
            decreases self.tags.len() - k,
        {
            tags.push(self.tags[k].name.clone());
            k += 1;
        }
        assert(genres.deep_view() =~= Seq::new(
            self.genres@.len(),
            |i: int| self.genres@[i].name@,
        ));
        assert(tags.deep_view() =~= Seq::new(self.tags@.len(), |i: int| self.tags@[i].name@));
        GameMetadata {
            title: self.name.clone(),
            description: clone_opt_string(&self.description_raw),
            developer: if self.developers.len() > 0 {
                Some(self.developers[0].name.clone())
            } else {
                None
            },
            publisher: if self.publishers.len() > 0 {
                Some(self.publishers[0].name.clone())
            } else {
                None
            },
            release_date: clone_opt_string(&self.released),
            genres,
            tags,
            media: Some(media.clone()),
        }
    }

    /// Puts the game's media together from the files its images were
    /// cached in: see [`rawg_media_from`].
    pub fn assemble_media(
        background: Option<String>,
        additional: Option<String>,
        screenshots: Vec<String>,
    ) -> (m: GameMedia)
        ensures
            m@ == rawg_media_from(
                background.deep_view(),
                additional.deep_view(),
                screenshots.deep_view(),
            ),
    {
        let thumbnail = match additional {
            Some(t) => Some(t),
            None => clone_opt_string(&background),
        };
        GameMedia {
            thumbnail,
            cover: clone_opt_string(&background),
            screenshots,
            background,
            icon: None,
            logo: None,
        }
    }
}

/// The least time between two requests to the metadata service, in
/// milliseconds.
pub const RATE_LIMIT_DELAY_MS: u64 = 250;

/// Spaces out the requests to the metadata service.
#[derive(Debug, Clone, Copy, PartialEq, Eq, Structural)]
pub struct RateLimiter {
    /// When the last request was made, in milliseconds of a clock that
    /// does not go back.
    pub last_request_ms: Option<u64>,
}

/// How long a request at `now_ms` has to wait, in milliseconds: what is
/// missing for the least time since the last request to have passed.
pub open spec fn wait_needed(last_request_ms: Option<u64>, now_ms: u64) -> u64 {
    match last_request_ms {
        Some(last) => {
            let elapsed = if now_ms >= last {
                now_ms - last
            } else {
                0
            };
            if elapsed < RATE_LIMIT_DELAY_MS {
                (RATE_LIMIT_DELAY_MS - elapsed) as u64
            } else {
                0
            }
        },
        None => 0,
    }
}

impl RateLimiter {
    /// A limiter that has seen no request.
    pub fn new() -> (l: RateLimiter)
        ensures
            l.last_request_ms is None,
    {
        RateLimiter { last_request_ms: None }
    }

    /// How long the next request has to wait: see [`wait_needed`]. A
    /// request that waits that long comes no sooner than the least time
    /// after the last one.
    pub fn delay_before(&self, now_ms: u64) -> (r: u64)
        ensures
            r == wait_needed(self.last_request_ms, now_ms),
            r <= RATE_LIMIT_DELAY_MS,
            self.last_request_ms matches Some(last) ==> (now_ms >= last ==> now_ms + r - last
                >= RATE_LIMIT_DELAY_MS),
    {
        match self.last_request_ms {
            Some(last) => {
                let elapsed: u64 = if now_ms >= last {
                    now_ms - last
                } else {
                    0
                };
                if elapsed < RATE_LIMIT_DELAY_MS {
                    RATE_LIMIT_DELAY_MS - elapsed
                } else {
                    0
                }
            },
            None => 0,
        }
    }

    /// Notes that a request is made at `now_ms`.
    pub fn record(&mut self, now_ms: u64)
        ensures
            final(self).last_request_ms == Some(now_ms),
    {
        self.last_request_ms = Some(now_ms);
    }
}

/// The state of the application's own update check.
#[derive(Debug, PartialEq, Eq)]
pub struct UpdateStatus {
    pub current_version: String,
    pub latest_version: Option<String>,
    pub update_available: bool,
    pub last_check: Option<i64>,
    pub download_url: Option<String>,
    pub release_notes: Option<String>,
    pub checking: bool,
}

/// The SHA-256 digest of a text's bytes in lowercase hexadecimal, as
/// `sha2::Sha256::digest` computes it.
pub uninterp spec fn sha256_hex_of(text: Seq<char>) -> Seq<char>;

/// Calls `sha2::Sha256::digest` on the text's bytes and writes the
/// digest out in lowercase hexadecimal. The result is named, not
/// described.
#[verifier::external_body]
fn sha256_hex(text: &str) -> (r: String)
    ensures
        r@ == sha256_hex_of(text@),
{
    format!("{:x}", sha2::Sha256::digest(text.as_bytes()))
}

/// The extension that a cached file gets for a content type: that of the
/// image format where the type names one the cache knows, and `.jpg`
/// otherwise.
pub open spec fn extension_of_type(content_type: Option<Seq<char>>) -> Seq<char> {
    match content_type {
        Some(t) => if t == "image/png"@ {
            ".png"@
        } else if t == "image/gif"@ {
            ".gif"@
        } else if t == "image/webp"@ {
            ".webp"@
        } else {
            ".jpg"@
        },
        None => ".jpg"@,
    }
}

/// Where downloaded media is kept.
pub struct MediaCache;

impl MediaCache {
    /// The key under which the media at an address is cached.
    pub fn cache_key(url: &str) -> (r: String)
        ensures
            r@ == sha256_hex_of(url@),
    {
        sha256_hex(url)
    }

    /// The name of the file that a key is cached in, with the given
    /// extension.
    pub fn file_name(cache_key: &str, extension: &str) -> (r: String)
        ensures
            r@ == cache_key@ + extension@,
    {
        concat2(cache_key, extension)
    }

    /// The path that the library stores for a cached file.
    pub fn relative_path(cache_key: &str, extension: &str) -> (r: String)
        ensures
            r@ == "media/"@ + cache_key@ + extension@,
    {
        concat3("media/", cache_key, extension)
    }

    /// The extension that a cached file gets for a content type: see
    /// [`extension_of_type`].
    pub fn extension_for(content_type: Option<&str>) -> (r: &'static str)
        ensures
            r@ == extension_of_type(
                match content_type {
                    Some(t) => Some(t@),
                    None => None,
                },
            ),
    {
        match content_type {
            Some(t) => {
                if same_text(t, "image/png") {
                    ".png"
                } else if same_text(t, "image/gif") {
                    ".gif"
                } else if same_text(t, "image/webp") {
                    ".webp"
                } else {
                    ".jpg"
                }
            },
            None => ".jpg",
        }
    }

    /// Whether a cached file of the given age can still be used.
    pub fn is_fresh(age_secs: u64, max_age_secs: u64) -> (r: bool)
        ensures
            r == (age_secs < max_age_secs),
    {
        age_secs < max_age_secs
    }

    /// Whether a cached file of the given age is to be removed.
    pub fn is_expired(age_secs: u64, max_age_secs: u64) -> (r: bool)
        ensures
            r == (age_secs > max_age_secs),
    {
        age_secs > max_age_secs
    }
}

} // verus!
