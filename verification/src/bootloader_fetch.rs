//! Choosing the prebuilt bootloader artefact to fetch from the
//! bootloader repository's release page: the release API URL, the asset
//! for a format, the cache layout, and the fetch errors.
use vstd::prelude::*;

verus! {

/// `owner/repo` slug of the bootloader repository.
pub const BOOTLOADER_REPO: &'static str = "isc-fs/stm32-can-bootloader";

/// Format of the bootloader artefact.
#[derive(Clone, Copy, Debug, PartialEq, Eq, Structural)]
pub enum BootloaderFormat {
    Elf,
    Hex,
    Bin,
}

impl BootloaderFormat {
    /// File name of each format on the release page.
    pub open spec fn asset_name_spec(self) -> Seq<char> {
        match self {
            BootloaderFormat::Elf => "CAN_BL.elf"@,
            BootloaderFormat::Hex => "CAN_BL.hex"@,
            BootloaderFormat::Bin => "CAN_BL.bin"@,
        }
    }

    /// File name the release page uses for this format.
    pub fn asset_name(self) -> (s: &'static str)
        ensures
            s@ == self.asset_name_spec(),
    {
        match self {
            BootloaderFormat::Elf => "CAN_BL.elf",
            BootloaderFormat::Hex => "CAN_BL.hex",
            BootloaderFormat::Bin => "CAN_BL.bin",
        }
    }
}

/// Why a fetch failed.
#[derive(Clone, Debug)]
pub enum FetchError {
    /// No platform cache directory.
    NoCacheDir,
    /// A filesystem error, by its message.
    Io(String),
    /// The API answered with an error status.
    HttpStatus { status: u16, body: String },
    /// The HTTP transport failed.
    HttpTransport(String),
    /// The release has no artefact of the asked format.
    AssetMissing { repo: &'static str, tag: String, asset: &'static str },
    /// The API's answer did not parse.
    Json(String),
}

/// A bootloader artefact on local disk.
#[derive(Clone, Debug)]
pub struct CachedBootloader {
    pub tag: String,
    pub path: String,
    /// Whether this call downloaded it (rather than finding it cached).
    pub downloaded: bool,
}

/// One downloadable file of a release.
#[derive(Clone, Debug)]
pub struct ReleaseAsset {
    pub name: String,
    pub browser_download_url: String,
}

/// The release API URL: a pinned tag, or the latest release.
pub open spec fn release_url_spec(tag: Option<Seq<char>>) -> Seq<char> {
    match tag {
        Some(t) => "https://api.github.com/repos/"@ + BOOTLOADER_REPO@ + "/releases/tags/"@ + t,
        None => "https://api.github.com/repos/"@ + BOOTLOADER_REPO@ + "/releases/latest"@,
    }
}

/// The GitHub releases API URL for `tag` (`None` is the latest release).
pub fn release_api_url(tag: Option<&str>) -> (u: String)
    ensures
        u@ == release_url_spec(match tag {
            Some(t) => Some(t@),
            None => None,
        }),
{
    let mut u = String::from_str("https://api.github.com/repos/");
    u.append(BOOTLOADER_REPO);
    match tag {
        Some(t) => {
            u.append("/releases/tags/");
            u.append(t);
        },
        None => {
            u.append("/releases/latest");
        },
    }
    u
}

/// Pick the release asset of `format`: the first one named after it, or
/// `AssetMissing` for `tag`.
pub fn select_asset(assets: &[ReleaseAsset], tag: &str, format: BootloaderFormat) -> (r: Result<usize, FetchError>)
    ensures
        r matches Ok(i) ==> i < assets@.len() && assets@[i as int].name@ == format.asset_name_spec() && forall|j: int|
            0 <= j < i ==> assets@[j].name@ != format.asset_name_spec(),
        r is Err ==> (forall|j: int| 0 <= j < assets@.len() ==> assets@[j].name@ != format.asset_name_spec()),
        r is Err ==> (r matches Err(FetchError::AssetMissing { repo, tag: t, asset }) && repo@ == BOOTLOADER_REPO@
            && t@ == tag@ && asset@ == format.asset_name_spec()),
{
    let want = format.asset_name();
    let mut i: usize = 0;
    while i < assets.len()
        invariant
            i <= assets@.len(),
            want@ == format.asset_name_spec(),
            forall|j: int| 0 <= j < i ==> assets@[j].name@ != format.asset_name_spec(),
        decreases assets@.len() - i,
    {
        if str_eq(assets[i].name.as_str(), want) {
            return Ok(i);
        }
        i = i + 1;
    }
    Err(FetchError::AssetMissing { repo: BOOTLOADER_REPO, tag: String::from_str(tag), asset: want })
}

/// Character-wise string equality.
pub fn str_eq(a: &str, b: &str) -> (r: bool)
    ensures
        r == (a@ == b@),
{
    let n = a.unicode_len();
    if n != b.unicode_len() {
        return false;
    }
    let mut i: usize = 0;
    while i < n
        invariant
            n == a@.len(),
            n == b@.len(),
            i <= n,
            forall|j: int| 0 <= j < i ==> a@[j] == b@[j],
        decreases n - i,
    {
        if a.get_char(i) != b.get_char(i) {
            return false;
        }
        i = i + 1;
    }
    assert(a@ =~= b@);
    true
}

/// The directories, below the platform cache directory, that hold the
/// artefacts of release `tag`.
pub fn cache_segments(tag: &str) -> (s: Vec<String>)
    ensures
        s@.len() == 3,
        s@[0]@ == "can-flasher"@,
        s@[1]@ == "bootloaders"@,
        s@[2]@ == tag@,
{
    let mut s: Vec<String> = Vec::new();
    s.push(String::from_str("can-flasher"));
    s.push(String::from_str("bootloaders"));
    s.push(String::from_str(tag));
    s
}

} // verus!
