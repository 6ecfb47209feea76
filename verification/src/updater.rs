//! Self-updater decisions.
//!
//! The launcher fetches a JSON manifest published with the latest release,
//! compares its version with the running one, picks the installer published
//! for this platform, checks the SHA-256 checksum of what it downloaded and
//! runs it. Fetching, writing and running files happen at the edge; this
//! module holds what is decided in between.
use vstd::prelude::*;
use sha2::{Digest, Sha256};
use crate::text::{
    chars_of, eq_ignore_ascii_case, last_index_where, lemma_last_index_is, push_str, replace_all,
    replaced, str_eq_ignore_ascii_case, string_from_chars,
};
use crate::version::{is_newer, spec_is_newer};

verus! {

// ---------------------------------------------------------------------------
// Data
// ---------------------------------------------------------------------------

/// Information about an available update.
#[derive(Debug, Clone)]
pub struct UpdateInfo {
    pub version: String,
    pub notes: Option<String>,
    pub url: String,
    pub sha256: Option<String>,
}

pub struct UpdateInfoView {
    pub version: Seq<char>,
    pub notes: Option<Seq<char>>,
    pub url: Seq<char>,
    pub sha256: Option<Seq<char>>,
}

impl View for UpdateInfo {
    type V = UpdateInfoView;

    open spec fn view(&self) -> UpdateInfoView {
        UpdateInfoView {
            version: self.version@,
            notes: self.notes.deep_view(),
            url: self.url@,
            sha256: self.sha256.deep_view(),
        }
    }
}

/// One entry of the manifest's `platforms` object: the key it is published
/// under, and its `url` and `sha256` members when they are strings.
#[derive(Debug, Clone)]
pub struct PlatformRelease {
    pub key: String,
    pub url: Option<String>,
    pub sha256: Option<String>,
}

pub struct PlatformReleaseView {
    pub key: Seq<char>,
    pub url: Option<Seq<char>>,
    pub sha256: Option<Seq<char>>,
}

impl View for PlatformRelease {
    type V = PlatformReleaseView;

    open spec fn view(&self) -> PlatformReleaseView {
        PlatformReleaseView {
            key: self.key@,
            url: self.url.deep_view(),
            sha256: self.sha256.deep_view(),
        }
    }
}

/// What the update logic reads of the manifest: its `version` and `notes`
/// members when they are strings, and the entries of its `platforms` object
/// (none when there is no such object).
#[derive(Debug, Clone)]
pub struct UpdateManifest {
    pub version: Option<String>,
    pub notes: Option<String>,
    pub platforms: Vec<PlatformRelease>,
}

pub struct UpdateManifestView {
    pub version: Option<Seq<char>>,
    pub notes: Option<Seq<char>>,
    pub platforms: Seq<PlatformReleaseView>,
}

impl View for UpdateManifest {
    type V = UpdateManifestView;

    open spec fn view(&self) -> UpdateManifestView {
        UpdateManifestView {
            version: self.version.deep_view(),
            notes: self.notes.deep_view(),
            platforms: self.platforms@.map_values(|p: PlatformRelease| p@),
        }
    }
}

/// Why an update could not be found or accepted.
#[derive(Debug, Clone)]
pub enum UpdateError {
    /// The manifest has no string `version`.
    MissingVersion,
    /// Nothing is published for the platform with this key.
    NoPlatform(String),
    /// The platform's entry has no string `url`.
    MissingUrl,
    /// The download's SHA-256 checksum differs from the published one.
    ChecksumMismatch { expected: String, got: String },
}

pub enum UpdateErrorView {
    MissingVersion,
    NoPlatform(Seq<char>),
    MissingUrl,
    ChecksumMismatch { expected: Seq<char>, got: Seq<char> },
}

impl View for UpdateError {
    type V = UpdateErrorView;

    open spec fn view(&self) -> UpdateErrorView {
        match self {
            UpdateError::MissingVersion => UpdateErrorView::MissingVersion,
            UpdateError::NoPlatform(k) => UpdateErrorView::NoPlatform(k@),
            UpdateError::MissingUrl => UpdateErrorView::MissingUrl,
            UpdateError::ChecksumMismatch { expected, got } => UpdateErrorView::ChecksumMismatch {
                expected: expected@,
                got: got@,
            },
        }
    }
}

// ---------------------------------------------------------------------------
// Choosing the update
// ---------------------------------------------------------------------------

/// The short architecture spelling in platform keys.
pub open spec fn short_arch_suffix() -> Seq<char> {
    seq!['-', 'x', '6', '4']
}

/// The long architecture spelling that the backend's release table uses.
pub open spec fn long_arch_suffix() -> Seq<char> {
    seq!['-', 'x', '8', '6', '_', '6', '4']
}

/// Index of the first platform entry published under `key`, or `-1`.
pub open spec fn platform_index(ps: Seq<PlatformReleaseView>, key: Seq<char>) -> int
    decreases ps.len(),
{
    if ps.len() == 0 {
        -1
    } else if ps.last().key == key && platform_index(ps.drop_last(), key) < 0 {
        ps.len() - 1
    } else {
        platform_index(ps.drop_last(), key)
    }
}

/// The entry for `key`, falling back to the key with the long architecture
/// spelling.
pub open spec fn chosen_platform(ps: Seq<PlatformReleaseView>, key: Seq<char>) -> int {
    let i = platform_index(ps, key);
    if i >= 0 {
        i
    } else {
        platform_index(ps, replaced(key, short_arch_suffix(), long_arch_suffix()))
    }
}

/// The pending update, if any, that `manifest` announces to a launcher at
/// version `current` running on the platform `key`.
pub open spec fn spec_check_for_updates(
    manifest: UpdateManifestView,
    current: Seq<char>,
    key: Seq<char>,
) -> Result<Option<UpdateInfoView>, UpdateErrorView> {
    match manifest.version {
        None => Err(UpdateErrorView::MissingVersion),
        Some(version) => if !spec_is_newer(version, current) {
            Ok(None)
        } else {
            let i = chosen_platform(manifest.platforms, key);
            if i < 0 {
                Err(UpdateErrorView::NoPlatform(key))
            } else {
                match manifest.platforms[i].url {
                    None => Err(UpdateErrorView::MissingUrl),
                    Some(url) => Ok(
                        Some(
                            UpdateInfoView {
                                version,
                                notes: manifest.notes,
                                url,
                                sha256: manifest.platforms[i].sha256,
                            },
                        ),
                    ),
                }
            }
        },
    }
}

pub open spec fn update_result_view(r: Result<Option<UpdateInfo>, UpdateError>) -> Result<
    Option<UpdateInfoView>,
    UpdateErrorView,
> {
    match r {
        Ok(Some(info)) => Ok(Some(info@)),
        Ok(None) => Ok(None),
        Err(e) => Err(e@),
    }
}

proof fn lemma_platform_index(ps: Seq<PlatformReleaseView>, key: Seq<char>)
    ensures
        -1 <= platform_index(ps, key) < ps.len(),
        platform_index(ps, key) >= 0 ==> ps[platform_index(ps, key)].key == key,
        forall|j: int|
            0 <= j < ps.len() && (platform_index(ps, key) < 0 || j < platform_index(ps, key))
                ==> #[trigger] ps[j].key != key,
    decreases ps.len(),
{
    if ps.len() > 0 {
        let t = ps.drop_last();
        lemma_platform_index(t, key);
        assert forall|j: int| 0 <= j < t.len() implies #[trigger] ps[j] == t[j] by {}
    }
}

proof fn lemma_platform_index_is(ps: Seq<PlatformReleaseView>, key: Seq<char>, r: int)
    requires
        -1 <= r < ps.len(),
        r >= 0 ==> ps[r].key == key,
        forall|j: int| 0 <= j < ps.len() && (r < 0 || j < r) ==> #[trigger] ps[j].key != key,
    ensures
        platform_index(ps, key) == r,
{
    lemma_platform_index(ps, key);
    let f = platform_index(ps, key);
    if f >= 0 && (r < 0 || f < r) {
        assert(ps[f].key != key);
    }
    if r >= 0 && f != r {
        assert(ps[r].key != key);
    }
}

/// The first entry of `platforms` published under `key`.
fn find_platform(platforms: &Vec<PlatformRelease>, key: &String) -> (r: Option<usize>)
    ensures
        ({
            let ps = platforms@.map_values(|p: PlatformRelease| p@);
            let i = platform_index(ps, key@);
            &&& r is None <==> i < 0
            &&& r matches Some(j) ==> j == i
        }),
{
    let ghost ps = platforms@.map_values(|p: PlatformRelease| p@);
    let mut i: usize = 0;
    while i < platforms.len()
        invariant
            i <= platforms.len(),
            ps == platforms@.map_values(|p: PlatformRelease| p@),
            forall|j: int| 0 <= j < i ==> #[trigger] ps[j].key != key@,
        decreases platforms.len() - i,
    {
        assert(ps[i as int] == platforms@[i as int]@);
        if platforms[i].key == *key {
            proof {
                lemma_platform_index_is(ps, key@, i as int);
            }
            return Some(i);
        }
        i = i + 1;
    }
    proof {
        lemma_platform_index_is(ps, key@, -1);
    }
    None
}

/// Decides, from the manifest, whether an update is pending for a launcher
/// at version `current` on the platform `key`, and which installer it is.
///
/// The platform is looked up under `key`, and then under `key` with `-x64`
/// spelled `-x86_64`.
pub fn check_for_updates(manifest: &UpdateManifest, current: &str, key: &str) -> (r: Result<
    Option<UpdateInfo>,
    UpdateError,
>)
    ensures
        update_result_view(r) == spec_check_for_updates(manifest@, current@, key@),
{
    let version = match &manifest.version {
        None => {
            return Err(UpdateError::MissingVersion);
        },
        Some(v) => v.clone(),
    };
    if !is_newer(version.as_str(), current) {
        return Ok(None);
    }
    let key_chars = chars_of(key);
    let key_string = string_from_chars(key_chars.as_slice());
    let found = match find_platform(&manifest.platforms, &key_string) {
        Some(i) => Some(i),
        None => {
            let long = replace_all(
                key,
                &vec!['-', 'x', '6', '4'],
                &vec!['-', 'x', '8', '6', '_', '6', '4'],
            );
            let long_string = string_from_chars(long.as_slice());
            find_platform(&manifest.platforms, &long_string)
        },
    };
    proof {
        let ps = manifest.platforms@.map_values(|p: PlatformRelease| p@);
        lemma_platform_index(ps, key@);
        lemma_platform_index(ps, replaced(key@, short_arch_suffix(), long_arch_suffix()));
    }
    let i = match found {
        None => {
            return Err(UpdateError::NoPlatform(key_string));
        },
        Some(i) => i,
    };
    let platform = &manifest.platforms[i];
    assert(manifest@.platforms[i as int] == platform@);
    let url = match &platform.url {
        None => {
            return Err(UpdateError::MissingUrl);
        },
        Some(u) => u.clone(),
    };
    Ok(
        Some(
            UpdateInfo {
                version,
                notes: manifest.notes.clone(),
                url,
                sha256: platform.sha256.clone(),
            },
        ),
    )
}

/// The key that manifests publish an installer under: `{os}-{arch}`.
pub fn platform_key(os: &str, arch: &str) -> (k: String)
    ensures
        k@ == os@ + seq!['-'] + arch@,
{
    let mut v: Vec<char> = Vec::new();
    push_str(&mut v, os);
    v.push('-');
    push_str(&mut v, arch);
    string_from_chars(v.as_slice())
}

// ---------------------------------------------------------------------------
// Checking the download
// ---------------------------------------------------------------------------

/// The SHA-256 digest of `data`.
pub uninterp spec fn sha256_of(data: Seq<u8>) -> Seq<u8>;

/// Calls `sha2::Sha256` (`new`, `update`, `finalize`) on `data`. The result is
/// named `sha256_of(data)`; the crate's source fixes its output size at 32
/// bytes (`U32`), which is stated too. Nothing else about the digest is stated.
#[verifier::external_body]
fn sha256_digest(data: &[u8]) -> (d: Vec<u8>)
    ensures
        d@ == sha256_of(data@),
        d@.len() == 32,
{
    let mut hasher = Sha256::new();
    hasher.update(data);
    hasher.finalize().to_vec()
}

/// A lowercase hexadecimal digit.
pub open spec fn hex_digit(n: int) -> char {
    if n < 10 {
        (('0' as int) + n) as char
    } else {
        (('a' as int) + n - 10) as char
    }
}

/// `{:02x}` applied to every byte, joined: lowercase hex, two digits a byte.
pub open spec fn hex_lower(bytes: Seq<u8>) -> Seq<char>
    decreases bytes.len(),
{
    if bytes.len() == 0 {
        Seq::empty()
    } else {
        hex_lower(bytes.drop_last()) + seq![
            hex_digit(bytes.last() as int / 16),
            hex_digit(bytes.last() as int % 16),
        ]
    }
}

fn hex_char(n: u8) -> (c: char)
    requires
        n < 16,
    ensures
        c == hex_digit(n as int),
{
    if n < 10 {
        ('0' as u8 + n) as char
    } else {
        ('a' as u8 + n - 10) as char
    }
}

/// The lowercase hexadecimal spelling of `bytes`.
pub fn to_hex_lower(bytes: &[u8]) -> (s: String)
    ensures
        s@ == hex_lower(bytes@),
{
    let mut v: Vec<char> = Vec::new();
    let mut i: usize = 0;
    while i < bytes.len()
        invariant
            i <= bytes.len(),
            v@ == hex_lower(bytes@.take(i as int)),
        decreases bytes.len() - i,
    {
        let b = bytes[i];
        assert(bytes@.take(i + 1).drop_last() == bytes@.take(i as int));
        assert(bytes@.take(i + 1).last() == b);
        v.push(hex_char(b / 16));
        v.push(hex_char(b % 16));
        i = i + 1;
    }
    assert(bytes@.take(bytes.len() as int) == bytes@);
    string_from_chars(v.as_slice())
}

/// The outcome of checking a digest against the published checksum.
pub open spec fn spec_check_digest(expected: Option<Seq<char>>, digest: Seq<u8>) -> Result<
    (),
    UpdateErrorView,
> {
    match expected {
        None => Ok(()),
        Some(e) => if eq_ignore_ascii_case(hex_lower(digest), e) {
            Ok(())
        } else {
            Err(UpdateErrorView::ChecksumMismatch { expected: e, got: hex_lower(digest) })
        },
    }
}

pub open spec fn unit_result_view(r: Result<(), UpdateError>) -> Result<(), UpdateErrorView> {
    match r {
        Ok(()) => Ok(()),
        Err(e) => Err(e@),
    }
}

/// Accepts `digest` when no checksum is published, or when its hex spelling
/// equals the published one up to ASCII case.
pub fn check_digest(expected: &Option<String>, digest: &[u8]) -> (r: Result<(), UpdateError>)
    ensures
        unit_result_view(r) == spec_check_digest(expected.deep_view(), digest@),
{
    match expected {
        None => Ok(()),
        Some(e) => {
            let got = to_hex_lower(digest);
            if str_eq_ignore_ascii_case(got.as_str(), e.as_str()) {
                Ok(())
            } else {
                Err(UpdateError::ChecksumMismatch { expected: e.clone(), got })
            }
        },
    }
}

/// Verifies downloaded installer bytes against the checksum in `info`.
pub fn verify_download(info: &UpdateInfo, bytes: &[u8]) -> (r: Result<(), UpdateError>)
    ensures
        unit_result_view(r) == spec_check_digest(info.sha256.deep_view(), sha256_of(bytes@)),
{
    match &info.sha256 {
        None => Ok(()),
        Some(_) => {
            let digest = sha256_digest(bytes);
            check_digest(&info.sha256, digest.as_slice())
        },
    }
}

pub open spec fn is_slash() -> spec_fn(char) -> bool {
    |c: char| c == '/'
}

/// The last `/`-separated segment of `url` (`url.rsplit('/').next()`).
pub open spec fn spec_installer_file_name(url: Seq<char>) -> Seq<char> {
    let j = last_index_where(url, is_slash());
    if j < 0 {
        url
    } else {
        url.skip(j + 1)
    }
}

/// The file name the downloaded installer is saved under: the last segment
/// of its URL.
pub fn installer_file_name(url: &str) -> (name: String)
    ensures
        name@ == spec_installer_file_name(url@),
{
    let v = chars_of(url);
    let n = v.len();
    let mut e = n;
    while e > 0 && v[e - 1] != '/'
        invariant
            e <= n == v.len(),
            forall|j: int| e <= j < n ==> !is_slash()(#[trigger] v@[j]),
        decreases e,
    {
        e = e - 1;
    }
    proof {
        lemma_last_index_is(v@, is_slash(), e - 1);
    }
    let mut name: Vec<char> = Vec::new();
    let mut i = e;
    while i < n
        invariant
            e <= i <= n == v.len(),
            name@ == v@.subrange(e as int, i as int),
        decreases n - i,
    {
        name.push(v[i]);
        i = i + 1;
    }
    assert(v@.skip(e as int) == v@.subrange(e as int, n as int));
    string_from_chars(name.as_slice())
}

// ---------------------------------------------------------------------------
// Laws
// ---------------------------------------------------------------------------

/// An update is only offered when the manifest names a strictly newer
/// version than the running one, and it is that version.
pub proof fn lemma_update_only_when_newer(m: UpdateManifestView, current: Seq<char>, key: Seq<char>)
    ensures
        spec_check_for_updates(m, current, key) matches Ok(Some(info)) ==> m.version == Some(
            info.version,
        ) && spec_is_newer(info.version, current),
{
}

/// A manifest whose version is not newer never leads to an update nor to an
/// error about platforms.
pub proof fn lemma_not_newer_is_no_update(m: UpdateManifestView, current: Seq<char>, key: Seq<char>)
    requires
        m.version matches Some(v) && !spec_is_newer(v, current),
    ensures
        spec_check_for_updates(m, current, key) == Ok::<Option<UpdateInfoView>, UpdateErrorView>(
            None,
        ),
{
}

/// The installer offered is the one published under the platform's key, or
/// else under the key with `-x64` spelled `-x86_64`.
pub proof fn lemma_offered_installer_is_published(
    m: UpdateManifestView,
    current: Seq<char>,
    key: Seq<char>,
)
    ensures
        spec_check_for_updates(m, current, key) matches Ok(Some(info)) ==> exists|i: int|
            0 <= i < m.platforms.len() && (m.platforms[i].key == key || m.platforms[i].key
                == replaced(key, short_arch_suffix(), long_arch_suffix())) && m.platforms[i].url
                == Some(info.url) && m.platforms[i].sha256 == info.sha256,
{
    lemma_platform_index(m.platforms, key);
    lemma_platform_index(m.platforms, replaced(key, short_arch_suffix(), long_arch_suffix()));
    if let Ok(Some(info)) = spec_check_for_updates(m, current, key) {
        let i = chosen_platform(m.platforms, key);
        assert(0 <= i < m.platforms.len());
    }
}

/// A newer release published under the platform's own key is offered: the
/// first entry under that key gives the installer, and the update carries the
/// manifest's version and notes and that entry's url and checksum.
pub proof fn lemma_newer_release_is_offered(
    m: UpdateManifestView,
    current: Seq<char>,
    key: Seq<char>,
    i: int,
)
    requires
        m.version matches Some(v) && spec_is_newer(v, current),
        0 <= i < m.platforms.len(),
        m.platforms[i].key == key,
        forall|j: int| 0 <= j < i ==> #[trigger] m.platforms[j].key != key,
        m.platforms[i].url is Some,
    ensures
        spec_check_for_updates(m, current, key) == Ok::<Option<UpdateInfoView>, UpdateErrorView>(
            Some(
                UpdateInfoView {
                    version: m.version->0,
                    notes: m.notes,
                    url: m.platforms[i].url->0,
                    sha256: m.platforms[i].sha256,
                },
            ),
        ),
{
    lemma_platform_index_is(m.platforms, key, i);
}

/// When nothing is published under the platform's key, a newer release
/// published under the key with `-x64` spelled `-x86_64` is offered from the
/// first such entry.
pub proof fn lemma_newer_release_is_offered_under_long_key(
    m: UpdateManifestView,
    current: Seq<char>,
    key: Seq<char>,
    i: int,
)
    requires
        m.version matches Some(v) && spec_is_newer(v, current),
        forall|j: int| 0 <= j < m.platforms.len() ==> #[trigger] m.platforms[j].key != key,
        0 <= i < m.platforms.len(),
        m.platforms[i].key == replaced(
            key,
            seq!['-', 'x', '6', '4'],
            seq!['-', 'x', '8', '6', '_', '6', '4'],
        ),
        forall|j: int|
            0 <= j < i ==> #[trigger] m.platforms[j].key != replaced(
                key,
                seq!['-', 'x', '6', '4'],
                seq!['-', 'x', '8', '6', '_', '6', '4'],
            ),
        m.platforms[i].url is Some,
    ensures
        spec_check_for_updates(m, current, key) == Ok::<Option<UpdateInfoView>, UpdateErrorView>(
            Some(
                UpdateInfoView {
                    version: m.version->0,
                    notes: m.notes,
                    url: m.platforms[i].url->0,
                    sha256: m.platforms[i].sha256,
                },
            ),
        ),
{
    lemma_platform_index_is(m.platforms, key, -1);
    lemma_platform_index_is(
        m.platforms,
        replaced(key, seq!['-', 'x', '6', '4'], seq!['-', 'x', '8', '6', '_', '6', '4']),
        i,
    );
}

/// A newer release published under neither spelling of the platform's key is
/// an error naming the key; one whose entry has no url is an error too.
pub proof fn lemma_newer_release_without_installer(
    m: UpdateManifestView,
    current: Seq<char>,
    key: Seq<char>,
)
    requires
        m.version matches Some(v) && spec_is_newer(v, current),
    ensures
        (forall|j: int|
            0 <= j < m.platforms.len() ==> #[trigger] m.platforms[j].key != key && m.platforms[j].key
                != replaced(key, seq!['-', 'x', '6', '4'], seq!['-', 'x', '8', '6', '_', '6', '4']))
            ==> spec_check_for_updates(m, current, key) == Err::<
            Option<UpdateInfoView>,
            UpdateErrorView,
        >(UpdateErrorView::NoPlatform(key)),
        forall|i: int|
            0 <= i < m.platforms.len() && m.platforms[i].key == key && (forall|j: int|
                0 <= j < i ==> #[trigger] m.platforms[j].key != key) && m.platforms[i].url is None
                ==> spec_check_for_updates(m, current, key) == Err::<
                Option<UpdateInfoView>,
                UpdateErrorView,
            >(UpdateErrorView::MissingUrl),
{
    let long = replaced(key, seq!['-', 'x', '6', '4'], seq!['-', 'x', '8', '6', '_', '6', '4']);
    if forall|j: int|
        0 <= j < m.platforms.len() ==> #[trigger] m.platforms[j].key != key && m.platforms[j].key
            != long {
        lemma_platform_index_is(m.platforms, key, -1);
        lemma_platform_index_is(m.platforms, long, -1);
    }
    assert forall|i: int|
        0 <= i < m.platforms.len() && m.platforms[i].key == key && (forall|j: int|
            0 <= j < i ==> #[trigger] m.platforms[j].key != key) && m.platforms[i].url
            is None implies spec_check_for_updates(m, current, key) == Err::<
        Option<UpdateInfoView>,
        UpdateErrorView,
    >(UpdateErrorView::MissingUrl) by {
        lemma_platform_index_is(m.platforms, key, i);
    }
}

/// The hex spelling has two digits for every byte.
pub proof fn lemma_hex_lower_len(bytes: Seq<u8>)
    ensures
        hex_lower(bytes).len() == 2 * bytes.len(),
    decreases bytes.len(),
{
    if bytes.len() > 0 {
        lemma_hex_lower_len(bytes.drop_last());
    }
}

/// A download is accepted exactly when no checksum is published or the
/// published one spells its SHA-256 digest, in either case of letters.
pub proof fn lemma_download_accepted_iff_checksum_matches(expected: Option<Seq<char>>, data: Seq<u8>)
    ensures
        spec_check_digest(expected, sha256_of(data)) is Ok <==> match expected {
            None => true,
            Some(e) => eq_ignore_ascii_case(hex_lower(sha256_of(data)), e),
        },
{
}

// ---------------------------------------------------------------------------
// Messages and reactions
// ---------------------------------------------------------------------------

/// What each error says to the user.
pub open spec fn spec_error_message(e: UpdateErrorView) -> Seq<char> {
    match e {
        UpdateErrorView::MissingVersion => "update manifest is missing `version`"@,
        UpdateErrorView::NoPlatform(k) => "no update published for platform `"@ + k + "`"@,
        UpdateErrorView::MissingUrl => "manifest entry is missing `url`"@,
        UpdateErrorView::ChecksumMismatch { expected, got } => "checksum mismatch: expected "@
            + expected + ", got "@ + got,
    }
}

impl UpdateError {
    /// The message that describes the error.
    pub fn message(&self) -> (m: String)
        ensures
            m@ == spec_error_message(self@),
    {
        let mut v: Vec<char> = Vec::new();
        match self {
            UpdateError::MissingVersion => {
                push_str(&mut v, "update manifest is missing `version`");
            },
            UpdateError::NoPlatform(k) => {
                push_str(&mut v, "no update published for platform `");
                push_str(&mut v, k.as_str());
                push_str(&mut v, "`");
            },
            UpdateError::MissingUrl => {
                push_str(&mut v, "manifest entry is missing `url`");
            },
            UpdateError::ChecksumMismatch { expected, got } => {
                push_str(&mut v, "checksum mismatch: expected ");
                push_str(&mut v, expected.as_str());
                push_str(&mut v, ", got ");
                push_str(&mut v, got.as_str());
            },
        }
        string_from_chars(v.as_slice())
    }
}

/// The notice shown before an update is downloaded.
pub fn downloading_message(version: &str) -> (m: String)
    ensures
        m@ == "Downloading update to "@ + version@
            + "...\nThe launcher will restart when it finishes."@,
{
    let mut v: Vec<char> = Vec::new();
    push_str(&mut v, "Downloading update to ");
    push_str(&mut v, version);
    push_str(&mut v, "...\nThe launcher will restart when it finishes.");
    string_from_chars(v.as_slice())
}

/// The notice shown when installing the update to `version` failed.
pub fn update_failed_message(version: &str, error: &str) -> (m: String)
    ensures
        m@ == "Update to "@ + version@ + " failed:\n"@ + error@,
{
    let mut v: Vec<char> = Vec::new();
    push_str(&mut v, "Update to ");
    push_str(&mut v, version);
    push_str(&mut v, " failed:\n");
    push_str(&mut v, error);
    string_from_chars(v.as_slice())
}

/// The notice shown when no newer version is published.
pub fn up_to_date_message(current: &str) -> (m: String)
    ensures
        m@ == "You are already on the latest version ("@ + current@ + ")."@,
{
    let mut v: Vec<char> = Vec::new();
    push_str(&mut v, "You are already on the latest version (");
    push_str(&mut v, current);
    push_str(&mut v, ").");
    string_from_chars(v.as_slice())
}

/// The notice shown when the update check itself failed.
pub fn check_failed_message(error: &str) -> (m: String)
    ensures
        m@ == "Update check failed:\n"@ + error@,
{
    let mut v: Vec<char> = Vec::new();
    push_str(&mut v, "Update check failed:\n");
    push_str(&mut v, error);
    string_from_chars(v.as_slice())
}

/// What a manual update check does next.
#[derive(Debug)]
pub enum UpdatePrompt {
    /// Download and install this update.
    Install(UpdateInfo),
    /// Tell the user this.
    Tell(String),
}

/// How a manual check (from Settings) reacts to the outcome of the check,
/// an error being given by its message: install a pending update, and
/// otherwise always tell the user how the check went.
pub fn interactive_reaction(outcome: Result<Option<UpdateInfo>, String>, current: &str) -> (p:
    UpdatePrompt)
    ensures
        match outcome {
            Ok(Some(info)) => p == UpdatePrompt::Install(info),
            Ok(None) => p matches UpdatePrompt::Tell(m) && m@
                == "You are already on the latest version ("@ + current@ + ")."@,
            Err(e) => p matches UpdatePrompt::Tell(m) && m@ == "Update check failed:\n"@ + e@,
        },
{
    match outcome {
        Ok(Some(info)) => UpdatePrompt::Install(info),
        Ok(None) => UpdatePrompt::Tell(up_to_date_message(current)),
        Err(e) => UpdatePrompt::Tell(check_failed_message(e.as_str())),
    }
}

/// How the silent check at startup reacts: it installs a pending update and
/// does nothing otherwise.
pub fn background_reaction(outcome: Result<Option<UpdateInfo>, String>) -> (r: Option<UpdateInfo>)
    ensures
        r == match outcome {
            Ok(Some(info)) => Some(info),
            _ => None,
        },
{
    match outcome {
        Ok(Some(info)) => Some(info),
        _ => None,
    }
}

} // verus!
