//! Choosing the self-contained Python distribution for the host: the asset
//! name pattern of a platform and the selection of one asset from a release.

use crate::error::RezToolsError;
use crate::locator::{
    default_rules_of, first_existing, first_existing_from, search_in, search_tree, DirNode,
    ProbedPath, SearchRules, DEFAULT_MAX_DEPTH,
};
use crate::platform::{supported_pair, Platform};
use crate::text::{
    chars_of, contains, contains_seq, ends_with, has_prefix, has_suffix, occurs_at, str_eq,
    string_views,
};
use vstd::prelude::*;
use vstd::string::*;

verus! {

/// One downloadable file of a release: its name and, where the release
/// index gives one, the address to fetch it from.
#[derive(Debug, Clone)]
pub struct ReleaseAsset {
    pub name: String,
    pub download_url: Option<String>,
}

/// Where the latest release of the distribution is described.
pub const RELEASE_INDEX_URL: &'static str =
    "https://api.github.com/repos/astral-sh/python-build-standalone/releases/latest";

/// What a release index holds, as far as it is of interest here.
#[derive(Debug, Clone)]
pub enum ReleaseIndex {
    /// The document is no JSON; the text says why.
    Invalid(String),
    /// The document has no list of assets.
    NoAssets,
    /// The assets of the release, in the order of the document: of each its
    /// name and its address, as far as the document gives them as texts.
    Assets(Vec<(Option<String>, Option<String>)>),
}

/// One entry of a release index as plain values: its name and its address.
pub type EntryView = (Option<Seq<char>>, Option<Seq<char>>);

/// A release index as plain values.
pub enum IndexView {
    Invalid(Seq<char>),
    NoAssets,
    Assets(Seq<EntryView>),
}

/// The views of the entries of a release index.
pub open spec fn entry_views(entries: Seq<(Option<String>, Option<String>)>) -> Seq<EntryView> {
    Seq::new(
        entries.len(),
        |i: int|
            (
                match entries[i].0 {
                    Some(n) => Some(n@),
                    None => None,
                },
                match entries[i].1 {
                    Some(u) => Some(u@),
                    None => None,
                },
            ),
    )
}

impl View for ReleaseIndex {
    type V = IndexView;

    open spec fn view(&self) -> IndexView {
        match self {
            ReleaseIndex::Invalid(why) => IndexView::Invalid(why@),
            ReleaseIndex::NoAssets => IndexView::NoAssets,
            ReleaseIndex::Assets(entries) => IndexView::Assets(entry_views(entries@)),
        }
    }
}

/// What a document holds when it is read as a release index, as
/// `serde_json` reads it.
pub uninterp spec fn release_index_of(bytes: Seq<u8>) -> IndexView;

/// Reads a release index with `serde_json::from_slice` and takes from the
/// resulting value the member `assets` and, from each of its entries, the
/// members `name` and `browser_download_url`, where they are texts. The
/// result is a function of the document alone; nothing more is claimed of it.
#[verifier::external_body]
pub(crate) fn read_release_index(bytes: &[u8]) -> (index: ReleaseIndex)
    ensures
        index@ == release_index_of(bytes@),
{
    match serde_json::from_slice::<serde_json::Value>(bytes) {
        Err(e) => ReleaseIndex::Invalid(e.to_string()),
        Ok(v) => match v["assets"].as_array() {
            None => ReleaseIndex::NoAssets,
            Some(list) => ReleaseIndex::Assets(
                list.iter().map(|a| (
                    a["name"].as_str().map(|s| s.to_string()),
                    a["browser_download_url"].as_str().map(|s| s.to_string()),
                )).collect(),
            ),
        },
    }
}

/// The names of assets, in order.
pub open spec fn asset_names(assets: Seq<ReleaseAsset>) -> Seq<Seq<char>> {
    Seq::new(assets.len(), |i: int| assets[i].name@)
}

/// The addresses of assets, in order.
pub open spec fn asset_urls(assets: Seq<ReleaseAsset>) -> Seq<Option<Seq<char>>> {
    Seq::new(
        assets.len(),
        |i: int|
            match assets[i].download_url {
                Some(u) => Some(u@),
                None => None,
            },
    )
}

/// The names of the entries of a release index: an entry without a name has
/// the empty name.
pub open spec fn entry_names(entries: Seq<EntryView>) -> Seq<Seq<char>> {
    Seq::new(
        entries.len(),
        |i: int|
            match entries[i].0 {
                Some(n) => n,
                None => ""@,
            },
    )
}

/// The addresses of the entries of a release index.
pub open spec fn entry_urls(entries: Seq<EntryView>) -> Seq<Option<Seq<char>>> {
    Seq::new(entries.len(), |i: int| entries[i].1)
}

/// The assets that the entries of a release index describe, in order: an
/// entry without a name is an asset with the empty name.
pub fn assets_of_entries(entries: Vec<(Option<String>, Option<String>)>) -> (assets: Vec<
    ReleaseAsset,
>)
    ensures
        asset_names(assets@) == entry_names(entry_views(entries@)),
        asset_urls(assets@) == entry_urls(entry_views(entries@)),
{
    let mut assets: Vec<ReleaseAsset> = Vec::new();
    let mut i: usize = 0;
    while i < entries.len()
        invariant
            i <= entries@.len(),
            assets@.len() == i,
            forall|k: int|
                0 <= k < i ==> {
                    &&& (#[trigger] assets@[k]).download_url == entries@[k].1
                    &&& assets@[k].name@ == match entries@[k].0 {
                        Some(n) => n@,
                        None => ""@,
                    }
                },
        decreases entries@.len() - i,
    {
        let name = match &entries[i].0 {
            Some(n) => n.clone(),
            None => String::from_str(""),
        };
        let download_url = match &entries[i].1 {
            Some(u) => Some(u.clone()),
            None => None,
        };
        assets.push(ReleaseAsset { name, download_url });
        i += 1;
    }
    assert(asset_names(assets@) =~= entry_names(entry_views(entries@)));
    assert(asset_urls(assets@) =~= entry_urls(entry_views(entries@)));
    assets
}

/// Python Build Standalone manager.
#[derive(Debug, Clone)]
pub struct PythonStandalone {
    pub install_dir: String,
}

/// The part of an asset's name that tells the platform it was built for;
/// `None` for a platform without a distribution.
pub open spec fn target_pattern_of(os: Seq<char>, arch: Seq<char>) -> Option<Seq<char>> {
    if os == "windows"@ && arch == "x86_64"@ {
        Some("x86_64-pc-windows-msvc-install_only"@)
    } else if os == "linux"@ && arch == "x86_64"@ {
        Some("x86_64-unknown-linux-gnu-install_only"@)
    } else if os == "macos"@ && arch == "x86_64"@ {
        Some("x86_64-apple-darwin-install_only"@)
    } else if os == "macos"@ && arch == "aarch64"@ {
        Some("aarch64-apple-darwin-install_only"@)
    } else {
        None
    }
}

/// The Python versions that are looked for, most wanted first.
pub open spec fn preferred_versions_of() -> Seq<Seq<char>> {
    seq!["3.11"@, "3.12"@, "3.10"@, "3.9"@]
}

/// An asset name fits a platform pattern and a version: it holds both and
/// ends as a gzip-compressed tar archive does.
pub open spec fn asset_matches(name: Seq<char>, pattern: Seq<char>, version: Seq<char>) -> bool {
    contains_seq(name, pattern) && contains_seq(name, version) && has_suffix(name, ".tar.gz"@)
}

/// The index of the first asset at or after `i` that fits, or the number of
/// assets where none does.
pub open spec fn first_match_from(
    names: Seq<Seq<char>>,
    pattern: Seq<char>,
    version: Seq<char>,
    i: int,
) -> int
    decreases names.len() - i,
{
    if 0 <= i < names.len() && !asset_matches(names[i], pattern, version) {
        first_match_from(names, pattern, version, i + 1)
    } else {
        i
    }
}

/// The chosen version and asset, by their indices, looking at the versions
/// from index `v` on: the first version that has a fitting asset, with the
/// first asset that fits it.
pub open spec fn selection_from(
    names: Seq<Seq<char>>,
    pattern: Seq<char>,
    versions: Seq<Seq<char>>,
    v: int,
) -> Option<(int, int)>
    decreases versions.len() - v,
{
    if v < 0 || v >= versions.len() {
        None
    } else {
        let a = first_match_from(names, pattern, versions[v], 0);
        if a < names.len() {
            Some((v, a))
        } else {
            selection_from(names, pattern, versions, v + 1)
        }
    }
}

/// The chosen version and asset over the whole list of versions.
pub open spec fn selection_of(
    names: Seq<Seq<char>>,
    pattern: Seq<char>,
    versions: Seq<Seq<char>>,
) -> Option<(int, int)> {
    selection_from(names, pattern, versions, 0)
}

proof fn lemma_first_match(
    names: Seq<Seq<char>>,
    pattern: Seq<char>,
    version: Seq<char>,
    i: int,
)
    requires
        0 <= i <= names.len(),
    ensures
        i <= first_match_from(names, pattern, version, i) <= names.len(),
        first_match_from(names, pattern, version, i) < names.len() ==> asset_matches(
            names[first_match_from(names, pattern, version, i)],
            pattern,
            version,
        ),
        forall|k: int|
            i <= k < first_match_from(names, pattern, version, i) ==> !asset_matches(
                #[trigger] names[k],
                pattern,
                version,
            ),
    decreases names.len() - i,
{
    if i < names.len() && !asset_matches(names[i], pattern, version) {
        lemma_first_match(names, pattern, version, i + 1);
    }
}

proof fn lemma_selection_from(
    names: Seq<Seq<char>>,
    pattern: Seq<char>,
    versions: Seq<Seq<char>>,
    v: int,
)
    requires
        0 <= v <= versions.len(),
    ensures
        match selection_from(names, pattern, versions, v) {
            Some((cv, ca)) => {
                &&& v <= cv < versions.len()
                &&& 0 <= ca < names.len()
                &&& asset_matches(names[ca], pattern, versions[cv])
                &&& forall|k: int|
                    0 <= k < ca ==> !asset_matches(
                        #[trigger] names[k],
                        pattern,
                        versions[cv],
                    )
                &&& forall|w: int, k: int|
                    v <= w < cv && 0 <= k < names.len() ==> !asset_matches(
                        #[trigger] names[k],
                        pattern,
                        #[trigger] versions[w],
                    )
            },
            None => forall|w: int, k: int|
                v <= w < versions.len() && 0 <= k < names.len() ==> !asset_matches(
                    #[trigger] names[k],
                    pattern,
                    #[trigger] versions[w],
                ),
        },
    decreases versions.len() - v,
{
    if v < versions.len() {
        lemma_first_match(names, pattern, versions[v], 0);
        let a = first_match_from(names, pattern, versions[v], 0);
        if a >= names.len() {
            lemma_selection_from(names, pattern, versions, v + 1);
        }
    }
}

/// The selection is the first in preference order: the chosen version is the
/// earliest in the list that any asset fits, the chosen asset is the earliest
/// that fits it, and nothing is chosen only where no asset fits any version.
/// Being a function of the two lists and the pattern, it is the same whenever
/// they are.
pub proof fn lemma_selection_is_first(
    names: Seq<Seq<char>>,
    pattern: Seq<char>,
    versions: Seq<Seq<char>>,
)
    ensures
        match selection_of(names, pattern, versions) {
            Some((cv, ca)) => {
                &&& 0 <= cv < versions.len()
                &&& 0 <= ca < names.len()
                &&& asset_matches(names[ca], pattern, versions[cv])
                &&& forall|k: int|
                    0 <= k < ca ==> !asset_matches(
                        #[trigger] names[k],
                        pattern,
                        versions[cv],
                    )
                &&& forall|w: int, k: int|
                    0 <= w < cv && 0 <= k < names.len() ==> !asset_matches(
                        #[trigger] names[k],
                        pattern,
                        #[trigger] versions[w],
                    )
            },
            None => forall|w: int, k: int|
                0 <= w < versions.len() && 0 <= k < names.len() ==> !asset_matches(
                    #[trigger] names[k],
                    pattern,
                    #[trigger] versions[w],
                ),
        },
{
    lemma_selection_from(names, pattern, versions, 0);
}

/// A platform has an asset pattern exactly where it is a supported pair.
pub proof fn lemma_pattern_iff_supported(os: Seq<char>, arch: Seq<char>)
    ensures
        target_pattern_of(os, arch) is Some <==> supported_pair(os, arch),
{
}

/// The address and the name of the asset to fetch, or the message of the
/// error that stands in their place.
pub type DownloadInfo = Result<(Seq<char>, Seq<char>), Seq<char>>;

/// `r` is the given download information: the same address and name, or a
/// configuration error with the same message.
pub open spec fn outcome_is(r: Result<(String, String), RezToolsError>, info: DownloadInfo) -> bool {
    match info {
        Ok((url, name)) => r is Ok && r->Ok_0.0@ == url && r->Ok_0.1@ == name,
        Err(message) => r is Err && r->Err_0.is_config(message),
    }
}

/// The best asset among those with the given names and addresses: the one
/// that the selection over the preferred versions gives. A chosen asset
/// without an address, and a release without a fitting asset, are errors.
pub open spec fn best_asset_of(
    names: Seq<Seq<char>>,
    urls: Seq<Option<Seq<char>>>,
    pattern: Seq<char>,
) -> DownloadInfo {
    match selection_of(names, pattern, preferred_versions_of()) {
        Some((cv, ca)) => if 0 <= ca < urls.len() && urls[ca] is Some {
            Ok((urls[ca]->0, names[ca]))
        } else {
            Err("No download URL found"@)
        },
        None => Err("No suitable Python Build Standalone found for pattern: "@ + pattern),
    }
}

/// The four supported pairs of operating system and architecture, as the
/// error for any other platform lists them.
pub open spec fn supported_pairs_text() -> Seq<char> {
    "windows/x86_64, linux/x86_64, macos/x86_64, macos/aarch64"@
}

/// The message of the error for a platform without a distribution: it names
/// the platform and lists the four pairs that are supported.
pub open spec fn unsupported_message(os: Seq<char>, arch: Seq<char>) -> Seq<char> {
    "Unsupported platform: "@ + os + "-"@ + arch + " (supported: "@ + supported_pairs_text()
        + ")"@
}

/// The error for an unsupported platform begins with the words
/// `Unsupported platform` and holds the list of the four supported pairs.
pub proof fn lemma_unsupported_message_lists_pairs(os: Seq<char>, arch: Seq<char>)
    ensures
        has_prefix(unsupported_message(os, arch), "Unsupported platform"@),
        contains_seq(unsupported_message(os, arch), supported_pairs_text()),
        contains_seq(unsupported_message(os, arch), os + "-"@ + arch),
{
    reveal_strlit("Unsupported platform: ");
    reveal_strlit("Unsupported platform");
    let m = unsupported_message(os, arch);
    let head = "Unsupported platform: "@;
    let named = os + "-"@ + arch;
    let lead = head + named + " (supported: "@;
    assert(m.subrange(0, "Unsupported platform"@.len() as int) =~= "Unsupported platform"@);
    assert(m.subrange(lead.len() as int, (lead.len() + supported_pairs_text().len()) as int)
        =~= supported_pairs_text());
    assert(occurs_at(m, supported_pairs_text(), lead.len() as int));
    assert(m.subrange(head.len() as int, (head.len() + named.len()) as int) =~= named);
    assert(occurs_at(m, named, head.len() as int));
}

/// The download information that a release index gives for a platform. In
/// this order, an index that is no JSON, a platform without a distribution,
/// an index without assets, and a release without a fitting asset are
/// errors.
pub open spec fn download_info_of(index: IndexView, os: Seq<char>, arch: Seq<char>) -> DownloadInfo {
    match index {
        IndexView::Invalid(why) => Err("Failed to parse JSON: "@ + why),
        IndexView::NoAssets => match target_pattern_of(os, arch) {
            Some(_) => Err("No assets found in release"@),
            None => Err(unsupported_message(os, arch)),
        },
        IndexView::Assets(entries) => match target_pattern_of(os, arch) {
            Some(pattern) => best_asset_of(entry_names(entries), entry_urls(entries), pattern),
            None => Err(unsupported_message(os, arch)),
        },
    }
}

/// The Python versions that are looked for, most wanted first.
pub fn preferred_versions() -> (v: Vec<String>)
    ensures
        string_views(v@) == preferred_versions_of(),
{
    let mut v: Vec<String> = Vec::new();
    v.push(String::from_str("3.11"));
    v.push(String::from_str("3.12"));
    v.push(String::from_str("3.10"));
    v.push(String::from_str("3.9"));
    assert(string_views(v@) =~= preferred_versions_of());
    v
}

/// Whether an asset name fits a platform pattern and a version.
pub fn name_matches(name: &str, pattern: &str, version: &str) -> (b: bool)
    ensures
        b == asset_matches(name@, pattern@, version@),
{
    let n = chars_of(name);
    let p = chars_of(pattern);
    let v = chars_of(version);
    let suffix = chars_of(".tar.gz");
    contains(&n, &p) && contains(&n, &v) && ends_with(&n, &suffix)
}

/// Selects an asset for a platform pattern from a release: the versions are
/// tried in the order given, and for each the assets are read in the order
/// given; the first asset that fits wins. The result is the index of the
/// version and the index of the asset.
pub fn select_asset(assets: &Vec<ReleaseAsset>, pattern: &str, versions: &Vec<String>) -> (r:
    Option<(usize, usize)>)
    ensures
        match r {
            Some((cv, ca)) => cv < versions@.len() && ca < assets@.len() && selection_of(
                asset_names(assets@),
                pattern@,
                string_views(versions@),
            ) == Some((cv as int, ca as int)),
            None => selection_of(asset_names(assets@), pattern@, string_views(versions@))
                is None,
        },
{
    let ghost vs = string_views(versions@);
    let ghost names = asset_names(assets@);
    proof {
        lemma_selection_is_first(names, pattern@, vs);
    }
    let mut v: usize = 0;
    while v < versions.len()
        invariant
            v <= versions@.len(),
            vs == string_views(versions@),
            names == asset_names(assets@),
            selection_from(names, pattern@, vs, v as int) == selection_of(names, pattern@, vs),
        decreases versions@.len() - v,
    {
        let version = versions[v].as_str();
        assert(vs[v as int] == version@);
        let mut a: usize = 0;
        while a < assets.len() && !name_matches(assets[a].name.as_str(), pattern, version)
            invariant
                a <= assets@.len(),
                names == asset_names(assets@),
                first_match_from(names, pattern@, version@, a as int) == first_match_from(
                    names,
                    pattern@,
                    version@,
                    0,
                ),
            decreases assets@.len() - a,
        {
            a += 1;
        }
        if a < assets.len() {
            return Some((v, a));
        }
        v += 1;
    }
    None
}

impl PythonStandalone {
    /// Create a new Python Build Standalone manager.
    pub fn new(install_dir: String) -> (s: PythonStandalone)
        ensures
            s.install_dir == install_dir,
    {
        PythonStandalone { install_dir }
    }

    /// Get the target pattern for a platform: the documented pattern for each
    /// of the four supported pairs, and for any other pair an error that
    /// names the pair and lists the four that are supported.
    pub fn get_target_pattern(&self, platform: &Platform) -> (r: Result<String, RezToolsError>)
        ensures
            match r {
                Ok(p) => target_pattern_of(platform.os@, platform.arch@) == Some(p@),
                Err(e) => target_pattern_of(platform.os@, platform.arch@) is None && e.is_config(
                    unsupported_message(platform.os@, platform.arch@),
                ),
            },
    {
        let os = platform.os.as_str();
        let arch = platform.arch.as_str();
        if str_eq(os, "windows") && str_eq(arch, "x86_64") {
            Ok(String::from_str("x86_64-pc-windows-msvc-install_only"))
        } else if str_eq(os, "linux") && str_eq(arch, "x86_64") {
            Ok(String::from_str("x86_64-unknown-linux-gnu-install_only"))
        } else if str_eq(os, "macos") && str_eq(arch, "x86_64") {
            Ok(String::from_str("x86_64-apple-darwin-install_only"))
        } else if str_eq(os, "macos") && str_eq(arch, "aarch64") {
            Ok(String::from_str("aarch64-apple-darwin-install_only"))
        } else {
            Err(
                RezToolsError::ConfigError(
                    String::from_str("Unsupported platform: ").concat(os).concat("-").concat(
                        arch,
                    ).concat(" (supported: ").concat(
                        "windows/x86_64, linux/x86_64, macos/x86_64, macos/aarch64",
                    ).concat(")"),
                ),
            )
        }
    }

    /// Find the best matching asset of a release: the address and the name
    /// of the asset that the selection over the preferred versions gives. A
    /// chosen asset without an address, and a release without a fitting
    /// asset, are errors.
    pub fn find_best_asset(&self, assets: &Vec<ReleaseAsset>, target_pattern: &str) -> (r: Result<
        (String, String),
        RezToolsError,
    >)
        ensures
            outcome_is(
                r,
                best_asset_of(asset_names(assets@), asset_urls(assets@), target_pattern@),
            ),
    {
        let versions = preferred_versions();
        let chosen = select_asset(assets, target_pattern, &versions);
        match chosen {
            Some((v, a)) => {
                let asset = &assets[a];
                assert(selection_of(
                    asset_names(assets@),
                    target_pattern@,
                    preferred_versions_of(),
                ) == Some((v as int, a as int)));
                match &asset.download_url {
                    Some(url) => Ok((url.clone(), asset.name.clone())),
                    None => Err(
                        RezToolsError::ConfigError(String::from_str("No download URL found")),
                    ),
                }
            },
            None => Err(
                RezToolsError::ConfigError(
                    String::from_str(
                        "No suitable Python Build Standalone found for pattern: ",
                    ).concat(target_pattern),
                ),
            ),
        }
    }
    /// Get download information for a platform from a release index: the
    /// address and the name of the asset to fetch. In this order, an index
    /// that is no JSON, a platform without a distribution, an index without
    /// assets, and a release without a fitting asset are errors.
    pub fn get_download_info(&self, platform: &Platform, index: ReleaseIndex) -> (r: Result<
        (String, String),
        RezToolsError,
    >)
        ensures
            outcome_is(r, download_info_of(index@, platform.os@, platform.arch@)),
    {
        match index {
            ReleaseIndex::Invalid(why) => Err(
                RezToolsError::ConfigError(
                    String::from_str("Failed to parse JSON: ").concat(why.as_str()),
                ),
            ),
            ReleaseIndex::NoAssets => {
                let pattern = self.get_target_pattern(platform)?;
                Err(RezToolsError::ConfigError(String::from_str("No assets found in release")))
            },
            ReleaseIndex::Assets(entries) => {
                let pattern = self.get_target_pattern(platform)?;
                let assets = assets_of_entries(entries);
                self.find_best_asset(&assets, pattern.as_str())
            },
        }
    }

    /// Reads a release index as it was downloaded and gets the download
    /// information for a platform from it.
    pub fn get_download_info_from_bytes(&self, platform: &Platform, bytes: &[u8]) -> (r: Result<
        (String, String),
        RezToolsError,
    >)
        ensures
            outcome_is(
                r,
                download_info_of(release_index_of(bytes@), platform.os@, platform.arch@),
            ),
    {
        let index = read_release_index(bytes);
        self.get_download_info(platform, index)
    }

    /// Recursively search for the Python executable below `dir`, with a
    /// depth limit. Nothing found within the limit is an error.
    pub fn search_python_executable_limited(
        &self,
        dir: &DirNode,
        platform: &Platform,
        current_depth: usize,
        max_depth: usize,
    ) -> (r: Result<String, RezToolsError>)
        ensures
            match search_in(
                *dir,
                default_rules_of(platform.os@ == "windows"@),
                current_depth as nat,
                max_depth as nat,
            ) {
                Some(p) => r is Ok && r->Ok_0@ == p,
                None => r is Err && r->Err_0.is_config(
                    "Python executable not found in extracted archive"@,
                ),
            },
    {
        let rules = SearchRules::for_os(platform.is_windows());
        match search_tree(dir, &rules, current_depth, max_depth) {
            Some(p) => Ok(p),
            None => Err(
                RezToolsError::ConfigError(
                    String::from_str("Python executable not found in extracted archive"),
                ),
            ),
        }
    }

    /// Find the Python executable of an installation: the first of the
    /// conventional places that exists, and where none does, what the walk
    /// of the installation tree to the default depth gives.
    pub fn find_python_executable(
        &self,
        places: &Vec<ProbedPath>,
        tree: &DirNode,
        platform: &Platform,
    ) -> (r: Result<String, RezToolsError>)
        ensures
            if first_existing_from(places@, 0) < places@.len() {
                r is Ok && r->Ok_0@ == places@[first_existing_from(places@, 0)].path@
            } else {
                match search_in(*tree, default_rules_of(platform.os@ == "windows"@), 0, 3) {
                    Some(p) => r is Ok && r->Ok_0@ == p,
                    None => r is Err && r->Err_0.is_config(
                        "Python executable not found in extracted archive"@,
                    ),
                }
            },
    {
        match first_existing(places) {
            Some(p) => Ok(p),
            None => self.search_python_executable_limited(tree, platform, 0, DEFAULT_MAX_DEPTH),
        }
    }

    /// Check if Python Build Standalone is already installed: its directory
    /// exists, an executable is found in it, and that executable exists.
    pub fn is_installed(
        &self,
        python_dir_exists: bool,
        located: &Result<String, RezToolsError>,
        located_exists: bool,
    ) -> (b: bool)
        ensures
            b == (python_dir_exists && located is Ok && located_exists),
    {
        python_dir_exists && located.is_ok() && located_exists
    }

    /// Get the path to the installed Python executable; an installation
    /// whose directory is missing is an error.
    pub fn get_python_executable(
        &self,
        python_dir_exists: bool,
        places: &Vec<ProbedPath>,
        tree: &DirNode,
        platform: &Platform,
    ) -> (r: Result<String, RezToolsError>)
        ensures
            if !python_dir_exists {
                r is Err && r->Err_0.is_config("Python Build Standalone not installed"@)
            } else if first_existing_from(places@, 0) < places@.len() {
                r is Ok && r->Ok_0@ == places@[first_existing_from(places@, 0)].path@
            } else {
                match search_in(*tree, default_rules_of(platform.os@ == "windows"@), 0, 3) {
                    Some(p) => r is Ok && r->Ok_0@ == p,
                    None => r is Err && r->Err_0.is_config(
                        "Python executable not found in extracted archive"@,
                    ),
                }
            },
    {
        if !python_dir_exists {
            return Err(
                RezToolsError::ConfigError(
                    String::from_str("Python Build Standalone not installed"),
                ),
            );
        }
        self.find_python_executable(places, tree, platform)
    }
}

} // verus!
