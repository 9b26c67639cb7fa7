//! Reference version manager: installs pinned versions of the JavaScript
//! runtime. It resolves per-platform archive names and download URLs,
//! classifies the download response, plans the extract-and-rename step that
//! keys the install tree by bare version, and gates shim writing on which
//! executables the extracted tree actually ships. The download itself, the
//! archive unpacking and every file write happen at the edge.
use vstd::prelude::*;

use crate::config::BundleConfig;
use crate::paths::spec_join;
use crate::platform::{Os, Platform};
use crate::schedule::BundlerId;

verus! {

/// Registration unit for the runtime installer in the staged pipeline.
pub struct NodeJSPlugin;

impl NodeJSPlugin {
    pub fn bundler_id() -> (r: BundlerId)
        ensures
            r == BundlerId::NodeJS,
    {
        BundlerId::NodeJS
    }
}

/// Why one version's install or shim step failed.
#[derive(Clone, Copy, PartialEq, Eq, Structural, Debug)]
pub enum VmError {
    /// The download could not connect at all.
    ConnectionFailed,
    /// The download URL answered "not found": most likely a version typo.
    NotFound,
    /// The download answered some other non-success status.
    DownloadFailed,
    /// The platform's archive format is not supported yet.
    UnsupportedPlatform,
}

impl VmError {
    /// A short report label for the failure; the caller formats the full
    /// line around it.
    pub fn label(&self) -> (r: &'static str)
        ensures
            self is ConnectionFailed ==> r@ == "Failed to download. Check internet connection."@,
            self is NotFound ==> r@ == "Download URL not found"@,
            self is DownloadFailed ==> r@ == "Fail to download binary"@,
            self is UnsupportedPlatform ==> r@ == "Archive format is not supported on this platform"@,
    {
        match self {
            VmError::ConnectionFailed => "Failed to download. Check internet connection.",
            VmError::NotFound => "Download URL not found",
            VmError::DownloadFailed => "Fail to download binary",
            VmError::UnsupportedPlatform => "Archive format is not supported on this platform",
        }
    }
}

/// What the blocking download attempt came back with.
#[derive(Clone, Copy, PartialEq, Eq, Structural, Debug)]
pub enum DownloadEvent {
    /// No connection could be made; there is no status to inspect.
    ConnectionFailed,
    /// A response arrived with this status code.
    Response(u16),
}

/// The file-system work left after a successful download: unpack the
/// archive into the install root, then rename the platform-named top-level
/// directory to the bare version string.
#[derive(Debug)]
pub struct InstallWork {
    /// Directory the archive is unpacked into.
    pub unpack_into: String,
    /// The extracted top-level directory, named after the archive.
    pub rename_from: String,
    /// Its final name: the install root keyed by bare version.
    pub rename_to: String,
}

/// The runtime installer: identity, platform tokens and read access to the
/// shared configuration.
pub struct NodeJS {
    bundle_config: BundleConfig,
    platform: Platform,
}

impl NodeJS {
    pub closed spec fn spec_config(&self) -> BundleConfig {
        self.bundle_config
    }

    pub closed spec fn spec_platform(&self) -> Platform {
        self.platform
    }

    pub fn new(bundle_config: BundleConfig, platform: Platform) -> (vm: NodeJS)
        ensures
            vm.spec_config() == bundle_config,
            vm.spec_platform() == platform,
    {
        NodeJS { bundle_config, platform }
    }

    /// Stable machine-facing identifier.
    pub fn key() -> (r: &'static str)
        ensures
            r@ == "nodejs"@,
    {
        "nodejs"
    }

    /// Human-facing display name.
    pub fn name() -> (r: &'static str)
        ensures
            r@ == "Node.js"@,
    {
        "Node.js"
    }

    pub fn bundle_config(&self) -> (r: &BundleConfig)
        ensures
            *r == self.spec_config(),
    {
        &self.bundle_config
    }

    /// The versions configured for this tool; an empty list means
    /// "install nothing".
    pub fn versions(&self) -> (r: &Vec<String>)
        ensures
            r@ == self.spec_config().spec_nodejs_versions(),
    {
        &self.bundle_config.runtime().nodejs
    }

    /// The release archive's name for `v`, without its extension.
    pub open spec fn spec_file_name_without_ext(&self, v: Seq<char>) -> Seq<char> {
        "node-v"@ + v + "-"@ + self.spec_platform().spec_name() + "-"@
            + self.spec_platform().spec_arch()
    }

    pub fn file_name_without_ext(&self, version: &String) -> (r: String)
        ensures
            r@ == self.spec_file_name_without_ext(version@),
    {
        let mut s = String::from_str("node-v");
        s.append(version.as_str());
        s.append("-");
        s.append(self.platform.name());
        s.append("-");
        s.append(self.platform.arch());
        proof {
            assert(s@ =~= self.spec_file_name_without_ext(version@));
        }
        s
    }

    /// The release archive's full name for `v`.
    pub open spec fn spec_file_name(&self, v: Seq<char>) -> Seq<char> {
        self.spec_file_name_without_ext(v) + self.spec_platform().spec_archive_ext()
    }

    pub fn file_name(&self, version: &String) -> (r: String)
        ensures
            r@ == self.spec_file_name(version@),
    {
        let mut s = self.file_name_without_ext(version);
        s.append(self.platform.archive_ext());
        s
    }

    /// The upstream URL the archive for `v` is downloaded from: a pure
    /// function of version and platform, no I/O.
    pub open spec fn spec_download_url(&self, v: Seq<char>) -> Seq<char> {
        "https://nodejs.org/dist/v"@ + v + "/"@ + self.spec_file_name(v)
    }

    pub fn download_url(&self, version: &String) -> (r: String)
        ensures
            r@ == self.spec_download_url(version@),
    {
        let mut s = String::from_str("https://nodejs.org/dist/v");
        s.append(version.as_str());
        s.append("/");
        let file_name = self.file_name(version);
        s.append(file_name.as_str());
        proof {
            assert(s@ =~= self.spec_download_url(version@));
        }
        s
    }

    /// Root of this tool's extracted version trees.
    pub fn installs_dir(&self) -> (r: String)
        ensures
            r@ == spec_join(self.spec_config().spec_data_dir(), "installs"@),
    {
        self.bundle_config.install_root()
    }

    /// Directory of the generated shims.
    pub fn shims_dir(&self) -> (r: String)
        ensures
            r@ == spec_join(self.spec_config().spec_data_dir(), "shims"@),
    {
        self.bundle_config.shim_root()
    }

    /// The install tree of one version, keyed by the bare version string.
    pub open spec fn spec_version_dir(&self, v: Seq<char>) -> Seq<char> {
        spec_join(spec_join(self.spec_config().spec_data_dir(), "installs"@), v)
    }

    pub fn version_dir(&self, version: &String) -> (r: String)
        ensures
            r@ == self.spec_version_dir(version@),
    {
        let root = self.bundle_config.install_root();
        crate::paths::join_path(root.as_str(), version.as_str())
    }

    /// Whether a version's install should run at all. Re-downloading an
    /// already-installed version is refresh behavior, so it is explicit:
    /// a version is fetched when a refresh is asked for, or when its
    /// install directory does not exist yet.
    pub fn install_needed(&self, already_installed: bool, refresh: bool) -> (r: bool)
        ensures
            r == (refresh || !already_installed),
    {
        refresh || !already_installed
    }

    /// Decide one version's install from the download's outcome. A missing
    /// connection, a "not found" answer and any other non-success status
    /// are distinguished; success on a platform whose archive format is
    /// supported yields the exact unpack-and-rename work, so that the
    /// version directory is stable across the platform-specific archive
    /// naming.
    pub fn install_outcome(&self, version: &String, event: DownloadEvent) -> (r: Result<
        InstallWork,
        VmError,
    >)
        ensures
            match event {
                DownloadEvent::ConnectionFailed => r == Err::<InstallWork, VmError>(
                    VmError::ConnectionFailed,
                ),
                DownloadEvent::Response(status) => {
                    if status == 404 {
                        r == Err::<InstallWork, VmError>(VmError::NotFound)
                    } else if status != 200 {
                        r == Err::<InstallWork, VmError>(VmError::DownloadFailed)
                    } else if self.spec_platform().os is Windows {
                        r == Err::<InstallWork, VmError>(VmError::UnsupportedPlatform)
                    } else {
                        r matches Ok(w) && w.unpack_into@ == spec_join(
                            self.spec_config().spec_data_dir(),
                            "installs"@,
                        ) && w.rename_from@ == spec_join(
                            spec_join(self.spec_config().spec_data_dir(), "installs"@),
                            self.spec_file_name_without_ext(version@),
                        ) && w.rename_to@ == self.spec_version_dir(version@)
                    }
                },
            },
    {
        match event {
            DownloadEvent::ConnectionFailed => Err(VmError::ConnectionFailed),
            DownloadEvent::Response(status) => {
                if status == 404 {
                    Err(VmError::NotFound)
                } else if status != 200 {
                    Err(VmError::DownloadFailed)
                } else if matches!(self.platform.os, Os::Windows) {
                    Err(VmError::UnsupportedPlatform)
                } else {
                    let unpack_into = self.installs_dir();
                    let extracted = self.file_name_without_ext(version);
                    let rename_from = crate::paths::join_path(
                        unpack_into.as_str(),
                        extracted.as_str(),
                    );
                    let rename_to = self.version_dir(version);
                    Ok(InstallWork { unpack_into, rename_from, rename_to })
                }
            },
        }
    }
    /// One download per configured version, in configured order: each
    /// entry pairs a version with its archive URL. The caller performs
    /// them independently, continuing past a failed version, so that one
    /// missing release cannot block installing another.
    pub fn install_plan(&self) -> (r: Vec<(String, String)>)
        ensures
            r@.len() == self.spec_config().spec_nodejs_versions().len(),
            forall|i: int|
                0 <= i < r@.len() ==> r@[i].0@ == self.spec_config().spec_nodejs_versions()[i]@
                    && r@[i].1@ == self.spec_download_url(
                    self.spec_config().spec_nodejs_versions()[i]@,
                ),
    {
        let versions = self.versions();
        let mut out: Vec<(String, String)> = Vec::new();
        let mut idx: usize = 0;
        while idx < versions.len()
            invariant
                idx <= versions@.len(),
                out@.len() == idx,
                versions@ == self.spec_config().spec_nodejs_versions(),
                forall|i: int|
                    0 <= i < idx ==> out@[i].0@ == self.spec_config().spec_nodejs_versions()[i]@
                        && out@[i].1@ == self.spec_download_url(
                        self.spec_config().spec_nodejs_versions()[i]@,
                    ),
            decreases versions@.len() - idx,
        {
            let url = self.download_url(&versions[idx]);
            out.push((versions[idx].clone(), url));
            idx = idx + 1;
        }
        out
    }

    /// The fixed set of executable names this tool exposes through shims.
    pub open spec fn spec_list_shims() -> Seq<Seq<char>> {
        seq!["corepack"@, "node"@, "npm"@, "npx"@]
    }

    pub fn list_shims() -> (r: Vec<&'static str>)
        ensures
            r@.len() == Self::spec_list_shims().len(),
            forall|i: int| 0 <= i < r@.len() ==> r@[i]@ == Self::spec_list_shims()[i],
    {
        let mut v: Vec<&'static str> = Vec::new();
        v.push("corepack");
        v.push("node");
        v.push("npm");
        v.push("npx");
        v
    }

    /// The shim file's text: a shell script that execs the versioned
    /// binary, passing its own arguments through.
    pub open spec fn spec_shim_content(bin_path: Seq<char>) -> Seq<char> {
        "#!/bin/sh\nexec \""@ + bin_path + "\" \"$@\"\n"@
    }

    pub fn format_shim(bin_path: &String) -> (r: String)
        ensures
            r@ == Self::spec_shim_content(bin_path@),
    {
        let mut s = String::from_str("#!/bin/sh\nexec \"");
        s.append(bin_path.as_str());
        s.append("\" \"$@\"\n");
        proof {
            assert(s@ =~= Self::spec_shim_content(bin_path@));
        }
        s
    }

    /// Where the version's own copy of the `i`th shimmed executable lives.
    pub open spec fn spec_bin_path(&self, v: Seq<char>, i: int) -> Seq<char> {
        spec_join(spec_join(self.spec_version_dir(v), "bin"@), Self::spec_list_shims()[i])
    }

    /// Where the `i`th shim file is written.
    pub open spec fn spec_shim_path(&self, i: int) -> Seq<char> {
        spec_join(
            spec_join(self.spec_config().spec_data_dir(), "shims"@),
            Self::spec_list_shims()[i],
        )
    }

    /// Plan the shim writes for one installed version. `present[i]` says
    /// whether the version's binary directory actually ships the `i`th
    /// executable name: a shim is planned exactly for the names present,
    /// and an absent binary is passed over silently, not errored.
    pub fn shim_plan(&self, version: &String, present: &Vec<bool>) -> (r: Vec<Option<ShimWrite>>)
        requires
            present@.len() == Self::spec_list_shims().len(),
        ensures
            r@.len() == Self::spec_list_shims().len(),
            forall|i: int|
                0 <= i < r@.len() ==> if present@[i] {
                    r@[i] matches Some(w) && w.bin_path@ == self.spec_bin_path(version@, i)
                        && w.shim_path@ == self.spec_shim_path(i) && w.content@
                        == Self::spec_shim_content(self.spec_bin_path(version@, i))
                } else {
                    r@[i] is None
                },
    {
        let names = Self::list_shims();
        let version_dir = self.version_dir(version);
        let bin_dir = crate::paths::join_path(version_dir.as_str(), "bin");
        let shims_dir = self.shims_dir();
        let mut out: Vec<Option<ShimWrite>> = Vec::new();
        let mut idx: usize = 0;
        while idx < names.len()
            invariant
                idx <= names@.len(),
                out@.len() == idx,
                present@.len() == Self::spec_list_shims().len(),
                names@.len() == Self::spec_list_shims().len(),
                forall|i: int| 0 <= i < names@.len() ==> names@[i]@ == Self::spec_list_shims()[i],
                bin_dir@ == spec_join(self.spec_version_dir(version@), "bin"@),
                shims_dir@ == spec_join(self.spec_config().spec_data_dir(), "shims"@),
                forall|i: int|
                    0 <= i < idx ==> if present@[i] {
                        out@[i] matches Some(w) && w.bin_path@ == self.spec_bin_path(version@, i)
                            && w.shim_path@ == self.spec_shim_path(i) && w.content@
                            == Self::spec_shim_content(self.spec_bin_path(version@, i))
                    } else {
                        out@[i] is None
                    },
            decreases names@.len() - idx,
        {
            if present[idx] {
                let bin_path = crate::paths::join_path(bin_dir.as_str(), names[idx]);
                let shim_path = crate::paths::join_path(shims_dir.as_str(), names[idx]);
                let content = Self::format_shim(&bin_path);
                out.push(Some(ShimWrite { bin_path, shim_path, content }));
            } else {
                out.push(None);
            }
            idx = idx + 1;
        }
        out
    }

    /// The shim files this tool is responsible for, one per shimmed name.
    pub fn shim_paths(&self) -> (r: Vec<String>)
        ensures
            r@.len() == Self::spec_list_shims().len(),
            forall|i: int| 0 <= i < r@.len() ==> r@[i]@ == self.spec_shim_path(i),
    {
        let names = Self::list_shims();
        let shims_dir = self.shims_dir();
        let mut out: Vec<String> = Vec::new();
        let mut idx: usize = 0;
        while idx < names.len()
            invariant
                idx <= names@.len(),
                out@.len() == idx,
                names@.len() == Self::spec_list_shims().len(),
                forall|i: int| 0 <= i < names@.len() ==> names@[i]@ == Self::spec_list_shims()[i],
                shims_dir@ == spec_join(self.spec_config().spec_data_dir(), "shims"@),
                forall|i: int| 0 <= i < idx ==> out@[i]@ == self.spec_shim_path(i),
            decreases names@.len() - idx,
        {
            let p = crate::paths::join_path(shims_dir.as_str(), names[idx]);
            out.push(p);
            idx = idx + 1;
        }
        out
    }

    /// Plan the shim removals: exactly the shim files that currently
    /// exist, so that removing a shim that does not exist is no error.
    pub fn removal_plan(&self, present: &Vec<bool>) -> (r: Vec<Option<String>>)
        requires
            present@.len() == Self::spec_list_shims().len(),
        ensures
            r@.len() == Self::spec_list_shims().len(),
            forall|i: int|
                0 <= i < r@.len() ==> if present@[i] {
                    r@[i] matches Some(p) && p@ == self.spec_shim_path(i)
                } else {
                    r@[i] is None
                },
    {
        let paths = self.shim_paths();
        let mut out: Vec<Option<String>> = Vec::new();
        let mut idx: usize = 0;
        while idx < paths.len()
            invariant
                idx <= paths@.len(),
                out@.len() == idx,
                present@.len() == Self::spec_list_shims().len(),
                paths@.len() == Self::spec_list_shims().len(),
                forall|i: int| 0 <= i < paths@.len() ==> paths@[i]@ == self.spec_shim_path(i),
                forall|i: int|
                    0 <= i < idx ==> if present@[i] {
                        out@[i] matches Some(p) && p@ == self.spec_shim_path(i)
                    } else {
                        out@[i] is None
                    },
            decreases paths@.len() - idx,
        {
            if present[idx] {
                out.push(Some(paths[idx].clone()));
            } else {
                out.push(None);
            }
            idx = idx + 1;
        }
        out
    }
}

/// One planned shim write: the versioned binary it delegates to, the shim
/// file's location, and the shim file's text. The file must be made
/// owner-executable when written.
#[derive(Debug)]
pub struct ShimWrite {
    pub bin_path: String,
    pub shim_path: String,
    pub content: String,
}

} // verus!
