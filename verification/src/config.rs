//! Bundle configuration: the immutable value every bundler reads. Paths
//! arrive already resolved by the external loader; this module derives the
//! bundle, install and shim directories from them.
use vstd::prelude::*;

use crate::paths::{join_path, spec_join};
use crate::schedule::BundlerId;

verus! {

/// An ordered list of version strings for one tool; each entry is
/// installed independently.
pub type VersionSet = Vec<String>;

/// Configured runtime versions, one set per supported tool.
#[derive(Clone, Debug)]
pub struct VMRuntime {
    /// Versions of the CSS tool.
    pub tailwindcss: VersionSet,
    /// Versions of the JavaScript runtime.
    pub nodejs: VersionSet,
}

/// Version-manager section of the bundle configuration.
#[derive(Clone, Debug)]
pub struct VMConfig {
    /// All configured runtime versions.
    pub runtime: VMRuntime,
}

/// Registration unit for the configuration bundler: during setup it adds
/// the user's configuration file as a source, before any apply or clean
/// work begins.
pub struct BundleConfigPlugin;

impl BundleConfigPlugin {
    pub fn bundler_id() -> (r: BundlerId)
        ensures
            r == BundlerId::Config,
    {
        BundlerId::Config
    }
}

/// General configuration paths shared across features.
pub struct Config;

impl Config {
    /// The tool's own directory under the platform data root.
    pub fn config_dir(data_root: &str) -> (r: String)
        ensures
            r@ == spec_join(data_root@, "dip"@),
    {
        join_path(data_root, "dip")
    }
}

/// Bundle-feature configuration, shared read-only with every bundler.
#[derive(Clone, Debug)]
pub struct BundleConfig {
    /// URL of the remote bundle repository, when one is configured.
    pub repository: Option<String>,
    /// Directory containing one subdirectory per dotfile package.
    bundle_root: String,
    /// Version-manager section.
    vm: VMConfig,
    /// Root under which installs and shims are derived.
    data_dir: String,
}

impl BundleConfig {
    pub closed spec fn spec_repository(&self) -> Option<String> {
        self.repository
    }

    pub closed spec fn spec_bundle_root(&self) -> Seq<char> {
        self.bundle_root@
    }

    pub closed spec fn spec_data_dir(&self) -> Seq<char> {
        self.data_dir@
    }

    pub closed spec fn spec_nodejs_versions(&self) -> Seq<String> {
        self.vm.runtime.nodejs@
    }

    pub closed spec fn spec_tailwindcss_versions(&self) -> Seq<String> {
        self.vm.runtime.tailwindcss@
    }

    pub fn new(repository: Option<String>, bundle_root: String, data_dir: String, vm: VMConfig) -> (c:
        BundleConfig)
        ensures
            c.spec_repository() == repository,
            c.spec_bundle_root() == bundle_root@,
            c.spec_data_dir() == data_dir@,
            c.spec_nodejs_versions() == vm.runtime.nodejs@,
            c.spec_tailwindcss_versions() == vm.runtime.tailwindcss@,
    {
        BundleConfig { repository, bundle_root, vm, data_dir }
    }

    /// The configuration file's path under the given configuration
    /// directory.
    pub fn config_file_path(config_dir: &str) -> (r: String)
        ensures
            r@ == spec_join(config_dir@, "bundle.toml"@),
    {
        join_path(config_dir, "bundle.toml")
    }

    /// Directory holding the user's dotfile packages.
    pub fn bundle_root(&self) -> (r: String)
        ensures
            r@ == self.spec_bundle_root(),
    {
        self.bundle_root.clone()
    }

    /// Root of the extracted runtime trees, derived from the data
    /// directory.
    pub fn install_root(&self) -> (r: String)
        ensures
            r@ == spec_join(self.spec_data_dir(), "installs"@),
    {
        join_path(self.data_dir.as_str(), "installs")
    }

    /// Directory of the generated shim executables, derived from the data
    /// directory.
    pub fn shim_root(&self) -> (r: String)
        ensures
            r@ == spec_join(self.spec_data_dir(), "shims"@),
    {
        join_path(self.data_dir.as_str(), "shims")
    }

    /// Point the configuration at another bundle directory. The path
    /// arrives already resolved by the external loader.
    pub fn set_bundle_root(&mut self, bundle_root: &String)
        ensures
            final(self).spec_bundle_root() == bundle_root@,
            final(self).spec_data_dir() == old(self).spec_data_dir(),
            final(self).spec_repository() == old(self).spec_repository(),
            final(self).spec_nodejs_versions() == old(self).spec_nodejs_versions(),
            final(self).spec_tailwindcss_versions() == old(self).spec_tailwindcss_versions(),
    {
        self.bundle_root = bundle_root.clone();
    }

    /// Read access to the configured runtime versions.
    pub fn runtime(&self) -> (r: &VMRuntime)
        ensures
            r.nodejs@ == self.spec_nodejs_versions(),
            r.tailwindcss@ == self.spec_tailwindcss_versions(),
    {
        &self.vm.runtime
    }
}

} // verus!
