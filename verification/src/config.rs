//! The resolved run configuration: which toolchains to fetch, from which
//! distribution server, and which auxiliary tools to merge in.

use vstd::prelude::*;

verus! {

/// A fully-resolved toolchain descriptor. These always have full target
/// triples attached to them and are used for canonical identification,
/// such as naming their installation directory.
///
/// As strings they look like `stable-x86_64-pc-windows-msvc` or
/// `nightly-2023-06-14-x86_64-unknown-linux-gnu`.
#[derive(Clone)]
pub struct TargetSelection {
    pub target: String,
    pub channel: String,
    pub date: Option<String>,
    /// possible values: minimal, default, complete
    pub profile: Option<String>,
}

/// An auxiliary tool installed alongside the main toolchain and merged
/// into its package tree.
#[derive(Clone)]
pub struct ExtendTool {
    pub name: String,
    pub version: Option<String>,
}

/// The contents of the declarative config file, before the
/// process-environment overrides are applied.
#[derive(Clone)]
pub struct YamlConfig {
    pub rustup_dist_server: Option<String>,
    pub rustup_update_root: Option<String>,
    /// toolchains to install or package
    pub targets: Vec<TargetSelection>,
    /// extra tools to install or merge in
    pub extra_tools: Vec<ExtendTool>,
}

/// The configuration a run works from, with server roots fully resolved.
#[derive(Clone)]
pub struct Config {
    pub rustup_dist_server: String,
    pub rustup_update_root: String,
    pub target_selections: Vec<TargetSelection>,
    pub extra_tools: Vec<ExtendTool>,
}

/// The distribution-server root used when the config file names none.
pub fn default_rustup_dist_server() -> (r: &'static str)
    ensures
        r@ == "https://static.rust-lang.org"@,
{
    "https://static.rust-lang.org"
}

/// The update-root URL used when the config file names none.
pub fn default_rustup_update_root() -> (r: &'static str)
    ensures
        r@ == "https://static.rust-lang.org/rustup"@,
{
    "https://static.rust-lang.org/rustup"
}

/// How one server root is resolved: an environment override beats the
/// config file's value, which beats the built-in default.
pub open spec fn spec_resolved_root(
    yaml: Option<Seq<char>>,
    env: Option<Seq<char>>,
    default: Seq<char>,
) -> Seq<char> {
    match env {
        Some(from_env) => from_env,
        None => match yaml {
            Some(from_file) => from_file,
            None => default,
        },
    }
}

fn resolve_root(yaml: Option<String>, env: Option<String>, default: &'static str) -> (r: String)
    ensures
        r@ == spec_resolved_root(
            match yaml {
                Some(ref s) => Some(s@),
                None => None,
            },
            match env {
                Some(ref s) => Some(s@),
                None => None,
            },
            default@,
        ),
{
    match env {
        Some(from_env) => from_env,
        None => match yaml {
            Some(from_file) => from_file,
            None => default.to_owned(),
        },
    }
}

impl Config {
    /// Resolves the final configuration from the parsed config file and the
    /// process-environment overrides, which the caller reads once at startup.
    pub fn resolve(
        yaml: YamlConfig,
        env_dist_server: Option<String>,
        env_update_root: Option<String>,
    ) -> (r: Config)
        ensures
            r.rustup_dist_server@ == spec_resolved_root(
                match yaml.rustup_dist_server {
                    Some(s) => Some(s@),
                    None => None,
                },
                match env_dist_server {
                    Some(ref s) => Some(s@),
                    None => None,
                },
                "https://static.rust-lang.org"@,
            ),
            r.rustup_update_root@ == spec_resolved_root(
                match yaml.rustup_update_root {
                    Some(s) => Some(s@),
                    None => None,
                },
                match env_update_root {
                    Some(ref s) => Some(s@),
                    None => None,
                },
                "https://static.rust-lang.org/rustup"@,
            ),
            r.target_selections == yaml.targets,
            r.extra_tools == yaml.extra_tools,
    {
        let YamlConfig { rustup_dist_server, rustup_update_root, targets, extra_tools } = yaml;
        Config {
            rustup_dist_server: resolve_root(
                rustup_dist_server,
                env_dist_server,
                default_rustup_dist_server(),
            ),
            rustup_update_root: resolve_root(
                rustup_update_root,
                env_update_root,
                default_rustup_update_root(),
            ),
            target_selections: targets,
            extra_tools: extra_tools,
        }
    }
}

impl TargetSelection {
    /// The v1 release-manifest URL for this selection.
    ///
    /// A selection without a pinned date has no staged manifest, so that
    /// combination is left out.
    pub open spec fn spec_mainifest_v1_url(
        &self,
        dist_root: Seq<char>,
        staged: bool,
    ) -> Seq<char> {
        if staged {
            dist_root + "/staging/channel-rust-"@ + self.channel@
        } else {
            match self.date {
                Some(date) => dist_root + "/"@ + date@ + "/channel-rust-"@ + self.channel@,
                None => dist_root + "/channel-rust-"@ + self.channel@,
            }
        }
    }

    /// Resolves the v1 release-manifest URL from the distribution root and
    /// the staged-manifest flag, which the caller reads once at startup.
    pub fn mainifest_v1_url(&self, dist_root: &str, staged: bool) -> (r: String)
        requires
            staged ==> self.date is Some,
        ensures
            r@ == self.spec_mainifest_v1_url(dist_root@, staged),
    {
        let mut url = dist_root.to_owned();
        if staged {
            url.append("/staging/channel-rust-");
            url.append(self.channel.as_str());
        } else {
            match self.date {
                Some(ref date) => {
                    url.append("/");
                    url.append(date.as_str());
                    url.append("/channel-rust-");
                    url.append(self.channel.as_str());
                }
                None => {
                    url.append("/channel-rust-");
                    url.append(self.channel.as_str());
                }
            }
        }
        url
    }

    /// The v2 release-manifest URL: the v1 URL with a `.toml` suffix.
    pub fn mainifest_v2_url(&self, dist_root: &str, staged: bool) -> (r: String)
        requires
            staged ==> self.date is Some,
        ensures
            r@ == self.spec_mainifest_v1_url(dist_root@, staged) + ".toml"@,
    {
        let mut url = self.mainifest_v1_url(dist_root, staged);
        url.append(".toml");
        url
    }

    /// The canonical name of this selection's toolchain:
    /// `<channel>-<date>-<target>`, or `<channel>-<target>` without a date.
    pub open spec fn spec_toolchain_name(&self) -> Seq<char> {
        match self.date {
            Some(date) => self.channel@ + "-"@ + date@ + "-"@ + self.target@,
            None => self.channel@ + "-"@ + self.target@,
        }
    }

    /// Renders the canonical toolchain name of this selection.
    pub fn toolchain_name(&self) -> (r: String)
        ensures
            r@ == self.spec_toolchain_name(),
    {
        let mut name = self.channel.clone();
        name.append("-");
        match self.date {
            Some(ref date) => {
                name.append(date.as_str());
                name.append("-");
                name.append(self.target.as_str());
            }
            None => {
                name.append(self.target.as_str());
            }
        }
        name
    }

    /// The directory of the distribution server that holds this selection's
    /// archive: the root itself, or `<root>/dist/<date>` for a pinned date.
    pub open spec fn spec_package_dir(&self, dist_root: Seq<char>) -> Seq<char> {
        match self.date {
            Some(date) => dist_root + "/dist/"@ + date@,
            None => dist_root,
        }
    }

    /// Resolves the download directory on the distribution server for this
    /// selection.
    pub fn package_dir(&self, dist_root: &String) -> (r: String)
        ensures
            r@ == self.spec_package_dir(dist_root@),
    {
        match self.date {
            Some(ref date) => {
                let mut dir = dist_root.clone();
                dir.append("/dist/");
                dir.append(date.as_str());
                dir
            }
            None => dist_root.clone(),
        }
    }
}

impl ExtendTool {
    /// The spec handed to the package manager: `<name>@<version>`, or the
    /// bare name without a version pin.
    pub open spec fn spec_crate_name(&self) -> Seq<char> {
        match self.version {
            Some(version) => self.name@ + "@"@ + version@,
            None => self.name@,
        }
    }

    /// Renders the package-manager install spec for this tool.
    pub fn crate_name(&self) -> (r: String)
        ensures
            r@ == self.spec_crate_name(),
    {
        match self.version {
            Some(ref version) => {
                let mut name = self.name.clone();
                name.append("@");
                name.append(version.as_str());
                name
            }
            None => self.name.clone(),
        }
    }
}

} // verus!
