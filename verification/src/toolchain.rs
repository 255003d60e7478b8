//! The outside programs the service relies on: which binary serves which
//! network, the files they expect, and what must hold before serving.

use crate::text::option_view;
use vstd::prelude::*;
use vstd::string::*;

verus! {

/// The network a package is built for. Each has a toolchain binary of its
/// own.
#[derive(Debug, Clone, Copy, PartialEq, Eq, Structural)]
pub enum Network {
    Mainnet,
    Testnet,
}

/// The binary used where the configuration names none.
pub const DEFAULT_BINARY: &'static str = "sui";

/// The formatter.
pub const FORMATTER_BINARY: &'static str = "prettier-move";

/// Seconds granted to a build or test run unless the caller says otherwise.
pub const DEFAULT_TIMEOUT: u64 = 20;

/// Seconds granted to a formatter run.
pub const DEFAULT_FORMAT_TIMEOUT: u64 = 2;

/// Seconds granted to the run that fills the dependency cache at startup.
pub const CACHE_WARMUP_TIMEOUT: u64 = 120;

/// The style configuration handed to the formatter.
pub const PRETTIER_DEFAULT_CONFIG: &'static str =
    "\n{\n\t\"printWidth\": 100,\n\t\"tabWidth\": 4,\n\t\"useModuleLabel\": true,\n\t\"autoGroupImports\": \"module\",\n}\n";

/// Where the toolchain binaries are, as settled once at startup: for each
/// network the path that overrides the default, if any.
#[derive(Debug, PartialEq, Eq)]
pub struct ToolchainConfig {
    pub mainnet_binary: Option<String>,
    pub testnet_binary: Option<String>,
}

/// The model of [`ToolchainConfig`]: the same value, with texts and lists as sequences.
pub struct ToolchainConfigView {
    pub mainnet_binary: Option<Seq<char>>,
    pub testnet_binary: Option<Seq<char>>,
}

impl View for ToolchainConfig {
    type V = ToolchainConfigView;

    open spec fn view(&self) -> ToolchainConfigView {
        ToolchainConfigView {
            mainnet_binary: option_view(self.mainnet_binary),
            testnet_binary: option_view(self.testnet_binary),
        }
    }
}

impl ToolchainConfigView {
    /// The binary that serves `network`: the configured one, else the
    /// default.
    pub open spec fn binary_name(self, network: Network) -> Seq<char> {
        let configured = match network {
            Network::Mainnet => self.mainnet_binary,
            Network::Testnet => self.testnet_binary,
        };
        match configured {
            Some(path) => path,
            None => DEFAULT_BINARY@,
        }
    }
}

/// The network meant where a request names none.
pub open spec fn network_or_default(network: Option<Network>) -> Network {
    match network {
        Some(n) => n,
        None => Network::Mainnet,
    }
}

impl Network {
    /// The toolchain binary to invoke for this network.
    pub fn binary_name(&self, config: &ToolchainConfig) -> (path: String)
        ensures
            path@ == config@.binary_name(*self),
    {
        let configured = match self {
            Network::Mainnet => &config.mainnet_binary,
            Network::Testnet => &config.testnet_binary,
        };
        match configured {
            Some(path) => path.clone(),
            None => String::from_str(DEFAULT_BINARY),
        }
    }
}

/// The package manifest for a package called `name`: the package section
/// with the name and the edition, no dependencies, and the package's own
/// address set to `0x0`.
pub open spec fn manifest_text(name: Seq<char>) -> Seq<char> {
    "[package]\nname = \""@ + name
        + "\"\nedition = \"2024.beta\"\n\n[dependencies]\n\n[addresses]\n"@ + name
        + " = \"0x0\"\n        "@
}

/// Writes out the package manifest for a package called `name`.
pub fn base_toml_file(name: &str) -> (text: String)
    ensures
        text@ == manifest_text(name@),
{
    let mut text = String::from_str("[package]\nname = \"");
    text.append(name);
    text.append("\"\nedition = \"2024.beta\"\n\n[dependencies]\n\n[addresses]\n");
    text.append(name);
    text.append(" = \"0x0\"\n        ");
    text
}

/// What is wrong with the toolchain, given which of the two binaries
/// answered a version probe.
pub open spec fn sui_fault(mainnet_ok: bool, testnet_ok: bool) -> Option<Seq<char>> {
    if mainnet_ok && testnet_ok {
        None
    } else if mainnet_ok {
        Some("sui testnet CLI not installed"@)
    } else if testnet_ok {
        Some("sui mainnet CLI not installed"@)
    } else {
        Some("sui CLI not installed on any network."@)
    }
}

/// Judges the version probes of the two toolchain binaries: both must have
/// answered.
pub fn verify_sui_installed(mainnet_ok: bool, testnet_ok: bool) -> (res: Result<(), String>)
    ensures
        res is Ok <==> mainnet_ok && testnet_ok,
        res matches Err(m) ==> Some(m@) == sui_fault(mainnet_ok, testnet_ok),
{
    if mainnet_ok && testnet_ok {
        Ok(())
    } else if mainnet_ok {
        Err(String::from_str("sui testnet CLI not installed"))
    } else if testnet_ok {
        Err(String::from_str("sui mainnet CLI not installed"))
    } else {
        Err(String::from_str("sui CLI not installed on any network."))
    }
}

/// Judges the version probe of the version control tool.
pub fn verify_git_installed(probe_ok: bool) -> (res: Result<(), String>)
    ensures
        res is Ok <==> probe_ok,
        res matches Err(m) ==> m@ == "git CLI not installed"@,
{
    if probe_ok {
        Ok(())
    } else {
        Err(String::from_str("git CLI not installed"))
    }
}

/// Judges the version probe of the formatter.
pub fn verify_prettier_move_installed(probe_ok: bool) -> (res: Result<(), String>)
    ensures
        res is Ok <==> probe_ok,
        res matches Err(m) ==> m@ == "prettier CLI not installed"@,
{
    if probe_ok {
        Ok(())
    } else {
        Err(String::from_str("prettier CLI not installed"))
    }
}

/// Judges whether sharing can work: it needs a credential.
pub fn verify_github_token_set(token_set: bool) -> (res: Result<(), String>)
    ensures
        res is Ok <==> token_set,
        res matches Err(m) ==> m@ == "GITHUB_TOKEN environment variable not set"@,
{
    if token_set {
        Ok(())
    } else {
        Err(String::from_str("GITHUB_TOKEN environment variable not set"))
    }
}

/// What keeps the service from starting, given the version probes of the
/// two toolchain binaries, of the version control tool and of the formatter:
/// the first of them that did not answer. Each of the four is needed; a
/// missing credential for sharing is not among the faults.
pub open spec fn startup_fault(
    mainnet_ok: bool,
    testnet_ok: bool,
    git_ok: bool,
    formatter_ok: bool,
) -> Option<Seq<char>> {
    if sui_fault(mainnet_ok, testnet_ok) is Some {
        sui_fault(mainnet_ok, testnet_ok)
    } else if !git_ok {
        Some("git CLI not installed"@)
    } else if !formatter_ok {
        Some("prettier CLI not installed"@)
    } else {
        None
    }
}

/// Judges the probes made at startup, in the order toolchain, version
/// control tool, formatter.
pub fn verify_startup(mainnet_ok: bool, testnet_ok: bool, git_ok: bool, formatter_ok: bool) -> (res:
    Result<(), String>)
    ensures
        res is Ok <==> mainnet_ok && testnet_ok && git_ok && formatter_ok,
        res matches Err(m) ==> Some(m@) == startup_fault(
            mainnet_ok,
            testnet_ok,
            git_ok,
            formatter_ok,
        ),
{
    match verify_sui_installed(mainnet_ok, testnet_ok) {
        Err(m) => {
            return Err(m);
        },
        Ok(()) => {},
    }
    match verify_git_installed(git_ok) {
        Err(m) => {
            return Err(m);
        },
        Ok(()) => {},
    }
    verify_prettier_move_installed(formatter_ok)
}

} // verus!
