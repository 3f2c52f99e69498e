//! The identity of a build and its target triple.
//!
//! A triple names the architecture, the operating system and, where the
//! operating system has more than one, the runtime environment:
//! `x86_64-unknown-linux-gnu`, `i686-pc-windows-msvc`, `aarch64-apple-darwin`.

use vstd::prelude::*;

#[allow(unused_imports)]
use crate::error::text_of;
use crate::error::PlatformError;

verus! {

/// The CPU architecture that a build targets.
#[derive(Clone, Copy, Debug, PartialEq, Eq, Structural)]
pub enum Architecture {
    /// 32-bit x86.
    X86,
    /// 64-bit x86.
    X86_64,
    /// 32-bit ARM.
    Arm,
    /// 64-bit ARM.
    Aarch64,
    /// Any architecture that has no name in a triple here.
    Other,
}

/// The operating system that a build targets.
#[derive(Clone, Copy, Debug, PartialEq, Eq, Structural)]
pub enum OperatingSystem {
    Linux,
    MacOs,
    Windows,
    FreeBsd,
    /// Any operating system that has no name in a triple here.
    Other,
}

/// The runtime environment (ABI) that a build targets.
#[derive(Clone, Copy, Debug, PartialEq, Eq, Structural)]
pub enum Environment {
    Gnu,
    Musl,
    Msvc,
    /// No environment, or one that has no name in a triple here.
    Other,
}

/// What a build targets. Exactly one architecture and one operating system
/// hold of a build; the environment counts only where the operating system
/// asks for one.
#[derive(Clone, Copy, Debug, PartialEq, Eq, Structural)]
pub struct Platform {
    pub arch: Architecture,
    pub os: OperatingSystem,
    pub env: Environment,
}

impl Architecture {
    /// The architecture's segment of a triple.
    pub open spec fn spec_triple_name(self) -> Option<Seq<char>> {
        match self {
            Architecture::X86 => Some("i686"@),
            Architecture::X86_64 => Some("x86_64"@),
            Architecture::Arm => Some("armv7"@),
            Architecture::Aarch64 => Some("aarch64"@),
            Architecture::Other => None,
        }
    }

    /// The architecture's segment of a triple, where it has one.
    pub fn triple_name(self) -> (name: Option<&'static str>)
        ensures
            name.deep_view() == self.spec_triple_name(),
    {
        match self {
            Architecture::X86 => Some("i686"),
            Architecture::X86_64 => Some("x86_64"),
            Architecture::Arm => Some("armv7"),
            Architecture::Aarch64 => Some("aarch64"),
            Architecture::Other => None,
        }
    }
}

impl OperatingSystem {
    /// The operating system's segment of a triple: vendor and system.
    pub open spec fn spec_triple_name(self) -> Option<Seq<char>> {
        match self {
            OperatingSystem::Linux => Some("unknown-linux"@),
            OperatingSystem::MacOs => Some("apple-darwin"@),
            OperatingSystem::Windows => Some("pc-windows"@),
            OperatingSystem::FreeBsd => Some("unknown-freebsd"@),
            OperatingSystem::Other => None,
        }
    }

    /// Whether a triple for this operating system ends in an environment
    /// segment. Those of macOS and FreeBSD never do.
    pub open spec fn spec_takes_environment(self) -> bool {
        self is Linux || self is Windows
    }

    /// The operating system's segment of a triple, where it has one.
    pub fn triple_name(self) -> (name: Option<&'static str>)
        ensures
            name.deep_view() == self.spec_triple_name(),
    {
        match self {
            OperatingSystem::Linux => Some("unknown-linux"),
            OperatingSystem::MacOs => Some("apple-darwin"),
            OperatingSystem::Windows => Some("pc-windows"),
            OperatingSystem::FreeBsd => Some("unknown-freebsd"),
            OperatingSystem::Other => None,
        }
    }

    /// Whether a triple for this operating system ends in an environment
    /// segment.
    pub fn takes_environment(self) -> (takes: bool)
        ensures
            takes == self.spec_takes_environment(),
    {
        match self {
            OperatingSystem::Linux | OperatingSystem::Windows => true,
            _ => false,
        }
    }
}

impl Environment {
    /// The environment's segment of a triple.
    pub open spec fn spec_triple_name(self) -> Option<Seq<char>> {
        match self {
            Environment::Gnu => Some("gnu"@),
            Environment::Musl => Some("musl"@),
            Environment::Msvc => Some("msvc"@),
            Environment::Other => None,
        }
    }

    /// The environment's segment of a triple, where it has one.
    pub fn triple_name(self) -> (name: Option<&'static str>)
        ensures
            name.deep_view() == self.spec_triple_name(),
    {
        match self {
            Environment::Gnu => Some("gnu"),
            Environment::Musl => Some("musl"),
            Environment::Msvc => Some("msvc"),
            Environment::Other => None,
        }
    }
}

impl Platform {
    /// Whether the platform has a triple: its architecture and its operating
    /// system have a name, and so has its environment where the operating
    /// system takes one.
    pub open spec fn is_supported(self) -> bool {
        &&& self.arch.spec_triple_name() is Some
        &&& self.os.spec_triple_name() is Some
        &&& self.os.spec_takes_environment() ==> self.env.spec_triple_name() is Some
    }
}

/// The target triple of a platform, or the reason it has none. The
/// architecture is judged first, then the operating system, then the
/// environment, and that only where the operating system takes one.
pub open spec fn spec_target_triple(platform: Platform) -> Result<Seq<char>, PlatformError> {
    match (platform.arch.spec_triple_name(), platform.os.spec_triple_name()) {
        (None, _) => Err(PlatformError::UnsupportedArchitecture),
        (Some(_), None) => Err(PlatformError::UnsupportedOs),
        (Some(arch), Some(os)) => {
            if !platform.os.spec_takes_environment() {
                Ok(arch + "-"@ + os)
            } else {
                match platform.env.spec_triple_name() {
                    None => Err(PlatformError::UnsupportedEnvironment),
                    Some(env) => Ok(arch + "-"@ + os + "-"@ + env),
                }
            }
        },
    }
}

/// Gives the target triple of a platform, such as
/// `x86_64-unknown-linux-gnu`, or says which part of the platform has no
/// name in a triple.
pub fn target_triple(platform: &Platform) -> (triple: Result<String, PlatformError>)
    ensures
        text_of(triple) == spec_target_triple(*platform),
{
    let arch = match platform.arch.triple_name() {
        Some(arch) => arch,
        None => return Err(PlatformError::UnsupportedArchitecture),
    };
    let os = match platform.os.triple_name() {
        Some(os) => os,
        None => return Err(PlatformError::UnsupportedOs),
    };
    let mut triple = arch.to_owned();
    triple.append("-");
    triple.append(os);
    if platform.os.takes_environment() {
        let env = match platform.env.triple_name() {
            Some(env) => env,
            None => return Err(PlatformError::UnsupportedEnvironment),
        };
        triple.append("-");
        triple.append(env);
    }
    Ok(triple)
}

/// A platform has a triple exactly when it is supported, and the triple is
/// then made of its segments with a hyphen between them: architecture,
/// operating system and, only where the operating system takes one,
/// environment.
pub proof fn lemma_supported_platform_has_its_triple(platform: Platform)
    ensures
        spec_target_triple(platform) is Ok <==> platform.is_supported(),
        platform.is_supported() && platform.os.spec_takes_environment() ==> spec_target_triple(
            platform,
        ) == Ok::<Seq<char>, PlatformError>(
            platform.arch.spec_triple_name()->0 + "-"@ + platform.os.spec_triple_name()->0 + "-"@
                + platform.env.spec_triple_name()->0,
        ),
        platform.is_supported() && !platform.os.spec_takes_environment() ==> spec_target_triple(
            platform,
        ) == Ok::<Seq<char>, PlatformError>(
            platform.arch.spec_triple_name()->0 + "-"@ + platform.os.spec_triple_name()->0,
        ),
{
}

/// Where the operating system takes no environment segment, as macOS and
/// FreeBSD, the environment changes nothing about the answer.
pub proof fn lemma_environment_counts_only_where_taken(platform: Platform, env: Environment)
    requires
        !platform.os.spec_takes_environment(),
    ensures
        spec_target_triple(Platform { env, ..platform }) == spec_target_triple(platform),
{
}

/// On an operating system that takes an environment segment, Linux or
/// Windows, a platform with a known architecture and no known environment
/// fails with `UnsupportedEnvironment`.
pub proof fn lemma_missing_environment_is_reported(platform: Platform)
    requires
        platform.os is Linux || platform.os is Windows,
        platform.arch !is Other,
        platform.env is Other,
    ensures
        spec_target_triple(platform) == Err::<Seq<char>, PlatformError>(
            PlatformError::UnsupportedEnvironment,
        ),
{
}

/// An unknown architecture fails with `UnsupportedArchitecture`, whatever
/// the operating system and the environment are.
pub proof fn lemma_unknown_architecture_is_reported_first(platform: Platform)
    requires
        platform.arch is Other,
    ensures
        spec_target_triple(platform) == Err::<Seq<char>, PlatformError>(
            PlatformError::UnsupportedArchitecture,
        ),
{
}

/// Two calls of [`target_triple`] on one platform give the same answer: the
/// same error, or triples with the same text.
pub proof fn lemma_target_triple_is_repeatable(
    platform: Platform,
    first: Result<String, PlatformError>,
    second: Result<String, PlatformError>,
)
    requires
        text_of(first) == spec_target_triple(platform),
        text_of(second) == spec_target_triple(platform),
    ensures
        text_of(first) == text_of(second),
{
}

} // verus!
