//! Where a packaged application finds its bundled resources.
//!
//! The answer depends on how the application was started: straight from a
//! build tree, from an installed package, or from a portable image. The
//! signs are the directory of the running executable and the `APPDIR`
//! variable; the rules are tried in a fixed order and the first that fits
//! decides. Nothing is created or looked up on disk: the result is a path
//! that may not exist.

use vstd::prelude::*;

#[allow(unused_imports)]
use crate::error::text_of;
use crate::error::PlatformError;
#[allow(unused_imports)]
use crate::paths::{path_join, path_parent};
use crate::paths::{ends_with, join, parent_of};
use crate::platform::OperatingSystem;

verus! {

/// What the packaging knows of an application.
#[derive(Clone, Debug)]
pub struct PackageInfo {
    /// The package's name. It goes into paths as it stands.
    pub package_name: String,
}

/// What a process found out about itself when it started.
#[derive(Clone, Debug)]
pub struct Launch {
    /// The absolute path of the running executable, or `None` where the
    /// operating system could not report it.
    pub executable: Option<String>,
    /// The value of the `APPDIR` variable, which a portable image sets to
    /// the place where it is mounted; `None` where it is not set.
    pub app_dir: Option<String>,
}

/// Whether a directory is the output directory of a local build: its path
/// ends in `/target/debug` or `/target/release`.
pub open spec fn is_dev_build_dir(dir: Seq<char>) -> bool {
    "/target/debug"@.is_suffix_of(dir) || "/target/release"@.is_suffix_of(dir)
}

/// Whether a directory is the executable directory of an unpacked Debian
/// package: its path ends in `/data/usr/bin`.
pub open spec fn is_deb_layout_dir(dir: Seq<char>) -> bool {
    "/data/usr/bin"@.is_suffix_of(dir)
}

/// The resource directory of an application whose executable lies in
/// `exe_dir`. The rules are tried in this order, and the first that fits
/// decides:
///
/// - on Windows, `exe_dir`: resources lie beside the executable;
/// - in the output directory of a local build, `exe_dir` as well, whatever
///   the operating system (off Windows the native separator is `/`);
/// - on Linux, `../lib/<name>` adjoined to `exe_dir` for an unpacked Debian
///   package, else `<APPDIR>/usr/lib/<name>` where `APPDIR` is set, else
///   `/usr/lib/<name>`;
/// - on macOS, `../Resources` adjoined to `exe_dir`;
/// - elsewhere there is no layout.
///
/// A portable image's mount point stands for the whole answer: `exe_dir` is
/// not looked at once `APPDIR` decides.
pub open spec fn spec_resource_dir_from_exe_dir(
    package_name: Seq<char>,
    os: OperatingSystem,
    exe_dir: Seq<char>,
    app_dir: Option<Seq<char>>,
) -> Result<Seq<char>, PlatformError> {
    if os is Windows || is_dev_build_dir(exe_dir) {
        Ok(exe_dir)
    } else {
        match os {
            OperatingSystem::Linux => Ok(
                if is_deb_layout_dir(exe_dir) {
                    path_join(exe_dir, "../lib/"@ + package_name)
                } else {
                    match app_dir {
                        Some(root) => root + "/usr/lib/"@ + package_name,
                        None => "/usr/lib/"@ + package_name,
                    }
                },
            ),
            OperatingSystem::MacOs => Ok(path_join(exe_dir, "../Resources"@)),
            _ => Err(PlatformError::UnsupportedPlatformForResourceDir),
        }
    }
}

/// The resource directory of an application, from what its process found
/// out at its start: an error where the executable's path is unknown or has
/// no parent, else what [`spec_resource_dir_from_exe_dir`] gives for that
/// parent.
pub open spec fn spec_resource_dir(
    package_name: Seq<char>,
    os: OperatingSystem,
    executable: Option<Seq<char>>,
    app_dir: Option<Seq<char>>,
) -> Result<Seq<char>, PlatformError> {
    match executable {
        None => Err(PlatformError::ExecutableLocationUnavailable),
        Some(path) => match path_parent(path) {
            None => Err(PlatformError::InvalidExecutablePath),
            Some(exe_dir) => spec_resource_dir_from_exe_dir(package_name, os, exe_dir, app_dir),
        },
    }
}

/// Computes the resource directory of an application whose executable lies
/// in `exe_dir`.
pub fn resource_dir_from_exe_dir(
    package_info: &PackageInfo,
    os: OperatingSystem,
    exe_dir: &str,
    app_dir: Option<&str>,
) -> (dir: Result<String, PlatformError>)
    ensures
        text_of(dir) == spec_resource_dir_from_exe_dir(
            package_info.package_name@,
            os,
            exe_dir@,
            app_dir.deep_view(),
        ),
{
    if let OperatingSystem::Windows = os {
        return Ok(exe_dir.to_owned());
    }
    if ends_with(exe_dir, "/target/debug") || ends_with(exe_dir, "/target/release") {
        return Ok(exe_dir.to_owned());
    }
    let name = package_info.package_name.as_str();
    match os {
        OperatingSystem::Linux => {
            if ends_with(exe_dir, "/data/usr/bin") {
                let mut relative = "../lib/".to_owned();
                relative.append(name);
                Ok(join(exe_dir, relative.as_str()))
            } else {
                let mut dir = match app_dir {
                    Some(root) => root.to_owned(),
                    None => String::new(),
                };
                dir.append("/usr/lib/");
                dir.append(name);
                Ok(dir)
            }
        },
        OperatingSystem::MacOs => Ok(join(exe_dir, "../Resources")),
        _ => Err(PlatformError::UnsupportedPlatformForResourceDir),
    }
}

/// Computes the resource directory of the application that `package_info`
/// describes, built for `os` and started as `launch` says.
pub fn resource_dir(package_info: &PackageInfo, os: OperatingSystem, launch: &Launch) -> (dir:
    Result<String, PlatformError>)
    ensures
        text_of(dir) == spec_resource_dir(
            package_info.package_name@,
            os,
            launch.executable.deep_view(),
            launch.app_dir.deep_view(),
        ),
{
    let executable = match &launch.executable {
        Some(path) => path.as_str(),
        None => return Err(PlatformError::ExecutableLocationUnavailable),
    };
    let app_dir = match &launch.app_dir {
        Some(root) => Some(root.as_str()),
        None => None,
    };
    match parent_of(executable) {
        Some(exe_dir) => resource_dir_from_exe_dir(package_info, os, exe_dir.as_str(), app_dir),
        None => Err(PlatformError::InvalidExecutablePath),
    }
}

/// On Windows the resource directory is the directory of the executable,
/// whatever the package is called and whatever `APPDIR` holds.
pub proof fn lemma_windows_keeps_resources_beside_executable(
    package_name: Seq<char>,
    executable: Seq<char>,
    app_dir: Option<Seq<char>>,
)
    ensures
        spec_resource_dir(package_name, OperatingSystem::Windows, Some(executable), app_dir)
            == match path_parent(executable) {
            Some(exe_dir) => Ok::<Seq<char>, PlatformError>(exe_dir),
            None => Err(PlatformError::InvalidExecutablePath),
        },
{
}

/// An executable in the output directory of a local build has its resources
/// beside it. This rule comes before those of the operating systems: it
/// holds on each of them, of an unpacked Debian package and of a portable
/// image too.
pub proof fn lemma_dev_build_dir_comes_first(
    package_name: Seq<char>,
    os: OperatingSystem,
    executable: Seq<char>,
    exe_dir: Seq<char>,
    app_dir: Option<Seq<char>>,
)
    requires
        path_parent(executable) == Some(exe_dir),
        is_dev_build_dir(exe_dir),
    ensures
        spec_resource_dir(package_name, os, Some(executable), app_dir) == Ok::<
            Seq<char>,
            PlatformError,
        >(exe_dir),
{
}

/// On FreeBSD, and on any operating system other than Windows, Linux and
/// macOS, an executable outside the output directory of a local build has no
/// resource directory: the answer is `UnsupportedPlatformForResourceDir`.
pub proof fn lemma_no_layout_on_other_systems(
    package_name: Seq<char>,
    os: OperatingSystem,
    executable: Seq<char>,
    exe_dir: Seq<char>,
    app_dir: Option<Seq<char>>,
)
    requires
        os is FreeBsd || os is Other,
        path_parent(executable) == Some(exe_dir),
        !is_dev_build_dir(exe_dir),
    ensures
        spec_resource_dir(package_name, os, Some(executable), app_dir) == Err::<
            Seq<char>,
            PlatformError,
        >(PlatformError::UnsupportedPlatformForResourceDir),
{
}

/// Two calls of [`resource_dir`] for the same package and operating system,
/// with the executable and `APPDIR` unchanged between them, give the same
/// answer: the same error, or directories with the same text.
pub proof fn lemma_resource_dir_is_repeatable(
    package_info: PackageInfo,
    os: OperatingSystem,
    launch: Launch,
    first: Result<String, PlatformError>,
    second: Result<String, PlatformError>,
)
    requires
        text_of(first) == spec_resource_dir(
            package_info.package_name@,
            os,
            launch.executable.deep_view(),
            launch.app_dir.deep_view(),
        ),
        text_of(second) == spec_resource_dir(
            package_info.package_name@,
            os,
            launch.executable.deep_view(),
            launch.app_dir.deep_view(),
        ),
    ensures
        text_of(first) == text_of(second),
{
}

} // verus!
