//! The platform that the tool runs on, as the identifier by which release
//! assets are named.

use vstd::prelude::*;
use crate::text::same_str;
use crate::text::text_of;

verus! {

/// What stands between architecture and operating system in the identifier
/// of a platform that is not known by name.
pub const GENERIC_VENDOR: &'static str = "-unknown-";

/// The identifier of a platform that is known by architecture, operating
/// system and C library. The C library tells Linux platforms apart and is
/// not looked at for the others.
pub open spec fn known_target(arch: Seq<char>, os: Seq<char>, libc: Seq<char>) -> Option<
    Seq<char>,
> {
    if arch == "x86_64"@ && os == "linux"@ && libc == "musl"@ {
        Some("x86_64-unknown-linux-musl"@)
    } else if arch == "x86_64"@ && os == "linux"@ && libc == "gnu"@ {
        Some("x86_64-unknown-linux-gnu"@)
    } else if arch == "aarch64"@ && os == "linux"@ && libc == "musl"@ {
        Some("aarch64-unknown-linux-musl"@)
    } else if arch == "aarch64"@ && os == "linux"@ && libc == "gnu"@ {
        Some("aarch64-unknown-linux-gnu"@)
    } else if arch == "x86_64"@ && os == "macos"@ {
        Some("x86_64-apple-darwin"@)
    } else if arch == "aarch64"@ && os == "macos"@ {
        Some("aarch64-apple-darwin"@)
    } else if arch == "x86_64"@ && os == "windows"@ {
        Some("x86_64-pc-windows-msvc"@)
    } else {
        None
    }
}

/// The identifier of the running platform: the explicit override where there
/// is one; else the value that the build supplied; else the identifier by
/// which the platform is known; else architecture and operating system with
/// `-unknown-` between them.
pub open spec fn target_of(
    explicit: Option<Seq<char>>,
    supplied: Option<Seq<char>>,
    arch: Seq<char>,
    os: Seq<char>,
    libc: Seq<char>,
) -> Seq<char> {
    match explicit {
        Some(target) => target,
        None => match supplied {
            Some(target) => target,
            None => match known_target(arch, os, libc) {
                Some(target) => target,
                None => arch + GENERIC_VENDOR@ + os,
            },
        },
    }
}

/// Looks a platform up among those known by name.
pub fn lookup_known_target(arch: &str, os: &str, libc: &str) -> (found: Option<&'static str>)
    ensures
        text_of(found) == known_target(arch@, os@, libc@),
{
    let x86_64 = same_str(arch, "x86_64");
    let aarch64 = same_str(arch, "aarch64");
    let linux = same_str(os, "linux");
    let macos = same_str(os, "macos");
    let windows = same_str(os, "windows");
    let musl = same_str(libc, "musl");
    let gnu = same_str(libc, "gnu");
    if x86_64 && linux && musl {
        Some("x86_64-unknown-linux-musl")
    } else if x86_64 && linux && gnu {
        Some("x86_64-unknown-linux-gnu")
    } else if aarch64 && linux && musl {
        Some("aarch64-unknown-linux-musl")
    } else if aarch64 && linux && gnu {
        Some("aarch64-unknown-linux-gnu")
    } else if x86_64 && macos {
        Some("x86_64-apple-darwin")
    } else if aarch64 && macos {
        Some("aarch64-apple-darwin")
    } else if x86_64 && windows {
        Some("x86_64-pc-windows-msvc")
    } else {
        None
    }
}

/// Tells the identifier of the running platform. `explicit` is the override
/// that the user set, `supplied` the value from the build; architecture,
/// operating system and C library are those of the running program.
pub fn get_current_target_triple(
    explicit: Option<&str>,
    supplied: Option<&str>,
    arch: &str,
    os: &str,
    libc: &str,
) -> (target: String)
    ensures
        target@ == target_of(text_of(explicit), text_of(supplied), arch@, os@, libc@),
{
    if let Some(target) = explicit {
        return target.to_owned();
    }
    if let Some(target) = supplied {
        return target.to_owned();
    }
    if let Some(target) = lookup_known_target(arch, os, libc) {
        return target.to_owned();
    }
    let mut target = arch.to_owned();
    target.append(GENERIC_VENDOR);
    target.append(os);
    target
}

} // verus!
