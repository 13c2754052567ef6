//! Release resolver: the fixed version endpoint, the interpretation of its
//! response, and the deterministic download locator for a (version, platform)
//! pair. All pure string work; the network reads happen outside the library.

use vstd::prelude::*;
use vstd::string::StringExecFns;
use crate::platform::{Arch, Os};
use crate::strutil::{trim_str, trimmed};

verus! {

/// The endpoint that reports the latest published version.
pub open spec fn version_endpoint_spec() -> Seq<char> {
    "https://github.com/mq1/TinyWiiBackupManager/releases/latest/download/version.txt"@
}

/// The download locator for one (version, OS flavor, architecture) triple.
/// The version appears twice, as the release tag and in the file name.
pub open spec fn download_url_spec(version: Seq<char>, os: Os, arch: Arch) -> Seq<char> {
    "https://github.com/mq1/TinyWiiBackupManager/releases/download/v"@ + version
        + "/TinyWiiBackupManager-v"@ + version + "-"@ + os.token() + "-"@ + arch.token() + ".zip"@
}

/// The file name given to a portable (no-install) copy of the executable.
pub open spec fn portable_name_spec(version: Seq<char>) -> Seq<char> {
    "TinyWiiBackupManager-v"@ + version + "-portable.exe"@
}

/// URL of the latest-version endpoint.
pub fn version_endpoint() -> (r: &'static str)
    ensures
        r@ == version_endpoint_spec(),
{
    "https://github.com/mq1/TinyWiiBackupManager/releases/latest/download/version.txt"
}

/// Turn the version endpoint's plain-text body into the version string:
/// the body with surrounding whitespace removed.
pub fn parse_version_response(body: &str) -> (r: String)
    ensures
        r@ == trimmed(body@),
{
    trim_str(body)
}

/// Build the download URL for an artifact. Pure composition, no failure mode.
pub fn build_download_url(version: &str, os: Os, arch: Arch) -> (r: String)
    ensures
        r@ == download_url_spec(version@, os, arch),
{
    let mut url = String::from_str(
        "https://github.com/mq1/TinyWiiBackupManager/releases/download/v",
    );
    url.append(version);
    url.append("/TinyWiiBackupManager-v");
    url.append(version);
    url.append("-");
    url.append(os.as_str());
    url.append("-");
    url.append(arch.as_str());
    url.append(".zip");
    url
}

/// Build the file name for a portable copy of a given version.
pub fn portable_artifact_name(version: &str) -> (r: String)
    ensures
        r@ == portable_name_spec(version@),
{
    let mut name = String::from_str("TinyWiiBackupManager-v");
    name.append(version);
    name.append("-portable.exe");
    name
}

} // verus!
