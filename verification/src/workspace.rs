//! Layout of the per-user workspace: the configuration directory under the
//! home directory, the extracted signing-client library beneath it, the
//! marker file whose presence means the library is provisioned, the
//! downloaded archive, and the metadata file.

use vstd::prelude::*;

verus! {

use vstd::string::StringExecFns;
use crate::strutil::{join_path, spec_join};

/// The configuration directory: a fixed-name directory under home.
pub open spec fn config_dir_of(home: Seq<char>) -> Seq<char> {
    spec_join(home, ".trusted-signing-cli"@)
}

/// The directory the signing-client archive is extracted into.
pub open spec fn lib_dir_of(config_dir: Seq<char>) -> Seq<char> {
    spec_join(config_dir, "lib"@)
}

/// The marker file deep inside the extracted library: its presence is the
/// sole sign that the library is provisioned.
pub open spec fn marker_path_of(config_dir: Seq<char>) -> Seq<char> {
    spec_join(spec_join(spec_join(lib_dir_of(config_dir), "bin"@), "x64"@),
        "Azure.CodeSigning.Dlib.dll"@)
}

/// Where the downloaded archive lands inside the configuration directory.
pub open spec fn archive_path_of(config_dir: Seq<char>) -> Seq<char> {
    spec_join(config_dir, "1.0.95"@)
}

/// The metadata file at the configuration-directory root.
pub open spec fn metadata_path_of(config_dir: Seq<char>) -> Seq<char> {
    spec_join(config_dir, "metadata.json"@)
}

/// The fixed versioned registry URL of the signing-client package.
pub open spec fn download_url() -> Seq<char> {
    "https://www.nuget.org/api/v2/package/Microsoft.Trusted.Signing.Client/1.0.95"@
}

pub fn config_dir_path(home: &str) -> (r: String)
    ensures
        r@ == config_dir_of(home@),
{
    join_path(home, ".trusted-signing-cli")
}

pub fn lib_dir_path(config_dir: &str) -> (r: String)
    ensures
        r@ == lib_dir_of(config_dir@),
{
    join_path(config_dir, "lib")
}

pub fn marker_path(config_dir: &str) -> (r: String)
    ensures
        r@ == marker_path_of(config_dir@),
{
    let a = lib_dir_path(config_dir);
    let b = join_path(a.as_str(), "bin");
    let c = join_path(b.as_str(), "x64");
    join_path(c.as_str(), "Azure.CodeSigning.Dlib.dll")
}

pub fn archive_path(config_dir: &str) -> (r: String)
    ensures
        r@ == archive_path_of(config_dir@),
{
    join_path(config_dir, "1.0.95")
}

pub fn metadata_path(config_dir: &str) -> (r: String)
    ensures
        r@ == metadata_path_of(config_dir@),
{
    join_path(config_dir, "metadata.json")
}

pub fn download_url_string() -> (r: String)
    ensures
        r@ == download_url(),
{
    "https://www.nuget.org/api/v2/package/Microsoft.Trusted.Signing.Client/1.0.95".to_owned()
}

} // verus!
