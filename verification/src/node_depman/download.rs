//! The archives of the package managers in the npm registry.

use vstd::prelude::*;
use vstd::string::*;
use crate::download::{located, DownloadPrebuiltOutput, DownloadView, PluginError, PluginFailure};
use crate::package_manager::{manager_name, package_name, yarn_classic, PackageManager};
use crate::text::{after_first, char_len, find_char, join2, lemma_position, substring};
use crate::version::{asks_canary, text_of, unresolved_of, VersionSpec, VersionSpecView};

verus! {

/// The directory inside the archive. Yarn's classic line named it after the
/// version up to 1.22.19; everything else is packed as `package`.
pub open spec fn archive_prefix(manager: PackageManager, spec: VersionSpecView) -> Seq<char> {
    match spec {
        VersionSpecView::Version(version) => if yarn_classic(manager, unresolved_of(spec))
            && version.minor <= 22 && version.patch <= 19 {
            "yarn-v"@ + version.text
        } else {
            "package"@
        },
        _ => "package"@,
    }
}

/// The name of a package without its scope: what follows the first `/`.
pub open spec fn without_scope(package: Seq<char>) -> Seq<char> {
    match after_first(package, '/') {
        Some(bare) => bare,
        None => package,
    }
}

/// The address of the archive of a package in the registry.
pub open spec fn archive_url(package: Seq<char>, version: Seq<char>) -> Seq<char> {
    "https://registry.npmjs.org/"@ + package + "/-/"@ + without_scope(package) + "-"@ + version
        + ".tgz"@
}

/// Where the archive of a version of `manager` is found. There are no
/// canary builds of the package managers.
pub open spec fn prebuilt_location(manager: PackageManager, spec: VersionSpecView) -> Result<
    DownloadView,
    PluginFailure,
> {
    if asks_canary(spec) {
        Err(PluginFailure::UnsupportedCanary { tool: manager_name(manager) })
    } else {
        Ok(
            DownloadView {
                archive_prefix: Some(archive_prefix(manager, spec)),
                checksum_url: None,
                download_name: None,
                download_url: archive_url(
                    package_name(manager, unresolved_of(spec)),
                    text_of(spec),
                ),
            },
        )
    }
}

/// The directory inside the archive of a version.
pub fn get_archive_prefix(manager: &PackageManager, spec: &VersionSpec) -> (prefix: String)
    ensures
        prefix@ == archive_prefix(*manager, spec@),
{
    if manager.is_yarn_classic(&spec.to_unresolved_spec()) {
        if let VersionSpec::Version(version) = spec {
            // The archive is packed as `package` from 1.22.20 on.
            if version.minor <= 22 && version.patch <= 19 {
                return join2("yarn-v", version.text.as_str());
            }
        }
    }
    String::from_str("package")
}

/// The name of a package without its scope.
pub fn strip_scope(package: &str) -> (bare: String)
    ensures
        bare@ == without_scope(package@),
{
    let len = char_len(package);
    let at = find_char(package, '/');
    proof {
        lemma_position(package@, '/');
    }
    if at < len {
        substring(package, at + 1, len)
    } else {
        String::from_str(package)
    }
}

/// Says where the archive of a version of `manager` is found.
pub fn download_prebuilt(manager: PackageManager, version: &VersionSpec) -> (out: Result<
    DownloadPrebuiltOutput,
    PluginError,
>)
    ensures
        located(out, prebuilt_location(manager, version@)),
{
    if version.is_canary() {
        return Err(PluginError::UnsupportedCanary { tool: manager.to_string() });
    }
    let package = manager.get_package_name(&version.to_unresolved_spec());
    let bare = strip_scope(package.as_str());
    let mut url = String::from_str("https://registry.npmjs.org/");
    url.append(package.as_str());
    url.append("/-/");
    url.append(bare.as_str());
    url.append("-");
    url.append(version.to_string().as_str());
    url.append(".tgz");
    Ok(
        DownloadPrebuiltOutput {
            archive_prefix: Some(get_archive_prefix(&manager, version)),
            checksum_url: None,
            download_name: None,
            download_url: url,
        },
    )
}

} // verus!
