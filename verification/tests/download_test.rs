use node_plugins::depman;
use node_plugins::download::{DownloadPrebuiltOutput, PluginError};
use node_plugins::host::{HostArch, HostEnvironment, HostOS};
use node_plugins::node;
use node_plugins::node::download::{DownloadError, DownloadStep};
use node_plugins::node_depman;
use node_plugins::node_depman::download::{get_archive_prefix, strip_scope};
use node_plugins::node_dist::{NodeDistLTS, NodeDistVersion};
use node_plugins::package_manager::PackageManager;
use node_plugins::version::VersionSpec;

fn host(os: HostOS, arch: HostArch) -> HostEnvironment {
    HostEnvironment { os, arch }
}

fn node_download(os: HostOS, arch: HostArch, version: &str) -> DownloadPrebuiltOutput {
    match node::download_prebuilt(
        &host(os, arch),
        &VersionSpec::parse(version).unwrap(),
        None,
    ) {
        Ok(DownloadStep::Located(output)) => output,
        other => panic!("no archive: {:?}", other),
    }
}

fn node_archive(prefix: &str, file: &str) -> DownloadPrebuiltOutput {
    DownloadPrebuiltOutput {
        archive_prefix: Some(prefix.into()),
        checksum_url: Some("https://nodejs.org/download/release/v20.0.0/SHASUMS256.txt".into()),
        download_name: Some(file.into()),
        download_url: format!("https://nodejs.org/download/release/v20.0.0/{}", file),
    }
}

fn primary_of(id: &str) -> Option<String> {
    node_depman::locate_executables(
        PackageManager::detect(id),
        HostOS::Linux,
        &Default::default(),
    )
    .primary
    .unwrap()
    .exe_path
}

#[test]
fn download_test_supports_prebuilt() {
    assert_eq!(
        node_depman::download_prebuilt(
            PackageManager::detect("npm-test"),
            &VersionSpec::parse("9.0.0").unwrap()
        ),
        Ok(DownloadPrebuiltOutput {
            archive_prefix: Some("package".into()),
            checksum_url: None,
            download_name: None,
            download_url: "https://registry.npmjs.org/npm/-/npm-9.0.0.tgz".into(),
        })
    );
    assert_eq!(
        node_depman::download_prebuilt(
            PackageManager::detect("pnpm-test"),
            &VersionSpec::parse("8.0.0").unwrap()
        ),
        Ok(DownloadPrebuiltOutput {
            archive_prefix: Some("package".into()),
            checksum_url: None,
            download_name: None,
            download_url: "https://registry.npmjs.org/pnpm/-/pnpm-8.0.0.tgz".into(),
        })
    );
    assert_eq!(
        node_depman::download_prebuilt(
            PackageManager::detect("yarn-test"),
            &VersionSpec::parse("1.22.0").unwrap()
        ),
        Ok(DownloadPrebuiltOutput {
            archive_prefix: Some("yarn-v1.22.0".into()),
            checksum_url: None,
            download_name: None,
            download_url: "https://registry.npmjs.org/yarn/-/yarn-1.22.0.tgz".into(),
        })
    );
    assert_eq!(
        node_depman::download_prebuilt(
            PackageManager::detect("yarn-test"),
            &VersionSpec::parse("3.6.1").unwrap()
        ),
        Ok(DownloadPrebuiltOutput {
            archive_prefix: Some("package".into()),
            checksum_url: None,
            download_name: None,
            download_url: "https://registry.npmjs.org/@yarnpkg/cli-dist/-/cli-dist-3.6.1.tgz"
                .into(),
        })
    );
}

#[test]
fn download_test_locates_default_bin() {
    assert_eq!(primary_of("npm-test"), Some("bin/npm-cli.js".into()));
    assert_eq!(primary_of("pnpm-test"), Some("bin/pnpm.cjs".into()));
    assert_eq!(primary_of("yarn-test"), Some("bin/yarn.js".into()));
}

#[test]
fn refuses_canary_for_package_managers() {
    assert_eq!(
        node_depman::download_prebuilt(PackageManager::Pnpm, &VersionSpec::Canary),
        Err(PluginError::UnsupportedCanary {
            tool: "pnpm".into()
        })
    );
    assert_eq!(
        node_depman::download_prebuilt(
            PackageManager::Yarn,
            &VersionSpec::Alias("canary".into())
        ),
        Err(PluginError::UnsupportedCanary {
            tool: "yarn".into()
        })
    );
}

#[test]
fn names_the_directory_inside_the_archive() {
    let yarn = PackageManager::Yarn;
    let prefix = |text: &str| get_archive_prefix(&yarn, &VersionSpec::parse(text).unwrap());

    assert_eq!(prefix("1.22.19"), "yarn-v1.22.19");
    assert_eq!(prefix("1.22.20"), "package");
    assert_eq!(prefix("1.23.0"), "package");
    assert_eq!(prefix("1.9.20"), "package");
    assert_eq!(prefix("1.0.0"), "yarn-v1.0.0");
    assert_eq!(prefix("2.0.0"), "package");
    assert_eq!(
        get_archive_prefix(&yarn, &VersionSpec::Alias("classic".into())),
        "package"
    );
    assert_eq!(
        get_archive_prefix(&PackageManager::Npm, &VersionSpec::parse("1.2.3").unwrap()),
        "package"
    );
}

#[test]
fn strips_the_scope_of_a_package() {
    assert_eq!(strip_scope("@yarnpkg/cli-dist"), "cli-dist");
    assert_eq!(strip_scope("yarn"), "yarn");
    assert_eq!(strip_scope("a/b/c"), "b/c");
    assert_eq!(strip_scope("trailing/"), "");
}

#[test]
fn supports_linux_arm64() {
    assert_eq!(
        node_download(HostOS::Linux, HostArch::Arm64, "20.0.0"),
        node_archive("node-v20.0.0-linux-arm64", "node-v20.0.0-linux-arm64.tar.xz")
    );
}

#[test]
fn supports_linux_arm() {
    assert_eq!(
        node_download(HostOS::Linux, HostArch::Arm, "20.0.0"),
        node_archive(
            "node-v20.0.0-linux-armv7l",
            "node-v20.0.0-linux-armv7l.tar.xz"
        )
    );
}

#[test]
fn supports_linux_x64() {
    assert_eq!(
        node_download(HostOS::Linux, HostArch::X64, "20.0.0"),
        node_archive("node-v20.0.0-linux-x64", "node-v20.0.0-linux-x64.tar.xz")
    );
}

#[test]
fn supports_linux_s390x() {
    assert_eq!(
        node_download(HostOS::Linux, HostArch::S390x, "20.0.0"),
        node_archive("node-v20.0.0-linux-s390x", "node-v20.0.0-linux-s390x.tar.xz")
    );
}

#[test]
fn supports_linux_ppc64() {
    assert_eq!(
        node_download(HostOS::Linux, HostArch::Powerpc64, "20.0.0"),
        node_archive(
            "node-v20.0.0-linux-ppc64le",
            "node-v20.0.0-linux-ppc64le.tar.xz"
        )
    );
}

#[test]
fn supports_macos_arm64() {
    assert_eq!(
        node_download(HostOS::MacOS, HostArch::Arm64, "20.0.0"),
        node_archive(
            "node-v20.0.0-darwin-arm64",
            "node-v20.0.0-darwin-arm64.tar.xz"
        )
    );
}

#[test]
fn supports_macos_x64() {
    assert_eq!(
        node_download(HostOS::MacOS, HostArch::X64, "20.0.0"),
        node_archive("node-v20.0.0-darwin-x64", "node-v20.0.0-darwin-x64.tar.xz")
    );
}

#[test]
fn supports_windows_arm64() {
    assert_eq!(
        node_download(HostOS::Windows, HostArch::Arm64, "20.0.0"),
        node_archive("node-v20.0.0-win-arm64", "node-v20.0.0-win-arm64.zip")
    );
}

#[test]
fn supports_windows_x64() {
    assert_eq!(
        node_download(HostOS::Windows, HostArch::X64, "20.0.0"),
        node_archive("node-v20.0.0-win-x64", "node-v20.0.0-win-x64.zip")
    );
}

#[test]
fn supports_windows_x86() {
    assert_eq!(
        node_download(HostOS::Windows, HostArch::X86, "20.0.0"),
        node_archive("node-v20.0.0-win-x86", "node-v20.0.0-win-x86.zip")
    );
}

#[test]
fn runs_the_x64_build_on_old_apple_arm() {
    let output = node_download(HostOS::MacOS, HostArch::Arm64, "15.14.0");

    assert_eq!(
        output.archive_prefix,
        Some("node-v15.14.0-darwin-x64".into())
    );
    assert_eq!(
        output.download_url,
        "https://nodejs.org/download/release/v15.14.0/node-v15.14.0-darwin-x64.tar.xz"
    );

    let output = node_download(HostOS::MacOS, HostArch::Arm64, "16.0.0");

    assert_eq!(
        output.archive_prefix,
        Some("node-v16.0.0-darwin-arm64".into())
    );
}

#[test]
fn refuses_hosts_without_a_build() {
    let version = VersionSpec::parse("20.0.0").unwrap();

    assert_eq!(
        node::download_prebuilt(&host(HostOS::FreeBSD, HostArch::X64), &version, None),
        Err(DownloadError::Unsupported(PluginError::UnsupportedOS {
            tool: "Node.js".into(),
            os: HostOS::FreeBSD
        }))
    );
    assert_eq!(
        node::download_prebuilt(&host(HostOS::MacOS, HostArch::X86), &version, None),
        Err(DownloadError::Unsupported(PluginError::UnsupportedTarget {
            tool: "Node.js".into(),
            arch: HostArch::X86,
            os: HostOS::MacOS
        }))
    );
    assert_eq!(
        node::download_prebuilt(&host(HostOS::Windows, HostArch::S390x), &version, None),
        Err(DownloadError::Unsupported(PluginError::UnsupportedTarget {
            tool: "Node.js".into(),
            arch: HostArch::S390x,
            os: HostOS::Windows
        }))
    );
}

#[test]
fn maps_architectures() {
    assert_eq!(
        node::map_arch(HostOS::Linux, HostArch::Arm),
        Ok("armv7l".to_string())
    );
    assert_eq!(
        node::map_arch(HostOS::Linux, HostArch::Powerpc64),
        Ok("ppc64le".to_string())
    );
    assert_eq!(
        node::map_arch(HostOS::MacOS, HostArch::Powerpc64),
        Ok("ppc64".to_string())
    );
    assert_eq!(
        node::map_arch(HostOS::Windows, HostArch::X86),
        Ok("x86".to_string())
    );
    assert!(node::map_arch(HostOS::Linux, HostArch::Riscv64).is_err());
}

#[test]
fn takes_canary_from_the_nightly_index() {
    let env = host(HostOS::Linux, HostArch::X64);

    assert_eq!(
        node::download_prebuilt(&env, &VersionSpec::Canary, None),
        Ok(DownloadStep::NeedsNightlyIndex)
    );
    assert_eq!(
        node::download_prebuilt(&env, &VersionSpec::Canary, Some(&vec![])),
        Err(DownloadError::NoNightlyBuild)
    );

    let index = vec![
        NodeDistVersion {
            lts: NodeDistLTS::State(false),
            npm: None,
            version: "21.0.0-nightly2023".into(),
        },
        NodeDistVersion {
            lts: NodeDistLTS::State(false),
            npm: None,
            version: "20.0.0".into(),
        },
    ];
    let newest = VersionSpec::parse("21.0.0-nightly2023").unwrap();
    let text = newest.to_string();

    match node::download_prebuilt(&env, &VersionSpec::Canary, Some(&index)) {
        Ok(DownloadStep::Located(output)) => {
            assert_eq!(
                output.download_url,
                format!(
                    "https://nodejs.org/download/nightly/v{}/node-v{}-linux-x64.tar.xz",
                    text, text
                )
            );
            assert_eq!(
                output.checksum_url,
                Some(format!(
                    "https://nodejs.org/download/nightly/v{}/SHASUMS256.txt",
                    text
                ))
            );
        }
        other => panic!("no archive: {:?}", other),
    }
}

#[test]
fn locates_unix_bin() {
    assert_eq!(
        node::locate_executables(HostOS::Linux)
            .primary
            .unwrap()
            .exe_path,
        Some("bin/node".into())
    );
    assert_eq!(
        node::locate_bins(HostOS::MacOS).bin_path,
        Some("bin/node".into())
    );
}

#[test]
fn locates_windows_bin() {
    assert_eq!(
        node::locate_executables(HostOS::Windows)
            .primary
            .unwrap()
            .exe_path,
        Some("node.exe".into())
    );
    assert_eq!(
        node::locate_bins(HostOS::Windows).bin_path,
        Some("node.exe".into())
    );
}

#[test]
fn locates_archives_by_the_text_of_a_version() {
    assert_eq!(
        depman::download_prebuilt(PackageManager::Yarn, "1.22.19"),
        DownloadPrebuiltOutput {
            archive_prefix: Some("yarn-v1.22.19".into()),
            checksum_url: None,
            download_name: None,
            download_url: "https://registry.npmjs.org/yarn/-/yarn-1.22.19.tgz".into(),
        }
    );
    assert_eq!(
        depman::download_prebuilt(PackageManager::Npm, "9.0.0"),
        DownloadPrebuiltOutput {
            archive_prefix: Some("package".into()),
            checksum_url: None,
            download_name: None,
            download_url: "https://registry.npmjs.org/npm/-/npm-9.0.0.tgz".into(),
        }
    );
}
