use node_plugins::host::HostOS;
use node_plugins::package_manager::PackageManager;
use node_plugins::version::UnresolvedVersionSpec;

fn spec(text: &str) -> UnresolvedVersionSpec {
    UnresolvedVersionSpec::parse(text).unwrap()
}

#[test]
fn detects_manager_from_identifier() {
    assert_eq!(PackageManager::detect("yarn-test"), PackageManager::Yarn);
    assert_eq!(PackageManager::detect("my-YARN"), PackageManager::Yarn);
    assert_eq!(PackageManager::detect("pnpm-test"), PackageManager::Pnpm);
    assert_eq!(PackageManager::detect("PnPm"), PackageManager::Pnpm);
    assert_eq!(PackageManager::detect("npm-test"), PackageManager::Npm);
    assert_eq!(PackageManager::detect("something"), PackageManager::Npm);
    assert_eq!(PackageManager::detect(""), PackageManager::Npm);
    assert_eq!(PackageManager::detect("pnpm-yarn"), PackageManager::Yarn);
}

#[test]
fn names_managers() {
    assert_eq!(PackageManager::Npm.to_string(), "npm");
    assert_eq!(PackageManager::Pnpm.to_string(), "pnpm");
    assert_eq!(PackageManager::Yarn.to_string(), "yarn");
}

#[test]
fn tells_the_lines_of_yarn_apart() {
    let yarn = PackageManager::Yarn;

    for text in ["legacy", "classic", "1.22.19", "1.0.0", "~1", "^1.2"] {
        assert!(yarn.is_yarn_classic(&spec(text)), "{}", text);
        assert!(!yarn.is_yarn_berry(&spec(text)), "{}", text);
    }

    for text in ["berry", "latest", "2.4.3", "4.1.0", "~4", "^3.6"] {
        assert!(yarn.is_yarn_berry(&spec(text)), "{}", text);
        assert!(!yarn.is_yarn_classic(&spec(text)), "{}", text);
    }

    // An alias outside the known ones and version 0 are of neither line.
    for text in ["stable", "canary", "0.28.4", "*"] {
        assert!(!yarn.is_yarn_berry(&spec(text)), "{}", text);
        assert!(!yarn.is_yarn_classic(&spec(text)), "{}", text);
    }
}

#[test]
fn only_yarn_has_lines() {
    for manager in [PackageManager::Npm, PackageManager::Pnpm] {
        for text in ["legacy", "berry", "latest", "1.2.3", "3.0.0", "~1", "~4"] {
            assert!(!manager.is_yarn_classic(&spec(text)));
            assert!(!manager.is_yarn_berry(&spec(text)));
        }
    }
}

#[test]
fn names_the_registry_package() {
    let yarn = PackageManager::Yarn;

    assert_eq!(yarn.get_package_name(&spec("1.22.19")), "yarn");
    assert_eq!(yarn.get_package_name(&spec("1.0.0")), "yarn");
    assert_eq!(yarn.get_package_name(&spec("2.0.0")), "@yarnpkg/cli-dist");
    assert_eq!(yarn.get_package_name(&spec("3.6.1")), "@yarnpkg/cli-dist");
    assert_eq!(yarn.get_package_name(&spec("berry")), "@yarnpkg/cli-dist");
    assert_eq!(yarn.get_package_name(&spec("latest")), "@yarnpkg/cli-dist");
    assert_eq!(yarn.get_package_name(&spec("classic")), "yarn");
    assert_eq!(yarn.get_package_name(&spec("0.1.2")), "yarn");
    assert_eq!(PackageManager::Npm.get_package_name(&spec("9.0.0")), "npm");
    assert_eq!(PackageManager::Npm.get_package_name(&spec("latest")), "npm");
    assert_eq!(PackageManager::Pnpm.get_package_name(&spec("8.0.0")), "pnpm");
}

#[test]
fn computes_the_globals_prefix() {
    let npm = PackageManager::Npm;

    assert_eq!(
        npm.get_globals_dir_prefix(HostOS::Linux, "/.proto/tools/node/globals/bin"),
        "/.proto/tools/node/globals"
    );
    assert_eq!(
        npm.get_globals_dir_prefix(HostOS::MacOS, "/home/bin/tools/bin"),
        "/home/bin/tools"
    );
    assert_eq!(
        npm.get_globals_dir_prefix(HostOS::Windows, "/.proto/tools/node/globals/bin"),
        "/.proto/tools/node/globals/bin"
    );
    assert_eq!(npm.get_globals_dir_prefix(HostOS::Linux, ""), "");
}
