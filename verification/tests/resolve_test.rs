use node_plugins::node;
use node_plugins::node_depman;
use node_plugins::node_depman::resolve::{
    find_bundled_npm, resolve_bundled, resolve_bundled_from_node, ResolveStep,
};
use node_plugins::node_dist::{NodeDistLTS, NodeDistVersion};
use node_plugins::package_manager::PackageManager;
use node_plugins::resolution::ResolveVersionOutput;
use node_plugins::version::{UnresolvedVersionSpec, VersionSpec};

fn release(version: &str, npm: Option<&str>) -> NodeDistVersion {
    NodeDistVersion {
        lts: NodeDistLTS::State(false),
        npm: npm.map(|npm| npm.to_string()),
        version: version.into(),
    }
}

fn index() -> Vec<NodeDistVersion> {
    vec![
        release("v21.0.0", None),
        release("v20.0.0", Some("9.6.4")),
        release("v18.0.0", Some("8.6.0")),
        release("v18.0.0", Some("0.0.1")),
        release("v0.1.0", Some("not a version")),
    ]
}

fn alias(name: &str) -> UnresolvedVersionSpec {
    UnresolvedVersionSpec::Alias(name.into())
}

fn nothing() -> ResolveVersionOutput {
    ResolveVersionOutput {
        candidate: None,
        version: None,
    }
}

fn resolved(version: &str) -> ResolveVersionOutput {
    ResolveVersionOutput {
        candidate: None,
        version: Some(VersionSpec::parse(version).unwrap()),
    }
}

fn candidate(text: &str) -> Result<ResolveStep, node_plugins::version::InvalidVersion> {
    Ok(ResolveStep::Done(ResolveVersionOutput {
        candidate: Some(UnresolvedVersionSpec::parse(text).unwrap()),
        version: None,
    }))
}

#[test]
fn resolves_bundled_from_the_active_node() {
    assert_eq!(
        node_depman::resolve_version(PackageManager::Npm, &alias("bundled")),
        Ok(ResolveStep::NeedsBundledNpm)
    );
    assert_eq!(
        resolve_bundled(&index(), Some("v20.0.0")),
        Ok(Some(resolved("9.6.4")))
    );
    assert_eq!(
        resolve_bundled(&index(), Some("18.0.0")),
        Ok(Some(resolved("8.6.0")))
    );
}

#[test]
fn asks_for_the_running_node_where_the_hint_fails() {
    assert_eq!(resolve_bundled(&index(), None), Ok(None));
    assert_eq!(resolve_bundled(&index(), Some("v19.0.0")), Ok(None));
    // A release that names no npm is passed over.
    assert_eq!(resolve_bundled(&index(), Some("v21.0.0")), Ok(None));
    assert_eq!(
        resolve_bundled_from_node(&index(), "v20.0.0\n"),
        Ok(resolved("9.6.4"))
    );
    assert_eq!(
        resolve_bundled_from_node(&index(), "  v18.0.0 \r\n"),
        Ok(resolved("8.6.0"))
    );
}

#[test]
fn falls_back_to_latest() {
    let latest = ResolveVersionOutput {
        candidate: Some(alias("latest")),
        version: None,
    };

    assert_eq!(resolve_bundled_from_node(&index(), "v19.0.0\n"), Ok(latest));

    let latest = ResolveVersionOutput {
        candidate: Some(alias("latest")),
        version: None,
    };

    // What the running node prints carries the `v`.
    assert_eq!(resolve_bundled_from_node(&index(), "20.0.0"), Ok(latest));
}

#[test]
fn fails_on_a_bundled_npm_that_is_no_version() {
    assert_eq!(
        resolve_bundled(&index(), Some("0.1.0")).unwrap_err().text,
        "not a version"
    );
    assert_eq!(
        resolve_bundled_from_node(&index(), "v0.1.0")
            .unwrap_err()
            .text,
        "not a version"
    );
}

#[test]
fn finds_the_first_release_with_an_npm() {
    let index = index();

    assert_eq!(
        find_bundled_npm(&index, "v18.0.0", false),
        Some(&"8.6.0".to_string())
    );
    assert_eq!(find_bundled_npm(&index, "18.0.0", false), None);
    assert_eq!(
        find_bundled_npm(&index, "18.0.0", true),
        Some(&"8.6.0".to_string())
    );
    assert_eq!(find_bundled_npm(&vec![], "v18.0.0", true), None);
}

#[test]
fn leaves_other_specifications_of_npm_and_pnpm_alone() {
    for manager in [PackageManager::Npm, PackageManager::Pnpm] {
        for text in ["latest", "berry", "9.0.0", "~9"] {
            assert_eq!(
                node_depman::resolve_version(
                    manager,
                    &UnresolvedVersionSpec::parse(text).unwrap()
                ),
                Ok(ResolveStep::Done(nothing()))
            );
        }
    }

    assert_eq!(
        node_depman::resolve_version(PackageManager::Pnpm, &alias("bundled")),
        Ok(ResolveStep::Done(nothing()))
    );
}

#[test]
fn resolves_the_lines_of_yarn_to_ranges() {
    let yarn = PackageManager::Yarn;

    assert_eq!(
        node_depman::resolve_version(yarn, &alias("berry")),
        candidate("~4")
    );
    assert_eq!(
        node_depman::resolve_version(yarn, &alias("latest")),
        candidate("~4")
    );
    assert_eq!(
        node_depman::resolve_version(yarn, &alias("legacy")),
        candidate("~1")
    );
    assert_eq!(
        node_depman::resolve_version(yarn, &alias("classic")),
        candidate("~1")
    );
    assert_eq!(
        node_depman::resolve_version(yarn, &alias("bundled")),
        Ok(ResolveStep::Done(nothing()))
    );
    assert_eq!(
        node_depman::resolve_version(yarn, &UnresolvedVersionSpec::parse("3.6.1").unwrap()),
        Ok(ResolveStep::Done(nothing()))
    );
}

#[test]
fn resolves_the_aliases_of_node() {
    let to = |name: &str| ResolveVersionOutput {
        candidate: Some(alias(name)),
        version: None,
    };

    assert_eq!(node::resolve_version(&alias("node")), to("latest"));
    assert_eq!(node::resolve_version(&alias("lts")), to("stable"));
    assert_eq!(node::resolve_version(&alias("lts-latest")), to("stable"));
    assert_eq!(node::resolve_version(&alias("lts-*")), to("stable"));
    assert_eq!(node::resolve_version(&alias("lts/*")), to("stable"));
    assert_eq!(node::resolve_version(&alias("lts-gallium")), to("gallium"));
    assert_eq!(node::resolve_version(&alias("lts/fermium")), to("fermium"));
    assert_eq!(node::resolve_version(&alias("lts-")), to(""));
    assert_eq!(node::resolve_version(&alias("stable")), nothing());
    assert_eq!(node::resolve_version(&alias("ltsx")), nothing());
    assert_eq!(
        node::resolve_version(&UnresolvedVersionSpec::parse("20.0.0").unwrap()),
        nothing()
    );
    assert_eq!(
        node::resolve_version(&UnresolvedVersionSpec::Canary),
        nothing()
    );
}
