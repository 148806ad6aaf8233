use node_plugins::node;
use node_plugins::node_depman;
use node_plugins::node_depman::version_file::{find_requested_version, split_corepack};
use node_plugins::package_json::{Engine, PackageJson, VoltaField};
use node_plugins::package_manager::PackageManager;
use node_plugins::version::UnresolvedVersionSpec;
use serde_json::Value;

fn text(value: &Value, key: &str) -> Option<String> {
    value
        .get(key)
        .and_then(|field| field.as_str())
        .map(|field| field.to_string())
}

fn decode(content: &str) -> Option<PackageJson> {
    let value: Value = serde_json::from_str(content).ok()?;

    Some(PackageJson {
        bin: None,
        engines: value
            .get("engines")
            .and_then(|engines| engines.as_object())
            .map(|engines| {
                engines
                    .iter()
                    .map(|(name, constraint)| Engine {
                        name: name.clone(),
                        constraint: constraint.as_str().unwrap().to_string(),
                    })
                    .collect()
            }),
        main: text(&value, "main"),
        package_manager: text(&value, "packageManager"),
        version: text(&value, "version"),
        volta: value.get("volta").map(|volta| VoltaField {
            node: text(volta, "node"),
            npm: text(volta, "npm"),
            pnpm: text(volta, "pnpm"),
            yarn: text(volta, "yarn"),
        }),
    })
}

fn parse_for(id: &str, content: &str) -> Option<UnresolvedVersionSpec> {
    node_depman::parse_version_file(
        PackageManager::detect(id),
        "package.json",
        decode(content).as_ref(),
    )
    .unwrap()
}

fn parse_for_node(file: &str, content: &str) -> Option<UnresolvedVersionSpec> {
    let package = if file == "package.json" {
        decode(content)
    } else {
        None
    };

    node::parse_version_file(file, content, package.as_ref()).unwrap()
}

fn version(text: &str) -> Option<UnresolvedVersionSpec> {
    Some(UnresolvedVersionSpec::parse(text).unwrap())
}

#[test]
fn versions_test_doesnt_parse_package_manager_if_diff_name() {
    assert_eq!(
        parse_for("npm-test", r#"{ "packageManager": "yarn@1.2.3" }"#),
        None
    );
    assert_eq!(
        parse_for("pnpm-test", r#"{ "packageManager": "yarn@1.2.3" }"#),
        None
    );
    assert_eq!(
        parse_for("yarn-test", r#"{ "packageManager": "pnpm@1.2.3" }"#),
        None
    );
}

#[test]
fn versions_test_parses_package_manager() {
    assert_eq!(
        parse_for("npm-test", r#"{ "packageManager": "npm@1.2.3" }"#),
        version("1.2.3")
    );
    assert_eq!(
        parse_for("pnpm-test", r#"{ "packageManager": "pnpm@1.2.3" }"#),
        version("1.2.3")
    );
    assert_eq!(
        parse_for("yarn-test", r#"{ "packageManager": "yarn@1.2.3" }"#),
        version("1.2.3")
    );
}

#[test]
fn parses_package_manager_with_hash() {
    assert_eq!(
        parse_for(
            "npm-test",
            r#"{ "packageManager": "npm@1.2.3+sha256.c362077587b1e782e5aef3dcf85826399ae552ad66b760e2585c4ac11102243f" }"#
        ),
        version("1.2.3")
    );
}

#[test]
fn strips_the_hash_for_the_named_manager_only() {
    let content = r#"{"packageManager": "yarn@1.2.3+sha256.abcd"}"#;

    assert_eq!(parse_for("yarn-test", content), version("1.2.3"));
    assert_eq!(parse_for("npm-test", content), None);
}

#[test]
fn versions_test_parses_package_manager_latest() {
    assert_eq!(
        parse_for("npm-test", r#"{ "packageManager": "npm" }"#),
        version("latest")
    );
    assert_eq!(
        parse_for("pnpm-test", r#"{ "packageManager": "pnpm" }"#),
        version("latest")
    );
    assert_eq!(
        parse_for("yarn-test", r#"{ "packageManager": "yarn" }"#),
        version("latest")
    );
    assert_eq!(
        version("latest"),
        Some(UnresolvedVersionSpec::Alias("latest".into()))
    );
}

#[test]
fn versions_test_parses_engines() {
    assert_eq!(
        parse_for("npm-test", r#"{ "engines": { "npm": "1.2.3" } }"#),
        version("1.2.3")
    );
    assert_eq!(
        parse_for("pnpm-test", r#"{ "engines": { "pnpm": "1.2.3" } }"#),
        version("1.2.3")
    );
    assert_eq!(
        parse_for("yarn-test", r#"{ "engines": { "yarn": "1.2.3" } }"#),
        version("1.2.3")
    );
    assert_eq!(
        parse_for_node("package.json", r#"{ "engines": { "node": ">=16" } }"#),
        version(">=16")
    );
}

#[test]
fn versions_test_parses_volta() {
    assert_eq!(
        parse_for("npm-test", r#"{ "volta": { "npm": "1.2.3" } }"#),
        version("1.2.3")
    );
    assert_eq!(
        parse_for("pnpm-test", r#"{ "volta": { "pnpm": "1.2.3" } }"#),
        version("1.2.3")
    );
    assert_eq!(
        parse_for("yarn-test", r#"{ "volta": { "yarn": "1.2.3" } }"#),
        version("1.2.3")
    );
    assert_eq!(
        parse_for_node("package.json", r#"{ "volta": { "node": "16.20.2" } }"#),
        version("16.20.2")
    );
}

#[test]
fn parses_nvmrc() {
    assert_eq!(parse_for_node(".nvmrc", "~20"), version("~20"));
}

#[test]
fn parses_nvmrc_with_comment() {
    assert_eq!(
        parse_for_node(".nvmrc", "# comment\n^20.1"),
        version("^20.1")
    );
}

#[test]
fn parses_node_version() {
    assert_eq!(parse_for_node(".node-version", "~20"), version("~20"));
}

#[test]
fn parses_node_version_with_comment() {
    assert_eq!(
        parse_for_node(".node-version", "# comment\n^20.1"),
        version("^20.1")
    );
}

#[test]
fn strips_one_comment_line() {
    assert_eq!(node::version_file::strip_comment("# a\n18.0.0"), "18.0.0");
    assert_eq!(node::version_file::strip_comment("#\n# b\n18"), "# b\n18");
    assert_eq!(node::version_file::strip_comment("# only"), "");
    assert_eq!(node::version_file::strip_comment("18 # x"), "18 # x");
    assert_eq!(node::version_file::strip_comment(""), "");
}

#[test]
fn takes_a_malformed_package_json_as_silent() {
    assert_eq!(decode("{ not json"), None);
    assert_eq!(
        node_depman::parse_version_file(PackageManager::Npm, "package.json", None),
        Ok(None)
    );
    assert_eq!(
        node::parse_version_file("package.json", "{ not json", None),
        Ok(None)
    );
}

#[test]
fn looks_at_package_json_only() {
    let package = decode(r#"{ "packageManager": "npm@1.2.3" }"#);

    assert_eq!(
        node_depman::parse_version_file(PackageManager::Npm, ".npmrc", package.as_ref()),
        Ok(None)
    );
}

#[test]
fn package_manager_field_comes_before_engines_and_volta() {
    let content = r#"{
        "packageManager": "pnpm@8.1.0",
        "engines": { "pnpm": "7.0.0", "npm": "9.1.0" },
        "volta": { "pnpm": "6.0.0", "npm": "8.0.0", "yarn": "1.22.19" }
    }"#;

    assert_eq!(parse_for("pnpm-test", content), version("8.1.0"));
    assert_eq!(parse_for("npm-test", content), version("9.1.0"));
    assert_eq!(parse_for("yarn-test", content), version("1.22.19"));
}

#[test]
fn fails_on_a_version_that_is_none() {
    let package = decode(r#"{ "packageManager": "npm@1.2.3.4.5" }"#);
    let result =
        node_depman::parse_version_file(PackageManager::Npm, "package.json", package.as_ref());

    assert_eq!(result.unwrap_err().text, "1.2.3.4.5");
}

#[test]
fn takes_the_corepack_field_apart() {
    assert_eq!(
        split_corepack("yarn@1.2.3+sha256.abcd"),
        ("yarn".to_string(), "1.2.3".to_string())
    );
    assert_eq!(
        split_corepack("npm"),
        ("npm".to_string(), "latest".to_string())
    );
    assert_eq!(
        split_corepack("npm@9.0.0@next"),
        ("npm".to_string(), "9.0.0".to_string())
    );
    assert_eq!(
        split_corepack("@scope/tool@1.0.0"),
        ("".to_string(), "scope/tool".to_string())
    );
    assert_eq!(split_corepack("npm@"), ("npm".to_string(), "".to_string()));
    assert_eq!(split_corepack(""), ("".to_string(), "latest".to_string()));
}

#[test]
fn finds_the_first_engine_of_a_name() {
    let package = PackageJson {
        bin: None,
        engines: Some(vec![
            Engine {
                name: "node".into(),
                constraint: ">=18".into(),
            },
            Engine {
                name: "npm".into(),
                constraint: "^9".into(),
            },
            Engine {
                name: "npm".into(),
                constraint: "^10".into(),
            },
        ]),
        main: None,
        package_manager: None,
        version: None,
        volta: None,
    };

    assert_eq!(
        find_requested_version("npm", &package),
        Some("^9".to_string())
    );
    assert_eq!(
        find_requested_version("node", &package),
        Some(">=18".to_string())
    );
    assert_eq!(find_requested_version("yarn", &package), None);
}
