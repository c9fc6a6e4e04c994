//! Tests of the manifest grammar and the typed loaders.

use bifrost::config::BifrostManifest;
use bifrost::errors::ConfigError;
use bifrost::manifest::ManifestConfig;
use bifrost::parse::{parse_line, parse_manifest_doc, parse_value, LineParsed, ManifestValue};

const USER_CONFIG: &str = r#"[project]
name = "project name"

[container]
name = "docker"

[workspace]
name = "name of workspace"
ignore = ["target", ".git", ".gitignore"]

[command]
cmds = ["echo hello world"]
        "#;

#[test]
fn parse_user_config() {
    let parsed_config = ManifestConfig::load(Some(USER_CONFIG)).expect("manifest should load");
    assert_eq!("docker", parsed_config.container.name);
}

#[test]
fn user_config_fields() {
    let m = ManifestConfig::load(Some(USER_CONFIG)).unwrap();
    assert_eq!(m.project.name, "project name");
    assert_eq!(m.workspace.name, "name of workspace");
    assert_eq!(m.workspace.ignore, vec!["target", ".git", ".gitignore"]);
    assert_eq!(m.command.cmds, vec!["echo hello world"]);
}

#[test]
fn test_default_manifest() {
    // Constructing the in-memory default must not fail.
    let _dm = BifrostManifest::default();
}

#[test]
fn default_manifest_round_trips() {
    let parsed = BifrostManifest::from_text(BifrostManifest::default_text())
        .expect("the default manifest text should parse");
    assert_eq!(parsed.project.unwrap().name.unwrap(), "project name");
    assert_eq!(parsed.container.unwrap().name.unwrap(), "docker");
    let ws = parsed.workspace.unwrap();
    assert_eq!(ws.name.unwrap(), "name of current workspace");
    assert_eq!(ws.ignore.unwrap(), vec!["target", ".git", ".gitignore"]);
    assert_eq!(parsed.command.unwrap().cmd.unwrap(), vec!["command string"]);
}

#[test]
fn default_value_matches_parsed_text() {
    let built = BifrostManifest::default();
    let parsed = BifrostManifest::from_text(BifrostManifest::default_text()).unwrap();
    assert_eq!(built.project.unwrap().name, parsed.project.unwrap().name);
    assert_eq!(built.container.unwrap().name, parsed.container.unwrap().name);
    let bw = built.workspace.unwrap();
    let pw = parsed.workspace.unwrap();
    assert_eq!(bw.name, pw.name);
    assert_eq!(bw.ignore, pw.ignore);
    assert_eq!(built.command.unwrap().cmd, parsed.command.unwrap().cmd);
}

#[test]
fn absent_optional_manifest_is_not_found() {
    match BifrostManifest::load(None) {
        Err(ConfigError::NotFound) => {}
        other => panic!("expected NotFound, got {:?}", other),
    }
}

#[test]
fn lenient_manifest_treats_wrong_shapes_as_absent() {
    let text = "[project]\nname = [\"not\", \"a\", \"string\"]\n";
    let m = BifrostManifest::from_text(text).unwrap();
    let project = m.project.expect("the section itself is present");
    assert!(project.name.is_none());
    assert!(m.container.is_none());
    assert!(m.workspace.is_none());
    assert!(m.command.is_none());
}

#[test]
fn absent_manifest_is_not_found() {
    match ManifestConfig::load(None) {
        Err(ConfigError::NotFound) => {}
        other => panic!("expected NotFound, got {:?}", other),
    }
}

#[test]
fn missing_required_section_is_malformed() {
    let text = "[project]\nname = \"p\"\n";
    match ManifestConfig::load(Some(text)) {
        Err(ConfigError::Malformed) => {}
        other => panic!("expected Malformed, got {:?}", other),
    }
}

#[test]
fn wrongly_shaped_command_list_is_malformed() {
    let text = "[project]\nname = \"p\"\n[container]\nname = \"docker\"\n[workspace]\nname = \"w\"\nignore = []\n[command]\ncmds = \"echo hi\"\n";
    match ManifestConfig::load(Some(text)) {
        Err(ConfigError::Malformed) => {}
        other => panic!("expected Malformed, got {:?}", other),
    }
}

#[test]
fn unparsable_text_is_malformed() {
    match ManifestConfig::load(Some("not a manifest at all")) {
        Err(ConfigError::Malformed) => {}
        other => panic!("expected Malformed, got {:?}", other),
    }
}

#[test]
fn entry_before_any_section_is_malformed() {
    match parse_manifest_doc("name = \"p\"\n[project]\n") {
        Err(ConfigError::Malformed) => {}
        other => panic!("expected Malformed, got {:?}", other),
    }
}

#[test]
fn unknown_sections_and_keys_are_ignored() {
    let text = "[mystery]\nwhatever = \"x\"\n[project]\nname = \"p\"\nextra = \"y\"\n[container]\nname = \"docker\"\n[workspace]\nname = \"w\"\nignore = []\n[command]\ncmds = [\"echo hi\"]\n";
    let m = ManifestConfig::load(Some(text)).expect("unknown parts must not break loading");
    assert_eq!(m.project.name, "p");
    assert_eq!(m.workspace.ignore, Vec::<String>::new());
}

#[test]
fn first_section_of_a_name_wins() {
    let text = "[project]\nname = \"first\"\n[project]\nname = \"second\"\n[container]\nname = \"docker\"\n[workspace]\nname = \"w\"\nignore = []\n[command]\ncmds = [\"c\"]\n";
    let m = ManifestConfig::load(Some(text)).unwrap();
    assert_eq!(m.project.name, "first");
}

#[test]
fn comments_and_blank_lines_are_skipped() {
    let text = "# a comment\n\n   \t\n[project]\nname = \"p\"\n[container]\nname = \"docker\"\n[workspace]\nname = \"w\"\nignore = []\n[command]\n# another comment\ncmds = [\"c\"]\n";
    let m = ManifestConfig::load(Some(text)).unwrap();
    assert_eq!(m.command.cmds, vec!["c"]);
}

#[test]
fn carriage_returns_are_trimmed() {
    let text = "[project]\r\nname = \"p\"\r\n[container]\r\nname = \"docker\"\r\n[workspace]\r\nname = \"w\"\r\nignore = []\r\n[command]\r\ncmds = [\"c\"]\r\n";
    let m = ManifestConfig::load(Some(text)).unwrap();
    assert_eq!(m.container.name, "docker");
}

#[test]
fn line_forms() {
    assert!(matches!(parse_line("   "), LineParsed::Blank));
    assert!(matches!(parse_line("# note"), LineParsed::Blank));
    match parse_line("  [ project ]  ") {
        LineParsed::Header(name) => assert_eq!(name, "project"),
        other => panic!("expected a header, got {:?}", other),
    }
    match parse_line("name = \"p\"") {
        LineParsed::Entry(e) => {
            assert_eq!(e.key, "name");
            match e.value {
                ManifestValue::Str(s) => assert_eq!(s, "p"),
                other => panic!("expected a string, got {:?}", other),
            }
        }
        other => panic!("expected an entry, got {:?}", other),
    }
    assert!(matches!(parse_line("[]"), LineParsed::Bad));
    assert!(matches!(parse_line("no equals sign"), LineParsed::Bad));
    assert!(matches!(parse_line(" = \"v\""), LineParsed::Bad));
}

#[test]
fn list_values() {
    match parse_value("[]") {
        Some(ManifestValue::List(items)) => assert!(items.is_empty()),
        other => panic!("expected an empty list, got {:?}", other),
    }
    match parse_value("[\"a\", \"b\",]") {
        Some(ManifestValue::List(items)) => assert_eq!(items, vec!["a", "b"]),
        other => panic!("expected a two-item list, got {:?}", other),
    }
    match parse_value("[\"with, comma\"]") {
        Some(ManifestValue::List(items)) => assert_eq!(items, vec!["with, comma"]),
        other => panic!("expected one item, got {:?}", other),
    }
    assert!(parse_value("[\"unterminated]").is_none());
    assert!(parse_value("[\"a\" \"b\"]").is_none());
    assert!(parse_value("\"inner \" quote\"").is_none());
    assert!(parse_value("bare").is_none());
}
