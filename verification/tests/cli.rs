use scratch_lang::blocks::types::BlockCategory;
use scratch_lang::cli::config::CliConfig;
use scratch_lang::cli::package::{hex_decode, hex_encode, is_left_out, FilePayload, ScratchPackage};
use scratch_lang::cli::snippets::get_category_snippets;
use scratch_lang::cli::studio_page::render_studio_html;
use scratch_lang::cli::templates::{get_template_code, PLATFORMER_TEMPLATE, STARTER_TEMPLATE};
use scratch_lang::language::parse;

#[test]
fn config_get_set_and_reset() {
    let mut c = CliConfig::with_author("ada");
    assert_eq!(c.get("AUTHOR").as_deref(), Some("ada"));
    assert_eq!(c.get("port").as_deref(), Some("8080"));
    assert_eq!(c.get("nope"), None);
    assert!(c.set("template", "Platformer").is_ok());
    assert_eq!(c.default_template, "platformer");
    assert_eq!(
        c.set("template", "rpg").unwrap_err(),
        "Invalid template 'rpg'. Valid options: starter, platformer, coins, dialogue, motion, lists"
    );
    assert_eq!(c.set("preview", "tv").unwrap_err(), "Invalid preview mode 'tv'. Valid options: popup, window, headless");
    assert!(c.set("preview", "Headless").is_ok());
    assert_eq!(c.preview_mode, "headless");
    assert!(c.set("port", "9000").is_ok());
    assert_eq!(c.studio_port, 9000);
    assert_eq!(c.set("port", "70000").unwrap_err(), "Port must be a valid number (1-65535)");
    assert_eq!(c.set("colour", "red").unwrap_err(), "Unknown configuration key 'colour'");
    c.reset("bob");
    assert_eq!(c.default_author, "bob");
    assert_eq!(c.default_template, "starter");
    assert_eq!(CliConfig::config_path("/home/ada"), "/home/ada/.scratch/config.json");
    assert_eq!(CliConfig::config_path("/home/ada/"), "/home/ada/.scratch/config.json");
    assert_eq!(CliConfig::config_dir(""), ".scratch");
}

#[test]
fn templates_by_name_parse() {
    assert_eq!(get_template_code("PLATFORMER"), PLATFORMER_TEMPLATE);
    assert_eq!(get_template_code("unknown"), STARTER_TEMPLATE);
    for name in ["starter", "platformer", "coins", "dialogue", "motion", "lists", "Dialogue"] {
        assert!(parse(get_template_code(name)).is_ok(), "{name} parses");
    }
}

#[test]
fn studio_page_names_the_project() {
    let html = render_studio_html("Space Cats");
    assert!(html.starts_with("<!DOCTYPE html>"));
    assert_eq!(html.matches("Space Cats").count(), 3);
    assert!(!html.contains("{name}"));
}

#[test]
fn category_snippets() {
    let s = get_category_snippets(BlockCategory::Audio);
    assert_eq!(s.len(), 5);
    assert_eq!(s[0], ("sound.play(\"coin\")".to_string(), "Play sound effect"));
    let lists = get_category_snippets(BlockCategory::Custom);
    assert_eq!(lists[0].0, "list.add(\"inventory\", \"sword\")");
}

#[test]
fn payloads_roundtrip() {
    let bytes = vec![0u8, 1, 15, 16, 171, 255];
    assert_eq!(hex_encode(&bytes), "00010f10abff");
    assert_eq!(hex_decode("00010f10abff"), bytes);
    assert_eq!(hex_decode("AB+fzz7"), vec![171, 15, 0]);
    let p = FilePayload::from_file("png", &vec![1, 2, 3]);
    assert!(p.is_binary);
    assert_eq!(p.content, "010203");
    assert_eq!(p.to_bytes(), vec![1, 2, 3]);
    let text = "when start:\n    say(Player, \"héllo\")\n".as_bytes().to_vec();
    let t = FilePayload::from_file("sch", &text);
    assert!(!t.is_binary);
    assert_eq!(t.to_bytes(), text);
    assert!(FilePayload::from_file("txt", &vec![65, 0, 66]).is_binary);
    assert!(is_left_out("target/debug"));
    assert!(is_left_out(".gitignore"));
    assert!(is_left_out("game.scratch"));
    assert!(!is_left_out("src/main.sch"));
    let pkg = ScratchPackage::new("game".into(), "now".into(), vec![("src/main.sch".into(), t)]);
    assert_eq!(pkg.format, "scratch-package-v1");
    assert_eq!(pkg.entry, "src/main.sch");
}

#[test]
fn config_reads_back_what_was_written() {
    let mut c = CliConfig::with_author("ada");
    assert!(c.set("PORT", "0080").is_ok());
    assert_eq!(c.get("studio_port").as_deref(), Some("80"));
    assert!(c.set("Template", "MOTION").is_ok());
    assert_eq!(c.get("template").as_deref(), Some("motion"));
    assert!(c.set("editor", "Vim").is_ok());
    assert_eq!(c.get("EDITOR").as_deref(), Some("Vim"));
    assert_eq!(c.get("author").as_deref(), Some("ada"));
    assert!(c.set("colour", "red").is_err());
    assert_eq!(c.get("colour"), None);
}
