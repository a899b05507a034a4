use scratch_lang::assets::{AssetCategory, AssetFile, AssetIndex};
use scratch_lang::blocks::registry::BlockRegistry;
use scratch_lang::cli::project_cmd::{
    asset_subfolder, resolve_entry_file, scene_file_name, scene_file_names, scene_stem, source_file_config,
    EntryLocation,
};
use scratch_lang::cli::studio::{
    block_summaries, body_start, check_code, compile_code, content_length, format_code, guess_mime_type,
    parse_usize_exec, request_method_and_uri, response_header, route_request, starter_config, trigger_label,
    StudioRoute, STARTER_CODE,
};
use scratch_lang::ir::IrTrigger;
use scratch_lang::language::parse;

#[test]
fn request_line_gives_method_and_target() {
    let req = "GET /api/project HTTP/1.1\r\nHost: localhost\r\n\r\n";
    assert_eq!(request_method_and_uri(req), Some(("GET".to_string(), "/api/project".to_string())));
    assert_eq!(request_method_and_uri("  POST\t/api/save  \nX: y"), Some(("POST".to_string(), "/api/save".to_string())));
    assert_eq!(request_method_and_uri("GET\r\n/next-line"), None);
    assert_eq!(request_method_and_uri(""), None);
}

#[test]
fn content_length_reads_the_last_header() {
    let req = "POST /api/check HTTP/1.1\r\nContent-Length: 12\r\n\r\n{\"code\":\"\"}";
    assert_eq!(content_length(req), 12);
    assert_eq!(content_length("POST / HTTP/1.1\r\ncontent-LENGTH:  7 \r\n\r\n"), 7);
    assert_eq!(content_length("POST / HTTP/1.1\r\nContent-Length: abc\r\n\r\n"), 0);
    assert_eq!(content_length("POST / HTTP/1.1\r\nContent-Length: 3\r\nContent-Length: 9\r\n"), 9);
    assert_eq!(content_length("GET / HTTP/1.1\r\nHost: x\r\n\r\n"), 0);
}

#[test]
fn usize_parsing_follows_str_parse() {
    assert_eq!(parse_usize_exec("42"), Some(42));
    assert_eq!(parse_usize_exec("+5"), Some(5));
    assert_eq!(parse_usize_exec(""), None);
    assert_eq!(parse_usize_exec("+"), None);
    assert_eq!(parse_usize_exec("-1"), None);
    assert_eq!(parse_usize_exec("99999999999999999999999"), None);
}

#[test]
fn body_starts_after_the_blank_line() {
    assert_eq!(body_start(b"GET / HTTP/1.1\r\n\r\nbody"), Some(18));
    assert_eq!(body_start(b"a\n\nb"), Some(3));
    assert_eq!(body_start(b"a\r\nb\n\n\r\n\r\n"), Some(10));
    assert_eq!(body_start(b"no blank line"), None);
}

#[test]
fn requests_are_routed() {
    assert_eq!(route_request("GET", "/"), StudioRoute::Page);
    assert_eq!(route_request("GET", "/index.html"), StudioRoute::Page);
    assert_eq!(route_request("GET", "/api/project"), StudioRoute::ProjectInfo);
    assert_eq!(route_request("POST", "/api/check"), StudioRoute::Check);
    assert_eq!(route_request("POST", "/api/format"), StudioRoute::Format);
    assert_eq!(route_request("POST", "/api/save"), StudioRoute::Save);
    assert_eq!(route_request("POST", "/api/compile"), StudioRoute::Compile);
    assert_eq!(route_request("GET", "/api/check"), StudioRoute::NotFound);
    assert_eq!(route_request("GET", "/assets/sprites/p.png"), StudioRoute::Asset("assets/sprites/p.png".to_string()));
    assert_eq!(route_request("DELETE", "/assets/x"), StudioRoute::Asset("assets/x".to_string()));
    assert_eq!(route_request("GET", "/favicon.ico"), StudioRoute::NotFound);
}

#[test]
fn mime_types_by_extension() {
    assert_eq!(guess_mime_type("png"), "image/png");
    assert_eq!(guess_mime_type("jpeg"), "image/jpeg");
    assert_eq!(guess_mime_type("ogg"), "audio/ogg");
    assert_eq!(guess_mime_type("css"), "text/css");
    assert_eq!(guess_mime_type(""), "application/octet-stream");
    assert_eq!(guess_mime_type("PNG"), "application/octet-stream");
}

#[test]
fn response_header_text() {
    assert_eq!(
        response_header(404, "Not Found", "text/plain", 13),
        "HTTP/1.1 404 Not Found\r\nContent-Type: text/plain\r\nContent-Length: 13\r\nConnection: close\r\nAccess-Control-Allow-Origin: *\r\n\r\n"
    );
}

#[test]
fn check_reports_findings_or_the_syntax_error() {
    let registry = BlockRegistry::core_blocks();
    let ok = check_code("when start:\n    score = 0\n", &registry, Vec::new());
    assert!(ok.success);
    assert!(ok.errors.is_empty());

    let unknown = check_code("when start:\n    move(Hero, 5)\n", &registry, Vec::new());
    assert!(unknown.success);
    assert!(!unknown.warnings.is_empty());
    let known = check_code("when start:\n    move(Hero, 5)\n", &registry, vec!["Hero".to_string()]);
    assert!(known.warnings.len() < unknown.warnings.len());

    let bad = check_code("when start\n", &registry, Vec::new());
    assert!(!bad.success);
    assert!(bad.warnings.is_empty());
    assert_eq!(bad.errors.len(), 1);
    assert_eq!(bad.errors[0].code, "SYNTAX_ERROR");
    assert_eq!(bad.errors[0].message, parse("when start\n").unwrap_err());
    assert_eq!((bad.errors[0].line, bad.errors[0].column), (1, 1));
}

#[test]
fn format_returns_code_unchanged_on_error() {
    let ok = format_code("when start:\n    x=1\n");
    assert!(ok.success);
    assert_eq!(ok.formatted, "when start:\n    x = 1\n");
    assert_eq!(ok.error, None);
    let bad = format_code("when start\n");
    assert!(!bad.success);
    assert_eq!(bad.formatted, "when start\n");
    assert!(bad.error.is_some());
}

#[test]
fn compile_lists_every_handler() {
    let registry = BlockRegistry::core_blocks();
    let r = compile_code("when start:\n    score = 1\n\nwhen action.down(\"right\"):\n    move(Player, 5)\n", &registry);
    assert!(r.success);
    assert_eq!(r.events_count, 2);
    assert!(r.total_instructions > 0);
    assert!(r.disassembly.starts_with("=== Chunk: OnStart ===\n0000 "));
    assert!(r.disassembly.contains("=== Chunk: OnActionDown(\"right\") ===\n"));
    assert!(r.disassembly.ends_with("\n\n"));
    assert_eq!(r.error, None);

    let bad = compile_code("when start\n", &registry);
    assert!(!bad.success);
    assert_eq!(bad.events_count, 0);
    assert_eq!(bad.total_instructions, 0);
    assert_eq!(bad.disassembly, "");
    assert_eq!(bad.error, Some(format!("Parse error: {}", parse("when start\n").unwrap_err())));
}

#[test]
fn trigger_labels_read_like_debug_output() {
    assert_eq!(trigger_label(&IrTrigger::OnStart), "OnStart");
    assert_eq!(trigger_label(&IrTrigger::OnActionDown("right".to_string())), "OnActionDown(\"right\")");
    assert_eq!(
        trigger_label(&IrTrigger::OnTouches { object_a: "A".to_string(), object_b: "B\"".to_string() }),
        "OnTouches { object_a: \"A\", object_b: \"B\\\"\" }"
    );
    assert_eq!(
        trigger_label(&IrTrigger::OnTimer { seconds: 5, repeating: true }),
        "OnTimer { seconds: 5, repeating: true }"
    );
}

#[test]
fn block_catalogue_is_sorted_by_category_then_name() {
    let registry = BlockRegistry::core_blocks();
    let list = block_summaries(&registry);
    assert_eq!(list.len(), registry.iter().len());
    for pair in list.windows(2) {
        let a = (&pair[0].category, &pair[0].name);
        let b = (&pair[1].category, &pair[1].name);
        assert!(a <= b, "{:?} before {:?}", a, b);
    }
    let mv = list.iter().find(|b| b.name == "move").expect("move listed");
    assert_eq!(mv.category, "Movement");
}

#[test]
fn starter_project_settings() {
    let c = starter_config("demo");
    assert_eq!(c.name, "demo");
    assert_eq!(c.entry, "src/main.sch");
    assert!(parse(STARTER_CODE).is_ok());
}

#[test]
fn entry_file_is_found_in_order() {
    assert_eq!(resolve_entry_file(true, "game.sch", false, false, false), EntryLocation::SourceFile);
    assert_eq!(resolve_entry_file(true, "project.schproj", true, true, true), EntryLocation::ProjectFile);
    assert_eq!(resolve_entry_file(true, "notes.txt", false, false, true), EntryLocation::DirectMain);
    assert_eq!(resolve_entry_file(false, "game.sch", true, true, true), EntryLocation::ProjectDirectory);
    assert_eq!(resolve_entry_file(false, "dir", false, true, true), EntryLocation::SrcMain);
    assert_eq!(resolve_entry_file(false, "dir", false, false, false), EntryLocation::NotFound);
    let c = source_file_config("/tmp/x/game.sch", "game.sch");
    assert_eq!(c.name, "game");
    assert_eq!(c.entry, "/tmp/x/game.sch");
}

#[test]
fn scene_names_and_files() {
    assert_eq!(scene_file_name("level"), "level.scene");
    assert_eq!(scene_file_name("level.scene"), "level.scene");
    assert_eq!(scene_stem("level.scene"), "level");
    assert_eq!(scene_stem("a.scene.scene"), "a");
    assert_eq!(scene_stem("plain"), "plain");
    let names = vec!["a.scene".to_string(), "b.txt".to_string(), ".scene".to_string(), "c.scene".to_string()];
    assert_eq!(scene_file_names(&names), vec!["a.scene".to_string(), "c.scene".to_string()]);
}

#[test]
fn added_assets_go_to_their_folder() {
    assert_eq!(asset_subfolder(Some("sounds"), "png"), "sounds");
    assert_eq!(asset_subfolder(Some("music"), "png"), "music");
    assert_eq!(asset_subfolder(Some("font"), "wav"), "fonts");
    assert_eq!(asset_subfolder(None, "ogg"), "sounds");
    assert_eq!(asset_subfolder(None, "otf"), "fonts");
    assert_eq!(asset_subfolder(Some("image"), "png"), "sprites");
    assert_eq!(asset_subfolder(None, ""), "sprites");
}

#[test]
fn scanned_files_index_by_stem() {
    let mut index = AssetIndex::new();
    let files = vec![
        AssetFile { category: AssetCategory::Sprite, file_name: "hero.png".to_string(), path: "a/sprites/hero.png".to_string() },
        AssetFile { category: AssetCategory::Sound, file_name: "jump.wav".to_string(), path: "a/sounds/jump.wav".to_string() },
        AssetFile { category: AssetCategory::Music, file_name: "hero.ogg".to_string(), path: "a/music/hero.ogg".to_string() },
    ];
    index.scan_directory(&files);
    let hero = index.get("hero").expect("hero indexed");
    assert_eq!(hero.category, AssetCategory::Music);
    assert_eq!(hero.extension, "ogg");
    assert_eq!(hero.relative_path, "a/music/hero.ogg");
    assert!(index.has_sound("jump"));
    assert_eq!(index.count_category(AssetCategory::Music), 1);
    assert_eq!(index.count_category(AssetCategory::Sprite), 0);
    assert_eq!(index.iter().len(), 2);
}
