use scratch_lang::lsp::analysis::{Analyzer, Document};
use scratch_lang::lsp::protocol::{Position, SymbolKind};
use scratch_lang::lsp::server::{frame_message, header_length, LspServer, Notification, Request, Response};

const URI: &str = "file:///game/main.sch";

fn open(server: &mut LspServer, text: &str) -> Document {
    server.handle_notification(Notification::DidOpen { uri: URI.to_string(), version: 1, text: text.to_string() });
    let d = server.get_document(URI).expect("document stored");
    Document::new(d.uri.clone(), d.version, d.text.clone())
}

#[test]
fn test_lsp_diagnostics_on_open() {
    let mut server = LspServer::new();
    let outgoing = server
        .handle_notification(Notification::DidOpen {
            uri: URI.to_string(),
            version: 1,
            text: "when start:\n    moov(Player, 5)\n".to_string(),
        })
        .expect("Expected diagnostics notification");
    assert_eq!(outgoing.len(), 1);
    assert_eq!(outgoing[0].uri, "file:///game/main.sch");
    let diags = &outgoing[0].diagnostics;
    assert!(!diags.is_empty());
    assert_eq!(diags[0].code.as_deref(), Some("SL003"));
    assert!(diags[0].message.contains("Did you mean 'move'?"));
}

#[test]
fn test_lsp_completions() {
    let mut server = LspServer::new();
    open(&mut server, "when start:\n    ");
    let resp = server.handle_request(Request::Completion {
        uri: URI.to_string(),
        position: Position { line: 1, character: 4 },
    });
    let items = match resp {
        Response::Completions(items) => items,
        _ => panic!("Expected completions"),
    };
    assert!(items.iter().any(|i| i.label == "move"));
    assert!(items.iter().any(|i| i.label == "jump"));
    assert!(items.iter().any(|i| i.label == "scene.switch"));
}

#[test]
fn test_lsp_hover() {
    let mut server = LspServer::new();
    open(&mut server, "when start:\n    move(Player, 5)\n");
    let resp = server.handle_request(Request::Hover { uri: URI.to_string(), position: Position { line: 1, character: 6 } });
    let hover = match resp {
        Response::Hover(Some(h)) => h,
        _ => panic!("Expected hover"),
    };
    assert!(hover.contents.value.contains("move"));
    assert!(
        hover.contents.value.contains("Moves the specified target object horizontally")
            || hover.contents.value.contains("Move an object")
    );
}

#[test]
fn test_lsp_formatting() {
    let mut server = LspServer::new();
    open(&mut server, "when start:\n score=0\n");
    let edits = match server.handle_request(Request::Formatting { uri: URI.to_string() }) {
        Response::Edits(e) => e,
        _ => panic!("Expected edits"),
    };
    assert_eq!(edits.len(), 1);
    assert!(edits[0].new_text.contains("    score = 0"));
}

#[test]
fn test_lsp_document_symbols() {
    let mut server = LspServer::new();
    open(
        &mut server,
        "when start:\n    score = 0\n\nwhen action.down(\"right\"):\n    move(Player, 5)\n",
    );
    let symbols = match server.handle_request(Request::DocumentSymbol { uri: URI.to_string() }) {
        Response::Symbols(s) => s,
        _ => panic!("Expected symbols"),
    };
    assert_eq!(symbols.len(), 2);
    assert_eq!(symbols[0].name, "when start");
    assert_eq!(symbols[1].name, "when action.down(\"right\")");
    assert_eq!(symbols[1].kind, SymbolKind::Event);
    assert_eq!(symbols[1].detail.as_deref(), Some("1 statements"));
    assert_eq!(symbols[1].range.start.line, 3);
    assert_eq!(symbols[1].range.end.line, 8);
}

#[test]
fn requests_about_unknown_documents_and_methods() {
    let mut server = LspServer::new();
    assert!(matches!(server.handle_request(Request::Initialize), Response::Initialized(_)));
    match server.handle_request(Request::DocumentSymbol { uri: "file:///nowhere.sch".to_string() }) {
        Response::Symbols(s) => assert!(s.is_empty()),
        _ => panic!("Expected symbols"),
    }
    match server.handle_request(Request::Unknown { method: "workspace/foo".to_string() }) {
        Response::MethodNotFound(m) => assert_eq!(m, "workspace/foo"),
        _ => panic!("Expected method not found"),
    }
    open(&mut server, "when start:\n    say(Player, \"é\")\n");
    let resp = server.handle_request(Request::Completion {
        uri: URI.to_string(),
        position: Position { line: 1, character: 18 },
    });
    assert!(matches!(resp, Response::InternalError));
    assert!(!server.is_shutdown());
    assert!(matches!(server.handle_request(Request::Shutdown), Response::ShutdownAck));
    assert!(server.is_shutdown());
}

#[test]
fn syntax_errors_become_one_located_diagnostic() {
    let analyzer = Analyzer::new();
    let doc = Document::new(URI.to_string(), 1, "when start\n".to_string());
    let diags = analyzer.compute_diagnostics(&doc);
    assert_eq!(diags.len(), 1);
    assert_eq!(diags[0].code.as_deref(), Some("SYNTAX"));
    assert!(diags[0].message.starts_with("Parse error at line 1:"));
    assert_eq!(diags[0].range.start.line, 0);
    assert_eq!(diags[0].range.end.character, diags[0].range.start.character + 4);
}

#[test]
fn completions_follow_the_text_before_the_cursor() {
    let analyzer = Analyzer::new();
    let doc = Document::new(URI.to_string(), 1, "when action.down(\"\nscene.switch(\"\n".to_string());
    let items = analyzer.compute_completions(&doc, Position { line: 0, character: 18 });
    let labels: Vec<&str> = items.iter().map(|i| i.label.as_str()).collect();
    assert_eq!(labels, vec!["left", "right", "up", "down", "jump", "action"]);
    let items = analyzer.compute_completions(&doc, Position { line: 1, character: 14 });
    let labels: Vec<&str> = items.iter().map(|i| i.label.as_str()).collect();
    assert_eq!(labels, vec!["main", "level1", "level2", "gameover"]);
    let empty = Document::new(URI.to_string(), 1, String::new());
    let items = analyzer.compute_completions(&empty, Position { line: 0, character: 0 });
    assert_eq!(items[0].label, "when start:");
    assert_eq!(items[8].label, "when");
    let mv = items.iter().find(|i| i.label == "move").unwrap();
    assert_eq!(mv.insert_text.as_deref(), Some("move(${1:Player}, ${2:5}, ${3:5})"));
    assert_eq!(mv.detail.as_deref(), Some("move(target: Object, x: Number, y: Number)"));
}

#[test]
fn hover_on_keywords_objects_and_dotted_names() {
    let analyzer = Analyzer::new();
    let doc = Document::new(URI.to_string(), 1, "when start:\n    scene.switch(\"a\")\n    Hazard\n".to_string());
    let h = analyzer.compute_hover(&doc, Position { line: 0, character: 1 }).unwrap();
    assert!(h.contents.value.starts_with("### `when <event>:`"));
    let h = analyzer.compute_hover(&doc, Position { line: 1, character: 5 }).unwrap();
    assert!(h.contents.value.starts_with("### `scene.switch(name: String) -> Void`"));
    let h = analyzer.compute_hover(&doc, Position { line: 2, character: 6 }).unwrap();
    assert!(h.contents.value.contains("Game Object: `Hazard`"));
    assert!(analyzer.compute_hover(&doc, Position { line: 9, character: 0 }).is_none());
}

#[test]
fn documents_are_found_by_normalized_uri_and_closed() {
    let mut server = LspServer::new();
    server.handle_notification(Notification::DidOpen {
        uri: "file:///C%3A/My%20Game/main.sch".to_string(),
        version: 1,
        text: "when start:\n    x = 1\n".to_string(),
    });
    assert!(server.get_document("file:///c:/my game/main.sch").is_some());
    server.handle_notification(Notification::DidChange {
        uri: "file:///C%3A/My%20Game/main.sch".to_string(),
        version: 2,
        text: "when update:\n".to_string(),
    });
    let d = server.get_document("file:///C%3A/My%20Game/main.sch").unwrap();
    assert_eq!(d.version, 2);
    assert_eq!(d.text, "when update:\n");
    server.handle_notification(Notification::DidClose { uri: "FILE:///c%3a/my game/MAIN.sch".to_string() });
    assert!(server.get_document("file:///C%3A/My%20Game/main.sch").is_none());
    assert!(!server.is_shutdown());
    server.handle_notification(Notification::Exit);
    assert!(server.is_shutdown());
}

#[test]
fn document_lines() {
    let d = Document::new(URI.to_string(), 1, "a\r\nbé\n".to_string());
    assert_eq!(d.line_count(), 2);
    assert_eq!(d.get_line(1).as_deref(), Some("bé"));
    assert_eq!(d.get_line(2), None);
    assert_eq!(d.last_line_len(), 3);
    assert_eq!(Document::new(URI.to_string(), 1, String::new()).line_count(), 1);
}

#[test]
fn test_lsp_initialize_handshake() {
    let mut server = LspServer::new();
    match server.handle_request(Request::Initialize) {
        Response::Initialized(c) => {
            assert!(c.hover_provider);
            assert!(c.document_formatting_provider);
            assert!(c.document_symbol_provider);
            assert_eq!(c.text_document_sync, 1);
            assert_eq!(c.completion_trigger_characters, vec![".", "(", "\"", " "]);
            assert_eq!(c.server_name, "scratch-lsp");
        },
        _ => panic!("Expected result"),
    }
}

#[test]
fn transport_headers_and_frames() {
    assert_eq!(header_length("Content-Length: 42"), Some(Some(42)));
    assert_eq!(header_length("Content-Length:7  "), Some(Some(7)));
    assert_eq!(header_length("Content-Length: x"), Some(None));
    assert_eq!(header_length("Content-Type: utf-8"), None);
    assert_eq!(header_length("content-length: 3"), None);
    assert_eq!(frame_message("{\"id\":1}"), "Content-Length: 8\r\n\r\n{\"id\":1}");
    assert_eq!(frame_message("é"), "Content-Length: 2\r\n\r\né");
}

#[test]
fn documents_survive_closing_other_uris() {
    let mut server = LspServer::new();
    for (uri, text) in [("file:///a/one.sch", "when start:\n"), ("file:///a/Two%20B.sch", "when update:\n")] {
        server.handle_notification(Notification::DidOpen { uri: uri.to_string(), version: 1, text: text.to_string() });
    }
    server.handle_notification(Notification::DidClose { uri: "FILE:///A/ONE.SCH".to_string() });
    assert!(server.get_document("file:///a/one.sch").is_none());
    assert_eq!(server.get_document("file:///a/two b.sch").unwrap().text, "when update:\n");
    server.handle_notification(Notification::DidOpen { uri: "file:///a/one.sch".to_string(), version: 3, text: "x = 1\n".to_string() });
    assert_eq!(server.get_document("file:///A/One.sch").unwrap().version, 3);
}
