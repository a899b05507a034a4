use scratch_lang::language::ast::{AssignOp, BinaryOp, EventKind, Expr, Statement};
use scratch_lang::language::lexer::tokenize;
use scratch_lang::language::parse;
use scratch_lang::language::token::TokenKind;

fn num(n: &str) -> TokenKind {
    TokenKind::Number(n.to_string())
}

#[test]
fn test_lex_simple_event() {
    let code = r#"
when start:
    score = 0
"#;
    let tokens = tokenize(code).expect("tokenization succeeds");
    let kinds: Vec<_> = tokens.into_iter().map(|t| t.kind).collect();

    assert_eq!(
        kinds,
        vec![
            TokenKind::When,
            TokenKind::Start,
            TokenKind::Colon,
            TokenKind::Newline,
            TokenKind::Indent,
            TokenKind::Ident("score".into()),
            TokenKind::Assign,
            num("0"),
            TokenKind::Newline,
            TokenKind::Dedent,
            TokenKind::Eof,
        ]
    );
}

#[test]
fn test_lex_action_down() {
    let code = r#"
when action.down("right"):
    move(Player, 5)
"#;
    let tokens = tokenize(code).expect("tokenization succeeds");
    let kinds: Vec<_> = tokens.into_iter().map(|t| t.kind).collect();

    assert_eq!(
        kinds,
        vec![
            TokenKind::When,
            TokenKind::Ident("action".into()),
            TokenKind::Dot,
            TokenKind::Ident("down".into()),
            TokenKind::LParen,
            TokenKind::StringLit("right".into()),
            TokenKind::RParen,
            TokenKind::Colon,
            TokenKind::Newline,
            TokenKind::Indent,
            TokenKind::Ident("move".into()),
            TokenKind::LParen,
            TokenKind::Ident("Player".into()),
            TokenKind::Comma,
            num("5"),
            TokenKind::RParen,
            TokenKind::Newline,
            TokenKind::Dedent,
            TokenKind::Eof,
        ]
    );
}

#[test]
fn test_lex_touches_event() {
    let code = "when Player touches Coin:\n    collect(Coin)";
    let tokens = tokenize(code).expect("tokenization succeeds");
    let kinds: Vec<_> = tokens.into_iter().map(|t| t.kind).collect();

    assert_eq!(
        kinds,
        vec![
            TokenKind::When,
            TokenKind::Ident("Player".into()),
            TokenKind::Touches,
            TokenKind::Ident("Coin".into()),
            TokenKind::Colon,
            TokenKind::Newline,
            TokenKind::Indent,
            TokenKind::Ident("collect".into()),
            TokenKind::LParen,
            TokenKind::Ident("Coin".into()),
            TokenKind::RParen,
            TokenKind::Newline,
            TokenKind::Dedent,
            TokenKind::Eof,
        ]
    );
}

#[test]
fn test_parse_milestone1_program() {
    let code = r#"
when start:
    score = 0

when action.down("right"):
    move(Player, 5)
"#;
    let program = parse(code).expect("parsing succeeds");
    assert_eq!(program.events.len(), 2);

    let ev1 = &program.events[0];
    assert_eq!(ev1.kind, EventKind::Start);
    assert_eq!(ev1.body.len(), 1);
    match &ev1.body[0] {
        Statement::Assign { target, op, value, .. } => {
            assert_eq!(target, "score");
            assert_eq!(*op, AssignOp::Assign);
            match value {
                Expr::Number(n, _) => assert_eq!(n.parse::<f64>().unwrap(), 0.0),
                _ => panic!("Expected number"),
            }
        }
        _ => panic!("Expected assignment"),
    }

    let ev2 = &program.events[1];
    assert_eq!(ev2.kind, EventKind::ActionDown("right".into()));
    assert_eq!(ev2.body.len(), 1);
    match &ev2.body[0] {
        Statement::Call { target, name, args, .. } => {
            assert_eq!(target, &None);
            assert_eq!(name, "move");
            assert_eq!(args.len(), 2);
            match &args[0] {
                Expr::Ident(id, _) => assert_eq!(id, "Player"),
                _ => panic!("Expected identifier Player"),
            }
            match &args[1] {
                Expr::Number(n, _) => assert_eq!(n.parse::<f64>().unwrap(), 5.0),
                _ => panic!("Expected number 5"),
            }
        }
        _ => panic!("Expected call statement"),
    }
}

#[test]
fn test_parse_if_condition() {
    let code = r#"
when update:
    if health <= 0:
        respawn(Player)
        health = 3
"#;
    let program = parse(code).expect("parsing succeeds");
    assert_eq!(program.events.len(), 1);
    let ev = &program.events[0];
    assert_eq!(ev.kind, EventKind::Update);
    assert_eq!(ev.body.len(), 1);
    match &ev.body[0] {
        Statement::If { condition, then_body, else_body, .. } => {
            assert!(else_body.is_none());
            assert_eq!(then_body.len(), 2);
            match condition {
                Expr::Binary { op, .. } => assert_eq!(*op, BinaryOp::LessEqual),
                _ => panic!("Expected binary condition"),
            }
        }
        _ => panic!("Expected if statement"),
    }
}

#[test]
fn lexer_reports_errors_with_locations() {
    let e = tokenize("x = !a").unwrap_err();
    assert_eq!(e.message, "Unexpected character '!'. Did you mean '!='?");
    assert_eq!((e.span.line, e.span.col, e.span.start, e.span.end), (1, 5, 4, 5));
    let e = tokenize("when start:\n    say(\"hi\n").unwrap_err();
    assert_eq!(e.message, "Unterminated string literal: unexpected newline in string");
    let e = tokenize("x = \"abc").unwrap_err();
    assert_eq!(e.message, "Unterminated string literal: reached end of file");
    let e = tokenize("x = 1.2.3").unwrap_err();
    assert_eq!(e.message, "Failed to parse number: invalid float literal");
    let e = tokenize("x = @").unwrap_err();
    assert_eq!(e.message, "Unexpected character '@'");
    let e = tokenize("when start:\n        a = 1\n    b = 2\n").unwrap_err();
    assert_eq!(e.message, "Inconsistent indentation: 4 spaces does not match any outer indentation level");
}

#[test]
fn lexer_handles_escapes_comments_and_utf8_offsets() {
    let toks = tokenize("s = \"a\\\"b\\n\" # note\né = 1.5").unwrap();
    assert_eq!(toks[2].kind, TokenKind::StringLit("a\"b\n".into()));
    assert_eq!(toks[3].kind, TokenKind::Newline);
    assert_eq!(toks[4].kind, TokenKind::Ident("é".into()));
    assert_eq!(toks[5].span.start, 23);
    assert_eq!(toks[6].kind, num("1.5"));
    let toks = tokenize("a\tb").unwrap();
    assert_eq!(toks[1].span.col, 3);
}

#[test]
fn parser_reports_errors() {
    assert_eq!(parse("when start\n    x = 1\n").unwrap_err(), "Parse error at line 1:11: Expected ':' after event declaration");
    assert_eq!(parse("x + 1\n").unwrap_err(), "Parse error at line 1:5: Unexpected expression statement");
    assert_eq!(parse("when action.jump(\"a\"):\n    x = 1\n").unwrap_err(), "Parse error at line 1:22: Unknown action event 'jump'");
    assert_eq!(parse("x = !\n").unwrap_err(), "Lexer error at line 1:5: Unexpected character '!'. Did you mean '!='?");
}

#[test]
fn parser_handles_functions_timers_and_precedence() {
    let p = parse("function f(a, b):\n    return a + b * 2\n\nevery 2.9 seconds:\n    f(1, 2)\nafter 3 seconds:\n    x = -y or not z\n").unwrap();
    assert_eq!(p.functions.len(), 1);
    assert_eq!(p.functions[0].params, vec!["a".to_string(), "b".to_string()]);
    assert_eq!(p.events[0].kind, EventKind::EverySeconds(2));
    assert_eq!(p.events[1].kind, EventKind::AfterSeconds(3));
    match &p.functions[0].body[0] {
        Statement::Return { value: Some(Expr::Binary { op, right, .. }), .. } => {
            assert_eq!(*op, BinaryOp::Add);
            assert!(matches!(**right, Expr::Binary { op: BinaryOp::Mul, .. }));
        }
        _ => panic!("Expected return"),
    }
}

#[test]
fn formatting_formatted_code_changes_nothing() {
    use_formatter_on(&[
        scratch_lang::cli::templates::PLATFORMER_TEMPLATE,
        scratch_lang::cli::templates::COINS_TEMPLATE,
        scratch_lang::cli::templates::MOTION_TEMPLATE,
        scratch_lang::cli::templates::LISTS_TEMPLATE,
        scratch_lang::cli::templates::STARTER_TEMPLATE,
        "when start:\n    x = (a + b) * c\n    y = -(a - b)\n    if not (a and b) or c:\n        say(Player, \"hi\")\n    else:\n        z = 1.50\n",
        "function f(a, b):\n    return a + b\n\nwhen update:\n    repeat 3:\n        f(1, 2)\n",
    ]);
}

fn use_formatter_on(sources: &[&str]) {
    for s in sources {
        let once = scratch_lang::language::formatter::format_source(s).expect("formats");
        let twice = scratch_lang::language::formatter::format_source(&once).expect("formats again");
        assert_eq!(once, twice, "source:\n{}", s);
    }
}

#[test]
fn message_events_parse() {
    let p = parse("when message(\"game_over\"):\n    score = 100\n").unwrap();
    assert_eq!(p.events.len(), 1);
    assert_eq!(p.events[0].kind, EventKind::Message("game_over".into()));
    let p = parse("when scene.switched(\"level2\"):\n    x = 1\nwhen click(Player):\n    y = 2\n").unwrap();
    assert_eq!(p.events[0].kind, EventKind::Message("__scene_switched:level2".into()));
    assert_eq!(p.events[1].kind, EventKind::Message("__click:Player".into()));
    assert_eq!(
        parse("when click(\"Player\"):\n    x = 1\n").unwrap_err(),
        "Parse error at line 1:12: Expected object name in parentheses"
    );
    assert_eq!(
        parse("when scene.switched(level2):\n    x = 1\n").unwrap_err(),
        "Parse error at line 1:21: Expected scene name string in parentheses"
    );
    assert_eq!(
        parse("when message(game_over):\n    x = 1\n").unwrap_err(),
        "Parse error at line 1:14: Expected message name string in parentheses"
    );
}

#[test]
fn formatting_keeps_the_program() {
    let sources = [
        "when start:\n    x = (a + b) * c\n",
        "when start:\n    y = a - (b - c)\n    z = (a - b) - c\n    w = -(a + b)\n",
        "when start:\n    if not (a and b) or (c and d):\n        x = (1 + 2) * (3 + 4) / 5\n",
        "when message(\"scored\"):\n    score += 1\n",
        "when scene.switched(\"level2\"):\n    score = 0\nwhen click(Player):\n    jump(Player, 3)\n",
        scratch_lang::cli::templates::PLATFORMER_TEMPLATE,
        scratch_lang::cli::templates::DIALOGUE_TEMPLATE,
    ];
    let reg = scratch_lang::blocks::registry::BlockRegistry::core_blocks();
    for s in sources {
        let formatted = scratch_lang::language::formatter::format_source(s).expect("formats");
        let before = scratch_lang::ir::lower_ast_to_ir(&parse(s).unwrap(), &reg).expect("lowers");
        let after = scratch_lang::ir::lower_ast_to_ir(&parse(&formatted).unwrap(), &reg).expect("lowers again");
        assert_eq!(before, after, "source:\n{}\nformatted:\n{}", s, formatted);
    }
    let formatted = scratch_lang::language::formatter::format_source("when start:\n    x = (a + b) * c\n").unwrap();
    assert!(formatted.contains("x = (a + b) * c"), "{}", formatted);
}

#[test]
fn token_streams_end_with_eof_and_balance_indentation() {
    let src = "when start:\n    if a:\n        if b:\n            x = 1\n    y = 2\nwhen update:\n    z = 3";
    let toks = tokenize(src).unwrap();
    assert_eq!(toks.last().unwrap().kind, TokenKind::Eof);
    assert_eq!(toks.iter().filter(|t| t.kind == TokenKind::Eof).count(), 1);
    let mut depth: i64 = 0;
    for t in &toks {
        if t.kind == TokenKind::Indent {
            depth += 1;
        } else if t.kind == TokenKind::Dedent {
            depth -= 1;
        }
        assert!(depth >= 0);
    }
    assert_eq!(depth, 0);
}

#[test]
fn formatting_escapes_string_values() {
    let src = "when start:\n    say(Player, \"a\\\"b\\\\c\\nd\")\n";
    let formatted = scratch_lang::language::formatter::format_source(src).unwrap();
    assert!(formatted.contains("say(Player, \"a\\\"b\\\\c\\nd\")"), "{}", formatted);
    let reg = scratch_lang::blocks::registry::BlockRegistry::core_blocks();
    let before = scratch_lang::ir::lower_ast_to_ir(&parse(src).unwrap(), &reg).unwrap();
    let after = scratch_lang::ir::lower_ast_to_ir(&parse(&formatted).unwrap(), &reg).unwrap();
    assert_eq!(before, after);
}
