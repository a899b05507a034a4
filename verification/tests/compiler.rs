use scratch_lang::vm::VmError;
use scratch_lang::blocks::registry::BlockRegistry;
use scratch_lang::bytecode::{BytecodeCompiler, BytecodeValue, Chunk, OpCode};
use scratch_lang::ir::{lower_ast_to_ir, IrExpr, IrInstruction, IrTrigger, IrValue, LowerError};
use scratch_lang::language::formatter::format_source;
use scratch_lang::language::linter::{lint_source, Linter};
use scratch_lang::language::parse;

const MILESTONE1: &str = r#"
when start:
    score = 0

when action.down("right"):
    move(Player, 5)
"#;

fn number_value(e: &IrExpr) -> f64 {
    match e {
        IrExpr::Constant(IrValue::Number(t)) => t.parse::<f64>().unwrap(),
        _ => panic!("Expected number constant"),
    }
}

#[test]
fn test_lower_milestone1_program() {
    let ast = parse(MILESTONE1).expect("parse ok");
    let registry = BlockRegistry::core_blocks();
    let ir = lower_ast_to_ir(&ast, &registry).expect("lowering ok");

    assert_eq!(ir.events.len(), 2);
    assert_eq!(ir.events[0].trigger, IrTrigger::OnStart);
    assert_eq!(ir.events[1].trigger, IrTrigger::OnActionDown("right".into()));

    match &ir.events[0].instructions[0] {
        IrInstruction::Assign { target, expr } => {
            assert_eq!(target, "score");
            assert_eq!(number_value(expr), 0.0);
        }
        _ => panic!("Expected assign instruction"),
    }

    match &ir.events[1].instructions[0] {
        IrInstruction::CallBlock { name, args } => {
            assert_eq!(name, "move");
            assert_eq!(args.len(), 2);
            assert_eq!(args[0], IrExpr::Var("Player".into()));
            assert_eq!(number_value(&args[1]), 5.0);
        }
        _ => panic!("Expected CallBlock instruction"),
    }
}

#[test]
fn test_compile_milestone1_to_bytecode() {
    let ast = parse(MILESTONE1).expect("parse ok");
    let reg = BlockRegistry::core_blocks();
    let ir = lower_ast_to_ir(&ast, &reg).expect("ir ok");

    let mut compiler = BytecodeCompiler::new();
    let program = compiler.compile_program(&ir);

    assert_eq!(program.events.len(), 2);

    let start_chunk = &program.events[0].chunk;
    assert_eq!(start_chunk.instructions.len(), 3);
    assert!(matches!(start_chunk.instructions[0], OpCode::PushConst(_)));
    assert_eq!(start_chunk.instructions[1], OpCode::StoreVar("score".into()));
    assert_eq!(start_chunk.instructions[2], OpCode::Halt);

    let action_chunk = &program.events[1].chunk;
    assert_eq!(action_chunk.instructions.len(), 4);
    assert_eq!(action_chunk.instructions[0], OpCode::LoadVar("Player".into()));
    assert!(matches!(action_chunk.instructions[1], OpCode::PushConst(_)));
    assert_eq!(
        action_chunk.instructions[2],
        OpCode::CallBlock {
            name: "move".into(),
            arg_count: 2
        }
    );
    assert_eq!(action_chunk.instructions[3], OpCode::Halt);
}

#[test]
fn lowering_expands_compound_assignment_and_top_level() {
    let ast = parse("score = 1\nfunction bump(n):\n    score += n\n").expect("parse ok");
    let reg = BlockRegistry::core_blocks();
    let ir = lower_ast_to_ir(&ast, &reg).expect("ir ok");
    assert_eq!(ir.events.len(), 1);
    assert_eq!(ir.events[0].trigger, IrTrigger::OnStart);
    assert_eq!(ir.functions.len(), 1);
    assert_eq!(ir.functions[0].name, "bump");
    assert_eq!(ir.functions[0].params, vec!["n".to_string()]);
    match &ir.functions[0].instructions[0] {
        IrInstruction::Assign { target, expr } => {
            assert_eq!(target, "score");
            match expr {
                IrExpr::Binary { left, right, .. } => {
                    assert_eq!(**left, IrExpr::Var("score".into()));
                    assert_eq!(**right, IrExpr::Var("n".into()));
                }
                _ => panic!("expected binary"),
            }
        }
        _ => panic!("expected assign"),
    }
}

#[test]
fn lower_error_messages() {
    let e = LowerError::UnknownBlock { name: "moov".into(), help: "Did you mean \"move\"?".into() };
    assert_eq!(e.to_string(), "Unknown block 'moov'. Did you mean \"move\"?");
    assert_eq!(LowerError::Generic("bad".into()).to_string(), "Semantic error: bad");
}

#[test]
fn repeat_compiles_to_a_counted_loop() {
    let ast = parse("when start:\n    repeat 3:\n        score += 1\n").expect("parse ok");
    let reg = BlockRegistry::core_blocks();
    let ir = lower_ast_to_ir(&ast, &reg).expect("ir ok");
    let mut compiler = BytecodeCompiler::new();
    let program = compiler.compile_program(&ir);
    let chunk = &program.events[0].chunk;
    let expected = vec![
        OpCode::PushConst(0),
        OpCode::StoreVar("__loop_1".into()),
        OpCode::LoadVar("__loop_1".into()),
        OpCode::PushConst(1),
        OpCode::Greater,
        OpCode::JumpIfFalse(15),
        OpCode::LoadVar("score".into()),
        OpCode::PushConst(2),
        OpCode::Add,
        OpCode::StoreVar("score".into()),
        OpCode::LoadVar("__loop_1".into()),
        OpCode::PushConst(3),
        OpCode::Sub,
        OpCode::StoreVar("__loop_1".into()),
        OpCode::Jump(2),
        OpCode::Halt,
    ];
    assert_eq!(chunk.instructions, expected);
    assert_eq!(
        chunk.constants,
        vec![
            BytecodeValue::Number("3".into()),
            BytecodeValue::Number("0".into()),
            BytecodeValue::Number("1".into()),
            BytecodeValue::Number("1".into()),
        ]
    );
    // a second loop compiled by the same compiler gets the next counter
    let program2 = compiler.compile_program(&ir);
    assert_eq!(program2.events[0].chunk.instructions[1], OpCode::StoreVar("__loop_2".into()));
}

#[test]
fn if_else_jumps_over_branches() {
    let ast = parse("when start:\n    if a:\n        b = 1\n    else:\n        b = 2\n").expect("parse ok");
    let reg = BlockRegistry::core_blocks();
    let ir = lower_ast_to_ir(&ast, &reg).expect("ir ok");
    let program = BytecodeCompiler::new().compile_program(&ir);
    let ins = &program.events[0].chunk.instructions;
    assert_eq!(ins[0], OpCode::LoadVar("a".into()));
    assert_eq!(ins[1], OpCode::JumpIfFalse(5));
    assert_eq!(ins[4], OpCode::Jump(7));
    assert_eq!(ins[7], OpCode::Halt);
}

#[test]
fn functions_end_with_nil_return_and_later_definitions_replace_earlier() {
    let ast = parse("function f():\n    x = 1\nfunction f():\n    return 2\n").expect("parse ok");
    let reg = BlockRegistry::core_blocks();
    let ir = lower_ast_to_ir(&ast, &reg).expect("ir ok");
    let program = BytecodeCompiler::new().compile_program(&ir);
    assert_eq!(program.functions.len(), 1);
    assert_eq!(program.functions[0].0, "f");
    let ins = &program.functions[0].1.instructions;
    assert_eq!(ins[1], OpCode::Return);
    assert_eq!(ins[2], OpCode::PushNil);
    assert_eq!(ins[3], OpCode::Return);
}

#[test]
fn disassembly_lists_every_instruction() {
    let mut chunk = Chunk::new();
    let k = chunk.add_constant(BytecodeValue::Number("5.50".into()));
    chunk.emit(OpCode::PushConst(k));
    chunk.emit(OpCode::StoreVar("x".into()));
    let j = chunk.emit_jump(OpCode::Jump(0));
    chunk.emit(OpCode::Halt);
    chunk.patch_jump(j);
    assert_eq!(
        chunk.disassemble("main"),
        "=== Chunk: main ===\n0000 OP_PUSH_CONST 0 (5.5)\n0001 OP_STORE_VAR x\n0002 OP_JUMP -> 0004\n0003 Halt\n"
    );
    let list = BytecodeValue::List(vec![BytecodeValue::Nil, BytecodeValue::String("a".into()), BytecodeValue::Bool(true)]);
    assert_eq!(list.to_display_string(), "[nil, \"a\", true]");
    assert_eq!(BytecodeValue::Object("Player".into()).to_display_string(), "@Player");
}

#[test]
fn linter_reports_each_kind_of_problem() {
    let reg = BlockRegistry::core_blocks();
    let src = "when start:\n    moov(Player, 5)\n";
    let diags = lint_source(src, &reg).expect("parses");
    assert_eq!(diags.len(), 1);
    assert_eq!(diags[0].code, "SL003");
    assert_eq!(diags[0].suggestion.as_deref(), Some("move"));

    let src = "when Player touches Coyn:\n    x = scroe\n";
    let diags = lint_source(src, &reg).expect("parses");
    let codes: Vec<&str> = diags.iter().map(|d| d.code.as_str()).collect();
    assert_eq!(codes, vec!["SL001", "SL002"]);
    assert_eq!(diags[0].suggestion.as_deref(), Some("Coin"));

    let src = "when update:\n    scene.switch(\"a\")\n    return\n    move(Player)\n";
    let diags = lint_source(src, &reg).expect("parses");
    let codes: Vec<&str> = diags.iter().map(|d| d.code.as_str()).collect();
    assert_eq!(codes, vec!["SL007", "SL006", "SL004"]);
    assert_eq!(diags[2].message, "Command \"move\" expects between 2 and 3 arguments, but got 1.");

    let src = "when action.down(\"jumq\"):\n    repeat 0:\n        move(Player, 1)\n";
    let diags = lint_source(src, &reg).expect("parses");
    let codes: Vec<&str> = diags.iter().map(|d| d.code.as_str()).collect();
    assert_eq!(codes, vec!["SL010", "SL008"]);
    assert_eq!(diags[0].suggestion.as_deref(), Some("jump"));
    assert_eq!(diags[1].message, "Repeat count is 0 <= 0, body will never execute.");

    let ast = parse("when start:\n    touching(Ghost, Coin)\n").expect("parses");
    let mut linter = Linter::new(&reg).with_objects(vec!["Ghost".to_string()]);
    assert!(linter.lint_program(&ast).is_empty());

    assert!(lint_source("when start\n", &reg).is_err());
    assert!(format_source("when start:\n score=0\n").unwrap().contains("    score = 0"));
}

#[test]
fn vm_error_messages() {
    assert_eq!(
        VmError::OutOfFuel(100000).to_string(),
        "Execution exceeded step limit of 100000 instructions (infinite loop protection)"
    );
    assert_eq!(VmError::StackUnderflow.to_string(), "Stack underflow");
    assert_eq!(VmError::AssertionFailed.to_string(), "Assertion failed");
    assert_eq!(VmError::Runtime("bad".to_string()).to_string(), "Runtime error: bad");
}

#[test]
fn object_arguments_are_checked_against_known_objects() {
    let reg = BlockRegistry::core_blocks();
    let ast = parse("when Player touches Ghost:\n    collect(Ghost)\n").expect("parses");
    let diags = Linter::new(&reg).lint_program(&ast);
    let codes: Vec<&str> = diags.iter().map(|d| d.code.as_str()).collect();
    assert_eq!(codes, vec!["SL001", "SL001"]);
    assert!(diags[1].message.contains("Ghost"), "{}", diags[1].message);
    let mut linter = Linter::new(&reg).with_objects(vec!["Ghost".to_string()]);
    assert!(linter.lint_program(&ast).iter().all(|d| d.code != "SL001"));
}
