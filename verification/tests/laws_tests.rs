use cmm::compiler::code_gen::assembly_ast::{
    AssemblyAst, AssemblyBinaryOperator, AssemblyFunction, AssemblyInstruction, AssemblyOperand,
    AssemblyRegister,
};
use cmm::compiler::code_gen::{
    convert_ast, convert_pseudo_register, fixup_asm_instruction, instruction_conversion_pass,
    instruction_fixup_pass, pseudoregister_replacement_pass, stack_allocation_pass,
};
use cmm::compiler::ir_gen::tacky_ast::{
    TackyAst, TackyBinaryOperator, TackyFunction, TackyInstruction, TackyValue,
};
use cmm::compiler::ir_gen::TackyEmitter;
use cmm::compiler::lexer::tokens::Token;
use cmm::compiler::lexer::tokenize;
use cmm::compiler::parser::cmm_ast::{CmmBinaryOperator, CmmExpression};
use cmm::compiler::{run_cmm_compiler, CompilerResult, Stage};

fn operands(instruction: &AssemblyInstruction) -> Vec<&AssemblyOperand> {
    match instruction {
        AssemblyInstruction::Mov { source, destination } => vec![source, destination],
        AssemblyInstruction::Unary { operand, .. } => vec![operand],
        AssemblyInstruction::Binary { source, destination, .. } => vec![source, destination],
        AssemblyInstruction::Cmp { left, right } => vec![left, right],
        AssemblyInstruction::Idiv { operand } => vec![operand],
        AssemblyInstruction::SetCC { operand, .. } => vec![operand],
        _ => vec![],
    }
}

fn is_stack(operand: &AssemblyOperand) -> bool {
    matches!(operand, AssemblyOperand::Stack(_))
}

fn is_legal(instruction: &AssemblyInstruction) -> bool {
    if operands(instruction).iter().any(|operand| matches!(operand, AssemblyOperand::Pseudo(_))) {
        return false;
    }
    match instruction {
        AssemblyInstruction::Mov { source, destination } => !(is_stack(source) && is_stack(destination)),
        AssemblyInstruction::Binary { op: AssemblyBinaryOperator::Mult, destination, .. } => {
            !is_stack(destination)
        },
        AssemblyInstruction::Binary { source, destination, .. } => {
            !(is_stack(source) && is_stack(destination))
        },
        AssemblyInstruction::Cmp { left, right } => {
            !(is_stack(left) && is_stack(right)) && !matches!(right, AssemblyOperand::Imm(_))
        },
        AssemblyInstruction::Idiv { operand } => !matches!(operand, AssemblyOperand::Imm(_)),
        _ => true,
    }
}

fn render(tokens: &[Token]) -> String {
    let mut text = String::new();
    for token in tokens {
        let piece = match token {
            Token::Identifier(name) => name.clone(),
            Token::Constant(value) => value.to_string(),
            Token::IntKeyword => "int".to_string(),
            Token::VoidKeyword => "void".to_string(),
            Token::ReturnKeyword => "return".to_string(),
            Token::OpenParen => "(".to_string(),
            Token::CloseParen => ")".to_string(),
            Token::OpenBrace => "{".to_string(),
            Token::CloseBrace => "}".to_string(),
            Token::Semicolon => ";".to_string(),
            Token::Tilde => "~".to_string(),
            Token::Hyphen => "-".to_string(),
            Token::DoubleHyphen => "--".to_string(),
            Token::Plus => "+".to_string(),
            Token::Asterisk => "*".to_string(),
            Token::ForwardSlash => "/".to_string(),
            Token::Percent => "%".to_string(),
            Token::ExclamationMark => "!".to_string(),
            Token::DoubleAmpersand => "&&".to_string(),
            Token::DoublePipe => "||".to_string(),
            Token::DoubleEqual => "==".to_string(),
            Token::ExclamationEqual => "!=".to_string(),
            Token::LessThan => "<".to_string(),
            Token::GreaterThan => ">".to_string(),
            Token::LessThanEqual => "<=".to_string(),
            Token::GreaterThanEqual => ">=".to_string(),
        };
        text.push_str(&piece);
        text.push(' ');
    }
    text
}

const SOURCES: [&str; 6] = [
    "int main(void) { return 2; }",
    "int main(void) { return -(-2); }",
    "int main(void) { return 1 + 2 * 3; }",
    "int main(void) { return (1 && 0) || (2 != 3 && !4) || 5 >= 6; }",
    "int f(void){return ~-!1/2%3-4*5<6==7>8<=9;}",
    "--x int void return 0 007 ; ! != !! <= < = return_ intx",
];

#[test]
fn lexing_the_rendering_of_tokens_gives_the_tokens() {
    for source in SOURCES {
        let source = source.replace(" = ", " ");
        let tokens = tokenize(&source).unwrap();
        assert_eq!(tokenize(&render(&tokens)), Ok(tokens));
    }
}

#[test]
fn replacement_leaves_no_pseudo_register() {
    let name = |n: &str| AssemblyOperand::Pseudo(n.to_string());
    let mut instructions = vec![
        AssemblyInstruction::Mov { source: name("b"), destination: name("a") },
        AssemblyInstruction::Cmp { left: name("a"), right: name("c") },
        AssemblyInstruction::Idiv { operand: name("b") },
        AssemblyInstruction::Cdq,
        AssemblyInstruction::Binary {
            op: AssemblyBinaryOperator::Add,
            source: name("d"),
            destination: name("d"),
        },
    ];
    let offset = pseudoregister_replacement_pass(&mut instructions);
    assert_eq!(offset, -16);
    assert_eq!(
        instructions,
        vec![
            AssemblyInstruction::Mov {
                source: AssemblyOperand::Stack(-4),
                destination: AssemblyOperand::Stack(-8),
            },
            AssemblyInstruction::Cmp {
                left: AssemblyOperand::Stack(-8),
                right: AssemblyOperand::Stack(-12),
            },
            AssemblyInstruction::Idiv { operand: AssemblyOperand::Stack(-4) },
            AssemblyInstruction::Cdq,
            AssemblyInstruction::Binary {
                op: AssemblyBinaryOperator::Add,
                source: AssemblyOperand::Stack(-16),
                destination: AssemblyOperand::Stack(-16),
            },
        ]
    );
}

#[test]
fn replacement_without_pseudo_registers_allocates_nothing() {
    let mut instructions = vec![
        AssemblyInstruction::Mov {
            source: AssemblyOperand::Imm(2),
            destination: AssemblyOperand::Register(AssemblyRegister::AX),
        },
        AssemblyInstruction::Ret,
    ];
    let before = instructions.clone();
    assert_eq!(pseudoregister_replacement_pass(&mut instructions), 0);
    assert_eq!(instructions, before);
    let mut empty: Vec<AssemblyInstruction> = vec![];
    assert_eq!(pseudoregister_replacement_pass(&mut empty), 0);
}

#[test]
fn convert_pseudo_register_reuses_a_known_slot() {
    let mut offsets = vstd::hash_map::StringHashMap::<i32>::new();
    let mut counter = 0;
    let mut first = AssemblyOperand::Pseudo("tmp.0".to_string());
    convert_pseudo_register(&mut first, &mut offsets, &mut counter);
    assert_eq!(first, AssemblyOperand::Stack(-4));
    assert_eq!(counter, -4);
    let mut second = AssemblyOperand::Pseudo("tmp.1".to_string());
    convert_pseudo_register(&mut second, &mut offsets, &mut counter);
    assert_eq!(second, AssemblyOperand::Stack(-8));
    assert_eq!(counter, -8);
    let mut again = AssemblyOperand::Pseudo("tmp.0".to_string());
    convert_pseudo_register(&mut again, &mut offsets, &mut counter);
    assert_eq!(again, AssemblyOperand::Stack(-4));
    assert_eq!(counter, -8);
    let mut other = AssemblyOperand::Imm(3);
    convert_pseudo_register(&mut other, &mut offsets, &mut counter);
    assert_eq!(other, AssemblyOperand::Imm(3));
    assert_eq!(counter, -8);
}

#[test]
fn stack_offsets_are_dense_and_one_per_name() {
    for source in &SOURCES[..5] {
        let tacky = match run_cmm_compiler(source, &Some(Stage::Tacky)) {
            Ok(CompilerResult::Tacky(TackyAst::Program {
                function: TackyFunction::Function { instructions, .. },
            })) => instructions,
            other => panic!("expected TACKY, got {:?}", other),
        };
        let mut converted = instruction_conversion_pass(&tacky).unwrap();
        let named = converted.clone();
        let offset = pseudoregister_replacement_pass(&mut converted);
        let mut names: Vec<String> = vec![];
        let mut offsets: Vec<i32> = vec![];
        for (before, after) in named.iter().zip(converted.iter()) {
            for (old, new) in operands(before).into_iter().zip(operands(after)) {
                match (old, new) {
                    (AssemblyOperand::Pseudo(name), AssemblyOperand::Stack(slot)) => {
                        match names.iter().position(|known| known == name) {
                            Some(index) => assert_eq!(offsets[index], *slot),
                            None => {
                                names.push(name.clone());
                                offsets.push(*slot);
                            },
                        }
                    },
                    (old, new) => assert_eq!(old, new),
                }
            }
        }
        let expected: Vec<i32> = (1..=names.len() as i32).map(|k| -4 * k).collect();
        assert_eq!(offsets, expected);
        assert_eq!(offset, -4 * names.len() as i32);
    }
}

#[test]
fn finished_programs_are_legal() {
    for source in &SOURCES[..5] {
        let instructions = match run_cmm_compiler(source, &Some(Stage::Codegen)) {
            Ok(CompilerResult::Codegen(AssemblyAst::Program {
                function: AssemblyFunction::Function { instructions, .. },
            })) => instructions,
            other => panic!("expected assembly, got {:?}", other),
        };
        assert!(matches!(instructions[0], AssemblyInstruction::AllocateStack { bytes } if bytes >= 0));
        for instruction in &instructions {
            assert!(is_legal(instruction), "{:?}", instruction);
        }
    }
}

#[test]
fn labels_are_unique_and_every_jump_has_its_label() {
    for source in &SOURCES[..5] {
        let instructions = match run_cmm_compiler(source, &Some(Stage::Tacky)) {
            Ok(CompilerResult::Tacky(TackyAst::Program {
                function: TackyFunction::Function { instructions, .. },
            })) => instructions,
            other => panic!("expected TACKY, got {:?}", other),
        };
        let mut labels: Vec<&String> = vec![];
        for instruction in &instructions {
            if let TackyInstruction::Label(label) = instruction {
                assert!(!labels.contains(&label));
                labels.push(label);
            }
        }
        for instruction in &instructions {
            match instruction {
                TackyInstruction::Jump { target }
                | TackyInstruction::JumpIfZero { target, .. }
                | TackyInstruction::JumpIfNotZero { target, .. } => {
                    assert!(labels.contains(&target))
                },
                _ => {},
            }
        }
    }
}

#[test]
fn fixup_rewrites_each_refused_combination() {
    let r10 = || AssemblyOperand::Register(AssemblyRegister::R10);
    let r11 = || AssemblyOperand::Register(AssemblyRegister::R11);
    let stack = |offset: i32| AssemblyOperand::Stack(offset);
    assert_eq!(
        fixup_asm_instruction(&AssemblyInstruction::Binary {
            op: AssemblyBinaryOperator::Sub,
            source: stack(-4),
            destination: stack(-8),
        }),
        vec![
            AssemblyInstruction::Mov { source: stack(-4), destination: r10() },
            AssemblyInstruction::Binary {
                op: AssemblyBinaryOperator::Sub,
                source: r10(),
                destination: stack(-8),
            },
        ]
    );
    assert_eq!(
        fixup_asm_instruction(&AssemblyInstruction::Binary {
            op: AssemblyBinaryOperator::Mult,
            source: stack(-4),
            destination: stack(-8),
        }),
        vec![
            AssemblyInstruction::Mov { source: stack(-8), destination: r11() },
            AssemblyInstruction::Binary {
                op: AssemblyBinaryOperator::Mult,
                source: stack(-4),
                destination: r11(),
            },
            AssemblyInstruction::Mov { source: r11(), destination: stack(-8) },
        ]
    );
    let in_register = AssemblyInstruction::Binary {
        op: AssemblyBinaryOperator::Mult,
        source: stack(-4),
        destination: r10(),
    };
    assert_eq!(fixup_asm_instruction(&in_register), vec![in_register.clone()]);
    assert_eq!(
        fixup_asm_instruction(&AssemblyInstruction::Idiv { operand: AssemblyOperand::Imm(3) }),
        vec![
            AssemblyInstruction::Mov { source: AssemblyOperand::Imm(3), destination: r10() },
            AssemblyInstruction::Idiv { operand: r10() },
        ]
    );
    let by_slot = AssemblyInstruction::Idiv { operand: stack(-4) };
    assert_eq!(fixup_asm_instruction(&by_slot), vec![by_slot.clone()]);
    assert_eq!(
        fixup_asm_instruction(&AssemblyInstruction::Cmp { left: stack(-4), right: stack(-8) }),
        vec![
            AssemblyInstruction::Mov { source: stack(-4), destination: r10() },
            AssemblyInstruction::Cmp { left: r10(), right: stack(-8) },
        ]
    );
    assert_eq!(
        fixup_asm_instruction(&AssemblyInstruction::Cmp {
            left: stack(-4),
            right: AssemblyOperand::Imm(9),
        }),
        vec![
            AssemblyInstruction::Mov { source: AssemblyOperand::Imm(9), destination: r11() },
            AssemblyInstruction::Cmp { left: stack(-4), right: r11() },
        ]
    );
    let untouched = vec![
        AssemblyInstruction::Cmp { left: AssemblyOperand::Imm(0), right: stack(-4) },
        AssemblyInstruction::Mov { source: stack(-4), destination: r10() },
        AssemblyInstruction::Cdq,
        AssemblyInstruction::Ret,
        AssemblyInstruction::AllocateStack { bytes: 8 },
        AssemblyInstruction::Jmp { label: "a".to_string() },
        AssemblyInstruction::Label("a".to_string()),
    ];
    assert_eq!(instruction_fixup_pass(&untouched), untouched);
}

#[test]
fn stack_allocation_takes_the_distance() {
    assert_eq!(stack_allocation_pass(&-8), AssemblyInstruction::AllocateStack { bytes: 8 });
    assert_eq!(stack_allocation_pass(&0), AssemblyInstruction::AllocateStack { bytes: 0 });
}

#[test]
fn conversion_of_each_tacky_instruction() {
    let x = || TackyValue::Variable("x".to_string());
    let px = || AssemblyOperand::Pseudo("x".to_string());
    let ax = || AssemblyOperand::Register(AssemblyRegister::AX);
    let tacky = vec![
        TackyInstruction::Binary {
            operator: TackyBinaryOperator::Remainder,
            source1: TackyValue::Constant(7),
            source2: TackyValue::Constant(2),
            destination: x(),
        },
        TackyInstruction::Binary {
            operator: TackyBinaryOperator::GreaterThan,
            source1: x(),
            source2: TackyValue::Constant(2),
            destination: x(),
        },
        TackyInstruction::JumpIfNotZero { condition: x(), target: "l".to_string() },
        TackyInstruction::Copy { source: TackyValue::Constant(1), destination: x() },
        TackyInstruction::Jump { target: "l".to_string() },
        TackyInstruction::Label("l".to_string()),
    ];
    assert_eq!(
        instruction_conversion_pass(&tacky),
        Ok(vec![
            AssemblyInstruction::Mov { source: AssemblyOperand::Imm(7), destination: ax() },
            AssemblyInstruction::Cdq,
            AssemblyInstruction::Idiv { operand: AssemblyOperand::Imm(2) },
            AssemblyInstruction::Mov {
                source: AssemblyOperand::Register(AssemblyRegister::DX),
                destination: px(),
            },
            AssemblyInstruction::Cmp { left: AssemblyOperand::Imm(2), right: px() },
            AssemblyInstruction::Mov { source: AssemblyOperand::Imm(0), destination: px() },
            AssemblyInstruction::SetCC {
                condition: cmm::compiler::code_gen::assembly_ast::AssemblyConditionCode::G,
                operand: px(),
            },
            AssemblyInstruction::Cmp { left: AssemblyOperand::Imm(0), right: px() },
            AssemblyInstruction::JmpCC {
                condition: cmm::compiler::code_gen::assembly_ast::AssemblyConditionCode::NE,
                label: "l".to_string(),
            },
            AssemblyInstruction::Mov { source: AssemblyOperand::Imm(1), destination: px() },
            AssemblyInstruction::Jmp { label: "l".to_string() },
            AssemblyInstruction::Label("l".to_string()),
        ])
    );
}

#[test]
fn code_generation_of_an_empty_function() {
    let program = TackyAst::Program {
        function: TackyFunction::Function { identifier: "f".to_string(), instructions: vec![] },
    };
    assert_eq!(
        convert_ast(program),
        Ok(AssemblyAst::Program {
            function: AssemblyFunction::Function {
                identifier: "f".to_string(),
                instructions: vec![AssemblyInstruction::AllocateStack { bytes: 0 }],
            },
        })
    );
}

#[test]
fn emitter_counters_go_on_across_expressions() {
    let mut emitter = TackyEmitter::new();
    let expression = CmmExpression::Binary {
        operator: CmmBinaryOperator::And,
        left: Box::new(CmmExpression::IntegerConstant { value: 1 }),
        right: Box::new(CmmExpression::IntegerConstant { value: 2 }),
    };
    let mut instructions = vec![];
    assert_eq!(
        emitter.emit_tacky(&expression, &mut instructions),
        Ok(TackyValue::Variable("tmp.0".to_string()))
    );
    assert_eq!(
        emitter.emit_tacky(&expression, &mut instructions),
        Ok(TackyValue::Variable("tmp.1".to_string()))
    );
    assert_eq!(instructions.len(), 14);
    assert_eq!(instructions[13], TackyInstruction::Label("and_end3".to_string()));
    assert_eq!(emitter.make_label("x"), "x4");
    assert_eq!(emitter.make_temporary(), "tmp.2");
}

#[test]
fn short_circuit_operators_have_no_tacky_operator() {
    let emitter = TackyEmitter::new();
    assert_eq!(
        emitter.convert_binary_operator(&CmmBinaryOperator::And),
        Err(cmm::compiler::ir_gen::errors::IRConversionError::UnsupportedBinaryOperatorConversion {
            operator: CmmBinaryOperator::And
        })
    );
    assert_eq!(
        emitter.convert_binary_operator(&CmmBinaryOperator::LessThanEqual),
        Ok(TackyBinaryOperator::LessThanEqual)
    );
    assert_eq!(
        cmm::compiler::code_gen::convert_condition_code(&TackyBinaryOperator::Add),
        Err(cmm::compiler::code_gen::errors::CodegenError::UnsupportedConditionCodeConversion {
            operator: TackyBinaryOperator::Add
        })
    );
}
