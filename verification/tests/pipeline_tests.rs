use cmm::compiler::code_emission::{
    emit_assembly, emit_assembly_with_prefix, format_instruction, format_operand, SymbolPrefix,
};
use cmm::compiler::code_gen::assembly_ast::{
    AssemblyAst, AssemblyBinaryOperator, AssemblyConditionCode, AssemblyFunction,
    AssemblyInstruction, AssemblyOperand, AssemblyRegister, AssemblyUnaryOperator,
};
use cmm::compiler::lexer::errors::LexerError;
use cmm::compiler::lexer::tokens::{Token, TokenType};
use cmm::compiler::lexer::tokenize;
use cmm::compiler::parser::cmm_ast::{
    CmmAst, CmmBinaryOperator, CmmExpression, CmmFunction, CmmStatement, CmmUnaryOperator,
};
use cmm::compiler::parser::errors::{ParserError, TokenTypeOption};
use cmm::compiler::parser::Parser;
use cmm::compiler::{run_cmm_compiler, CompilerError, CompilerResult, Stage};

const PROLOGUE: &str = "\t.globl _main\n_main:\n\tpushq %rbp\n\tmovq %rsp, %rbp\n";
const EPILOGUE: &str = "\tmovq %rbp, %rsp\n\tpopq %rbp\n\tret\n";

fn assembly_of(source: &str) -> String {
    match run_cmm_compiler(source, &None) {
        Ok(CompilerResult::Final(text)) => text,
        other => panic!("expected assembly text, got {:?}", other),
    }
}

fn expression_of(source: &str) -> CmmExpression {
    match run_cmm_compiler(source, &Some(Stage::Parse)) {
        Ok(CompilerResult::Parser(CmmAst::Program {
            function: CmmFunction::Function { body: CmmStatement::Return { expression }, .. },
        })) => expression,
        other => panic!("expected a syntax tree, got {:?}", other),
    }
}

fn literal(value: i32) -> Box<CmmExpression> {
    Box::new(CmmExpression::IntegerConstant { value })
}

#[test]
fn compile_return_constant() {
    let expected = format!("{}\tsubq $0, %rsp\n\tmovl $2, %eax\n{}", PROLOGUE, EPILOGUE);
    assert_eq!(assembly_of("int main(void) { return 2; }"), expected);
}

#[test]
fn compile_double_negation() {
    let body = "\tsubq $8, %rsp\n\
                \tmovl $2, -4(%rbp)\n\
                \tnegl -4(%rbp)\n\
                \tmovl -4(%rbp), %r10d\n\
                \tmovl %r10d, -8(%rbp)\n\
                \tnegl -8(%rbp)\n\
                \tmovl -8(%rbp), %eax\n";
    assert_eq!(
        assembly_of("int main(void) { return -(-2); }"),
        format!("{}{}{}", PROLOGUE, body, EPILOGUE)
    );
}

#[test]
fn compile_multiplication_before_addition() {
    let body = "\tsubq $8, %rsp\n\
                \tmovl $2, -4(%rbp)\n\
                \tmovl -4(%rbp), %r11d\n\
                \timull $3, %r11d\n\
                \tmovl %r11d, -4(%rbp)\n\
                \tmovl $1, -8(%rbp)\n\
                \tmovl -4(%rbp), %r10d\n\
                \taddl %r10d, -8(%rbp)\n\
                \tmovl -8(%rbp), %eax\n";
    assert_eq!(
        assembly_of("int main(void) { return 1 + 2 * 3; }"),
        format!("{}{}{}", PROLOGUE, body, EPILOGUE)
    );
}

#[test]
fn compile_division() {
    let body = "\tsubq $4, %rsp\n\
                \tmovl $10, %eax\n\
                \tcdq\n\
                \tmovl $3, %r10d\n\
                \tidivl %r10d\n\
                \tmovl %eax, -4(%rbp)\n\
                \tmovl -4(%rbp), %eax\n";
    assert_eq!(
        assembly_of("int main(void) { return 10 / 3; }"),
        format!("{}{}{}", PROLOGUE, body, EPILOGUE)
    );
}

#[test]
fn compile_remainder_reads_edx() {
    let body = "\tsubq $4, %rsp\n\
                \tmovl $10, %eax\n\
                \tcdq\n\
                \tmovl $3, %r10d\n\
                \tidivl %r10d\n\
                \tmovl %edx, -4(%rbp)\n\
                \tmovl -4(%rbp), %eax\n";
    assert_eq!(
        assembly_of("int main(void) { return 10 % 3; }"),
        format!("{}{}{}", PROLOGUE, body, EPILOGUE)
    );
}

#[test]
fn compile_division_by_a_stack_slot_needs_no_scratch_register() {
    let body = "\tsubq $8, %rsp\n\
                \tmovl $3, -4(%rbp)\n\
                \tnegl -4(%rbp)\n\
                \tmovl $10, %eax\n\
                \tcdq\n\
                \tidivl -4(%rbp)\n\
                \tmovl %eax, -8(%rbp)\n\
                \tmovl -8(%rbp), %eax\n";
    assert_eq!(
        assembly_of("int main(void) { return 10 / -3; }"),
        format!("{}{}{}", PROLOGUE, body, EPILOGUE)
    );
}

#[test]
fn compile_short_circuit_and() {
    let body = "\tsubq $4, %rsp\n\
                \tmovl $1, %r11d\n\
                \tcmpl $0, %r11d\n\
                \tje Land_false0\n\
                \tmovl $0, %r11d\n\
                \tcmpl $0, %r11d\n\
                \tje Land_false0\n\
                \tmovl $1, -4(%rbp)\n\
                \tjmp Land_end1\n\
                Land_false0:\n\
                \tmovl $0, -4(%rbp)\n\
                Land_end1:\n\
                \tmovl -4(%rbp), %eax\n";
    assert_eq!(
        assembly_of("int main(void) { return 1 && 0; }"),
        format!("{}{}{}", PROLOGUE, body, EPILOGUE)
    );
}

#[test]
fn compile_short_circuit_or() {
    let body = "\tsubq $4, %rsp\n\
                \tmovl $0, %r11d\n\
                \tcmpl $0, %r11d\n\
                \tjne Lor_true0\n\
                \tmovl $5, %r11d\n\
                \tcmpl $0, %r11d\n\
                \tjne Lor_true0\n\
                \tmovl $0, -4(%rbp)\n\
                \tjmp Lor_end1\n\
                Lor_true0:\n\
                \tmovl $1, -4(%rbp)\n\
                Lor_end1:\n\
                \tmovl -4(%rbp), %eax\n";
    assert_eq!(
        assembly_of("int main(void) { return 0 || 5; }"),
        format!("{}{}{}", PROLOGUE, body, EPILOGUE)
    );
}

#[test]
fn compile_equality() {
    let body = "\tsubq $4, %rsp\n\
                \tmovl $2, %r11d\n\
                \tcmpl $2, %r11d\n\
                \tmovl $0, -4(%rbp)\n\
                \tsete -4(%rbp)\n\
                \tmovl -4(%rbp), %eax\n";
    assert_eq!(
        assembly_of("int main(void) { return 2 == 2; }"),
        format!("{}{}{}", PROLOGUE, body, EPILOGUE)
    );
}

#[test]
fn compile_comparison_puts_the_second_operand_on_the_left() {
    let body = "\tsubq $4, %rsp\n\
                \tmovl $1, %r11d\n\
                \tcmpl $2, %r11d\n\
                \tmovl $0, -4(%rbp)\n\
                \tsetl -4(%rbp)\n\
                \tmovl -4(%rbp), %eax\n";
    assert_eq!(
        assembly_of("int main(void) { return 1 < 2; }"),
        format!("{}{}{}", PROLOGUE, body, EPILOGUE)
    );
}

#[test]
fn compile_logical_not() {
    let body = "\tsubq $4, %rsp\n\
                \tmovl $5, %r11d\n\
                \tcmpl $0, %r11d\n\
                \tmovl $0, -4(%rbp)\n\
                \tsete -4(%rbp)\n\
                \tmovl -4(%rbp), %eax\n";
    assert_eq!(
        assembly_of("int main(void) { return !5; }"),
        format!("{}{}{}", PROLOGUE, body, EPILOGUE)
    );
}

#[test]
fn compile_comparison_of_two_stack_slots() {
    let body = "\tsubq $12, %rsp\n\
                \tmovl $1, -4(%rbp)\n\
                \tnegl -4(%rbp)\n\
                \tmovl $2, -8(%rbp)\n\
                \tnotl -8(%rbp)\n\
                \tmovl -8(%rbp), %r10d\n\
                \tcmpl %r10d, -4(%rbp)\n\
                \tmovl $0, -12(%rbp)\n\
                \tsetge -12(%rbp)\n\
                \tmovl -12(%rbp), %eax\n";
    assert_eq!(
        assembly_of("int main(void) { return -1 >= ~2; }"),
        format!("{}{}{}", PROLOGUE, body, EPILOGUE)
    );
}

#[test]
fn compile_is_deterministic() {
    let source = "int main(void) { return (1 && 2) || !(3 - 4 * 5 % 6) <= 7; }";
    for stage in [None, Some(Stage::Lex), Some(Stage::Parse), Some(Stage::Tacky), Some(Stage::Codegen)]
    {
        let first = format!("{:?}", run_cmm_compiler(source, &stage));
        let second = format!("{:?}", run_cmm_compiler(source, &stage));
        assert_eq!(first, second);
    }
}

#[test]
fn compile_stops_at_the_stage_asked_for() {
    let source = "int main(void) { return 2; }";
    assert!(matches!(run_cmm_compiler(source, &Some(Stage::Lex)), Ok(CompilerResult::Lexer(_))));
    assert!(matches!(run_cmm_compiler(source, &Some(Stage::Parse)), Ok(CompilerResult::Parser(_))));
    assert!(matches!(run_cmm_compiler(source, &Some(Stage::Tacky)), Ok(CompilerResult::Tacky(_))));
    assert!(matches!(
        run_cmm_compiler(source, &Some(Stage::Codegen)),
        Ok(CompilerResult::Codegen(_))
    ));
    assert!(matches!(run_cmm_compiler(source, &None), Ok(CompilerResult::Final(_))));
}

#[test]
fn compile_stage_before_the_error_succeeds() {
    let source = "int main(void) { return 2; } ;";
    assert!(matches!(run_cmm_compiler(source, &Some(Stage::Lex)), Ok(CompilerResult::Lexer(_))));
    match run_cmm_compiler(source, &Some(Stage::Parse)) {
        Err(error) => assert_eq!(
            error,
            CompilerError::Parser(ParserError::UnexpectedTrailingTokens {
                found: vec![Token::Semicolon]
            })
        ),
        other => panic!("expected a parser error, got {:?}", other),
    }
}

#[test]
fn compile_reports_the_lexer_error() {
    match run_cmm_compiler("int main(void) { return 2147483648; }", &None) {
        Err(error) => assert_eq!(
            error,
            CompilerError::Lexer(LexerError::InvalidConstant { found: "2147483648".to_string() })
        ),
        other => panic!("expected a lexer error, got {:?}", other),
    }
    match run_cmm_compiler("int main(void) { return $; }", &Some(Stage::Lex)) {
        Err(error) => assert_eq!(
            error,
            CompilerError::Lexer(LexerError::UnknownCharacter { found: '$', byte_offset: 24 })
        ),
        other => panic!("expected a lexer error, got {:?}", other),
    }
}

#[test]
fn compile_empty_source() {
    assert!(matches!(run_cmm_compiler("  \n", &Some(Stage::Lex)), Ok(CompilerResult::Lexer(tokens)) if tokens.is_empty()));
    match run_cmm_compiler("  \n", &None) {
        Err(error) => assert_eq!(error, CompilerError::Parser(ParserError::UnexpectedEndOfInput)),
        other => panic!("expected a parser error, got {:?}", other),
    }
}

#[test]
fn parse_empty_token_list() {
    let mut parser = Parser::new(vec![]);
    assert_eq!(parser.parse_ast(), Err(ParserError::UnexpectedEndOfInput));
}

#[test]
fn parse_consumes_every_token() {
    let tokens = tokenize("int main(void) { return ~(1 + 2) * 3; }").unwrap();
    let count = tokens.len();
    let mut parser = Parser::new(tokens);
    assert!(parser.parse_ast().is_ok());
    assert_eq!(parser.position, count);
}

#[test]
fn parse_trailing_semicolon() {
    let tokens = tokenize("int main(void) { return 2; };").unwrap();
    let mut parser = Parser::new(tokens);
    assert_eq!(
        parser.parse_ast(),
        Err(ParserError::UnexpectedTrailingTokens { found: vec![Token::Semicolon] })
    );
}

#[test]
fn parse_decrement_is_no_factor() {
    let tokens = tokenize("int main(void) { return --2; }").unwrap();
    assert_eq!(tokens[6], Token::ReturnKeyword);
    assert_eq!(tokens[7], Token::DoubleHyphen);
    let mut parser = Parser::new(tokens);
    assert_eq!(
        parser.parse_ast(),
        Err(ParserError::UnexpectedToken {
            expected: TokenTypeOption::Many(vec![
                TokenType::Constant,
                TokenType::Hyphen,
                TokenType::Tilde,
                TokenType::OpenParen,
            ]),
            actual: TokenType::DoubleHyphen,
        })
    );
}

#[test]
fn parse_two_hyphens_apart_negate_twice() {
    assert_eq!(
        expression_of("int main(void) { return - -2; }"),
        CmmExpression::Unary {
            operator: CmmUnaryOperator::Negate,
            expression: Box::new(CmmExpression::Unary {
                operator: CmmUnaryOperator::Negate,
                expression: literal(2),
            }),
        }
    );
}

#[test]
fn parse_logical_not_is_a_factor() {
    assert_eq!(
        expression_of("int main(void) { return !1 + 2; }"),
        CmmExpression::Binary {
            operator: CmmBinaryOperator::Add,
            left: Box::new(CmmExpression::Unary {
                operator: CmmUnaryOperator::Not,
                expression: literal(1),
            }),
            right: literal(2),
        }
    );
}

#[test]
fn parse_binary_operators_associate_to_the_left() {
    assert_eq!(
        expression_of("int main(void) { return 1 - 2 - 3; }"),
        CmmExpression::Binary {
            operator: CmmBinaryOperator::Subtract,
            left: Box::new(CmmExpression::Binary {
                operator: CmmBinaryOperator::Subtract,
                left: literal(1),
                right: literal(2),
            }),
            right: literal(3),
        }
    );
}

#[test]
fn parse_precedence_levels() {
    // 1 || 2 && 3 == 4 < 5 + 6 * 7
    let product = CmmExpression::Binary {
        operator: CmmBinaryOperator::Multiply,
        left: literal(6),
        right: literal(7),
    };
    let sum = CmmExpression::Binary {
        operator: CmmBinaryOperator::Add,
        left: literal(5),
        right: Box::new(product),
    };
    let less = CmmExpression::Binary {
        operator: CmmBinaryOperator::LessThan,
        left: literal(4),
        right: Box::new(sum),
    };
    let equal = CmmExpression::Binary {
        operator: CmmBinaryOperator::Equal,
        left: literal(3),
        right: Box::new(less),
    };
    let and = CmmExpression::Binary {
        operator: CmmBinaryOperator::And,
        left: literal(2),
        right: Box::new(equal),
    };
    let or = CmmExpression::Binary {
        operator: CmmBinaryOperator::Or,
        left: literal(1),
        right: Box::new(and),
    };
    assert_eq!(expression_of("int main(void) { return 1 || 2 && 3 == 4 < 5 + 6 * 7; }"), or);
}

#[test]
fn parse_expression_at_the_end_of_the_tokens_is_an_error() {
    let mut parser = Parser::new(vec![Token::Constant(1)]);
    assert_eq!(parser.parse_expression(0), Err(ParserError::UnexpectedEndOfInput));
    let mut parser = Parser::new(vec![Token::Constant(1), Token::Plus]);
    assert_eq!(parser.parse_expression(0), Err(ParserError::UnexpectedEndOfInput));
}

#[test]
fn parse_expression_stops_below_the_minimum_precedence() {
    let mut parser =
        Parser::new(vec![Token::Constant(1), Token::Plus, Token::Constant(2), Token::Semicolon]);
    assert_eq!(parser.parse_expression(46), Ok(CmmExpression::IntegerConstant { value: 1 }));
    assert_eq!(parser.position, 1);
}

#[test]
fn parse_missing_close_paren() {
    let mut parser = Parser::new(vec![
        Token::OpenParen,
        Token::Constant(1),
        Token::Semicolon,
        Token::Semicolon,
    ]);
    assert_eq!(
        parser.parse_expression(0),
        Err(ParserError::UnexpectedToken {
            expected: TokenTypeOption::One(TokenType::CloseParen),
            actual: TokenType::Semicolon,
        })
    );
    assert_eq!(parser.position, 3);
}

#[test]
fn parse_unary_and_binary_operator_errors() {
    let mut parser = Parser::new(vec![Token::Plus]);
    assert_eq!(
        parser.parse_unary_operator(),
        Err(ParserError::UnexpectedToken {
            expected: TokenTypeOption::Many(vec![
                TokenType::Hyphen,
                TokenType::Tilde,
                TokenType::ExclamationMark,
            ]),
            actual: TokenType::Plus,
        })
    );
    let mut parser = Parser::new(vec![Token::Tilde]);
    assert_eq!(
        parser.parse_binary_operator(),
        Err(ParserError::UnexpectedToken {
            expected: TokenTypeOption::Many(vec![
                TokenType::Plus,
                TokenType::Hyphen,
                TokenType::Asterisk,
                TokenType::ForwardSlash,
                TokenType::Percent,
                TokenType::DoubleAmpersand,
                TokenType::DoublePipe,
                TokenType::DoubleEqual,
                TokenType::ExclamationEqual,
                TokenType::LessThan,
                TokenType::GreaterThan,
                TokenType::LessThanEqual,
                TokenType::GreaterThanEqual,
            ]),
            actual: TokenType::Tilde,
        })
    );
    let mut parser = Parser::new(vec![Token::Tilde]);
    assert_eq!(
        parser.parse_constant_integer_factor(),
        Err(ParserError::UnexpectedToken {
            expected: TokenTypeOption::One(TokenType::Constant),
            actual: TokenType::Tilde,
        })
    );
}

#[test]
fn peek_does_not_pass_the_token() {
    let parser = Parser::new(vec![Token::IntKeyword]);
    assert_eq!(parser.peek_token(), Ok(Token::IntKeyword));
    assert_eq!(parser.position, 0);
    let parser = Parser::new(vec![]);
    assert_eq!(parser.peek_token(), Err(ParserError::UnexpectedEndOfInput));
}

#[test]
fn emit_without_underscore() {
    let program = AssemblyAst::Program {
        function: AssemblyFunction::Function {
            identifier: "main".to_string(),
            instructions: vec![
                AssemblyInstruction::AllocateStack { bytes: 0 },
                AssemblyInstruction::Mov {
                    source: AssemblyOperand::Imm(-7),
                    destination: AssemblyOperand::Register(AssemblyRegister::AX),
                },
                AssemblyInstruction::Ret,
            ],
        },
    };
    let body = "\tsubq $0, %rsp\n\tmovl $-7, %eax\n";
    assert_eq!(
        emit_assembly_with_prefix(&program, SymbolPrefix::Bare),
        format!("\t.globl main\nmain:\n\tpushq %rbp\n\tmovq %rsp, %rbp\n{}{}", body, EPILOGUE)
    );
    assert_eq!(emit_assembly(&program), format!("{}{}{}", PROLOGUE, body, EPILOGUE));
    assert_eq!(
        emit_assembly_with_prefix(&program, SymbolPrefix::Underscore),
        emit_assembly(&program)
    );
}

#[test]
fn format_each_instruction() {
    let stack = |offset: i32| AssemblyOperand::Stack(offset);
    let register = |register: AssemblyRegister| AssemblyOperand::Register(register);
    let cases = vec![
        (
            AssemblyInstruction::Mov { source: stack(-4), destination: register(AssemblyRegister::DX) },
            "\tmovl -4(%rbp), %edx\n",
        ),
        (
            AssemblyInstruction::Unary { op: AssemblyUnaryOperator::Neg, operand: stack(-8) },
            "\tnegl -8(%rbp)\n",
        ),
        (
            AssemblyInstruction::Unary {
                op: AssemblyUnaryOperator::Not,
                operand: register(AssemblyRegister::R10),
            },
            "\tnotl %r10d\n",
        ),
        (
            AssemblyInstruction::Binary {
                op: AssemblyBinaryOperator::Sub,
                source: AssemblyOperand::Imm(2147483647),
                destination: stack(-2147483648),
            },
            "\tsubl $2147483647, -2147483648(%rbp)\n",
        ),
        (
            AssemblyInstruction::Binary {
                op: AssemblyBinaryOperator::Mult,
                source: AssemblyOperand::Imm(0),
                destination: register(AssemblyRegister::R11),
            },
            "\timull $0, %r11d\n",
        ),
        (
            AssemblyInstruction::Cmp { left: AssemblyOperand::Imm(1), right: stack(0) },
            "\tcmpl $1, 0(%rbp)\n",
        ),
        (AssemblyInstruction::Idiv { operand: stack(-12) }, "\tidivl -12(%rbp)\n"),
        (AssemblyInstruction::Cdq, "\tcdq\n"),
        (AssemblyInstruction::AllocateStack { bytes: 1024 }, "\tsubq $1024, %rsp\n"),
        (AssemblyInstruction::Jmp { label: "and_end1".to_string() }, "\tjmp Land_end1\n"),
        (
            AssemblyInstruction::JmpCC {
                condition: AssemblyConditionCode::LE,
                label: "or_true10".to_string(),
            },
            "\tjle Lor_true10\n",
        ),
        (
            AssemblyInstruction::SetCC {
                condition: AssemblyConditionCode::NE,
                operand: register(AssemblyRegister::AX),
            },
            "\tsetne %al\n",
        ),
        (
            AssemblyInstruction::SetCC {
                condition: AssemblyConditionCode::G,
                operand: register(AssemblyRegister::R11),
            },
            "\tsetg %r11b\n",
        ),
        (AssemblyInstruction::Label("x0".to_string()), "Lx0:\n"),
        (AssemblyInstruction::Ret, EPILOGUE),
    ];
    for (instruction, expected) in cases {
        assert_eq!(format_instruction(&instruction), expected);
    }
}

#[test]
fn format_registers_in_both_widths() {
    let spellings = [
        (AssemblyRegister::AX, "%eax", "%al"),
        (AssemblyRegister::DX, "%edx", "%dl"),
        (AssemblyRegister::R10, "%r10d", "%r10b"),
        (AssemblyRegister::R11, "%r11d", "%r11b"),
    ];
    for (register, wide, narrow) in spellings {
        assert_eq!(format_operand(&AssemblyOperand::Register(register), false), wide);
        assert_eq!(format_operand(&AssemblyOperand::Register(register), true), narrow);
    }
}
