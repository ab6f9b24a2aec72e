use cmm::compiler::ir_gen::tacky_ast::{
    TackyAst, TackyBinaryOperator, TackyFunction, TackyInstruction, TackyUnaryOperator, TackyValue,
};
use cmm::compiler::ir_gen::TackyEmitter;
use cmm::compiler::parser::cmm_ast::{
    CmmAst, CmmBinaryOperator, CmmExpression, CmmFunction, CmmStatement, CmmUnaryOperator,
};

#[test]
fn test_make_temporary() {
    let mut tacky_emitter = TackyEmitter::new();
    let temp_name = tacky_emitter.make_temporary();
    assert_eq!(temp_name, "tmp.0");
    let temp_name = tacky_emitter.make_temporary();
    assert_eq!(temp_name, "tmp.1");
}

#[test]
fn test_emit_tacky_constant_only() {
    let mut tacky_emitter = TackyEmitter::new();
    let cmm_expression = CmmExpression::IntegerConstant { value: 1 };
    let mut tacky_instructions = vec![];
    let tacky_value = tacky_emitter.emit_tacky(&cmm_expression, &mut tacky_instructions);

    assert_eq!(tacky_value, Ok(TackyValue::Constant(1)));
    assert_eq!(tacky_instructions, vec![]);
}

#[test]
fn test_emit_tacky_single_negate_expression() {
    let mut tacky_emitter = TackyEmitter::new();
    let cmm_expression = CmmExpression::Unary {
        operator: CmmUnaryOperator::Negate,
        expression: Box::new(CmmExpression::IntegerConstant { value: 1 }),
    };
    let mut tacky_instructions = vec![];
    let tacky_value = tacky_emitter.emit_tacky(&cmm_expression, &mut tacky_instructions);

    assert_eq!(tacky_value, Ok(TackyValue::Variable(String::from("tmp.0"))));
    assert_eq!(
        tacky_instructions,
        vec![TackyInstruction::Unary {
            operator: TackyUnaryOperator::Negate,
            source: TackyValue::Constant(1),
            destination: TackyValue::Variable(String::from("tmp.0")),
        }]
    );
}

#[test]
fn test_emit_tacky_single_complement_expression() {
    let mut tacky_emitter = TackyEmitter::new();
    let cmm_expression = CmmExpression::Unary {
        operator: CmmUnaryOperator::Complement,
        expression: Box::new(CmmExpression::IntegerConstant { value: 1 }),
    };
    let mut tacky_instructions = vec![];
    let tacky_value = tacky_emitter.emit_tacky(&cmm_expression, &mut tacky_instructions);

    assert_eq!(tacky_value, Ok(TackyValue::Variable(String::from("tmp.0"))));
    assert_eq!(
        tacky_instructions,
        vec![TackyInstruction::Unary {
            operator: TackyUnaryOperator::Complement,
            source: TackyValue::Constant(1),
            destination: TackyValue::Variable(String::from("tmp.0")),
        }]
    );
}

#[test]
fn test_emit_tacky_double_unary_expression() {
    let mut tacky_emitter = TackyEmitter::new();
    let cmm_expression = CmmExpression::Unary {
        operator: CmmUnaryOperator::Negate,
        expression: Box::new(CmmExpression::Unary {
            operator: CmmUnaryOperator::Complement,
            expression: Box::new(CmmExpression::IntegerConstant { value: 1 }),
        }),
    };
    let mut tacky_instructions = vec![];
    let tacky_value = tacky_emitter.emit_tacky(&cmm_expression, &mut tacky_instructions);

    assert_eq!(tacky_value, Ok(TackyValue::Variable(String::from("tmp.1"))));
    assert_eq!(
        tacky_instructions,
        vec![
            TackyInstruction::Unary {
                operator: TackyUnaryOperator::Complement,
                source: TackyValue::Constant(1),
                destination: TackyValue::Variable(String::from("tmp.0")),
            },
            TackyInstruction::Unary {
                operator: TackyUnaryOperator::Negate,
                source: TackyValue::Variable(String::from("tmp.0")),
                destination: TackyValue::Variable(String::from("tmp.1")),
            }
        ]
    );
}

#[test]
fn test_emit_tacky_binary_operation() {
    let mut tacky_emitter = TackyEmitter::new();
    let cmm_expression = CmmExpression::Binary {
        operator: CmmBinaryOperator::Add,
        left: Box::new(CmmExpression::IntegerConstant { value: 1 }),
        right: Box::new(CmmExpression::IntegerConstant { value: 2 }),
    };
    let mut tacky_instructions = vec![];
    let tacky_value = tacky_emitter.emit_tacky(&cmm_expression, &mut tacky_instructions);

    assert_eq!(tacky_value, Ok(TackyValue::Variable(String::from("tmp.0"))));
    assert_eq!(
        tacky_instructions,
        vec![TackyInstruction::Binary {
            operator: TackyBinaryOperator::Add,
            source1: TackyValue::Constant(1),
            source2: TackyValue::Constant(2),
            destination: TackyValue::Variable(String::from("tmp.0")),
        }]
    );
}

#[test]
fn test_emit_tacky_and_operation() {
    let mut tacky_emitter = TackyEmitter::new();
    let cmm_expression = CmmExpression::Binary {
        operator: CmmBinaryOperator::And,
        left: Box::new(CmmExpression::IntegerConstant { value: 1 }),
        right: Box::new(CmmExpression::IntegerConstant { value: 2 }),
    };
    let mut tacky_instructions = vec![];
    let tacky_value = tacky_emitter.emit_tacky(&cmm_expression, &mut tacky_instructions);

    assert_eq!(tacky_value, Ok(TackyValue::Variable(String::from("tmp.0"))));
    assert_eq!(
        tacky_instructions,
        vec![
            TackyInstruction::JumpIfZero {
                condition: TackyValue::Constant(1),
                target: String::from("and_false0"),
            },
            TackyInstruction::JumpIfZero {
                condition: TackyValue::Constant(2),
                target: String::from("and_false0"),
            },
            TackyInstruction::Copy {
                source: TackyValue::Constant(1),
                destination: TackyValue::Variable(String::from("tmp.0")),
            },
            TackyInstruction::Jump {
                target: String::from("and_end1"),
            },
            TackyInstruction::Label(String::from("and_false0")),
            TackyInstruction::Copy {
                source: TackyValue::Constant(0),
                destination: TackyValue::Variable(String::from("tmp.0")),
            },
            TackyInstruction::Label(String::from("and_end1")),
        ]
    );
}

#[test]
fn test_emit_tacky_or_operation() {
    let mut tacky_emitter = TackyEmitter::new();
    let cmm_expression = CmmExpression::Binary {
        operator: CmmBinaryOperator::Or,
        left: Box::new(CmmExpression::Unary {
            operator: CmmUnaryOperator::Negate,
            expression: Box::new(CmmExpression::IntegerConstant { value: 1 }),
        }),
        right: Box::new(CmmExpression::IntegerConstant { value: 2 }),
    };
    let mut tacky_instructions = vec![];
    let tacky_value = tacky_emitter.emit_tacky(&cmm_expression, &mut tacky_instructions);

    assert_eq!(tacky_value, Ok(TackyValue::Variable(String::from("tmp.1"))));
    assert_eq!(
        tacky_instructions,
        vec![
            TackyInstruction::Unary {
                operator: TackyUnaryOperator::Negate,
                source: TackyValue::Constant(1),
                destination: TackyValue::Variable(String::from("tmp.0")),
            },
            TackyInstruction::JumpIfNotZero {
                condition: TackyValue::Variable(String::from("tmp.0")),
                target: String::from("or_true0"),
            },
            TackyInstruction::JumpIfNotZero {
                condition: TackyValue::Constant(2),
                target: String::from("or_true0"),
            },
            TackyInstruction::Copy {
                source: TackyValue::Constant(0),
                destination: TackyValue::Variable(String::from("tmp.1")),
            },
            TackyInstruction::Jump {
                target: String::from("or_end1"),
            },
            TackyInstruction::Label(String::from("or_true0")),
            TackyInstruction::Copy {
                source: TackyValue::Constant(1),
                destination: TackyValue::Variable(String::from("tmp.1")),
            },
            TackyInstruction::Label(String::from("or_end1")),
        ]
    );
}

#[test]
fn test_emit_ast() {
    let identifier = "main".to_string();
    let mut tacky_emitter = TackyEmitter::new();
    let cmm_ast = CmmAst::Program {
        function: CmmFunction::Function {
            identifier: identifier.clone(),
            body: CmmStatement::Return {
                expression: CmmExpression::Unary {
                    operator: CmmUnaryOperator::Negate,
                    expression: Box::new(CmmExpression::Unary {
                        operator: CmmUnaryOperator::Complement,
                        expression: Box::new(CmmExpression::IntegerConstant { value: 1 }),
                    }),
                },
            },
        },
    };
    let tacky_ast = tacky_emitter.convert_ast(cmm_ast);
    assert_eq!(
        tacky_ast,
        Ok(TackyAst::Program {
            function: TackyFunction::Function {
                identifier,
                instructions: vec![
                    TackyInstruction::Unary {
                        operator: TackyUnaryOperator::Complement,
                        source: TackyValue::Constant(1),
                        destination: TackyValue::Variable(String::from("tmp.0")),
                    },
                    TackyInstruction::Unary {
                        operator: TackyUnaryOperator::Negate,
                        source: TackyValue::Variable(String::from("tmp.0")),
                        destination: TackyValue::Variable(String::from("tmp.1")),
                    },
                    TackyInstruction::Return {
                        value: TackyValue::Variable(String::from("tmp.1"))
                    },
                ]
            }
        })
    );
}

#[test]
fn test_convert_statement_success() {
    let mut tacky_emitter = TackyEmitter::new();
    let cmm_statement = CmmStatement::Return {
        expression: CmmExpression::IntegerConstant { value: 1 },
    };
    let result = tacky_emitter.convert_statement(&cmm_statement);
    assert!(result.is_ok());
    assert_eq!(
        result.unwrap(),
        vec![TackyInstruction::Return { value: TackyValue::Constant(1) }]
    );
}
