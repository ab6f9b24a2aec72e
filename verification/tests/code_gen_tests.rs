use cmm::compiler::code_gen::assembly_ast::{
    AssemblyBinaryOperator, AssemblyInstruction, AssemblyOperand, AssemblyRegister,
    AssemblyUnaryOperator,
};
use cmm::compiler::code_gen::{
    instruction_conversion_pass, instruction_fixup_pass, pseudoregister_replacement_pass,
};
use cmm::compiler::ir_gen::tacky_ast::{TackyInstruction, TackyUnaryOperator, TackyValue};

#[test]
fn test_instruction_conversion_pass_success() {
    let identifier = "tmp.0".to_string();
    let tacky_instructions = vec![
        TackyInstruction::Unary {
            operator: TackyUnaryOperator::Negate,
            source: TackyValue::Constant(1),
            destination: TackyValue::Variable(identifier.clone()),
        },
        TackyInstruction::Return {
            value: TackyValue::Variable(identifier.clone()),
        },
    ];
    let result = instruction_conversion_pass(&tacky_instructions);
    assert_eq!(
        result,
        Ok(vec![
            AssemblyInstruction::Mov {
                source: AssemblyOperand::Imm(1),
                destination: AssemblyOperand::Pseudo(identifier.clone()),
            },
            AssemblyInstruction::Unary {
                op: AssemblyUnaryOperator::Neg,
                operand: AssemblyOperand::Pseudo(identifier.clone()),
            },
            AssemblyInstruction::Mov {
                source: AssemblyOperand::Pseudo(identifier.clone()),
                destination: AssemblyOperand::Register(AssemblyRegister::AX),
            },
            AssemblyInstruction::Ret,
        ])
    );
}

#[test]
fn test_pseudoregister_replacement_pass_success() {
    let pseudo_register_name = "tmp.0".to_string();
    let mut instructions = vec![
        AssemblyInstruction::Mov {
            source: AssemblyOperand::Imm(1),
            destination: AssemblyOperand::Pseudo(pseudo_register_name),
        },
        AssemblyInstruction::Ret,
    ];
    let offset = pseudoregister_replacement_pass(&mut instructions);
    assert_eq!(offset, -4);
    assert_eq!(
        instructions,
        vec![
            AssemblyInstruction::Mov {
                source: AssemblyOperand::Imm(1),
                destination: AssemblyOperand::Stack(-4),
            },
            AssemblyInstruction::Ret,
        ]
    );
}

#[test]
fn test_instruction_fixup_pass_success() {
    let mut instructions = vec![
        AssemblyInstruction::Mov {
            source: AssemblyOperand::Imm(1),
            destination: AssemblyOperand::Stack(-4),
        },
        AssemblyInstruction::Mov {
            source: AssemblyOperand::Stack(-4),
            destination: AssemblyOperand::Stack(-8),
        },
        AssemblyInstruction::Binary {
            op: AssemblyBinaryOperator::Add,
            source: AssemblyOperand::Stack(-8),
            destination: AssemblyOperand::Stack(-12),
        },
        AssemblyInstruction::Binary {
            op: AssemblyBinaryOperator::Mult,
            source: AssemblyOperand::Imm(2),
            destination: AssemblyOperand::Stack(-12),
        },
        AssemblyInstruction::Ret,
    ];
    let fixed_instructions = instruction_fixup_pass(&mut instructions);
    assert_eq!(
        fixed_instructions,
        vec![
            AssemblyInstruction::Mov {
                source: AssemblyOperand::Imm(1),
                destination: AssemblyOperand::Stack(-4),
            },
            AssemblyInstruction::Mov {
                source: AssemblyOperand::Stack(-4),
                destination: AssemblyOperand::Register(AssemblyRegister::R10),
            },
            AssemblyInstruction::Mov {
                source: AssemblyOperand::Register(AssemblyRegister::R10),
                destination: AssemblyOperand::Stack(-8),
            },
            AssemblyInstruction::Mov {
                source: AssemblyOperand::Stack(-8),
                destination: AssemblyOperand::Register(AssemblyRegister::R10),
            },
            AssemblyInstruction::Binary {
                op: AssemblyBinaryOperator::Add,
                source: AssemblyOperand::Register(AssemblyRegister::R10),
                destination: AssemblyOperand::Stack(-12),
            },
            AssemblyInstruction::Mov {
                source: AssemblyOperand::Stack(-12),
                destination: AssemblyOperand::Register(AssemblyRegister::R11),
            },
            AssemblyInstruction::Binary {
                op: AssemblyBinaryOperator::Mult,
                source: AssemblyOperand::Imm(2),
                destination: AssemblyOperand::Register(AssemblyRegister::R11),
            },
            AssemblyInstruction::Mov {
                source: AssemblyOperand::Register(AssemblyRegister::R11),
                destination: AssemblyOperand::Stack(-12),
            },
            AssemblyInstruction::Ret,
        ]
    );
}

#[test]
fn convert_function_success() {
    let tacky_function = cmm::compiler::ir_gen::tacky_ast::TackyFunction::Function {
        identifier: "main".to_string(),
        instructions: vec![TackyInstruction::Return { value: TackyValue::Constant(1) }],
    };
    let result = cmm::compiler::code_gen::convert_function(&tacky_function);
    assert!(result.is_ok());
    assert_eq!(
        result.unwrap(),
        cmm::compiler::code_gen::assembly_ast::AssemblyFunction::Function {
            identifier: "main".to_string(),
            instructions: vec![
                AssemblyInstruction::AllocateStack { bytes: 0 },
                AssemblyInstruction::Mov {
                    source: AssemblyOperand::Imm(1),
                    destination: AssemblyOperand::Register(AssemblyRegister::AX),
                },
                AssemblyInstruction::Ret
            ]
        }
    );
}
