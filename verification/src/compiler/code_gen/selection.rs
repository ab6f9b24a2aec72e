use crate::compiler::code_gen::assembly_ast::{
    AssemblyBinaryOperator, AssemblyConditionCode, AssemblyInstruction, AssemblyInstructionView,
    AssemblyOperand, AssemblyOperandView, AssemblyRegister, AssemblyUnaryOperator,
};
use crate::compiler::code_gen::errors::CodegenError;
use crate::compiler::ir_gen::tacky_ast::{
    TackyBinaryOperator, TackyInstruction, TackyInstructionView, TackyUnaryOperator, TackyValue,
    TackyValueView,
};
use vstd::prelude::*;

verus! {

/// The operand that stands for a TACKY value: an immediate for a constant, a pseudo-register
/// of the same name for a variable.
pub open spec fn spec_convert_operand(value: TackyValueView) -> AssemblyOperandView {
    match value {
        TackyValueView::Constant(constant) => AssemblyOperandView::Imm(constant),
        TackyValueView::Variable(name) => AssemblyOperandView::Pseudo(name),
    }
}

/// The condition code of a comparison operator; `None` for an arithmetic operator.
pub open spec fn spec_condition_code(operator: TackyBinaryOperator) -> Option<
    AssemblyConditionCode,
> {
    match operator {
        TackyBinaryOperator::Equal => Some(AssemblyConditionCode::E),
        TackyBinaryOperator::NotEqual => Some(AssemblyConditionCode::NE),
        TackyBinaryOperator::LessThan => Some(AssemblyConditionCode::L),
        TackyBinaryOperator::GreaterThan => Some(AssemblyConditionCode::G),
        TackyBinaryOperator::LessThanEqual => Some(AssemblyConditionCode::LE),
        TackyBinaryOperator::GreaterThanEqual => Some(AssemblyConditionCode::GE),
        _ => None,
    }
}

/// The assembly instructions that one unary TACKY instruction becomes.
pub open spec fn spec_convert_unary(
    operator: TackyUnaryOperator,
    source: AssemblyOperandView,
    destination: AssemblyOperandView,
) -> Seq<AssemblyInstructionView> {
    match operator {
        TackyUnaryOperator::Not => seq![
            AssemblyInstructionView::Cmp { left: AssemblyOperandView::Imm(0), right: source },
            AssemblyInstructionView::Mov { source: AssemblyOperandView::Imm(0), destination },
            AssemblyInstructionView::SetCC { condition: AssemblyConditionCode::E, operand: destination },
        ],
        TackyUnaryOperator::Negate => seq![
            AssemblyInstructionView::Mov { source, destination },
            AssemblyInstructionView::Unary { op: AssemblyUnaryOperator::Neg, operand: destination },
        ],
        TackyUnaryOperator::Complement => seq![
            AssemblyInstructionView::Mov { source, destination },
            AssemblyInstructionView::Unary { op: AssemblyUnaryOperator::Not, operand: destination },
        ],
    }
}

/// The assembly instructions that one binary TACKY instruction becomes. A comparison
/// places the second source on the left of `Cmp`, so that the condition code reads as the
/// operator does.
pub open spec fn spec_convert_binary(
    operator: TackyBinaryOperator,
    source1: AssemblyOperandView,
    source2: AssemblyOperandView,
    destination: AssemblyOperandView,
) -> Seq<AssemblyInstructionView> {
    let ax = AssemblyOperandView::Register(AssemblyRegister::AX);
    let dx = AssemblyOperandView::Register(AssemblyRegister::DX);
    match operator {
        TackyBinaryOperator::Add => seq![
            AssemblyInstructionView::Mov { source: source1, destination },
            AssemblyInstructionView::Binary { op: AssemblyBinaryOperator::Add, source: source2, destination },
        ],
        TackyBinaryOperator::Subtract => seq![
            AssemblyInstructionView::Mov { source: source1, destination },
            AssemblyInstructionView::Binary { op: AssemblyBinaryOperator::Sub, source: source2, destination },
        ],
        TackyBinaryOperator::Multiply => seq![
            AssemblyInstructionView::Mov { source: source1, destination },
            AssemblyInstructionView::Binary { op: AssemblyBinaryOperator::Mult, source: source2, destination },
        ],
        TackyBinaryOperator::Divide => seq![
            AssemblyInstructionView::Mov { source: source1, destination: ax },
            AssemblyInstructionView::Cdq,
            AssemblyInstructionView::Idiv { operand: source2 },
            AssemblyInstructionView::Mov { source: ax, destination },
        ],
        TackyBinaryOperator::Remainder => seq![
            AssemblyInstructionView::Mov { source: source1, destination: ax },
            AssemblyInstructionView::Cdq,
            AssemblyInstructionView::Idiv { operand: source2 },
            AssemblyInstructionView::Mov { source: dx, destination },
        ],
        _ => seq![
            AssemblyInstructionView::Cmp { left: source2, right: source1 },
            AssemblyInstructionView::Mov { source: AssemblyOperandView::Imm(0), destination },
            AssemblyInstructionView::SetCC {
                condition: spec_condition_code(operator).unwrap(),
                operand: destination,
            },
        ],
    }
}

/// The assembly instructions that one TACKY instruction becomes.
pub open spec fn spec_convert_instruction(instruction: TackyInstructionView) -> Seq<
    AssemblyInstructionView,
> {
    match instruction {
        TackyInstructionView::Return { value } => seq![
            AssemblyInstructionView::Mov {
                source: spec_convert_operand(value),
                destination: AssemblyOperandView::Register(AssemblyRegister::AX),
            },
            AssemblyInstructionView::Ret,
        ],
        TackyInstructionView::Unary { operator, source, destination } => spec_convert_unary(
            operator,
            spec_convert_operand(source),
            spec_convert_operand(destination),
        ),
        TackyInstructionView::Binary { operator, source1, source2, destination } => {
            spec_convert_binary(
                operator,
                spec_convert_operand(source1),
                spec_convert_operand(source2),
                spec_convert_operand(destination),
            )
        },
        TackyInstructionView::Copy { source, destination } => seq![
            AssemblyInstructionView::Mov {
                source: spec_convert_operand(source),
                destination: spec_convert_operand(destination),
            },
        ],
        TackyInstructionView::Jump { target } => seq![AssemblyInstructionView::Jmp { label: target }],
        TackyInstructionView::JumpIfZero { condition, target } => seq![
            AssemblyInstructionView::Cmp {
                left: AssemblyOperandView::Imm(0),
                right: spec_convert_operand(condition),
            },
            AssemblyInstructionView::JmpCC { condition: AssemblyConditionCode::E, label: target },
        ],
        TackyInstructionView::JumpIfNotZero { condition, target } => seq![
            AssemblyInstructionView::Cmp {
                left: AssemblyOperandView::Imm(0),
                right: spec_convert_operand(condition),
            },
            AssemblyInstructionView::JmpCC { condition: AssemblyConditionCode::NE, label: target },
        ],
        TackyInstructionView::Label(label) => seq![AssemblyInstructionView::Label(label)],
    }
}

/// The assembly instructions that a list of TACKY instructions becomes: the conversions of
/// its instructions, one after the other.
pub open spec fn spec_convert_instructions(instructions: Seq<TackyInstructionView>) -> Seq<
    AssemblyInstructionView,
>
    decreases instructions.len(),
{
    if instructions.len() == 0 {
        Seq::empty()
    } else {
        spec_convert_instructions(instructions.drop_last()) + spec_convert_instruction(
            instructions.last(),
        )
    }
}

/// One TACKY instruction becomes at least one and at most four assembly instructions.
pub proof fn lemma_convert_instruction_len(instruction: TackyInstructionView)
    ensures
        1 <= spec_convert_instruction(instruction).len() <= 4,
{
}

/// A list of TACKY instructions becomes at most four times as many assembly instructions.
pub proof fn lemma_convert_instructions_len(instructions: Seq<TackyInstructionView>)
    ensures
        spec_convert_instructions(instructions).len() <= 4 * instructions.len(),
    decreases instructions.len(),
{
    if instructions.len() > 0 {
        lemma_convert_instructions_len(instructions.drop_last());
        lemma_convert_instruction_len(instructions.last());
    }
}

/// Appends one instruction to a list.
pub(crate) fn push_instruction(
    instructions: &mut Vec<AssemblyInstruction>,
    instruction: AssemblyInstruction,
)
    ensures
        final(instructions).deep_view() == old(instructions).deep_view().push(
            instruction.deep_view(),
        ),
        final(instructions)@ == old(instructions)@.push(instruction),
{
    instructions.push(instruction);
    assert(instructions.deep_view() =~= old(instructions).deep_view().push(
        instruction.deep_view(),
    ));
}

/// Converts a TACKY value to the operand that stands for it.
pub fn convert_operand(tacky_operand: &TackyValue) -> (operand: AssemblyOperand)
    ensures
        operand.deep_view() == spec_convert_operand(tacky_operand.deep_view()),
{
    match tacky_operand {
        TackyValue::Constant(value) => AssemblyOperand::Imm(*value),
        TackyValue::Variable(name) => AssemblyOperand::Pseudo(name.clone()),
    }
}

/// Converts a comparison operator to its condition code. An arithmetic operator has none
/// and is reported.
pub fn convert_condition_code(tacky_binary_operator: &TackyBinaryOperator) -> (code: Result<
    AssemblyConditionCode,
    CodegenError,
>)
    ensures
        match spec_condition_code(*tacky_binary_operator) {
            Some(condition) => code == Ok::<AssemblyConditionCode, CodegenError>(condition),
            None => code == Err::<AssemblyConditionCode, CodegenError>(
                CodegenError::UnsupportedConditionCodeConversion {
                    operator: *tacky_binary_operator,
                },
            ),
        },
{
    match tacky_binary_operator {
        TackyBinaryOperator::Equal => Ok(AssemblyConditionCode::E),
        TackyBinaryOperator::NotEqual => Ok(AssemblyConditionCode::NE),
        TackyBinaryOperator::LessThan => Ok(AssemblyConditionCode::L),
        TackyBinaryOperator::GreaterThan => Ok(AssemblyConditionCode::G),
        TackyBinaryOperator::LessThanEqual => Ok(AssemblyConditionCode::LE),
        TackyBinaryOperator::GreaterThanEqual => Ok(AssemblyConditionCode::GE),
        _ => Err(
            CodegenError::UnsupportedConditionCodeConversion { operator: *tacky_binary_operator },
        ),
    }
}

/// Converts every TACKY instruction to the assembly instructions that stand for it, in
/// order. The operands of the result may still be pseudo-registers. The conversion has no
/// failing input: every operator that reaches the condition-code conversion is a comparison.
pub fn instruction_conversion_pass(tacky_instructions: &Vec<TackyInstruction>) -> (converted:
    Result<Vec<AssemblyInstruction>, CodegenError>)
    ensures
        converted is Ok,
        converted->Ok_0.deep_view() == spec_convert_instructions(tacky_instructions.deep_view()),
{
    let mut asm_instructions: Vec<AssemblyInstruction> = Vec::new();
    let ghost tacky = tacky_instructions.deep_view();
    let mut index: usize = 0;
    assert(asm_instructions.deep_view() =~= Seq::<AssemblyInstructionView>::empty());
    assert(tacky.subrange(0, 0) =~= Seq::<TackyInstructionView>::empty());
    while index < tacky_instructions.len()
        invariant
            index <= tacky_instructions.len(),
            tacky == tacky_instructions.deep_view(),
            asm_instructions.deep_view() == spec_convert_instructions(
                tacky.subrange(0, index as int),
            ),
        decreases tacky_instructions.len() - index,
    {
        let ghost before = asm_instructions.deep_view();
        let tacky_instruction = &tacky_instructions[index];
        assert(tacky[index as int] == tacky_instruction.deep_view());
        match tacky_instruction {
            TackyInstruction::Return { value } => {
                push_instruction(
                    &mut asm_instructions,
                    AssemblyInstruction::Mov {
                        source: convert_operand(value),
                        destination: AssemblyOperand::Register(AssemblyRegister::AX),
                    },
                );
                push_instruction(&mut asm_instructions, AssemblyInstruction::Ret);
            },
            TackyInstruction::Unary { operator, source, destination } => match operator {
                TackyUnaryOperator::Not => {
                    push_instruction(
                        &mut asm_instructions,
                        AssemblyInstruction::Cmp {
                            left: AssemblyOperand::Imm(0),
                            right: convert_operand(source),
                        },
                    );
                    push_instruction(
                        &mut asm_instructions,
                        AssemblyInstruction::Mov {
                            source: AssemblyOperand::Imm(0),
                            destination: convert_operand(destination),
                        },
                    );
                    push_instruction(
                        &mut asm_instructions,
                        AssemblyInstruction::SetCC {
                            condition: AssemblyConditionCode::E,
                            operand: convert_operand(destination),
                        },
                    );
                },
                TackyUnaryOperator::Complement | TackyUnaryOperator::Negate => {
                    let unary_op = match operator {
                        TackyUnaryOperator::Complement => AssemblyUnaryOperator::Not,
                        _ => AssemblyUnaryOperator::Neg,
                    };
                    push_instruction(
                        &mut asm_instructions,
                        AssemblyInstruction::Mov {
                            source: convert_operand(source),
                            destination: convert_operand(destination),
                        },
                    );
                    push_instruction(
                        &mut asm_instructions,
                        AssemblyInstruction::Unary {
                            op: unary_op,
                            operand: convert_operand(destination),
                        },
                    );
                },
            },
            TackyInstruction::Binary { operator, source1, source2, destination } => {
                match operator {
                    TackyBinaryOperator::Add
                    | TackyBinaryOperator::Subtract
                    | TackyBinaryOperator::Multiply => {
                        let binary_op = match operator {
                            TackyBinaryOperator::Add => AssemblyBinaryOperator::Add,
                            TackyBinaryOperator::Subtract => AssemblyBinaryOperator::Sub,
                            _ => AssemblyBinaryOperator::Mult,
                        };
                        push_instruction(
                            &mut asm_instructions,
                            AssemblyInstruction::Mov {
                                source: convert_operand(source1),
                                destination: convert_operand(destination),
                            },
                        );
                        push_instruction(
                            &mut asm_instructions,
                            AssemblyInstruction::Binary {
                                op: binary_op,
                                source: convert_operand(source2),
                                destination: convert_operand(destination),
                            },
                        );
                    },
                    TackyBinaryOperator::Divide | TackyBinaryOperator::Remainder => {
                        let result_register = match operator {
                            // The quotient is left in %eax, the remainder in %edx.
                            TackyBinaryOperator::Divide => AssemblyRegister::AX,
                            _ => AssemblyRegister::DX,
                        };
                        push_instruction(
                            &mut asm_instructions,
                            AssemblyInstruction::Mov {
                                source: convert_operand(source1),
                                destination: AssemblyOperand::Register(AssemblyRegister::AX),
                            },
                        );
                        push_instruction(&mut asm_instructions, AssemblyInstruction::Cdq);
                        push_instruction(
                            &mut asm_instructions,
                            AssemblyInstruction::Idiv { operand: convert_operand(source2) },
                        );
                        push_instruction(
                            &mut asm_instructions,
                            AssemblyInstruction::Mov {
                                source: AssemblyOperand::Register(result_register),
                                destination: convert_operand(destination),
                            },
                        );
                    },
                    TackyBinaryOperator::Equal
                    | TackyBinaryOperator::NotEqual
                    | TackyBinaryOperator::GreaterThan
                    | TackyBinaryOperator::LessThan
                    | TackyBinaryOperator::GreaterThanEqual
                    | TackyBinaryOperator::LessThanEqual => {
                        let condition = match convert_condition_code(operator) {
                            Ok(condition) => condition,
                            Err(error) => {
                                return Err(error);
                            },
                        };
                        push_instruction(
                            &mut asm_instructions,
                            AssemblyInstruction::Cmp {
                                left: convert_operand(source2),
                                right: convert_operand(source1),
                            },
                        );
                        push_instruction(
                            &mut asm_instructions,
                            AssemblyInstruction::Mov {
                                source: AssemblyOperand::Imm(0),
                                destination: convert_operand(destination),
                            },
                        );
                        push_instruction(
                            &mut asm_instructions,
                            AssemblyInstruction::SetCC {
                                condition,
                                operand: convert_operand(destination),
                            },
                        );
                    },
                };
            },
            TackyInstruction::Copy { source, destination } => {
                push_instruction(
                    &mut asm_instructions,
                    AssemblyInstruction::Mov {
                        source: convert_operand(source),
                        destination: convert_operand(destination),
                    },
                );
            },
            TackyInstruction::Jump { target } => {
                push_instruction(
                    &mut asm_instructions,
                    AssemblyInstruction::Jmp { label: target.clone() },
                );
            },
            TackyInstruction::JumpIfZero { condition, target } => {
                push_instruction(
                    &mut asm_instructions,
                    AssemblyInstruction::Cmp {
                        left: AssemblyOperand::Imm(0),
                        right: convert_operand(condition),
                    },
                );
                push_instruction(
                    &mut asm_instructions,
                    AssemblyInstruction::JmpCC {
                        condition: AssemblyConditionCode::E,
                        label: target.clone(),
                    },
                );
            },
            TackyInstruction::JumpIfNotZero { condition, target } => {
                push_instruction(
                    &mut asm_instructions,
                    AssemblyInstruction::Cmp {
                        left: AssemblyOperand::Imm(0),
                        right: convert_operand(condition),
                    },
                );
                push_instruction(
                    &mut asm_instructions,
                    AssemblyInstruction::JmpCC {
                        condition: AssemblyConditionCode::NE,
                        label: target.clone(),
                    },
                );
            },
            TackyInstruction::Label(label) => {
                push_instruction(&mut asm_instructions, AssemblyInstruction::Label(label.clone()));
            },
        }
        proof {
            assert(asm_instructions.deep_view() =~= before + spec_convert_instruction(
                tacky[index as int],
            ));
            assert(tacky.subrange(0, index as int + 1).drop_last() =~= tacky.subrange(
                0,
                index as int,
            ));
        }
        index += 1;
    }
    assert(tacky.subrange(0, index as int) =~= tacky);
    Ok(asm_instructions)
}

} // verus!
