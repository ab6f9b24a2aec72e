use crate::compiler::code_gen::assembly_ast::{
    AssemblyBinaryOperator, AssemblyInstruction, AssemblyInstructionView, AssemblyOperand,
    AssemblyOperandView, AssemblyRegister,
};
use crate::compiler::code_gen::selection::push_instruction;
use vstd::prelude::*;

verus! {

/// The instructions that stand for one instruction once the operand combinations that the
/// assembler refuses are broken up through the scratch registers R10 and R11.
pub open spec fn spec_fixup_instruction(instruction: AssemblyInstructionView) -> Seq<
    AssemblyInstructionView,
> {
    let r10 = AssemblyOperandView::Register(AssemblyRegister::R10);
    let r11 = AssemblyOperandView::Register(AssemblyRegister::R11);
    match instruction {
        AssemblyInstructionView::Mov { source, destination } => {
            if source is Stack && destination is Stack {
                seq![
                    AssemblyInstructionView::Mov { source, destination: r10 },
                    AssemblyInstructionView::Mov { source: r10, destination },
                ]
            } else {
                seq![instruction]
            }
        },
        AssemblyInstructionView::Binary { op, source, destination } => {
            if op == AssemblyBinaryOperator::Mult {
                if destination is Stack {
                    seq![
                        AssemblyInstructionView::Mov { source: destination, destination: r11 },
                        AssemblyInstructionView::Binary { op, source, destination: r11 },
                        AssemblyInstructionView::Mov { source: r11, destination },
                    ]
                } else {
                    seq![instruction]
                }
            } else if source is Stack && destination is Stack {
                seq![
                    AssemblyInstructionView::Mov { source, destination: r10 },
                    AssemblyInstructionView::Binary { op, source: r10, destination },
                ]
            } else {
                seq![instruction]
            }
        },
        AssemblyInstructionView::Idiv { operand } => {
            if operand is Imm {
                seq![
                    AssemblyInstructionView::Mov { source: operand, destination: r10 },
                    AssemblyInstructionView::Idiv { operand: r10 },
                ]
            } else {
                seq![instruction]
            }
        },
        AssemblyInstructionView::Cmp { left, right } => {
            if left is Stack && right is Stack {
                seq![
                    AssemblyInstructionView::Mov { source: left, destination: r10 },
                    AssemblyInstructionView::Cmp { left: r10, right },
                ]
            } else if right is Imm {
                seq![
                    AssemblyInstructionView::Mov { source: right, destination: r11 },
                    AssemblyInstructionView::Cmp { left, right: r11 },
                ]
            } else {
                seq![instruction]
            }
        },
        _ => seq![instruction],
    }
}

/// The legalized form of a list of instructions: the legalized forms of its instructions,
/// one after the other.
pub open spec fn spec_fixup_instructions(instructions: Seq<AssemblyInstructionView>) -> Seq<
    AssemblyInstructionView,
>
    decreases instructions.len(),
{
    if instructions.len() == 0 {
        Seq::empty()
    } else {
        spec_fixup_instructions(instructions.drop_last()) + spec_fixup_instruction(
            instructions.last(),
        )
    }
}

/// Whether an instruction names a pseudo-register in any operand.
pub open spec fn has_pseudo_operand(instruction: AssemblyInstructionView) -> bool {
    match instruction {
        AssemblyInstructionView::Mov { source, destination } => source is Pseudo
            || destination is Pseudo,
        AssemblyInstructionView::Unary { operand, .. } => operand is Pseudo,
        AssemblyInstructionView::Binary { source, destination, .. } => source is Pseudo
            || destination is Pseudo,
        AssemblyInstructionView::Cmp { left, right } => left is Pseudo || right is Pseudo,
        AssemblyInstructionView::Idiv { operand } => operand is Pseudo,
        AssemblyInstructionView::SetCC { operand, .. } => operand is Pseudo,
        _ => false,
    }
}

/// Whether no instruction of the list names a pseudo-register.
pub open spec fn free_of_pseudo_operands(instructions: Seq<AssemblyInstructionView>) -> bool {
    forall|i: int| 0 <= i < instructions.len() ==> !has_pseudo_operand(#[trigger] instructions[i])
}

/// Whether the assembler accepts the operand combination of an instruction: no move,
/// addition, subtraction or comparison between two stack slots, no comparison against an
/// immediate on the right, no multiplication into a stack slot, no division by an immediate.
pub open spec fn accepted_operands(instruction: AssemblyInstructionView) -> bool {
    match instruction {
        AssemblyInstructionView::Mov { source, destination } => !(source is Stack
            && destination is Stack),
        AssemblyInstructionView::Binary { op, source, destination } => {
            if op == AssemblyBinaryOperator::Mult {
                !(destination is Stack)
            } else {
                !(source is Stack && destination is Stack)
            }
        },
        AssemblyInstructionView::Cmp { left, right } => !(left is Stack && right is Stack) && !(
        right is Imm),
        AssemblyInstructionView::Idiv { operand } => !(operand is Imm),
        _ => true,
    }
}

/// Whether an instruction may stand in a finished program: it names no pseudo-register and
/// the assembler accepts its operands.
pub open spec fn legal_instruction(instruction: AssemblyInstructionView) -> bool {
    !has_pseudo_operand(instruction) && accepted_operands(instruction)
}

/// Whether every instruction of the list may stand in a finished program.
pub open spec fn legal_instructions(instructions: Seq<AssemblyInstructionView>) -> bool {
    forall|i: int| 0 <= i < instructions.len() ==> legal_instruction(#[trigger] instructions[i])
}

/// The legalized form of one instruction holds between one and three instructions, each
/// with operands that the assembler accepts, and names a pseudo-register only where the
/// instruction did.
pub proof fn lemma_fixup_instruction_accepted(instruction: AssemblyInstructionView)
    ensures
        1 <= spec_fixup_instruction(instruction).len() <= 3,
        forall|i: int|
            0 <= i < spec_fixup_instruction(instruction).len() ==> accepted_operands(
                #[trigger] spec_fixup_instruction(instruction)[i],
            ),
        !has_pseudo_operand(instruction) ==> free_of_pseudo_operands(
            spec_fixup_instruction(instruction),
        ),
{
}

/// Legalization leaves only instructions whose operands the assembler accepts, whatever
/// the input; on an input free of pseudo-registers every instruction of the result is legal.
pub proof fn lemma_fixup_instructions_legal(instructions: Seq<AssemblyInstructionView>)
    ensures
        spec_fixup_instructions(instructions).len() <= 3 * instructions.len(),
        forall|i: int|
            0 <= i < spec_fixup_instructions(instructions).len() ==> accepted_operands(
                #[trigger] spec_fixup_instructions(instructions)[i],
            ),
        free_of_pseudo_operands(instructions) ==> legal_instructions(
            spec_fixup_instructions(instructions),
        ),
    decreases instructions.len(),
{
    if instructions.len() > 0 {
        lemma_fixup_instructions_legal(instructions.drop_last());
        lemma_fixup_instruction_accepted(instructions.last());
        let front = spec_fixup_instructions(instructions.drop_last());
        let back = spec_fixup_instruction(instructions.last());
        let all = spec_fixup_instructions(instructions);
        assert forall|i: int| 0 <= i < all.len() implies accepted_operands(#[trigger] all[i]) by {
            if i < front.len() {
                assert(all[i] == front[i]);
            } else {
                assert(all[i] == back[i - front.len()]);
            }
        }
        if free_of_pseudo_operands(instructions) {
            assert(free_of_pseudo_operands(instructions.drop_last())) by {
                assert forall|i: int| 0 <= i < instructions.drop_last().len() implies !has_pseudo_operand(
                    #[trigger] instructions.drop_last()[i],
                ) by {
                    assert(instructions.drop_last()[i] == instructions[i]);
                }
            }
            assert(!has_pseudo_operand(instructions.last())) by {
                assert(instructions.last() == instructions[instructions.len() - 1]);
            }
            assert forall|i: int| 0 <= i < all.len() implies legal_instruction(#[trigger] all[i]) by {
                if i < front.len() {
                    assert(all[i] == front[i]);
                } else {
                    assert(all[i] == back[i - front.len()]);
                }
            }
        }
    }
}

/// Whether an operand is a stack slot.
fn is_stack(operand: &AssemblyOperand) -> (answer: bool)
    ensures
        answer == (operand.deep_view() is Stack),
{
    match operand {
        AssemblyOperand::Stack(_) => true,
        _ => false,
    }
}

/// Whether an operand is an immediate.
fn is_immediate(operand: &AssemblyOperand) -> (answer: bool)
    ensures
        answer == (operand.deep_view() is Imm),
{
    match operand {
        AssemblyOperand::Imm(_) => true,
        _ => false,
    }
}

/// Rewrites one instruction into the instructions that the assembler accepts in its place.
pub fn fixup_asm_instruction(asm_instruction: &AssemblyInstruction) -> (fixed: Vec<
    AssemblyInstruction,
>)
    ensures
        fixed.deep_view() == spec_fixup_instruction(asm_instruction.deep_view()),
{
    let mut fixed: Vec<AssemblyInstruction> = Vec::new();
    assert(fixed.deep_view() =~= Seq::<AssemblyInstructionView>::empty());
    match asm_instruction {
        AssemblyInstruction::Mov { source, destination } => {
            if is_stack(source) && is_stack(destination) {
                push_instruction(
                    &mut fixed,
                    AssemblyInstruction::Mov {
                        source: source.clone(),
                        destination: AssemblyOperand::Register(AssemblyRegister::R10),
                    },
                );
                push_instruction(
                    &mut fixed,
                    AssemblyInstruction::Mov {
                        source: AssemblyOperand::Register(AssemblyRegister::R10),
                        destination: destination.clone(),
                    },
                );
            } else {
                push_instruction(&mut fixed, asm_instruction.clone());
            }
        },
        AssemblyInstruction::Binary { op, source, destination } => match op {
            AssemblyBinaryOperator::Add | AssemblyBinaryOperator::Sub => {
                if is_stack(source) && is_stack(destination) {
                    push_instruction(
                        &mut fixed,
                        AssemblyInstruction::Mov {
                            source: source.clone(),
                            destination: AssemblyOperand::Register(AssemblyRegister::R10),
                        },
                    );
                    push_instruction(
                        &mut fixed,
                        AssemblyInstruction::Binary {
                            op: *op,
                            source: AssemblyOperand::Register(AssemblyRegister::R10),
                            destination: destination.clone(),
                        },
                    );
                } else {
                    push_instruction(&mut fixed, asm_instruction.clone());
                }
            },
            AssemblyBinaryOperator::Mult => {
                if is_stack(destination) {
                    push_instruction(
                        &mut fixed,
                        AssemblyInstruction::Mov {
                            source: destination.clone(),
                            destination: AssemblyOperand::Register(AssemblyRegister::R11),
                        },
                    );
                    push_instruction(
                        &mut fixed,
                        AssemblyInstruction::Binary {
                            op: *op,
                            source: source.clone(),
                            destination: AssemblyOperand::Register(AssemblyRegister::R11),
                        },
                    );
                    push_instruction(
                        &mut fixed,
                        AssemblyInstruction::Mov {
                            source: AssemblyOperand::Register(AssemblyRegister::R11),
                            destination: destination.clone(),
                        },
                    );
                } else {
                    push_instruction(&mut fixed, asm_instruction.clone());
                }
            },
        },
        AssemblyInstruction::Idiv { operand } => {
            if is_immediate(operand) {
                push_instruction(
                    &mut fixed,
                    AssemblyInstruction::Mov {
                        source: operand.clone(),
                        destination: AssemblyOperand::Register(AssemblyRegister::R10),
                    },
                );
                push_instruction(
                    &mut fixed,
                    AssemblyInstruction::Idiv {
                        operand: AssemblyOperand::Register(AssemblyRegister::R10),
                    },
                );
            } else {
                push_instruction(&mut fixed, asm_instruction.clone());
            }
        },
        AssemblyInstruction::Cmp { left, right } => {
            if is_stack(left) && is_stack(right) {
                push_instruction(
                    &mut fixed,
                    AssemblyInstruction::Mov {
                        source: left.clone(),
                        destination: AssemblyOperand::Register(AssemblyRegister::R10),
                    },
                );
                push_instruction(
                    &mut fixed,
                    AssemblyInstruction::Cmp {
                        left: AssemblyOperand::Register(AssemblyRegister::R10),
                        right: right.clone(),
                    },
                );
            } else if is_immediate(right) {
                push_instruction(
                    &mut fixed,
                    AssemblyInstruction::Mov {
                        source: right.clone(),
                        destination: AssemblyOperand::Register(AssemblyRegister::R11),
                    },
                );
                push_instruction(
                    &mut fixed,
                    AssemblyInstruction::Cmp {
                        left: left.clone(),
                        right: AssemblyOperand::Register(AssemblyRegister::R11),
                    },
                );
            } else {
                push_instruction(&mut fixed, asm_instruction.clone());
            }
        },
        _ => {
            push_instruction(&mut fixed, asm_instruction.clone());
        },
    }
    assert(fixed.deep_view() =~= spec_fixup_instruction(asm_instruction.deep_view()));
    fixed
}

/// Legalizes every instruction of the list, in order. The result holds only operand
/// combinations that the assembler accepts; where the input names no pseudo-register, every
/// instruction of the result is legal.
pub fn instruction_fixup_pass(instructions: &Vec<AssemblyInstruction>) -> (fixed: Vec<
    AssemblyInstruction,
>)
    ensures
        fixed.deep_view() == spec_fixup_instructions(instructions.deep_view()),
        forall|i: int|
            0 <= i < fixed.deep_view().len() ==> accepted_operands(#[trigger] fixed.deep_view()[i]),
        free_of_pseudo_operands(instructions.deep_view()) ==> legal_instructions(
            fixed.deep_view(),
        ),
{
    let mut fixed_instructions: Vec<AssemblyInstruction> = Vec::new();
    let ghost input = instructions.deep_view();
    let mut index: usize = 0;
    assert(fixed_instructions.deep_view() =~= Seq::<AssemblyInstructionView>::empty());
    assert(input.subrange(0, 0) =~= Seq::<AssemblyInstructionView>::empty());
    while index < instructions.len()
        invariant
            index <= instructions.len(),
            input == instructions.deep_view(),
            fixed_instructions.deep_view() == spec_fixup_instructions(
                input.subrange(0, index as int),
            ),
        decreases instructions.len() - index,
    {
        let mut fixed = fixup_asm_instruction(&instructions[index]);
        assert(input[index as int] == instructions[index as int].deep_view());
        append_instructions(&mut fixed_instructions, &mut fixed);
        proof {
            assert(input.subrange(0, index as int + 1).drop_last() =~= input.subrange(
                0,
                index as int,
            ));
        }
        index += 1;
    }
    proof {
        assert(input.subrange(0, index as int) =~= input);
        lemma_fixup_instructions_legal(input);
    }
    fixed_instructions
}

/// Moves every instruction of `tail` to the end of `instructions`.
pub(crate) fn append_instructions(
    instructions: &mut Vec<AssemblyInstruction>,
    tail: &mut Vec<AssemblyInstruction>,
)
    ensures
        final(instructions).deep_view() == old(instructions).deep_view() + old(tail).deep_view(),
        final(tail)@.len() == 0,
{
    instructions.append(tail);
    assert(instructions.deep_view() =~= old(instructions).deep_view() + old(tail).deep_view());
}

} // verus!
