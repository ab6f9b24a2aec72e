pub mod assembly_ast;
pub mod constants;
pub mod errors;
pub mod fixup;
pub mod selection;
pub mod slot_laws;
pub mod slots;

pub use fixup::{fixup_asm_instruction, instruction_fixup_pass};
pub use selection::{convert_condition_code, convert_operand, instruction_conversion_pass};
pub use slots::{convert_pseudo_register, pseudoregister_replacement_pass};

use crate::compiler::ir_gen::tacky_ast::{
    TackyAst, TackyAstView, TackyFunction, TackyFunctionView, TackyInstruction,
    TackyInstructionView,
};
use assembly_ast::{
    AssemblyAst, AssemblyAstView, AssemblyFunction, AssemblyFunctionView, AssemblyInstruction,
    AssemblyInstructionView,
};
use errors::CodegenError;
use fixup::{
    append_instructions, legal_instructions, lemma_fixup_instructions_legal,
    spec_fixup_instructions,
};
use selection::{lemma_convert_instructions_len, push_instruction, spec_convert_instructions};
use slots::{lemma_slot_order_len, slot_order, spec_replace_pseudos};
use vstd::prelude::*;

verus! {

/// The number of bytes that the stack frame of a list of TACKY instructions needs: four
/// for each distinct variable.
pub open spec fn frame_bytes(instructions: Seq<TackyInstructionView>) -> nat {
    4 * slot_order(spec_convert_instructions(instructions)).len()
}

/// The finished assembly of a list of TACKY instructions: the stack allocation, then the
/// converted instructions with their pseudo-registers replaced and their operands
/// legalized.
pub open spec fn spec_generate_instructions(instructions: Seq<TackyInstructionView>) -> Seq<
    AssemblyInstructionView,
> {
    let converted = spec_convert_instructions(instructions);
    seq![AssemblyInstructionView::AllocateStack { bytes: frame_bytes(instructions) as i32 }]
        + spec_fixup_instructions(spec_replace_pseudos(converted))
}

/// The finished assembly of a TACKY function.
pub open spec fn spec_generate_function(function: TackyFunctionView) -> AssemblyFunctionView {
    AssemblyFunctionView {
        identifier: function.identifier,
        instructions: spec_generate_instructions(function.instructions),
    }
}

/// The finished assembly of a TACKY program.
pub open spec fn spec_generate_program(program: TackyAstView) -> AssemblyAstView {
    AssemblyAstView { function: spec_generate_function(program.function) }
}

/// What holds of a finished list of instructions: it starts by allocating a stack frame of
/// no less than zero bytes, and every instruction is legal.
pub open spec fn finished_instructions(instructions: Seq<AssemblyInstructionView>) -> bool {
    &&& instructions.len() > 0
    &&& instructions[0] matches AssemblyInstructionView::AllocateStack { bytes } && bytes >= 0
    &&& legal_instructions(instructions)
}

/// A list of TACKY instructions needs at most thirty-two bytes of stack for each of its
/// instructions.
pub proof fn lemma_frame_bytes_bound(instructions: Seq<TackyInstructionView>)
    ensures
        0 <= frame_bytes(instructions) <= 32 * instructions.len(),
{
    lemma_convert_instructions_len(instructions);
    lemma_slot_order_len(spec_convert_instructions(instructions), 0);
}

/// The finished assembly of any list of TACKY instructions whose frame fits 32 bits starts
/// with the stack allocation and holds only legal instructions.
pub proof fn lemma_generated_instructions_finished(instructions: Seq<TackyInstructionView>)
    requires
        frame_bytes(instructions) <= i32::MAX,
    ensures
        finished_instructions(spec_generate_instructions(instructions)),
{
    let converted = spec_convert_instructions(instructions);
    let replaced = spec_replace_pseudos(converted);
    slots::lemma_replace_pseudos_free(converted);
    lemma_fixup_instructions_legal(replaced);
    let fixed = spec_fixup_instructions(replaced);
    let all = spec_generate_instructions(instructions);
    assert forall|i: int| 0 <= i < all.len() implies fixup::legal_instruction(#[trigger] all[i]) by {
        if i > 0 {
            assert(all[i] == fixed[i - 1]);
        }
    }
}

/// Makes the instruction that allocates the stack frame: as many bytes as the offset of
/// the last slot lies from the frame pointer.
pub fn stack_allocation_pass(stack_offset: &i32) -> (allocation: AssemblyInstruction)
    requires
        *stack_offset > i32::MIN,
    ensures
        allocation.deep_view() == (AssemblyInstructionView::AllocateStack {
            bytes: (if *stack_offset < 0 {
                -*stack_offset
            } else {
                *stack_offset as int
            }) as i32,
        }),
{
    let bytes: i32 = if *stack_offset < 0 {
        -*stack_offset
    } else {
        *stack_offset
    };
    AssemblyInstruction::AllocateStack { bytes }
}

/// Generates the finished assembly of a list of TACKY instructions in four passes:
/// conversion, replacement of the pseudo-registers, stack allocation, legalization.
pub fn convert_instructions(tacky_instructions: &Vec<TackyInstruction>) -> (generated: Result<
    Vec<AssemblyInstruction>,
    CodegenError,
>)
    requires
        frame_bytes(tacky_instructions.deep_view()) <= i32::MAX,
    ensures
        generated is Ok,
        generated->Ok_0.deep_view() == spec_generate_instructions(tacky_instructions.deep_view()),
        finished_instructions(generated->Ok_0.deep_view()),
{
    let mut asm_instructions = match instruction_conversion_pass(tacky_instructions) {
        Ok(instructions) => instructions,
        Err(error) => {
            return Err(error);
        },
    };
    let stack_offset = pseudoregister_replacement_pass(&mut asm_instructions);
    let mut final_instructions: Vec<AssemblyInstruction> = Vec::new();
    assert(final_instructions.deep_view() =~= Seq::<AssemblyInstructionView>::empty());
    push_instruction(&mut final_instructions, stack_allocation_pass(&stack_offset));
    let mut fixed_instructions = instruction_fixup_pass(&asm_instructions);
    append_instructions(&mut final_instructions, &mut fixed_instructions);
    proof {
        assert(final_instructions.deep_view() =~= spec_generate_instructions(
            tacky_instructions.deep_view(),
        ));
        lemma_generated_instructions_finished(tacky_instructions.deep_view());
    }
    Ok(final_instructions)
}

/// Generates the finished assembly of a TACKY function.
pub fn convert_function(tacky_function: &TackyFunction) -> (generated: Result<
    AssemblyFunction,
    CodegenError,
>)
    requires
        frame_bytes(tacky_function.deep_view().instructions) <= i32::MAX,
    ensures
        generated is Ok,
        generated->Ok_0.deep_view() == spec_generate_function(tacky_function.deep_view()),
        finished_instructions(generated->Ok_0.deep_view().instructions),
{
    match tacky_function {
        TackyFunction::Function { identifier, instructions } => {
            let instructions = match convert_instructions(instructions) {
                Ok(instructions) => instructions,
                Err(error) => {
                    return Err(error);
                },
            };
            Ok(AssemblyFunction::Function { identifier: identifier.clone(), instructions })
        },
    }
}

/// Generates the finished assembly of a TACKY program. The result names no
/// pseudo-register, holds no operand combination that the assembler refuses, and starts
/// with the allocation of its stack frame. A program whose frame does not fit 32 bits is
/// left out.
pub fn convert_ast(tacky_ast: TackyAst) -> (generated: Result<AssemblyAst, CodegenError>)
    requires
        frame_bytes(tacky_ast.deep_view().function.instructions) <= i32::MAX,
    ensures
        generated is Ok,
        generated->Ok_0.deep_view() == spec_generate_program(tacky_ast.deep_view()),
        finished_instructions(generated->Ok_0.deep_view().function.instructions),
{
    match tacky_ast {
        TackyAst::Program { function } => {
            let function = match convert_function(&function) {
                Ok(function) => function,
                Err(error) => {
                    return Err(error);
                },
            };
            Ok(AssemblyAst::Program { function })
        },
    }
}

} // verus!
