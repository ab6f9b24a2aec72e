use crate::compiler::code_gen::{
    finished_instructions, lemma_frame_bytes_bound, lemma_generated_instructions_finished,
};
use crate::compiler::ir_gen::label_laws::{
    labels_distinct, lemma_labels_of_function, targets_defined,
};
use crate::compiler::{spec_compile, CompilerResultView, Stage};
use vstd::prelude::*;

verus! {

/// Every assembly program that a compilation hands back is finished: it starts by
/// allocating its stack frame, names no pseudo-register, and holds no operand combination
/// that the assembler refuses.
pub proof fn lemma_compiled_assembly_finished(source: Seq<char>)
    ensures
        spec_compile(source, Some(Stage::Codegen)) matches Ok(CompilerResultView::Codegen(program))
            ==> finished_instructions(program.function.instructions),
{
    match spec_compile(source, Some(Stage::Tacky)) {
        Ok(CompilerResultView::Tacky(tacky)) => {
            lemma_frame_bytes_bound(tacky.function.instructions);
            if spec_compile(source, Some(Stage::Codegen)) is Ok {
                lemma_generated_instructions_finished(tacky.function.instructions);
            }
        },
        _ => {},
    }
}

/// In every TACKY program that a compilation hands back, no two `Label` instructions hold
/// the same label, and every jump goes to a label of the function.
pub proof fn lemma_compiled_tacky_labels(source: Seq<char>)
    ensures
        spec_compile(source, Some(Stage::Tacky)) matches Ok(CompilerResultView::Tacky(program))
            ==> labels_distinct(program.function.instructions) && targets_defined(
            program.function.instructions,
            program.function.instructions,
        ),
{
    match spec_compile(source, Some(Stage::Parse)) {
        Ok(CompilerResultView::Parser(tree)) => {
            lemma_labels_of_function(tree.function, 0, 0);
        },
        _ => {},
    }
}

} // verus!
