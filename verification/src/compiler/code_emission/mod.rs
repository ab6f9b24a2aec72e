use crate::common::text::{decimal, push_decimal_i32};
use crate::compiler::code_gen::assembly_ast::{
    AssemblyAst, AssemblyAstView, AssemblyBinaryOperator, AssemblyConditionCode, AssemblyFunction,
    AssemblyFunctionView, AssemblyInstruction, AssemblyInstructionView, AssemblyOperand,
    AssemblyOperandView, AssemblyRegister, AssemblyUnaryOperator,
};
use crate::compiler::code_gen::fixup::{free_of_pseudo_operands, has_pseudo_operand};
use vstd::prelude::*;
use vstd::string::*;

verus! {

/// What goes before a function's name to make its symbol: an underscore where the target
/// expects one, as Mach-O does, and nothing where it does not, as ELF.
#[derive(Debug, Clone, Copy, PartialEq, Eq, Structural)]
pub enum SymbolPrefix {
    Underscore,
    Bare,
}

impl SymbolPrefix {
    /// The characters of the prefix.
    pub open spec fn spec_text(self) -> Seq<char> {
        match self {
            SymbolPrefix::Underscore => "_"@,
            SymbolPrefix::Bare => ""@,
        }
    }

    /// Returns the characters of the prefix.
    pub fn text(&self) -> (text: &'static str)
        ensures
            text@ == self.spec_text(),
    {
        match self {
            SymbolPrefix::Underscore => "_",
            SymbolPrefix::Bare => "",
        }
    }
}

/// An instruction's line: a tab, the text, a line feed.
pub open spec fn spec_wrap_instruction(instruction: Seq<char>) -> Seq<char> {
    "\t"@ + instruction + "\n"@
}

/// A label's line: the label, a colon, a line feed.
pub open spec fn spec_wrap_label(label: Seq<char>) -> Seq<char> {
    label + ":\n"@
}

/// The mnemonic of a one-operand instruction.
pub open spec fn spec_format_unary_operator(op: AssemblyUnaryOperator) -> Seq<char> {
    match op {
        AssemblyUnaryOperator::Neg => "negl"@,
        AssemblyUnaryOperator::Not => "notl"@,
    }
}

/// The mnemonic of a two-operand instruction.
pub open spec fn spec_format_binary_operator(op: AssemblyBinaryOperator) -> Seq<char> {
    match op {
        AssemblyBinaryOperator::Add => "addl"@,
        AssemblyBinaryOperator::Sub => "subl"@,
        AssemblyBinaryOperator::Mult => "imull"@,
    }
}

/// The suffix that a condition gives to `j` and `set`.
pub open spec fn spec_condition_suffix(condition_code: AssemblyConditionCode) -> Seq<char> {
    match condition_code {
        AssemblyConditionCode::E => "e"@,
        AssemblyConditionCode::NE => "ne"@,
        AssemblyConditionCode::G => "g"@,
        AssemblyConditionCode::L => "l"@,
        AssemblyConditionCode::GE => "ge"@,
        AssemblyConditionCode::LE => "le"@,
    }
}

/// The spelling of a register: its lowest byte where `use_1byte_representation` holds,
/// else its lower four bytes.
pub open spec fn spec_format_register(
    register: AssemblyRegister,
    use_1byte_representation: bool,
) -> Seq<char> {
    match register {
        AssemblyRegister::AX => if use_1byte_representation {
            "%al"@
        } else {
            "%eax"@
        },
        AssemblyRegister::DX => if use_1byte_representation {
            "%dl"@
        } else {
            "%edx"@
        },
        AssemblyRegister::R10 => if use_1byte_representation {
            "%r10b"@
        } else {
            "%r10d"@
        },
        AssemblyRegister::R11 => if use_1byte_representation {
            "%r11b"@
        } else {
            "%r11d"@
        },
    }
}

/// The spelling of an immediate: a dollar sign and the value in decimal.
pub open spec fn spec_format_immediate_value(value: i32) -> Seq<char> {
    "$"@ + decimal(value as int)
}

/// The spelling of a stack slot: the offset in decimal, then the frame pointer in
/// parentheses.
pub open spec fn spec_format_stack_offset(offset: i32) -> Seq<char> {
    decimal(offset as int) + "(%rbp)"@
}

/// The spelling of an operand. A pseudo-register has none: it is given the empty text
/// here and is left out by every function that formats.
pub open spec fn spec_format_operand(
    operand: AssemblyOperandView,
    use_1byte_representation: bool,
) -> Seq<char> {
    match operand {
        AssemblyOperandView::Imm(value) => spec_format_immediate_value(value),
        AssemblyOperandView::Register(register) => spec_format_register(
            register,
            use_1byte_representation,
        ),
        AssemblyOperandView::Stack(offset) => spec_format_stack_offset(offset),
        AssemblyOperandView::Pseudo(_) => Seq::empty(),
    }
}

/// The lines that close a function: the stack pointer is restored, the frame pointer is
/// popped, and control returns.
pub open spec fn spec_epilogue() -> Seq<char> {
    spec_wrap_instruction("movq %rbp, %rsp"@) + spec_wrap_instruction("popq %rbp"@)
        + spec_wrap_instruction("ret"@)
}

/// The text of an instruction: one line, but for the return, which is the epilogue.
pub open spec fn spec_format_instruction(instruction: AssemblyInstructionView) -> Seq<char> {
    match instruction {
        AssemblyInstructionView::Mov { source, destination } => spec_wrap_instruction(
            "movl "@ + spec_format_operand(source, false) + ", "@ + spec_format_operand(
                destination,
                false,
            ),
        ),
        AssemblyInstructionView::Unary { op, operand } => spec_wrap_instruction(
            spec_format_unary_operator(op) + " "@ + spec_format_operand(operand, false),
        ),
        AssemblyInstructionView::Binary { op, source, destination } => spec_wrap_instruction(
            spec_format_binary_operator(op) + " "@ + spec_format_operand(source, false) + ", "@
                + spec_format_operand(destination, false),
        ),
        AssemblyInstructionView::Cmp { left, right } => spec_wrap_instruction(
            "cmpl "@ + spec_format_operand(left, false) + ", "@ + spec_format_operand(right, false),
        ),
        AssemblyInstructionView::Idiv { operand } => spec_wrap_instruction(
            "idivl "@ + spec_format_operand(operand, false),
        ),
        AssemblyInstructionView::AllocateStack { bytes } => spec_wrap_instruction(
            "subq $"@ + decimal(bytes as int) + ", %rsp"@,
        ),
        AssemblyInstructionView::Cdq => spec_wrap_instruction("cdq"@),
        AssemblyInstructionView::Jmp { label } => spec_wrap_instruction("jmp L"@ + label),
        AssemblyInstructionView::JmpCC { condition, label } => spec_wrap_instruction(
            "j"@ + spec_condition_suffix(condition) + " L"@ + label,
        ),
        AssemblyInstructionView::SetCC { condition, operand } => spec_wrap_instruction(
            "set"@ + spec_condition_suffix(condition) + " "@ + spec_format_operand(operand, true),
        ),
        AssemblyInstructionView::Label(label) => spec_wrap_label("L"@ + label),
        AssemblyInstructionView::Ret => spec_epilogue(),
    }
}

/// The text of a list of instructions: the texts of its instructions, one after the other.
pub open spec fn spec_format_instructions(instructions: Seq<AssemblyInstructionView>) -> Seq<
    char,
>
    decreases instructions.len(),
{
    if instructions.len() == 0 {
        Seq::empty()
    } else {
        spec_format_instructions(instructions.drop_last()) + spec_format_instruction(
            instructions.last(),
        )
    }
}

/// The text of a function: the declaration of its symbol, its label, the prologue that
/// sets up the frame pointer, then its instructions.
pub open spec fn spec_emit_function(function: AssemblyFunctionView, prefix: SymbolPrefix) -> Seq<
    char,
> {
    let symbol = prefix.spec_text() + function.identifier;
    spec_wrap_instruction(".globl "@ + symbol) + spec_wrap_label(symbol) + spec_wrap_instruction(
        "pushq %rbp"@,
    ) + spec_wrap_instruction("movq %rsp, %rbp"@) + spec_format_instructions(
        function.instructions,
    )
}

/// The text of a program.
pub open spec fn spec_emit_assembly(program: AssemblyAstView, prefix: SymbolPrefix) -> Seq<char> {
    spec_emit_function(program.function, prefix)
}

/// Emits a program as AT&T assembly, with symbols that start with an underscore.
pub fn emit_assembly(assembly_ast: &AssemblyAst) -> (text: String)
    requires
        free_of_pseudo_operands(assembly_ast.deep_view().function.instructions),
    ensures
        text@ == spec_emit_assembly(assembly_ast.deep_view(), SymbolPrefix::Underscore),
{
    emit_assembly_with_prefix(assembly_ast, SymbolPrefix::Underscore)
}

/// Emits a program as AT&T assembly, with the symbol prefix of the target.
pub fn emit_assembly_with_prefix(assembly_ast: &AssemblyAst, prefix: SymbolPrefix) -> (text:
    String)
    requires
        free_of_pseudo_operands(assembly_ast.deep_view().function.instructions),
    ensures
        text@ == spec_emit_assembly(assembly_ast.deep_view(), prefix),
{
    match assembly_ast {
        AssemblyAst::Program { function } => emit_function_with_prefix(function, prefix),
    }
}

/// Emits a function, with a symbol that starts with an underscore.
pub fn emit_function(function: &AssemblyFunction) -> (text: String)
    requires
        free_of_pseudo_operands(function.deep_view().instructions),
    ensures
        text@ == spec_emit_function(function.deep_view(), SymbolPrefix::Underscore),
{
    emit_function_with_prefix(function, SymbolPrefix::Underscore)
}

/// Emits a function, with the symbol prefix of the target.
pub fn emit_function_with_prefix(function: &AssemblyFunction, prefix: SymbolPrefix) -> (text:
    String)
    requires
        free_of_pseudo_operands(function.deep_view().instructions),
    ensures
        text@ == spec_emit_function(function.deep_view(), prefix),
{
    match function {
        AssemblyFunction::Function { identifier, instructions } => {
            let mut asm_identifier = String::new();
            asm_identifier.append(prefix.text());
            asm_identifier.append(identifier.as_str());
            let mut declaration = String::new();
            declaration.append(".globl ");
            declaration.append(asm_identifier.as_str());
            let mut function_code = wrap_instruction(declaration.as_str());
            function_code.append(wrap_label(asm_identifier.as_str()).as_str());
            function_code.append(wrap_instruction("pushq %rbp").as_str());
            function_code.append(wrap_instruction("movq %rsp, %rbp").as_str());
            let ghost header = function_code@;
            let ghost body = instructions.deep_view();
            let mut index: usize = 0;
            proof {
                assert(asm_identifier@ =~= prefix.spec_text() + identifier@);
                assert(body.subrange(0, 0) =~= Seq::<AssemblyInstructionView>::empty());
                assert(function_code@ =~= header + spec_format_instructions(body.subrange(0, 0)));
            }
            while index < instructions.len()
                invariant
                    index <= instructions.len(),
                    body == instructions.deep_view(),
                    free_of_pseudo_operands(body),
                    function_code@ == header + spec_format_instructions(
                        body.subrange(0, index as int),
                    ),
                decreases instructions.len() - index,
            {
                proof {
                    assert(body[index as int] == instructions[index as int].deep_view());
                    assert(body.subrange(0, index as int + 1).drop_last() =~= body.subrange(
                        0,
                        index as int,
                    ));
                }
                let line = format_instruction(&instructions[index]);
                function_code.append(line.as_str());
                assert(function_code@ =~= header + spec_format_instructions(
                    body.subrange(0, index as int + 1),
                ));
                index += 1;
            }
            proof {
                assert(body.subrange(0, index as int) =~= body);
                assert(function_code@ =~= spec_emit_function(function.deep_view(), prefix));
            }
            function_code
        },
    }
}

/// Formats one instruction: a tab-indented line that ends in a line feed, a label on a line
/// of its own, or the epilogue in place of the return.
pub fn format_instruction(instruction: &AssemblyInstruction) -> (text: String)
    requires
        !has_pseudo_operand(instruction.deep_view()),
    ensures
        text@ == spec_format_instruction(instruction.deep_view()),
{
    let mut line = String::new();
    match instruction {
        AssemblyInstruction::Mov { source, destination } => {
            line.append("movl ");
            line.append(format_operand(source, false).as_str());
            line.append(", ");
            line.append(format_operand(destination, false).as_str());
        },
        AssemblyInstruction::Unary { op, operand } => {
            line.append(format_unary_operator(op).as_str());
            line.append(" ");
            line.append(format_operand(operand, false).as_str());
        },
        AssemblyInstruction::Binary { op, source, destination } => {
            line.append(format_binary_operator(op).as_str());
            line.append(" ");
            line.append(format_operand(source, false).as_str());
            line.append(", ");
            line.append(format_operand(destination, false).as_str());
        },
        AssemblyInstruction::Cmp { left, right } => {
            line.append("cmpl ");
            line.append(format_operand(left, false).as_str());
            line.append(", ");
            line.append(format_operand(right, false).as_str());
        },
        AssemblyInstruction::Idiv { operand } => {
            line.append("idivl ");
            line.append(format_operand(operand, false).as_str());
        },
        AssemblyInstruction::AllocateStack { bytes } => {
            line.append("subq $");
            push_decimal_i32(&mut line, *bytes);
            line.append(", %rsp");
        },
        AssemblyInstruction::Cdq => {
            line.append("cdq");
        },
        AssemblyInstruction::Jmp { label } => {
            line.append("jmp L");
            line.append(label.as_str());
        },
        AssemblyInstruction::JmpCC { condition, label } => {
            line.append("j");
            line.append(transform_condition_code(condition).as_str());
            line.append(" L");
            line.append(label.as_str());
        },
        AssemblyInstruction::SetCC { condition, operand } => {
            line.append("set");
            line.append(transform_condition_code(condition).as_str());
            line.append(" ");
            line.append(format_operand(operand, true).as_str());
        },
        AssemblyInstruction::Label(label) => {
            line.append("L");
            line.append(label.as_str());
            let text = wrap_label(line.as_str());
            assert(line@ =~= "L"@ + label@);
            return text;
        },
        AssemblyInstruction::Ret => {
            let mut epilogue = wrap_instruction("movq %rbp, %rsp");
            epilogue.append(wrap_instruction("popq %rbp").as_str());
            epilogue.append(wrap_instruction("ret").as_str());
            return epilogue;
        },
    }
    let text = wrap_instruction(line.as_str());
    assert(text@ =~= spec_format_instruction(instruction.deep_view()));
    text
}

/// Formats the mnemonic of a one-operand instruction.
pub fn format_unary_operator(op: &AssemblyUnaryOperator) -> (text: String)
    ensures
        text@ == spec_format_unary_operator(*op),
{
    match op {
        AssemblyUnaryOperator::Neg => String::from_str("negl"),
        AssemblyUnaryOperator::Not => String::from_str("notl"),
    }
}

/// Formats the mnemonic of a two-operand instruction.
pub fn format_binary_operator(op: &AssemblyBinaryOperator) -> (text: String)
    ensures
        text@ == spec_format_binary_operator(*op),
{
    match op {
        AssemblyBinaryOperator::Add => String::from_str("addl"),
        AssemblyBinaryOperator::Sub => String::from_str("subl"),
        AssemblyBinaryOperator::Mult => String::from_str("imull"),
    }
}

/// Formats an operand. A pseudo-register cannot be formatted: it must have been replaced
/// by its stack slot before.
pub fn format_operand(operand: &AssemblyOperand, use_1byte_representation: bool) -> (text:
    String)
    requires
        !(operand.deep_view() is Pseudo),
    ensures
        text@ == spec_format_operand(operand.deep_view(), use_1byte_representation),
{
    match operand {
        AssemblyOperand::Imm(value) => format_immediate_value(value),
        AssemblyOperand::Register(register) => format_register(register, use_1byte_representation),
        AssemblyOperand::Stack(offset) => format_stack_offset(offset),
        AssemblyOperand::Pseudo(_) => String::new(),
    }
}

/// Formats a register in its one-byte or its four-byte spelling.
pub fn format_register(register: &AssemblyRegister, use_1byte_representation: bool) -> (text:
    String)
    ensures
        text@ == spec_format_register(*register, use_1byte_representation),
{
    match register {
        AssemblyRegister::AX => match use_1byte_representation {
            true => String::from_str("%al"),
            false => String::from_str("%eax"),
        },
        AssemblyRegister::DX => match use_1byte_representation {
            true => String::from_str("%dl"),
            false => String::from_str("%edx"),
        },
        AssemblyRegister::R10 => match use_1byte_representation {
            true => String::from_str("%r10b"),
            false => String::from_str("%r10d"),
        },
        AssemblyRegister::R11 => match use_1byte_representation {
            true => String::from_str("%r11b"),
            false => String::from_str("%r11d"),
        },
    }
}

/// Formats an immediate.
pub fn format_immediate_value(value: &i32) -> (text: String)
    ensures
        text@ == spec_format_immediate_value(*value),
{
    let mut text = String::new();
    text.append("$");
    push_decimal_i32(&mut text, *value);
    assert(text@ =~= spec_format_immediate_value(*value));
    text
}

/// Formats a stack slot.
pub fn format_stack_offset(offset: &i32) -> (text: String)
    ensures
        text@ == spec_format_stack_offset(*offset),
{
    let mut text = String::new();
    push_decimal_i32(&mut text, *offset);
    text.append("(%rbp)");
    assert(text@ =~= spec_format_stack_offset(*offset));
    text
}

/// Puts a colon and a line feed behind a label.
pub fn wrap_label(label: &str) -> (text: String)
    ensures
        text@ == spec_wrap_label(label@),
{
    let mut text = String::new();
    text.append(label);
    text.append(":\n");
    assert(text@ =~= spec_wrap_label(label@));
    text
}

/// Puts a tab before an instruction and a line feed behind it.
pub fn wrap_instruction(instruction: &str) -> (text: String)
    ensures
        text@ == spec_wrap_instruction(instruction@),
{
    let mut text = String::new();
    text.append("\t");
    text.append(instruction);
    text.append("\n");
    assert(text@ =~= spec_wrap_instruction(instruction@));
    text
}

/// Formats the suffix of a condition.
pub fn transform_condition_code(condition_code: &AssemblyConditionCode) -> (text: String)
    ensures
        text@ == spec_condition_suffix(*condition_code),
{
    match condition_code {
        AssemblyConditionCode::E => String::from_str("e"),
        AssemblyConditionCode::NE => String::from_str("ne"),
        AssemblyConditionCode::G => String::from_str("g"),
        AssemblyConditionCode::L => String::from_str("l"),
        AssemblyConditionCode::GE => String::from_str("ge"),
        AssemblyConditionCode::LE => String::from_str("le"),
    }
}

} // verus!
