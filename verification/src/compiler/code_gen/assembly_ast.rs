use vstd::prelude::*;

verus! {

/// An assembly program: a single function.
#[derive(Debug, Clone, PartialEq)]
pub enum AssemblyAst {
    Program { function: AssemblyFunction },
}

/// An assembly function: its name and its instructions in order.
#[derive(Debug, Clone, PartialEq)]
pub enum AssemblyFunction {
    Function { identifier: String, instructions: Vec<AssemblyInstruction> },
}

/// One assembly instruction.
#[derive(Debug, PartialEq)]
#[allow(inconsistent_fields)]
pub enum AssemblyInstruction {
    Mov { source: AssemblyOperand, destination: AssemblyOperand },
    Unary { op: AssemblyUnaryOperator, operand: AssemblyOperand },
    Binary { op: AssemblyBinaryOperator, source: AssemblyOperand, destination: AssemblyOperand },
    Cmp { left: AssemblyOperand, right: AssemblyOperand },
    Idiv { operand: AssemblyOperand },
    Cdq,
    AllocateStack { bytes: i32 },
    Jmp { label: String },
    JmpCC { condition: AssemblyConditionCode, label: String },
    SetCC { condition: AssemblyConditionCode, operand: AssemblyOperand },
    Label(String),
    Ret,
}

/// An instruction of one operand.
#[derive(Debug, Clone, Copy, PartialEq, Eq, Structural)]
pub enum AssemblyUnaryOperator {
    Neg,
    Not,
}

/// An instruction of two operands that computes into its destination.
#[derive(Debug, Clone, Copy, PartialEq, Eq, Structural)]
pub enum AssemblyBinaryOperator {
    Add,
    Sub,
    Mult,
}

/// The condition of a conditional jump or set.
#[derive(Debug, Clone, Copy, PartialEq, Eq, Structural)]
pub enum AssemblyConditionCode {
    E,
    NE,
    G,
    GE,
    L,
    LE,
}

/// An operand: an immediate, a register, a pseudo-register that still awaits its stack slot,
/// or a stack slot at an offset from the frame pointer.
#[derive(Debug, PartialEq)]
pub enum AssemblyOperand {
    Imm(i32),
    Register(AssemblyRegister),
    Pseudo(String),
    Stack(i32),
}

/// A hardware register.
#[derive(Debug, Clone, Copy, PartialEq, Eq, Structural)]
pub enum AssemblyRegister {
    AX,
    DX,
    R10,
    R11,
}

/// The mathematical value of an [`AssemblyOperand`].
pub enum AssemblyOperandView {
    Imm(i32),
    Register(AssemblyRegister),
    Pseudo(Seq<char>),
    Stack(i32),
}

/// The mathematical value of an [`AssemblyInstruction`].
#[allow(inconsistent_fields)]
pub enum AssemblyInstructionView {
    Mov { source: AssemblyOperandView, destination: AssemblyOperandView },
    Unary { op: AssemblyUnaryOperator, operand: AssemblyOperandView },
    Binary {
        op: AssemblyBinaryOperator,
        source: AssemblyOperandView,
        destination: AssemblyOperandView,
    },
    Cmp { left: AssemblyOperandView, right: AssemblyOperandView },
    Idiv { operand: AssemblyOperandView },
    Cdq,
    AllocateStack { bytes: i32 },
    Jmp { label: Seq<char> },
    JmpCC { condition: AssemblyConditionCode, label: Seq<char> },
    SetCC { condition: AssemblyConditionCode, operand: AssemblyOperandView },
    Label(Seq<char>),
    Ret,
}

/// The mathematical value of an [`AssemblyFunction`].
pub struct AssemblyFunctionView {
    pub identifier: Seq<char>,
    pub instructions: Seq<AssemblyInstructionView>,
}

/// The mathematical value of an [`AssemblyAst`].
pub struct AssemblyAstView {
    pub function: AssemblyFunctionView,
}

impl DeepView for AssemblyOperand {
    type V = AssemblyOperandView;

    open spec fn deep_view(&self) -> AssemblyOperandView {
        match self {
            AssemblyOperand::Imm(value) => AssemblyOperandView::Imm(*value),
            AssemblyOperand::Register(register) => AssemblyOperandView::Register(*register),
            AssemblyOperand::Pseudo(name) => AssemblyOperandView::Pseudo(name@),
            AssemblyOperand::Stack(offset) => AssemblyOperandView::Stack(*offset),
        }
    }
}

impl Clone for AssemblyOperand {
    fn clone(&self) -> (copy: Self)
        ensures
            copy == *self,
    {
        match self {
            AssemblyOperand::Imm(value) => AssemblyOperand::Imm(*value),
            AssemblyOperand::Register(register) => AssemblyOperand::Register(*register),
            AssemblyOperand::Pseudo(name) => AssemblyOperand::Pseudo(name.clone()),
            AssemblyOperand::Stack(offset) => AssemblyOperand::Stack(*offset),
        }
    }
}

impl DeepView for AssemblyInstruction {
    type V = AssemblyInstructionView;

    open spec fn deep_view(&self) -> AssemblyInstructionView {
        match self {
            AssemblyInstruction::Mov { source, destination } => AssemblyInstructionView::Mov {
                source: source.deep_view(),
                destination: destination.deep_view(),
            },
            AssemblyInstruction::Unary { op, operand } => AssemblyInstructionView::Unary {
                op: *op,
                operand: operand.deep_view(),
            },
            AssemblyInstruction::Binary { op, source, destination } => {
                AssemblyInstructionView::Binary {
                    op: *op,
                    source: source.deep_view(),
                    destination: destination.deep_view(),
                }
            },
            AssemblyInstruction::Cmp { left, right } => AssemblyInstructionView::Cmp {
                left: left.deep_view(),
                right: right.deep_view(),
            },
            AssemblyInstruction::Idiv { operand } => AssemblyInstructionView::Idiv {
                operand: operand.deep_view(),
            },
            AssemblyInstruction::Cdq => AssemblyInstructionView::Cdq,
            AssemblyInstruction::AllocateStack { bytes } => {
                AssemblyInstructionView::AllocateStack { bytes: *bytes }
            },
            AssemblyInstruction::Jmp { label } => AssemblyInstructionView::Jmp { label: label@ },
            AssemblyInstruction::JmpCC { condition, label } => AssemblyInstructionView::JmpCC {
                condition: *condition,
                label: label@,
            },
            AssemblyInstruction::SetCC { condition, operand } => {
                AssemblyInstructionView::SetCC {
                    condition: *condition,
                    operand: operand.deep_view(),
                }
            },
            AssemblyInstruction::Label(label) => AssemblyInstructionView::Label(label@),
            AssemblyInstruction::Ret => AssemblyInstructionView::Ret,
        }
    }
}

impl Clone for AssemblyInstruction {
    fn clone(&self) -> (copy: Self)
        ensures
            copy == *self,
    {
        match self {
            AssemblyInstruction::Mov { source, destination } => AssemblyInstruction::Mov {
                source: source.clone(),
                destination: destination.clone(),
            },
            AssemblyInstruction::Unary { op, operand } => AssemblyInstruction::Unary {
                op: *op,
                operand: operand.clone(),
            },
            AssemblyInstruction::Binary { op, source, destination } => {
                AssemblyInstruction::Binary {
                    op: *op,
                    source: source.clone(),
                    destination: destination.clone(),
                }
            },
            AssemblyInstruction::Cmp { left, right } => AssemblyInstruction::Cmp {
                left: left.clone(),
                right: right.clone(),
            },
            AssemblyInstruction::Idiv { operand } => AssemblyInstruction::Idiv {
                operand: operand.clone(),
            },
            AssemblyInstruction::Cdq => AssemblyInstruction::Cdq,
            AssemblyInstruction::AllocateStack { bytes } => AssemblyInstruction::AllocateStack {
                bytes: *bytes,
            },
            AssemblyInstruction::Jmp { label } => AssemblyInstruction::Jmp { label: label.clone() },
            AssemblyInstruction::JmpCC { condition, label } => AssemblyInstruction::JmpCC {
                condition: *condition,
                label: label.clone(),
            },
            AssemblyInstruction::SetCC { condition, operand } => AssemblyInstruction::SetCC {
                condition: *condition,
                operand: operand.clone(),
            },
            AssemblyInstruction::Label(label) => AssemblyInstruction::Label(label.clone()),
            AssemblyInstruction::Ret => AssemblyInstruction::Ret,
        }
    }
}

impl DeepView for AssemblyFunction {
    type V = AssemblyFunctionView;

    open spec fn deep_view(&self) -> AssemblyFunctionView {
        match self {
            AssemblyFunction::Function { identifier, instructions } => AssemblyFunctionView {
                identifier: identifier@,
                instructions: instructions.deep_view(),
            },
        }
    }
}

impl DeepView for AssemblyAst {
    type V = AssemblyAstView;

    open spec fn deep_view(&self) -> AssemblyAstView {
        match self {
            AssemblyAst::Program { function } => AssemblyAstView {
                function: function.deep_view(),
            },
        }
    }
}

} // verus!
