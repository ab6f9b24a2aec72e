use vstd::prelude::*;

verus! {

/// A TACKY program: a single function.
#[derive(Debug, Clone, PartialEq)]
pub enum TackyAst {
    Program { function: TackyFunction },
}

/// A TACKY function: its name and its instructions in order.
#[derive(Debug, Clone, PartialEq)]
pub enum TackyFunction {
    Function { identifier: String, instructions: Vec<TackyInstruction> },
}

/// One three-address instruction.
#[derive(Debug, Clone, PartialEq)]
#[allow(inconsistent_fields)]
pub enum TackyInstruction {
    Return { value: TackyValue },
    Unary { operator: TackyUnaryOperator, source: TackyValue, destination: TackyValue },
    Binary {
        operator: TackyBinaryOperator,
        source1: TackyValue,
        source2: TackyValue,
        destination: TackyValue,
    },
    Copy { source: TackyValue, destination: TackyValue },
    Jump { target: String },
    JumpIfZero { condition: TackyValue, target: String },
    JumpIfNotZero { condition: TackyValue, target: String },
    Label(String),
}

/// An operand of an instruction: a constant or a named variable.
#[derive(Debug, PartialEq)]
pub enum TackyValue {
    Constant(i32),
    Variable(String),
}

/// A unary operator of TACKY.
#[derive(Debug, Clone, Copy, PartialEq, Eq, Structural)]
pub enum TackyUnaryOperator {
    Complement,
    Negate,
    Not,
}

/// A binary operator of TACKY. The short-circuit operators have no counterpart here.
#[derive(Debug, Clone, Copy, PartialEq, Eq, Structural)]
pub enum TackyBinaryOperator {
    Add,
    Subtract,
    Multiply,
    Divide,
    Remainder,
    Equal,
    NotEqual,
    LessThan,
    GreaterThan,
    LessThanEqual,
    GreaterThanEqual,
}

/// The mathematical value of a [`TackyValue`].
pub enum TackyValueView {
    Constant(i32),
    Variable(Seq<char>),
}

/// The mathematical value of a [`TackyInstruction`].
#[allow(inconsistent_fields)]
pub enum TackyInstructionView {
    Return { value: TackyValueView },
    Unary { operator: TackyUnaryOperator, source: TackyValueView, destination: TackyValueView },
    Binary {
        operator: TackyBinaryOperator,
        source1: TackyValueView,
        source2: TackyValueView,
        destination: TackyValueView,
    },
    Copy { source: TackyValueView, destination: TackyValueView },
    Jump { target: Seq<char> },
    JumpIfZero { condition: TackyValueView, target: Seq<char> },
    JumpIfNotZero { condition: TackyValueView, target: Seq<char> },
    Label(Seq<char>),
}

/// The mathematical value of a [`TackyFunction`].
pub struct TackyFunctionView {
    pub identifier: Seq<char>,
    pub instructions: Seq<TackyInstructionView>,
}

/// The mathematical value of a [`TackyAst`].
pub struct TackyAstView {
    pub function: TackyFunctionView,
}

impl DeepView for TackyValue {
    type V = TackyValueView;

    open spec fn deep_view(&self) -> TackyValueView {
        match self {
            TackyValue::Constant(value) => TackyValueView::Constant(*value),
            TackyValue::Variable(name) => TackyValueView::Variable(name@),
        }
    }
}

impl Clone for TackyValue {
    fn clone(&self) -> (copy: Self)
        ensures
            copy == *self,
    {
        match self {
            TackyValue::Constant(value) => TackyValue::Constant(*value),
            TackyValue::Variable(name) => TackyValue::Variable(name.clone()),
        }
    }
}

impl DeepView for TackyInstruction {
    type V = TackyInstructionView;

    open spec fn deep_view(&self) -> TackyInstructionView {
        match self {
            TackyInstruction::Return { value } => TackyInstructionView::Return {
                value: value.deep_view(),
            },
            TackyInstruction::Unary { operator, source, destination } => {
                TackyInstructionView::Unary {
                    operator: *operator,
                    source: source.deep_view(),
                    destination: destination.deep_view(),
                }
            },
            TackyInstruction::Binary { operator, source1, source2, destination } => {
                TackyInstructionView::Binary {
                    operator: *operator,
                    source1: source1.deep_view(),
                    source2: source2.deep_view(),
                    destination: destination.deep_view(),
                }
            },
            TackyInstruction::Copy { source, destination } => TackyInstructionView::Copy {
                source: source.deep_view(),
                destination: destination.deep_view(),
            },
            TackyInstruction::Jump { target } => TackyInstructionView::Jump { target: target@ },
            TackyInstruction::JumpIfZero { condition, target } => {
                TackyInstructionView::JumpIfZero {
                    condition: condition.deep_view(),
                    target: target@,
                }
            },
            TackyInstruction::JumpIfNotZero { condition, target } => {
                TackyInstructionView::JumpIfNotZero {
                    condition: condition.deep_view(),
                    target: target@,
                }
            },
            TackyInstruction::Label(label) => TackyInstructionView::Label(label@),
        }
    }
}

impl DeepView for TackyFunction {
    type V = TackyFunctionView;

    open spec fn deep_view(&self) -> TackyFunctionView {
        match self {
            TackyFunction::Function { identifier, instructions } => TackyFunctionView {
                identifier: identifier@,
                instructions: instructions.deep_view(),
            },
        }
    }
}

impl DeepView for TackyAst {
    type V = TackyAstView;

    open spec fn deep_view(&self) -> TackyAstView {
        match self {
            TackyAst::Program { function } => TackyAstView { function: function.deep_view() },
        }
    }
}

impl TackyBinaryOperator {
    /// The variant's name, as diagnostics print it.
    pub open spec fn spec_name(self) -> Seq<char> {
        match self {
            TackyBinaryOperator::Add => "Add"@,
            TackyBinaryOperator::Subtract => "Subtract"@,
            TackyBinaryOperator::Multiply => "Multiply"@,
            TackyBinaryOperator::Divide => "Divide"@,
            TackyBinaryOperator::Remainder => "Remainder"@,
            TackyBinaryOperator::Equal => "Equal"@,
            TackyBinaryOperator::NotEqual => "NotEqual"@,
            TackyBinaryOperator::LessThan => "LessThan"@,
            TackyBinaryOperator::GreaterThan => "GreaterThan"@,
            TackyBinaryOperator::LessThanEqual => "LessThanEqual"@,
            TackyBinaryOperator::GreaterThanEqual => "GreaterThanEqual"@,
        }
    }

    /// Returns the variant's name.
    pub fn name(&self) -> (text: &'static str)
        ensures
            text@ == self.spec_name(),
    {
        match self {
            TackyBinaryOperator::Add => "Add",
            TackyBinaryOperator::Subtract => "Subtract",
            TackyBinaryOperator::Multiply => "Multiply",
            TackyBinaryOperator::Divide => "Divide",
            TackyBinaryOperator::Remainder => "Remainder",
            TackyBinaryOperator::Equal => "Equal",
            TackyBinaryOperator::NotEqual => "NotEqual",
            TackyBinaryOperator::LessThan => "LessThan",
            TackyBinaryOperator::GreaterThan => "GreaterThan",
            TackyBinaryOperator::LessThanEqual => "LessThanEqual",
            TackyBinaryOperator::GreaterThanEqual => "GreaterThanEqual",
        }
    }
}

} // verus!
