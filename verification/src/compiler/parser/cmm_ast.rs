use vstd::prelude::*;

verus! {

/// The syntax tree of a program: a single function.
#[derive(Debug, PartialEq)]
pub enum CmmAst {
    Program { function: CmmFunction },
}

/// A function definition: its name and its body.
#[derive(Debug, PartialEq)]
pub enum CmmFunction {
    Function { identifier: String, body: CmmStatement },
}

/// A statement within a function.
#[derive(Debug, PartialEq)]
pub enum CmmStatement {
    Return { expression: CmmExpression },
}

/// An expression that evaluates to a value.
#[derive(Debug, PartialEq)]
#[allow(inconsistent_fields)]
pub enum CmmExpression {
    IntegerConstant { value: i32 },
    Unary { operator: CmmUnaryOperator, expression: Box<CmmExpression> },
    Binary { operator: CmmBinaryOperator, left: Box<CmmExpression>, right: Box<CmmExpression> },
}

/// A unary operator.
#[derive(Debug, Clone, Copy, PartialEq, Eq, Structural)]
pub enum CmmUnaryOperator {
    Complement,
    Negate,
    Not,
}

/// A binary operator.
#[derive(Debug, Clone, Copy, PartialEq, Eq, Structural)]
pub enum CmmBinaryOperator {
    Add,
    Subtract,
    Multiply,
    Divide,
    Remainder,
    And,
    Or,
    Equal,
    NotEqual,
    GreaterThan,
    LessThan,
    GreaterThanEqual,
    LessThanEqual,
}

/// The mathematical value of a [`CmmFunction`].
pub struct CmmFunctionView {
    pub identifier: Seq<char>,
    pub body: CmmStatement,
}

/// The mathematical value of a [`CmmAst`].
pub struct CmmAstView {
    pub function: CmmFunctionView,
}

impl DeepView for CmmFunction {
    type V = CmmFunctionView;

    open spec fn deep_view(&self) -> CmmFunctionView {
        match self {
            CmmFunction::Function { identifier, body } => CmmFunctionView {
                identifier: identifier@,
                body: *body,
            },
        }
    }
}

impl DeepView for CmmAst {
    type V = CmmAstView;

    open spec fn deep_view(&self) -> CmmAstView {
        match self {
            CmmAst::Program { function } => CmmAstView { function: function.deep_view() },
        }
    }
}

impl CmmExpression {
    /// The number of operator nodes in the expression.
    pub open spec fn operator_count(self) -> nat
        decreases self,
    {
        match self {
            CmmExpression::IntegerConstant { .. } => 0,
            CmmExpression::Unary { expression, .. } => 1 + expression.operator_count(),
            CmmExpression::Binary { left, right, .. } => 1 + left.operator_count()
                + right.operator_count(),
        }
    }

    /// The number of binary operator nodes in the expression.
    pub open spec fn binary_operator_count(self) -> nat
        decreases self,
    {
        match self {
            CmmExpression::IntegerConstant { .. } => 0,
            CmmExpression::Unary { expression, .. } => expression.binary_operator_count(),
            CmmExpression::Binary { left, right, .. } => 1 + left.binary_operator_count()
                + right.binary_operator_count(),
        }
    }

    /// The number of tokens that the operators and operands of the expression take at
    /// least: one for each operator, and one more operand than binary operators.
    pub open spec fn least_token_count(self) -> nat {
        self.operator_count() + self.binary_operator_count() + 1
    }
}

impl CmmBinaryOperator {
    /// The variant's name, as diagnostics print it.
    pub open spec fn spec_name(self) -> Seq<char> {
        match self {
            CmmBinaryOperator::Add => "Add"@,
            CmmBinaryOperator::Subtract => "Subtract"@,
            CmmBinaryOperator::Multiply => "Multiply"@,
            CmmBinaryOperator::Divide => "Divide"@,
            CmmBinaryOperator::Remainder => "Remainder"@,
            CmmBinaryOperator::And => "And"@,
            CmmBinaryOperator::Or => "Or"@,
            CmmBinaryOperator::Equal => "Equal"@,
            CmmBinaryOperator::NotEqual => "NotEqual"@,
            CmmBinaryOperator::GreaterThan => "GreaterThan"@,
            CmmBinaryOperator::LessThan => "LessThan"@,
            CmmBinaryOperator::GreaterThanEqual => "GreaterThanEqual"@,
            CmmBinaryOperator::LessThanEqual => "LessThanEqual"@,
        }
    }

    /// Returns the variant's name.
    pub fn name(&self) -> (text: &'static str)
        ensures
            text@ == self.spec_name(),
    {
        match self {
            CmmBinaryOperator::Add => "Add",
            CmmBinaryOperator::Subtract => "Subtract",
            CmmBinaryOperator::Multiply => "Multiply",
            CmmBinaryOperator::Divide => "Divide",
            CmmBinaryOperator::Remainder => "Remainder",
            CmmBinaryOperator::And => "And",
            CmmBinaryOperator::Or => "Or",
            CmmBinaryOperator::Equal => "Equal",
            CmmBinaryOperator::NotEqual => "NotEqual",
            CmmBinaryOperator::GreaterThan => "GreaterThan",
            CmmBinaryOperator::LessThan => "LessThan",
            CmmBinaryOperator::GreaterThanEqual => "GreaterThanEqual",
            CmmBinaryOperator::LessThanEqual => "LessThanEqual",
        }
    }
}

} // verus!
