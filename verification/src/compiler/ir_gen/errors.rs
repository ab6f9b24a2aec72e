use crate::compiler::parser::cmm_ast::CmmBinaryOperator;
use vstd::prelude::*;
use vstd::string::*;

verus! {

/// The errors of the lowering to TACKY.
#[derive(Debug, Clone, Copy, PartialEq, Eq, Structural)]
pub enum IRConversionError {
    /// A short-circuit operator was asked for its TACKY operator: it has none.
    UnsupportedBinaryOperatorConversion { operator: CmmBinaryOperator },
}

impl IRConversionError {
    /// The message of the error.
    pub open spec fn message(self) -> Seq<char> {
        match self {
            IRConversionError::UnsupportedBinaryOperatorConversion { operator } => {
                "IR conversion error: Unsupported C-- binary operator conversion "@
                    + operator.spec_name()
            },
        }
    }

    /// Returns the message of the error: the stage, what went wrong, and the operator.
    pub fn to_string(&self) -> (text: String)
        ensures
            text@ == self.message(),
    {
        let mut text = String::new();
        match self {
            IRConversionError::UnsupportedBinaryOperatorConversion { operator } => {
                text.append("IR conversion error: Unsupported C-- binary operator conversion ");
                text.append(operator.name());
            },
        }
        assert(text@ =~= self.message());
        text
    }
}

} // verus!
