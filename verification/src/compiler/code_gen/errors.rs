use crate::compiler::ir_gen::tacky_ast::TackyBinaryOperator;
use vstd::prelude::*;
use vstd::string::*;

verus! {

/// The errors of assembly generation.
#[derive(Debug, Clone, Copy, PartialEq, Eq, Structural)]
pub enum CodegenError {
    /// A binary operator that is no comparison was asked for its condition code.
    UnsupportedConditionCodeConversion { operator: TackyBinaryOperator },
}

impl CodegenError {
    /// The message of the error.
    pub open spec fn message(self) -> Seq<char> {
        match self {
            CodegenError::UnsupportedConditionCodeConversion { operator } => {
                "Codegen error: Unsupported condition code conversion '"@ + operator.spec_name()
                    + "'"@
            },
        }
    }

    /// Returns the message of the error: the stage, what went wrong, and the operator.
    pub fn to_string(&self) -> (text: String)
        ensures
            text@ == self.message(),
    {
        let mut text = String::new();
        match self {
            CodegenError::UnsupportedConditionCodeConversion { operator } => {
                text.append("Codegen error: Unsupported condition code conversion '");
                text.append(operator.name());
                text.append("'");
            },
        }
        assert(text@ =~= self.message());
        text
    }
}

} // verus!
