pub mod errors;
pub mod label_laws;
pub mod tacky_ast;

use crate::common::text::{decimal, push_decimal_usize};
use crate::compiler::parser::cmm_ast::{
    CmmAst, CmmAstView, CmmBinaryOperator, CmmExpression, CmmFunction, CmmFunctionView,
    CmmStatement, CmmUnaryOperator,
};
use errors::IRConversionError;
use tacky_ast::{
    TackyAst, TackyAstView, TackyBinaryOperator, TackyFunction, TackyFunctionView,
    TackyInstruction, TackyInstructionView, TackyUnaryOperator, TackyValue, TackyValueView,
};
use vstd::prelude::*;
use vstd::string::*;

verus! {

/// The name of the temporary variable with the given number.
pub open spec fn temporary_name(number: nat) -> Seq<char> {
    "tmp."@ + decimal(number as int)
}

/// The name of the label with the given tag and number.
pub open spec fn label_name(tag: Seq<char>, number: nat) -> Seq<char> {
    tag + decimal(number as int)
}

/// The TACKY operator of a unary operator.
pub open spec fn spec_unary_operator(operator: CmmUnaryOperator) -> TackyUnaryOperator {
    match operator {
        CmmUnaryOperator::Complement => TackyUnaryOperator::Complement,
        CmmUnaryOperator::Negate => TackyUnaryOperator::Negate,
        CmmUnaryOperator::Not => TackyUnaryOperator::Not,
    }
}

/// The TACKY operator of a binary operator; `None` for the two short-circuit operators,
/// which become control flow.
pub open spec fn spec_binary_operator(operator: CmmBinaryOperator) -> Option<TackyBinaryOperator> {
    match operator {
        CmmBinaryOperator::Add => Some(TackyBinaryOperator::Add),
        CmmBinaryOperator::Subtract => Some(TackyBinaryOperator::Subtract),
        CmmBinaryOperator::Multiply => Some(TackyBinaryOperator::Multiply),
        CmmBinaryOperator::Divide => Some(TackyBinaryOperator::Divide),
        CmmBinaryOperator::Remainder => Some(TackyBinaryOperator::Remainder),
        CmmBinaryOperator::Equal => Some(TackyBinaryOperator::Equal),
        CmmBinaryOperator::NotEqual => Some(TackyBinaryOperator::NotEqual),
        CmmBinaryOperator::GreaterThan => Some(TackyBinaryOperator::GreaterThan),
        CmmBinaryOperator::LessThan => Some(TackyBinaryOperator::LessThan),
        CmmBinaryOperator::GreaterThanEqual => Some(TackyBinaryOperator::GreaterThanEqual),
        CmmBinaryOperator::LessThanEqual => Some(TackyBinaryOperator::LessThanEqual),
        CmmBinaryOperator::And | CmmBinaryOperator::Or => None,
    }
}

/// The number of short-circuit operators in an expression.
pub open spec fn short_circuit_count(expression: CmmExpression) -> nat
    decreases expression,
{
    match expression {
        CmmExpression::IntegerConstant { .. } => 0,
        CmmExpression::Unary { expression, .. } => short_circuit_count(*expression),
        CmmExpression::Binary { operator, left, right } => short_circuit_count(*left)
            + short_circuit_count(*right) + if spec_binary_operator(operator) is None {
            1nat
        } else {
            0nat
        },
    }
}

/// What the lowering of an expression leaves: the instructions it adds, the value that
/// holds the result, and the numbers of the next temporary and the next label.
pub struct Lowered {
    pub instructions: Seq<TackyInstructionView>,
    pub value: TackyValueView,
    pub temporaries: nat,
    pub labels: nat,
}

/// The instructions that finish a short-circuit operator once both operands have been
/// tested: the result is `first` where no test jumped, else the other of 0 and 1.
pub open spec fn short_circuit_tail(
    first: i32,
    destination: TackyValueView,
    jump_label: Seq<char>,
    end_label: Seq<char>,
) -> Seq<TackyInstructionView> {
    seq![
        TackyInstructionView::Copy { source: TackyValueView::Constant(first), destination },
        TackyInstructionView::Jump { target: end_label },
        TackyInstructionView::Label(jump_label),
        TackyInstructionView::Copy {
            source: TackyValueView::Constant((1 - first) as i32),
            destination,
        },
        TackyInstructionView::Label(end_label),
    ]
}

/// The lowering of an expression, where `temporaries` and `labels` are the numbers of the
/// next temporary and the next label. The left operand is lowered before the right one. A
/// short-circuit operator takes its two labels before its operands are lowered and its
/// temporary after.
pub open spec fn spec_emit(expression: CmmExpression, temporaries: nat, labels: nat) -> Lowered
    decreases expression,
{
    match expression {
        CmmExpression::IntegerConstant { value } => Lowered {
            instructions: Seq::empty(),
            value: TackyValueView::Constant(value),
            temporaries,
            labels,
        },
        CmmExpression::Unary { operator, expression } => {
            let inner = spec_emit(*expression, temporaries, labels);
            let destination = TackyValueView::Variable(temporary_name(inner.temporaries));
            Lowered {
                instructions: inner.instructions.push(
                    TackyInstructionView::Unary {
                        operator: spec_unary_operator(operator),
                        source: inner.value,
                        destination,
                    },
                ),
                value: destination,
                temporaries: inner.temporaries + 1,
                labels: inner.labels,
            }
        },
        CmmExpression::Binary { operator, left, right } => match operator {
            CmmBinaryOperator::And => {
                let false_label = label_name("and_false"@, labels);
                let end_label = label_name("and_end"@, labels + 1);
                let first = spec_emit(*left, temporaries, labels + 2);
                let second = spec_emit(*right, first.temporaries, first.labels);
                let destination = TackyValueView::Variable(temporary_name(second.temporaries));
                Lowered {
                    instructions: first.instructions.push(
                        TackyInstructionView::JumpIfZero {
                            condition: first.value,
                            target: false_label,
                        },
                    ) + second.instructions.push(
                        TackyInstructionView::JumpIfZero {
                            condition: second.value,
                            target: false_label,
                        },
                    ) + short_circuit_tail(1, destination, false_label, end_label),
                    value: destination,
                    temporaries: second.temporaries + 1,
                    labels: second.labels,
                }
            },
            CmmBinaryOperator::Or => {
                let true_label = label_name("or_true"@, labels);
                let end_label = label_name("or_end"@, labels + 1);
                let first = spec_emit(*left, temporaries, labels + 2);
                let second = spec_emit(*right, first.temporaries, first.labels);
                let destination = TackyValueView::Variable(temporary_name(second.temporaries));
                Lowered {
                    instructions: first.instructions.push(
                        TackyInstructionView::JumpIfNotZero {
                            condition: first.value,
                            target: true_label,
                        },
                    ) + second.instructions.push(
                        TackyInstructionView::JumpIfNotZero {
                            condition: second.value,
                            target: true_label,
                        },
                    ) + short_circuit_tail(0, destination, true_label, end_label),
                    value: destination,
                    temporaries: second.temporaries + 1,
                    labels: second.labels,
                }
            },
            _ => {
                let first = spec_emit(*left, temporaries, labels);
                let second = spec_emit(*right, first.temporaries, first.labels);
                let destination = TackyValueView::Variable(temporary_name(second.temporaries));
                Lowered {
                    instructions: (first.instructions + second.instructions).push(
                        TackyInstructionView::Binary {
                            operator: spec_binary_operator(operator).unwrap(),
                            source1: first.value,
                            source2: second.value,
                            destination,
                        },
                    ),
                    value: destination,
                    temporaries: second.temporaries + 1,
                    labels: second.labels,
                }
            },
        },
    }
}

/// The instructions of a statement: those of its expression, then the return of its value.
pub open spec fn spec_convert_statement(
    statement: CmmStatement,
    temporaries: nat,
    labels: nat,
) -> Seq<TackyInstructionView> {
    match statement {
        CmmStatement::Return { expression } => {
            let lowered = spec_emit(expression, temporaries, labels);
            lowered.instructions.push(TackyInstructionView::Return { value: lowered.value })
        },
    }
}

/// The TACKY function of a function.
pub open spec fn spec_convert_function(
    function: CmmFunctionView,
    temporaries: nat,
    labels: nat,
) -> TackyFunctionView {
    TackyFunctionView {
        identifier: function.identifier,
        instructions: spec_convert_statement(function.body, temporaries, labels),
    }
}

/// The TACKY program of a program.
pub open spec fn spec_convert_ast(program: CmmAstView, temporaries: nat, labels: nat) -> TackyAstView {
    TackyAstView { function: spec_convert_function(program.function, temporaries, labels) }
}

/// The lowering of an expression takes one temporary for each operator and two labels for
/// each short-circuit operator, of which there are no more than binary operators, and adds
/// at most seven instructions for each operator.
pub proof fn lemma_emit_counts(expression: CmmExpression, temporaries: nat, labels: nat)
    ensures
        spec_emit(expression, temporaries, labels).temporaries == temporaries
            + expression.operator_count(),
        spec_emit(expression, temporaries, labels).labels == labels + 2 * short_circuit_count(
            expression,
        ),
        short_circuit_count(expression) <= expression.binary_operator_count(),
        expression.binary_operator_count() <= expression.operator_count(),
        spec_emit(expression, temporaries, labels).instructions.len() <= 7
            * expression.operator_count(),
    decreases expression,
{
    match expression {
        CmmExpression::IntegerConstant { .. } => {},
        CmmExpression::Unary { expression, .. } => {
            lemma_emit_counts(*expression, temporaries, labels);
        },
        CmmExpression::Binary { operator, left, right } => {
            if spec_binary_operator(operator) is None {
                lemma_emit_counts(*left, temporaries, labels + 2);
                let first = spec_emit(*left, temporaries, labels + 2);
                lemma_emit_counts(*right, first.temporaries, first.labels);
            } else {
                lemma_emit_counts(*left, temporaries, labels);
                let first = spec_emit(*left, temporaries, labels);
                lemma_emit_counts(*right, first.temporaries, first.labels);
            }
        },
    }
}

/// Appends one instruction to a list.
fn push_tacky(instructions: &mut Vec<TackyInstruction>, instruction: TackyInstruction)
    ensures
        final(instructions).deep_view() == old(instructions).deep_view().push(
            instruction.deep_view(),
        ),
{
    instructions.push(instruction);
    assert(instructions.deep_view() =~= old(instructions).deep_view().push(
        instruction.deep_view(),
    ));
}

/// Makes the jump that leaves a short-circuit operator early: on zero for a conjunction,
/// on a value other than zero for a disjunction.
fn conditional_jump(conjunction: bool, condition: TackyValue, target: &String) -> (jump:
    TackyInstruction)
    ensures
        jump.deep_view() == (if conjunction {
            TackyInstructionView::JumpIfZero { condition: condition.deep_view(), target: target@ }
        } else {
            TackyInstructionView::JumpIfNotZero {
                condition: condition.deep_view(),
                target: target@,
            }
        }),
{
    if conjunction {
        TackyInstruction::JumpIfZero { condition, target: target.clone() }
    } else {
        TackyInstruction::JumpIfNotZero { condition, target: target.clone() }
    }
}

/// Appends the instructions that finish a short-circuit operator.
fn push_short_circuit_tail(
    instructions: &mut Vec<TackyInstruction>,
    first: i32,
    destination_name: &String,
    jump_label: String,
    end_label: String,
)
    requires
        0 <= first <= 1,
    ensures
        final(instructions).deep_view() == old(instructions).deep_view() + short_circuit_tail(
            first,
            TackyValueView::Variable(destination_name@),
            jump_label@,
            end_label@,
        ),
{
    push_tacky(
        instructions,
        TackyInstruction::Copy {
            source: TackyValue::Constant(first),
            destination: TackyValue::Variable(destination_name.clone()),
        },
    );
    push_tacky(instructions, TackyInstruction::Jump { target: end_label.clone() });
    push_tacky(instructions, TackyInstruction::Label(jump_label));
    push_tacky(
        instructions,
        TackyInstruction::Copy {
            source: TackyValue::Constant(1 - first),
            destination: TackyValue::Variable(destination_name.clone()),
        },
    );
    push_tacky(instructions, TackyInstruction::Label(end_label));
    assert(instructions.deep_view() =~= old(instructions).deep_view() + short_circuit_tail(
        first,
        TackyValueView::Variable(destination_name@),
        jump_label@,
        end_label@,
    ));
}

/// Lowers a syntax tree to TACKY. It owns the numbers of the next temporary variable and of
/// the next label; both only grow.
pub struct TackyEmitter {
    temp_counter: usize,
    label_counter: usize,
}

impl TackyEmitter {
    /// The number of the next temporary variable.
    pub closed spec fn temporaries(&self) -> nat {
        self.temp_counter as nat
    }

    /// The number of the next label.
    pub closed spec fn labels(&self) -> nat {
        self.label_counter as nat
    }

    /// Creates an emitter whose counters stand at zero.
    pub fn new() -> (emitter: Self)
        ensures
            emitter.temporaries() == 0,
            emitter.labels() == 0,
    {
        Self { temp_counter: 0, label_counter: 0 }
    }

    /// Lowers a program to TACKY.
    pub fn convert_ast(&mut self, cmm_ast: CmmAst) -> (converted: Result<
        TackyAst,
        IRConversionError,
    >)
        requires
            old(self).temporaries() + cmm_ast.deep_view().function.body->expression.operator_count()
                <= usize::MAX,
            old(self).labels() + 2 * short_circuit_count(
                cmm_ast.deep_view().function.body->expression,
            ) <= usize::MAX,
        ensures
            converted is Ok,
            converted->Ok_0.deep_view() == spec_convert_ast(
                cmm_ast.deep_view(),
                old(self).temporaries(),
                old(self).labels(),
            ),
            final(self).temporaries() == old(self).temporaries()
                + cmm_ast.deep_view().function.body->expression.operator_count(),
            final(self).labels() == old(self).labels() + 2 * short_circuit_count(
                cmm_ast.deep_view().function.body->expression,
            ),
    {
        let function = match cmm_ast {
            CmmAst::Program { function } => match self.convert_function(&function) {
                Ok(function) => function,
                Err(error) => {
                    return Err(error);
                },
            },
        };
        Ok(TackyAst::Program { function })
    }

    /// Lowers a function to TACKY.
    pub fn convert_function(&mut self, cmm_function: &CmmFunction) -> (converted: Result<
        TackyFunction,
        IRConversionError,
    >)
        requires
            old(self).temporaries() + cmm_function.deep_view().body->expression.operator_count()
                <= usize::MAX,
            old(self).labels() + 2 * short_circuit_count(
                cmm_function.deep_view().body->expression,
            ) <= usize::MAX,
        ensures
            converted is Ok,
            converted->Ok_0.deep_view() == spec_convert_function(
                cmm_function.deep_view(),
                old(self).temporaries(),
                old(self).labels(),
            ),
            final(self).temporaries() == old(self).temporaries()
                + cmm_function.deep_view().body->expression.operator_count(),
            final(self).labels() == old(self).labels() + 2 * short_circuit_count(
                cmm_function.deep_view().body->expression,
            ),
    {
        match cmm_function {
            CmmFunction::Function { identifier, body } => {
                let statements = match self.convert_statement(body) {
                    Ok(statements) => statements,
                    Err(error) => {
                        return Err(error);
                    },
                };
                Ok(
                    TackyFunction::Function {
                        identifier: identifier.clone(),
                        instructions: statements,
                    },
                )
            },
        }
    }

    /// Lowers a statement to its instructions.
    pub fn convert_statement(&mut self, cmm_statement: &CmmStatement) -> (converted: Result<
        Vec<TackyInstruction>,
        IRConversionError,
    >)
        requires
            old(self).temporaries() + cmm_statement->expression.operator_count() <= usize::MAX,
            old(self).labels() + 2 * short_circuit_count(cmm_statement->expression) <= usize::MAX,
        ensures
            converted is Ok,
            converted->Ok_0.deep_view() == spec_convert_statement(
                *cmm_statement,
                old(self).temporaries(),
                old(self).labels(),
            ),
            final(self).temporaries() == old(self).temporaries()
                + cmm_statement->expression.operator_count(),
            final(self).labels() == old(self).labels() + 2 * short_circuit_count(
                cmm_statement->expression,
            ),
    {
        match cmm_statement {
            CmmStatement::Return { expression } => {
                let mut tacky_instructions: Vec<TackyInstruction> = Vec::new();
                assert(tacky_instructions.deep_view() =~= Seq::<TackyInstructionView>::empty());
                let tacky_value = match self.emit_tacky(expression, &mut tacky_instructions) {
                    Ok(value) => value,
                    Err(error) => {
                        return Err(error);
                    },
                };
                push_tacky(&mut tacky_instructions, TackyInstruction::Return { value: tacky_value });
                assert(tacky_instructions.deep_view() =~= spec_convert_statement(
                    *cmm_statement,
                    old(self).temporaries(),
                    old(self).labels(),
                ));
                Ok(tacky_instructions)
            },
        }
    }

    /// Lowers an expression: appends its instructions to `tacky_instructions` and returns
    /// the value that holds its result.
    pub fn emit_tacky(
        &mut self,
        cmm_expression: &CmmExpression,
        tacky_instructions: &mut Vec<TackyInstruction>,
    ) -> (value: Result<TackyValue, IRConversionError>)
        requires
            old(self).temporaries() + cmm_expression.operator_count() <= usize::MAX,
            old(self).labels() + 2 * short_circuit_count(*cmm_expression) <= usize::MAX,
        ensures
            value is Ok,
            value->Ok_0.deep_view() == spec_emit(
                *cmm_expression,
                old(self).temporaries(),
                old(self).labels(),
            ).value,
            final(tacky_instructions).deep_view() == old(tacky_instructions).deep_view()
                + spec_emit(*cmm_expression, old(self).temporaries(), old(self).labels()).instructions,
            final(self).temporaries() == old(self).temporaries() + cmm_expression.operator_count(),
            final(self).labels() == old(self).labels() + 2 * short_circuit_count(*cmm_expression),
        decreases *cmm_expression, 1nat,
    {
        match cmm_expression {
            CmmExpression::IntegerConstant { value } => {
                assert(tacky_instructions.deep_view() =~= old(tacky_instructions).deep_view()
                    + spec_emit(
                    *cmm_expression,
                    old(self).temporaries(),
                    old(self).labels(),
                ).instructions);
                Ok(TackyValue::Constant(*value))
            },
            CmmExpression::Unary { operator, expression } => self.emit_unary(
                operator,
                expression,
                tacky_instructions,
            ),
            CmmExpression::Binary { operator, left, right } => match operator {
                CmmBinaryOperator::And | CmmBinaryOperator::Or => self.emit_short_circuit(
                    operator,
                    left,
                    right,
                    tacky_instructions,
                ),
                CmmBinaryOperator::Equal
                | CmmBinaryOperator::NotEqual
                | CmmBinaryOperator::GreaterThan
                | CmmBinaryOperator::LessThan
                | CmmBinaryOperator::GreaterThanEqual
                | CmmBinaryOperator::LessThanEqual
                | CmmBinaryOperator::Add
                | CmmBinaryOperator::Subtract
                | CmmBinaryOperator::Multiply
                | CmmBinaryOperator::Divide
                | CmmBinaryOperator::Remainder => self.emit_binary(
                    operator,
                    left,
                    right,
                    tacky_instructions,
                ),
            },
        }
    }

    /// Lowers a unary expression: its operand, then the operator into a new temporary.
    fn emit_unary(
        &mut self,
        operator: &CmmUnaryOperator,
        expression: &Box<CmmExpression>,
        tacky_instructions: &mut Vec<TackyInstruction>,
    ) -> (value: Result<TackyValue, IRConversionError>)
        requires
            old(self).temporaries() + (CmmExpression::Unary { operator: *operator, expression: *expression }).operator_count() <= usize::MAX,
            old(self).labels() + 2 * short_circuit_count((CmmExpression::Unary { operator: *operator, expression: *expression })) <= usize::MAX,
        ensures
            value is Ok,
            value->Ok_0.deep_view() == spec_emit(
                (CmmExpression::Unary { operator: *operator, expression: *expression }),
                old(self).temporaries(),
                old(self).labels(),
            ).value,
            final(tacky_instructions).deep_view() == old(tacky_instructions).deep_view()
                + spec_emit((CmmExpression::Unary { operator: *operator, expression: *expression }), old(self).temporaries(), old(self).labels()).instructions,
            final(self).temporaries() == old(self).temporaries() + (CmmExpression::Unary { operator: *operator, expression: *expression }).operator_count(),
            final(self).labels() == old(self).labels() + 2 * short_circuit_count((CmmExpression::Unary { operator: *operator, expression: *expression })),
        decreases (CmmExpression::Unary { operator: *operator, expression: *expression }), 0nat,
    {
        let ghost before = tacky_instructions.deep_view();
        let ghost whole = CmmExpression::Unary { operator: *operator, expression: *expression };
        let ghost lowered = spec_emit(whole, old(self).temporaries(), old(self).labels());
        proof {
            lemma_emit_counts(whole, old(self).temporaries(), old(self).labels());
        }
        let source = match self.emit_tacky(expression, tacky_instructions) {
            Ok(source) => source,
            Err(error) => {
                return Err(error);
            },
        };
        let destination_name = self.make_temporary();
        let destination = TackyValue::Variable(destination_name);
        let operator = self.convert_unary_operator(operator);
        push_tacky(
            tacky_instructions,
            TackyInstruction::Unary { operator, source, destination: destination.clone() },
        );
        assert(tacky_instructions.deep_view() =~= before + lowered.instructions);
        Ok(destination)
    }

    /// Lowers an arithmetic or comparison expression: the left operand, the right operand,
    /// then the operator into a new temporary.
    fn emit_binary(
        &mut self,
        operator: &CmmBinaryOperator,
        left: &Box<CmmExpression>,
        right: &Box<CmmExpression>,
        tacky_instructions: &mut Vec<TackyInstruction>,
    ) -> (value: Result<TackyValue, IRConversionError>)
        requires
            old(self).temporaries() + (CmmExpression::Binary { operator: *operator, left: *left, right: *right }).operator_count() <= usize::MAX,
            old(self).labels() + 2 * short_circuit_count((CmmExpression::Binary { operator: *operator, left: *left, right: *right })) <= usize::MAX,
            spec_binary_operator(*operator) is Some,
        ensures
            value is Ok,
            value->Ok_0.deep_view() == spec_emit(
                (CmmExpression::Binary { operator: *operator, left: *left, right: *right }),
                old(self).temporaries(),
                old(self).labels(),
            ).value,
            final(tacky_instructions).deep_view() == old(tacky_instructions).deep_view()
                + spec_emit((CmmExpression::Binary { operator: *operator, left: *left, right: *right }), old(self).temporaries(), old(self).labels()).instructions,
            final(self).temporaries() == old(self).temporaries() + (CmmExpression::Binary { operator: *operator, left: *left, right: *right }).operator_count(),
            final(self).labels() == old(self).labels() + 2 * short_circuit_count((CmmExpression::Binary { operator: *operator, left: *left, right: *right })),
        decreases (CmmExpression::Binary { operator: *operator, left: *left, right: *right }), 0nat,
    {
        let ghost before = tacky_instructions.deep_view();
        let ghost whole = CmmExpression::Binary { operator: *operator, left: *left, right: *right };
        let ghost lowered = spec_emit(whole, old(self).temporaries(), old(self).labels());
        proof {
            lemma_emit_counts(whole, old(self).temporaries(), old(self).labels());
        }
        proof {
            lemma_emit_counts(**left, old(self).temporaries(), old(self).labels());
        }
        let source1 = match self.emit_tacky(left, tacky_instructions) {
            Ok(source) => source,
            Err(error) => {
                return Err(error);
            },
        };
        let source2 = match self.emit_tacky(right, tacky_instructions) {
            Ok(source) => source,
            Err(error) => {
                return Err(error);
            },
        };
        let destination_name = self.make_temporary();
        let destination = TackyValue::Variable(destination_name);
        let operator = match self.convert_binary_operator(operator) {
            Ok(operator) => operator,
            Err(error) => {
                return Err(error);
            },
        };
        push_tacky(
            tacky_instructions,
            TackyInstruction::Binary { operator, source1, source2, destination: destination.clone() },
        );
        assert(tacky_instructions.deep_view() =~= before + lowered.instructions);
        Ok(destination)
    }

    /// Lowers a short-circuit expression to branches: each operand is tested as soon as it
    /// is known, and the right operand is skipped where the left one decides.
    fn emit_short_circuit(
        &mut self,
        operator: &CmmBinaryOperator,
        left: &Box<CmmExpression>,
        right: &Box<CmmExpression>,
        tacky_instructions: &mut Vec<TackyInstruction>,
    ) -> (value: Result<TackyValue, IRConversionError>)
        requires
            old(self).temporaries() + (CmmExpression::Binary { operator: *operator, left: *left, right: *right }).operator_count() <= usize::MAX,
            old(self).labels() + 2 * short_circuit_count((CmmExpression::Binary { operator: *operator, left: *left, right: *right })) <= usize::MAX,
            spec_binary_operator(*operator) is None,
        ensures
            value is Ok,
            value->Ok_0.deep_view() == spec_emit(
                (CmmExpression::Binary { operator: *operator, left: *left, right: *right }),
                old(self).temporaries(),
                old(self).labels(),
            ).value,
            final(tacky_instructions).deep_view() == old(tacky_instructions).deep_view()
                + spec_emit((CmmExpression::Binary { operator: *operator, left: *left, right: *right }), old(self).temporaries(), old(self).labels()).instructions,
            final(self).temporaries() == old(self).temporaries() + (CmmExpression::Binary { operator: *operator, left: *left, right: *right }).operator_count(),
            final(self).labels() == old(self).labels() + 2 * short_circuit_count((CmmExpression::Binary { operator: *operator, left: *left, right: *right })),
        decreases (CmmExpression::Binary { operator: *operator, left: *left, right: *right }), 0nat,
    {
        let ghost before = tacky_instructions.deep_view();
        let ghost whole = CmmExpression::Binary { operator: *operator, left: *left, right: *right };
        let ghost lowered = spec_emit(whole, old(self).temporaries(), old(self).labels());
        proof {
            lemma_emit_counts(whole, old(self).temporaries(), old(self).labels());
        }
        let conjunction = match operator {
            CmmBinaryOperator::And => true,
            _ => false,
        };
        let jump_label = if conjunction {
            self.make_label("and_false")
        } else {
            self.make_label("or_true")
        };
        let end_label = if conjunction {
            self.make_label("and_end")
        } else {
            self.make_label("or_end")
        };
        proof {
            lemma_emit_counts(**left, old(self).temporaries(), old(self).labels() + 2);
        }
        let source1 = match self.emit_tacky(left, tacky_instructions) {
            Ok(source) => source,
            Err(error) => {
                return Err(error);
            },
        };
        push_tacky(tacky_instructions, conditional_jump(conjunction, source1, &jump_label));
        let source2 = match self.emit_tacky(right, tacky_instructions) {
            Ok(source) => source,
            Err(error) => {
                return Err(error);
            },
        };
        push_tacky(tacky_instructions, conditional_jump(conjunction, source2, &jump_label));
        let destination_name = self.make_temporary();
        push_short_circuit_tail(
            tacky_instructions,
            if conjunction {
                1
            } else {
                0
            },
            &destination_name,
            jump_label,
            end_label,
        );
        assert(tacky_instructions.deep_view() =~= before + lowered.instructions);
        Ok(TackyValue::Variable(destination_name))
    }

    /// Converts a unary operator to its TACKY operator.
    pub fn convert_unary_operator(&self, cmm_operator: &CmmUnaryOperator) -> (operator:
        TackyUnaryOperator)
        ensures
            operator == spec_unary_operator(*cmm_operator),
    {
        match cmm_operator {
            CmmUnaryOperator::Complement => TackyUnaryOperator::Complement,
            CmmUnaryOperator::Negate => TackyUnaryOperator::Negate,
            CmmUnaryOperator::Not => TackyUnaryOperator::Not,
        }
    }

    /// Converts a binary operator to its TACKY operator. The two short-circuit operators
    /// have none and are reported.
    pub fn convert_binary_operator(&self, cmm_operator: &CmmBinaryOperator) -> (operator: Result<
        TackyBinaryOperator,
        IRConversionError,
    >)
        ensures
            match spec_binary_operator(*cmm_operator) {
                Some(converted) => operator == Ok::<TackyBinaryOperator, IRConversionError>(
                    converted,
                ),
                None => operator == Err::<TackyBinaryOperator, IRConversionError>(
                    IRConversionError::UnsupportedBinaryOperatorConversion {
                        operator: *cmm_operator,
                    },
                ),
            },
    {
        match cmm_operator {
            CmmBinaryOperator::Add => Ok(TackyBinaryOperator::Add),
            CmmBinaryOperator::Subtract => Ok(TackyBinaryOperator::Subtract),
            CmmBinaryOperator::Multiply => Ok(TackyBinaryOperator::Multiply),
            CmmBinaryOperator::Divide => Ok(TackyBinaryOperator::Divide),
            CmmBinaryOperator::Remainder => Ok(TackyBinaryOperator::Remainder),
            CmmBinaryOperator::Equal => Ok(TackyBinaryOperator::Equal),
            CmmBinaryOperator::NotEqual => Ok(TackyBinaryOperator::NotEqual),
            CmmBinaryOperator::GreaterThan => Ok(TackyBinaryOperator::GreaterThan),
            CmmBinaryOperator::LessThan => Ok(TackyBinaryOperator::LessThan),
            CmmBinaryOperator::GreaterThanEqual => Ok(TackyBinaryOperator::GreaterThanEqual),
            CmmBinaryOperator::LessThanEqual => Ok(TackyBinaryOperator::LessThanEqual),
            CmmBinaryOperator::And | CmmBinaryOperator::Or => Err(
                IRConversionError::UnsupportedBinaryOperatorConversion { operator: *cmm_operator },
            ),
        }
    }

    /// Makes the name of the next temporary variable and counts it.
    pub fn make_temporary(&mut self) -> (name: String)
        requires
            old(self).temporaries() < usize::MAX,
        ensures
            name@ == temporary_name(old(self).temporaries()),
            final(self).temporaries() == old(self).temporaries() + 1,
            final(self).labels() == old(self).labels(),
    {
        let mut temp_name = String::new();
        temp_name.append("tmp.");
        push_decimal_usize(&mut temp_name, self.temp_counter);
        self.temp_counter += 1;
        assert(temp_name@ =~= temporary_name(old(self).temporaries()));
        temp_name
    }

    /// Makes the next label from a tag and counts it.
    pub fn make_label(&mut self, label_name: &str) -> (label: String)
        requires
            old(self).labels() < usize::MAX,
        ensures
            label@ == self::label_name(label_name@, old(self).labels()),
            final(self).labels() == old(self).labels() + 1,
            final(self).temporaries() == old(self).temporaries(),
    {
        let mut label = String::new();
        label.append(label_name);
        push_decimal_usize(&mut label, self.label_counter);
        self.label_counter += 1;
        assert(label@ =~= self::label_name(label_name@, old(self).labels()));
        label
    }
}

} // verus!
