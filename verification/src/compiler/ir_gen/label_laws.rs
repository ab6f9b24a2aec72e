use crate::common::text::{
    decimal, decimal_digits, decimal_value, is_digit, lemma_decimal_digits_roundtrip,
};
use crate::compiler::ir_gen::tacky_ast::TackyInstructionView;
use crate::compiler::ir_gen::{label_name, short_circuit_tail, spec_convert_function, spec_emit};
use crate::compiler::parser::cmm_ast::{CmmBinaryOperator, CmmExpression, CmmFunctionView};
use vstd::prelude::*;

verus! {

/// The label that a jump goes to; `None` for an instruction that is no jump.
pub open spec fn jump_target(instruction: TackyInstructionView) -> Option<Seq<char>> {
    match instruction {
        TackyInstructionView::Jump { target } => Some(target),
        TackyInstructionView::JumpIfZero { target, .. } => Some(target),
        TackyInstructionView::JumpIfNotZero { target, .. } => Some(target),
        _ => None,
    }
}

/// Whether no two `Label` instructions of the list hold the same label.
pub open spec fn labels_distinct(instructions: Seq<TackyInstructionView>) -> bool {
    forall|i: int, j: int|
        0 <= i < j < instructions.len() && instructions[i] is Label && instructions[j] is Label
            ==> instructions[i] != instructions[j]
}

/// Whether every jump of `part` goes to a label that `whole` defines.
pub open spec fn targets_defined(
    part: Seq<TackyInstructionView>,
    whole: Seq<TackyInstructionView>,
) -> bool {
    forall|i: int|
        0 <= i < part.len() && jump_target(#[trigger] part[i]) is Some ==> whole.contains(
            TackyInstructionView::Label(jump_target(part[i]).unwrap()),
        )
}

/// The number of digits at the end of a text.
pub open spec fn trailing_digits(text: Seq<char>) -> nat
    decreases text.len(),
{
    if text.len() > 0 && is_digit(text.last()) {
        1 + trailing_digits(text.drop_last())
    } else {
        0
    }
}

/// The number that the digits at the end of a label denote.
pub open spec fn label_number(label: Seq<char>) -> nat {
    decimal_value(label.subrange(label.len() - trailing_digits(label), label.len() as int))
}

/// Whether every label that the list defines has a number from `low` up to, not
/// including, `high`.
pub open spec fn labels_within(instructions: Seq<TackyInstructionView>, low: nat, high: nat) -> bool {
    forall|i: int|
        0 <= i < instructions.len() ==> (#[trigger] instructions[i] matches TackyInstructionView::Label(
            label,
        ) ==> low <= label_number(label) < high)
}

/// A tag ends in a character that is no digit.
pub open spec fn is_tag(tag: Seq<char>) -> bool {
    tag.len() > 0 && !is_digit(tag.last())
}

proof fn lemma_trailing_digits(front: Seq<char>, digits: Seq<char>)
    requires
        front.len() == 0 || !is_digit(front.last()),
        forall|i: int| 0 <= i < digits.len() ==> is_digit(#[trigger] digits[i]),
    ensures
        trailing_digits(front + digits) == digits.len(),
    decreases digits.len(),
{
    if digits.len() == 0 {
        assert(front + digits =~= front);
    } else {
        assert((front + digits).last() == digits.last());
        assert((front + digits).drop_last() =~= front + digits.drop_last());
        lemma_trailing_digits(front, digits.drop_last());
    }
}

/// The number of a label made from a tag and a number is that number: labels with
/// different numbers differ, whatever their tags.
pub proof fn lemma_label_number(tag: Seq<char>, number: nat)
    requires
        is_tag(tag),
    ensures
        label_number(label_name(tag, number)) == number,
{
    let digits = decimal_digits(number);
    lemma_decimal_digits_roundtrip(number);
    assert(decimal(number as int) == digits);
    lemma_trailing_digits(tag, digits);
    let label = tag + digits;
    assert(label.subrange(label.len() - digits.len(), label.len() as int) =~= digits);
}

/// The four tags of the short-circuit labels end in letters.
proof fn lemma_tags()
    ensures
        is_tag("and_false"@),
        is_tag("and_end"@),
        is_tag("or_true"@),
        is_tag("or_end"@),
{
    reveal_strlit("and_false");
    reveal_strlit("and_end");
    reveal_strlit("or_true");
    reveal_strlit("or_end");
}

/// Two lists whose labels have numbers in ranges that do not meet define distinct labels
/// together, where each does alone.
proof fn lemma_join_labels(
    first: Seq<TackyInstructionView>,
    second: Seq<TackyInstructionView>,
    low1: nat,
    high1: nat,
    low2: nat,
    high2: nat,
    low: nat,
    high: nat,
)
    requires
        labels_distinct(first),
        labels_distinct(second),
        labels_within(first, low1, high1),
        labels_within(second, low2, high2),
        high1 <= low2 || high2 <= low1,
        low <= low1 && low <= low2 && high1 <= high && high2 <= high,
    ensures
        labels_distinct(first + second),
        labels_within(first + second, low, high),
{
    let all = first + second;
    assert forall|i: int| 0 <= i < all.len() implies (#[trigger] all[i] matches TackyInstructionView::Label(
        label,
    ) ==> low <= label_number(label) < high) by {
        if i < first.len() {
            assert(all[i] == first[i]);
        } else {
            assert(all[i] == second[i - first.len()]);
        }
    }
    assert forall|i: int, j: int|
        0 <= i < j < all.len() && all[i] is Label && all[j] is Label implies all[i] != all[j] by {
        if j < first.len() {
            assert(all[i] == first[i] && all[j] == first[j]);
        } else if i >= first.len() {
            assert(all[i] == second[i - first.len()] && all[j] == second[j - first.len()]);
        } else {
            assert(all[i] == first[i] && all[j] == second[j - first.len()]);
        }
    }
}

/// What a list defines, a longer list defines too.
proof fn lemma_targets_in_longer(
    part: Seq<TackyInstructionView>,
    defining: Seq<TackyInstructionView>,
    before: Seq<TackyInstructionView>,
    after: Seq<TackyInstructionView>,
)
    requires
        targets_defined(part, defining),
    ensures
        targets_defined(part, before + defining + after),
{
    let whole = before + defining + after;
    assert forall|i: int|
        0 <= i < part.len() && jump_target(#[trigger] part[i]) is Some implies whole.contains(
        TackyInstructionView::Label(jump_target(part[i]).unwrap()),
    ) by {
        let label = TackyInstructionView::Label(jump_target(part[i]).unwrap());
        let k = choose|k: int| 0 <= k < defining.len() && defining[k] == label;
        assert(whole[(before.len() + k) as int] == label);
    }
}

/// The jumps of two lists go to labels of `whole` where those of each do.
proof fn lemma_join_targets(
    first: Seq<TackyInstructionView>,
    second: Seq<TackyInstructionView>,
    whole: Seq<TackyInstructionView>,
)
    requires
        targets_defined(first, whole),
        targets_defined(second, whole),
    ensures
        targets_defined(first + second, whole),
{
    let all = first + second;
    assert forall|i: int|
        0 <= i < all.len() && jump_target(#[trigger] all[i]) is Some implies whole.contains(
        TackyInstructionView::Label(jump_target(all[i]).unwrap()),
    ) by {
        if i < first.len() {
            assert(all[i] == first[i]);
        } else {
            assert(all[i] == second[i - first.len()]);
        }
    }
}

/// A list of one instruction that is neither a label nor a jump.
proof fn lemma_plain_instruction(instruction: TackyInstructionView, whole: Seq<TackyInstructionView>)
    requires
        !(instruction is Label),
        jump_target(instruction) is Some ==> whole.contains(
            TackyInstructionView::Label(jump_target(instruction).unwrap()),
        ),
    ensures
        labels_distinct(seq![instruction]),
        forall|low: nat, high: nat| labels_within(seq![instruction], low, high),
        targets_defined(seq![instruction], whole),
{
}

/// What the lowering of a short-circuit operator adds around the lowerings of its
/// operands.
proof fn lemma_short_circuit(
    first: Seq<TackyInstructionView>,
    second: Seq<TackyInstructionView>,
    jump1: TackyInstructionView,
    jump2: TackyInstructionView,
    tail: Seq<TackyInstructionView>,
    jump_label: Seq<char>,
    end_label: Seq<char>,
    low: nat,
    middle: nat,
    high: nat,
)
    requires
        low + 2 <= middle <= high,
        label_number(jump_label) == low,
        label_number(end_label) == low + 1,
        jump_target(jump1) == Some(jump_label),
        jump_target(jump2) == Some(jump_label),
        tail.len() == 5,
        tail[0] is Copy,
        tail[1] == (TackyInstructionView::Jump { target: end_label }),
        tail[2] == TackyInstructionView::Label(jump_label),
        tail[3] is Copy,
        tail[4] == TackyInstructionView::Label(end_label),
        labels_distinct(first),
        labels_distinct(second),
        labels_within(first, (low + 2) as nat, middle),
        labels_within(second, middle, high),
        targets_defined(first, first),
        targets_defined(second, second),
    ensures
        labels_distinct(first.push(jump1) + second.push(jump2) + tail),
        labels_within(first.push(jump1) + second.push(jump2) + tail, low, high),
        targets_defined(
            first.push(jump1) + second.push(jump2) + tail,
            first.push(jump1) + second.push(jump2) + tail,
        ),
{
    let whole = first.push(jump1) + second.push(jump2) + tail;
    let left = first.push(jump1);
    let right = second.push(jump2);
    let empty = Seq::<TackyInstructionView>::empty();
    assert(whole[(left.len() + right.len() + 2) as int] == tail[2]);
    assert(whole[(left.len() + right.len() + 4) as int] == tail[4]);
    assert(whole.contains(TackyInstructionView::Label(jump_label)));
    assert(whole.contains(TackyInstructionView::Label(end_label)));
    // The labels of the three parts.
    assert(labels_distinct(left) && labels_within(left, (low + 2) as nat, middle)) by {
        assert(left =~= first + seq![jump1]);
        lemma_plain_instruction(jump1, whole);
        lemma_join_labels(
            first,
            seq![jump1],
            (low + 2) as nat,
            middle,
            middle,
            middle,
            (low + 2) as nat,
            middle,
        );
    }
    assert(labels_distinct(right) && labels_within(right, middle, high)) by {
        assert(right =~= second + seq![jump2]);
        lemma_plain_instruction(jump2, whole);
        lemma_join_labels(second, seq![jump2], middle, high, high, high, middle, high);
    }
    assert(labels_distinct(tail) && labels_within(tail, low, (low + 2) as nat));
    lemma_join_labels(
        left,
        right,
        (low + 2) as nat,
        middle,
        middle,
        high,
        (low + 2) as nat,
        high,
    );
    lemma_join_labels(left + right, tail, (low + 2) as nat, high, low, (low + 2) as nat, low, high);
    // The targets of the three parts.
    assert(targets_defined(left, whole)) by {
        lemma_targets_in_longer(first, first, empty, seq![jump1] + right + tail);
        assert(empty + first + (seq![jump1] + right + tail) =~= whole);
        lemma_plain_instruction(jump1, whole);
        lemma_join_targets(first, seq![jump1], whole);
        assert(left =~= first + seq![jump1]);
    }
    assert(targets_defined(right, whole)) by {
        lemma_targets_in_longer(second, second, left, seq![jump2] + tail);
        assert(left + second + (seq![jump2] + tail) =~= whole);
        lemma_plain_instruction(jump2, whole);
        lemma_join_targets(second, seq![jump2], whole);
        assert(right =~= second + seq![jump2]);
    }
    assert(targets_defined(tail, whole));
    lemma_join_targets(left, right, whole);
    lemma_join_targets(left + right, tail, whole);
}

/// Labels are unique, and every jump has its label. In the instructions that the lowering
/// of an expression adds, no two `Label` instructions hold the same label, and every jump
/// goes to a label that one of them defines. The labels carry the numbers from `labels` up
/// to the number of the next label.
pub proof fn lemma_labels_of_expression(expression: CmmExpression, temporaries: nat, labels: nat)
    ensures
        labels <= spec_emit(expression, temporaries, labels).labels,
        labels_distinct(spec_emit(expression, temporaries, labels).instructions),
        labels_within(
            spec_emit(expression, temporaries, labels).instructions,
            labels,
            spec_emit(expression, temporaries, labels).labels,
        ),
        targets_defined(
            spec_emit(expression, temporaries, labels).instructions,
            spec_emit(expression, temporaries, labels).instructions,
        ),
    decreases expression,
{
    let lowered = spec_emit(expression, temporaries, labels);
    let empty = Seq::<TackyInstructionView>::empty();
    match expression {
        CmmExpression::IntegerConstant { .. } => {},
        CmmExpression::Unary { operator, expression } => {
            lemma_labels_of_expression(*expression, temporaries, labels);
            let inner = spec_emit(*expression, temporaries, labels);
            let own = lowered.instructions.last();
            assert(lowered.instructions =~= inner.instructions + seq![own]);
            lemma_plain_instruction(own, lowered.instructions);
            lemma_join_labels(
                inner.instructions,
                seq![own],
                labels,
                inner.labels,
                inner.labels,
                inner.labels,
                labels,
                inner.labels,
            );
            lemma_targets_in_longer(inner.instructions, inner.instructions, empty, seq![own]);
            assert(empty + inner.instructions + seq![own] =~= lowered.instructions);
            lemma_join_targets(inner.instructions, seq![own], lowered.instructions);
        },
        CmmExpression::Binary { operator, left, right } => {
            lemma_tags();
            match operator {
                CmmBinaryOperator::And => {
                    let first = spec_emit(*left, temporaries, labels + 2);
                    let second = spec_emit(*right, first.temporaries, first.labels);
                    lemma_labels_of_expression(*left, temporaries, labels + 2);
                    lemma_labels_of_expression(*right, first.temporaries, first.labels);
                    let jump_label = label_name("and_false"@, labels);
                    let end_label = label_name("and_end"@, labels + 1);
                    lemma_label_number("and_false"@, labels);
                    lemma_label_number("and_end"@, labels + 1);
                    lemma_short_circuit(
                        first.instructions,
                        second.instructions,
                        TackyInstructionView::JumpIfZero {
                            condition: first.value,
                            target: jump_label,
                        },
                        TackyInstructionView::JumpIfZero {
                            condition: second.value,
                            target: jump_label,
                        },
                        short_circuit_tail(1, lowered.value, jump_label, end_label),
                        jump_label,
                        end_label,
                        labels,
                        first.labels,
                        second.labels,
                    );
                },
                CmmBinaryOperator::Or => {
                    let first = spec_emit(*left, temporaries, labels + 2);
                    let second = spec_emit(*right, first.temporaries, first.labels);
                    lemma_labels_of_expression(*left, temporaries, labels + 2);
                    lemma_labels_of_expression(*right, first.temporaries, first.labels);
                    let jump_label = label_name("or_true"@, labels);
                    let end_label = label_name("or_end"@, labels + 1);
                    lemma_label_number("or_true"@, labels);
                    lemma_label_number("or_end"@, labels + 1);
                    lemma_short_circuit(
                        first.instructions,
                        second.instructions,
                        TackyInstructionView::JumpIfNotZero {
                            condition: first.value,
                            target: jump_label,
                        },
                        TackyInstructionView::JumpIfNotZero {
                            condition: second.value,
                            target: jump_label,
                        },
                        short_circuit_tail(0, lowered.value, jump_label, end_label),
                        jump_label,
                        end_label,
                        labels,
                        first.labels,
                        second.labels,
                    );
                },
                _ => {
                    let first = spec_emit(*left, temporaries, labels);
                    let second = spec_emit(*right, first.temporaries, first.labels);
                    lemma_labels_of_expression(*left, temporaries, labels);
                    lemma_labels_of_expression(*right, first.temporaries, first.labels);
                    let own = lowered.instructions.last();
                    let both = first.instructions + second.instructions;
                    assert(lowered.instructions =~= both + seq![own]);
                    lemma_plain_instruction(own, lowered.instructions);
                    lemma_join_labels(
                        first.instructions,
                        second.instructions,
                        labels,
                        first.labels,
                        first.labels,
                        second.labels,
                        labels,
                        second.labels,
                    );
                    lemma_join_labels(
                        both,
                        seq![own],
                        labels,
                        second.labels,
                        second.labels,
                        second.labels,
                        labels,
                        second.labels,
                    );
                    lemma_targets_in_longer(
                        first.instructions,
                        first.instructions,
                        empty,
                        second.instructions + seq![own],
                    );
                    assert(empty + first.instructions + (second.instructions + seq![own])
                        =~= lowered.instructions);
                    lemma_targets_in_longer(
                        second.instructions,
                        second.instructions,
                        first.instructions,
                        seq![own],
                    );
                    assert(first.instructions + second.instructions + seq![own]
                        =~= lowered.instructions);
                    lemma_join_targets(
                        first.instructions,
                        second.instructions,
                        lowered.instructions,
                    );
                    lemma_join_targets(both, seq![own], lowered.instructions);
                },
            }
        },
    }
}

/// Labels are unique, and every jump has its label, in every function that the lowering
/// makes.
pub proof fn lemma_labels_of_function(function: CmmFunctionView, temporaries: nat, labels: nat)
    ensures
        labels_distinct(spec_convert_function(function, temporaries, labels).instructions),
        targets_defined(
            spec_convert_function(function, temporaries, labels).instructions,
            spec_convert_function(function, temporaries, labels).instructions,
        ),
{
    let expression = function.body->expression;
    let lowered = spec_emit(expression, temporaries, labels);
    let instructions = spec_convert_function(function, temporaries, labels).instructions;
    let own = instructions.last();
    let empty = Seq::<TackyInstructionView>::empty();
    lemma_labels_of_expression(expression, temporaries, labels);
    assert(instructions =~= lowered.instructions + seq![own]);
    lemma_plain_instruction(own, instructions);
    lemma_join_labels(
        lowered.instructions,
        seq![own],
        labels,
        lowered.labels,
        lowered.labels,
        lowered.labels,
        labels,
        lowered.labels,
    );
    lemma_targets_in_longer(lowered.instructions, lowered.instructions, empty, seq![own]);
    assert(empty + lowered.instructions + seq![own] =~= instructions);
    lemma_join_targets(lowered.instructions, seq![own], instructions);
}

} // verus!
