use crate::compiler::code_gen::assembly_ast::{AssemblyInstructionView, AssemblyOperandView};
use crate::compiler::code_gen::slots::{
    instruction_order, operand_order, position, slot_offset, slot_order, spec_replace_instruction,
    spec_replace_operand, spec_replace_pseudos,
};
use vstd::prelude::*;

verus! {

/// Whether the operand is the pseudo-register `name`.
pub open spec fn operand_names(operand: AssemblyOperandView, name: Seq<char>) -> bool {
    operand == AssemblyOperandView::Pseudo(name)
}

/// Whether an operand of the instruction is the pseudo-register `name`.
pub open spec fn instruction_names(instruction: AssemblyInstructionView, name: Seq<char>) -> bool {
    match instruction {
        AssemblyInstructionView::Mov { source, destination } => operand_names(source, name)
            || operand_names(destination, name),
        AssemblyInstructionView::Unary { operand, .. } => operand_names(operand, name),
        AssemblyInstructionView::Binary { source, destination, .. } => operand_names(source, name)
            || operand_names(destination, name),
        AssemblyInstructionView::Cmp { left, right } => operand_names(left, name) || operand_names(
            right,
            name,
        ),
        AssemblyInstructionView::Idiv { operand } => operand_names(operand, name),
        AssemblyInstructionView::SetCC { operand, .. } => operand_names(operand, name),
        _ => false,
    }
}

/// Whether an instruction of the list has the pseudo-register `name` as an operand.
pub open spec fn program_names(instructions: Seq<AssemblyInstructionView>, name: Seq<char>) -> bool {
    exists|i: int| 0 <= i < instructions.len() && instruction_names(#[trigger] instructions[i], name)
}

/// The operand with its pseudo-register replaced by the slot that `order` gives its name.
pub open spec fn operand_with_slot(
    operand: AssemblyOperandView,
    order: Seq<Seq<char>>,
) -> AssemblyOperandView {
    match operand {
        AssemblyOperandView::Pseudo(name) => AssemblyOperandView::Stack(
            slot_offset(order, name) as i32,
        ),
        _ => operand,
    }
}

/// The instruction with every pseudo-register replaced by the slot that `order` gives its
/// name.
pub open spec fn instruction_with_slots(
    instruction: AssemblyInstructionView,
    order: Seq<Seq<char>>,
) -> AssemblyInstructionView {
    match instruction {
        AssemblyInstructionView::Mov { source, destination } => AssemblyInstructionView::Mov {
            source: operand_with_slot(source, order),
            destination: operand_with_slot(destination, order),
        },
        AssemblyInstructionView::Unary { op, operand } => AssemblyInstructionView::Unary {
            op,
            operand: operand_with_slot(operand, order),
        },
        AssemblyInstructionView::Binary { op, source, destination } => {
            AssemblyInstructionView::Binary {
                op,
                source: operand_with_slot(source, order),
                destination: operand_with_slot(destination, order),
            }
        },
        AssemblyInstructionView::Cmp { left, right } => AssemblyInstructionView::Cmp {
            left: operand_with_slot(left, order),
            right: operand_with_slot(right, order),
        },
        AssemblyInstructionView::Idiv { operand } => AssemblyInstructionView::Idiv {
            operand: operand_with_slot(operand, order),
        },
        AssemblyInstructionView::SetCC { condition, operand } => AssemblyInstructionView::SetCC {
            condition,
            operand: operand_with_slot(operand, order),
        },
        _ => instruction,
    }
}

/// Whether `long` starts with `short`.
pub open spec fn extends(short: Seq<Seq<char>>, long: Seq<Seq<char>>) -> bool {
    &&& short.len() <= long.len()
    &&& forall|i: int| 0 <= i < short.len() ==> #[trigger] long[i] == short[i]
}

/// In a list without repetitions the place of the name at an index is that index.
pub proof fn lemma_position_of_index(order: Seq<Seq<char>>, index: int)
    requires
        order.no_duplicates(),
        0 <= index < order.len(),
    ensures
        position(order, order[index]) == index,
    decreases order.len(),
{
    if order.last() == order[index] {
    } else {
        let front = order.drop_last();
        assert(front[index] == order[index]);
        lemma_position_of_index(front, index);
    }
}

/// A name keeps its place when names are added behind it.
proof fn lemma_position_stable(short: Seq<Seq<char>>, long: Seq<Seq<char>>, name: Seq<char>)
    requires
        long.no_duplicates(),
        extends(short, long),
        short.contains(name),
    ensures
        position(long, name) == position(short, name),
        0 <= position(short, name) < short.len(),
{
    let index = choose|i: int| 0 <= i < short.len() && short[i] == name;
    assert(long[index] == short[index]);
    assert(short.no_duplicates()) by {
        assert forall|i: int, j: int|
            0 <= i < short.len() && 0 <= j < short.len() && i != j implies short[i] != short[j] by {
            assert(long[i] == short[i]);
            assert(long[j] == short[j]);
        }
    }
    lemma_position_of_index(short, index);
    lemma_position_of_index(long, index);
}

/// What seeing an operand does to a list of names without repetitions.
proof fn lemma_operand_step(operand: AssemblyOperandView, order: Seq<Seq<char>>)
    requires
        order.no_duplicates(),
    ensures
        operand_order(operand, order).no_duplicates(),
        extends(order, operand_order(operand, order)),
        forall|name: Seq<char>|
            operand_order(operand, order).contains(name) <==> (order.contains(name)
                || operand_names(operand, name)),
        spec_replace_operand(operand, order) == operand_with_slot(
            operand,
            operand_order(operand, order),
        ),
{
    let longer = operand_order(operand, order);
    match operand {
        AssemblyOperandView::Pseudo(new_name) => {
            if order.contains(new_name) {
            } else {
                assert(longer == order.push(new_name));
                assert forall|i: int, j: int|
                    0 <= i < longer.len() && 0 <= j < longer.len() && i != j implies longer[i]
                    != longer[j] by {
                    if i < order.len() {
                        assert(order.contains(order[i]));
                    }
                    if j < order.len() {
                        assert(order.contains(order[j]));
                    }
                }
                assert forall|name: Seq<char>|
                    longer.contains(name) <==> (order.contains(name) || operand_names(
                        operand,
                        name,
                    )) by {
                    if order.contains(name) {
                        let i = choose|i: int| 0 <= i < order.len() && order[i] == name;
                        assert(longer[i] == name);
                    }
                    if name == new_name {
                        assert(longer[order.len() as int] == name);
                    }
                    if longer.contains(name) && name != new_name {
                        let i = choose|i: int| 0 <= i < longer.len() && longer[i] == name;
                        assert(order[i] == name);
                    }
                }
            }
        },
        _ => {},
    }
}

/// An operand whose name has its slot keeps it when names are added behind.
proof fn lemma_operand_stable(
    operand: AssemblyOperandView,
    short: Seq<Seq<char>>,
    long: Seq<Seq<char>>,
)
    requires
        long.no_duplicates(),
        extends(short, long),
        forall|name: Seq<char>| operand_names(operand, name) ==> short.contains(name),
    ensures
        operand_with_slot(operand, short) == operand_with_slot(operand, long),
{
    match operand {
        AssemblyOperandView::Pseudo(name) => {
            assert(operand_names(operand, name));
            lemma_position_stable(short, long, name);
        },
        _ => {},
    }
}

/// A list that starts with a list that starts with a third starts with the third.
proof fn lemma_extends_twice(first: Seq<Seq<char>>, second: Seq<Seq<char>>, third: Seq<Seq<char>>)
    requires
        extends(first, second),
        extends(second, third),
    ensures
        extends(first, third),
{
    assert forall|i: int| 0 <= i < first.len() implies #[trigger] third[i] == first[i] by {
        assert(second[i] == first[i]);
        assert(third[i] == second[i]);
    }
}

/// What seeing two operands, one after the other, does to a list of names.
proof fn lemma_two_operands_step(
    first: AssemblyOperandView,
    second: AssemblyOperandView,
    order: Seq<Seq<char>>,
)
    requires
        order.no_duplicates(),
    ensures
        ({
            let after = operand_order(second, operand_order(first, order));
            &&& after.no_duplicates()
            &&& extends(order, after)
            &&& forall|name: Seq<char>|
                after.contains(name) <==> (order.contains(name) || operand_names(first, name)
                    || operand_names(second, name))
            &&& spec_replace_operand(first, order) == operand_with_slot(first, after)
            &&& spec_replace_operand(second, operand_order(first, order)) == operand_with_slot(
                second,
                after,
            )
        }),
{
    let middle = operand_order(first, order);
    let after = operand_order(second, middle);
    lemma_operand_step(first, order);
    lemma_operand_step(second, middle);
    lemma_extends_twice(order, middle, after);
    lemma_operand_stable(first, middle, after);
}

/// What seeing an instruction does to a list of names without repetitions: the names of
/// its pseudo-registers that are new are added behind, and each of its pseudo-registers is
/// replaced by the slot that the new list gives its name.
pub proof fn lemma_instruction_step(instruction: AssemblyInstructionView, order: Seq<Seq<char>>)
    requires
        order.no_duplicates(),
    ensures
        instruction_order(instruction, order).no_duplicates(),
        extends(order, instruction_order(instruction, order)),
        forall|name: Seq<char>|
            instruction_order(instruction, order).contains(name) <==> (order.contains(name)
                || instruction_names(instruction, name)),
        spec_replace_instruction(instruction, order) == instruction_with_slots(
            instruction,
            instruction_order(instruction, order),
        ),
{
    match instruction {
        AssemblyInstructionView::Mov { source, destination } => {
            lemma_two_operands_step(source, destination, order);
        },
        AssemblyInstructionView::Unary { operand, .. } => {
            lemma_operand_step(operand, order);
        },
        AssemblyInstructionView::Binary { source, destination, .. } => {
            lemma_two_operands_step(source, destination, order);
        },
        AssemblyInstructionView::Cmp { left, right } => {
            lemma_two_operands_step(left, right, order);
        },
        AssemblyInstructionView::Idiv { operand } => {
            lemma_operand_step(operand, order);
        },
        AssemblyInstructionView::SetCC { operand, .. } => {
            lemma_operand_step(operand, order);
        },
        _ => {},
    }
}

/// An instruction whose names have their slots keeps them when names are added behind.
proof fn lemma_instruction_stable(
    instruction: AssemblyInstructionView,
    short: Seq<Seq<char>>,
    long: Seq<Seq<char>>,
)
    requires
        long.no_duplicates(),
        extends(short, long),
        forall|name: Seq<char>| instruction_names(instruction, name) ==> short.contains(name),
    ensures
        instruction_with_slots(instruction, short) == instruction_with_slots(instruction, long),
{
    match instruction {
        AssemblyInstructionView::Mov { source, destination } => {
            assert forall|name: Seq<char>| operand_names(source, name) implies short.contains(
                name,
            ) by {
                assert(instruction_names(instruction, name));
            }
            assert forall|name: Seq<char>| operand_names(destination, name) implies short.contains(
                name,
            ) by {
                assert(instruction_names(instruction, name));
            }
            lemma_operand_stable(source, short, long);
            lemma_operand_stable(destination, short, long);
        },
        AssemblyInstructionView::Unary { operand, .. } => {
            assert forall|name: Seq<char>| operand_names(operand, name) implies short.contains(
                name,
            ) by {
                assert(instruction_names(instruction, name));
            }
            lemma_operand_stable(operand, short, long);
        },
        AssemblyInstructionView::Binary { source, destination, .. } => {
            assert forall|name: Seq<char>| operand_names(source, name) implies short.contains(
                name,
            ) by {
                assert(instruction_names(instruction, name));
            }
            assert forall|name: Seq<char>| operand_names(destination, name) implies short.contains(
                name,
            ) by {
                assert(instruction_names(instruction, name));
            }
            lemma_operand_stable(source, short, long);
            lemma_operand_stable(destination, short, long);
        },
        AssemblyInstructionView::Cmp { left, right } => {
            assert forall|name: Seq<char>| operand_names(left, name) implies short.contains(
                name,
            ) by {
                assert(instruction_names(instruction, name));
            }
            assert forall|name: Seq<char>| operand_names(right, name) implies short.contains(
                name,
            ) by {
                assert(instruction_names(instruction, name));
            }
            lemma_operand_stable(left, short, long);
            lemma_operand_stable(right, short, long);
        },
        AssemblyInstructionView::Idiv { operand } => {
            assert forall|name: Seq<char>| operand_names(operand, name) implies short.contains(
                name,
            ) by {
                assert(instruction_names(instruction, name));
            }
            lemma_operand_stable(operand, short, long);
        },
        AssemblyInstructionView::SetCC { operand, .. } => {
            assert forall|name: Seq<char>| operand_names(operand, name) implies short.contains(
                name,
            ) by {
                assert(instruction_names(instruction, name));
            }
            lemma_operand_stable(operand, short, long);
        },
        _ => {},
    }
}

/// Stack slots are one per name and dense. The names that get a slot are the names of the
/// pseudo-registers of the list, each once, in the order in which they first occur. The
/// `k`-th of them, counted from one, gets the offset `-4 * k`: where `n` distinct names
/// occur, the offsets are -4, -8, and so on to `-4 * n`. And every pseudo-register of the
/// list is replaced by the slot of its name, the same wherever the name occurs.
pub proof fn lemma_slots_dense_and_unique(instructions: Seq<AssemblyInstructionView>)
    ensures
        slot_order(instructions).no_duplicates(),
        forall|name: Seq<char>|
            slot_order(instructions).contains(name) <==> program_names(instructions, name),
        forall|k: int|
            0 <= k < slot_order(instructions).len() ==> slot_offset(
                slot_order(instructions),
                #[trigger] slot_order(instructions)[k],
            ) == -4 * (k + 1),
        spec_replace_pseudos(instructions).len() == instructions.len(),
        forall|i: int|
            0 <= i < instructions.len() ==> #[trigger] spec_replace_pseudos(instructions)[i]
                == instruction_with_slots(instructions[i], slot_order(instructions)),
    decreases instructions.len(),
{
    let order = slot_order(instructions);
    if instructions.len() == 0 {
        assert forall|name: Seq<char>| order.contains(name) <==> program_names(
            instructions,
            name,
        ) by {}
    } else {
        let front = instructions.drop_last();
        let last = instructions.last();
        let before = slot_order(front);
        lemma_slots_dense_and_unique(front);
        lemma_instruction_step(last, before);
        assert forall|name: Seq<char>| order.contains(name) <==> program_names(
            instructions,
            name,
        ) by {
            if program_names(instructions, name) {
                let i = choose|i: int|
                    0 <= i < instructions.len() && instruction_names(
                        #[trigger] instructions[i],
                        name,
                    );
                if i < front.len() {
                    assert(front[i] == instructions[i]);
                    assert(program_names(front, name));
                    assert(before.contains(name));
                } else {
                    assert(instruction_names(last, name));
                }
            }
            if order.contains(name) {
                if before.contains(name) {
                    assert(program_names(front, name));
                    let i = choose|i: int|
                        0 <= i < front.len() && instruction_names(#[trigger] front[i], name);
                    assert(instructions[i] == front[i]);
                } else {
                    assert(instruction_names(instructions[instructions.len() - 1], name));
                }
            }
        }
        assert forall|k: int| 0 <= k < order.len() implies slot_offset(
            order,
            #[trigger] order[k],
        ) == -4 * (k + 1) by {
            lemma_position_of_index(order, k);
        }
        let replaced = spec_replace_pseudos(instructions);
        assert forall|i: int| 0 <= i < instructions.len() implies #[trigger] replaced[i]
            == instruction_with_slots(instructions[i], order) by {
            if i < front.len() {
                assert(replaced[i] == spec_replace_pseudos(front)[i]);
                assert(front[i] == instructions[i]);
                assert forall|name: Seq<char>|
                    instruction_names(instructions[i], name) implies before.contains(name) by {
                    assert(program_names(front, name));
                }
                lemma_instruction_stable(instructions[i], before, order);
            }
        }
    }
}

} // verus!
