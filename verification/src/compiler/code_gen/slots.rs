use crate::compiler::code_gen::assembly_ast::{
    AssemblyInstruction, AssemblyInstructionView, AssemblyOperand, AssemblyOperandView,
};
use crate::compiler::code_gen::constants::STACK_ADDRESS_OFFSET;
use crate::compiler::code_gen::fixup::{free_of_pseudo_operands, has_pseudo_operand};
use crate::compiler::code_gen::selection::push_instruction;
use vstd::hash_map::StringHashMap;
use vstd::prelude::*;

verus! {

/// The place of a name in a list of names: the index of its last occurrence, and -1 where
/// the list does not hold it.
pub open spec fn position(order: Seq<Seq<char>>, name: Seq<char>) -> int
    decreases order.len(),
{
    if order.len() == 0 {
        -1
    } else if order.last() == name {
        order.len() - 1
    } else {
        position(order.drop_last(), name)
    }
}

/// The list of names once `name` has a slot: a new name goes to the end, a known one
/// changes nothing.
pub open spec fn assign_slot(order: Seq<Seq<char>>, name: Seq<char>) -> Seq<Seq<char>> {
    if order.contains(name) {
        order
    } else {
        order.push(name)
    }
}

/// The stack offset of a name: four bytes below the frame pointer for the first name of
/// the list, four more for each later one.
pub open spec fn slot_offset(order: Seq<Seq<char>>, name: Seq<char>) -> int {
    -4 * (position(order, name) + 1)
}

/// The names that have a slot once the operand has been seen.
pub open spec fn operand_order(operand: AssemblyOperandView, order: Seq<Seq<char>>) -> Seq<
    Seq<char>,
> {
    match operand {
        AssemblyOperandView::Pseudo(name) => assign_slot(order, name),
        _ => order,
    }
}

/// The operand with its pseudo-register replaced by the stack slot of that name, where
/// `order` holds the names that had a slot before.
pub open spec fn spec_replace_operand(
    operand: AssemblyOperandView,
    order: Seq<Seq<char>>,
) -> AssemblyOperandView {
    match operand {
        AssemblyOperandView::Pseudo(name) => AssemblyOperandView::Stack(
            slot_offset(assign_slot(order, name), name) as i32,
        ),
        _ => operand,
    }
}

/// The names that have a slot once the instruction has been seen. Of two operands the
/// source, or the left one, is seen first.
pub open spec fn instruction_order(
    instruction: AssemblyInstructionView,
    order: Seq<Seq<char>>,
) -> Seq<Seq<char>> {
    match instruction {
        AssemblyInstructionView::Mov { source, destination } => operand_order(
            destination,
            operand_order(source, order),
        ),
        AssemblyInstructionView::Unary { operand, .. } => operand_order(operand, order),
        AssemblyInstructionView::Binary { source, destination, .. } => operand_order(
            destination,
            operand_order(source, order),
        ),
        AssemblyInstructionView::Cmp { left, right } => operand_order(
            right,
            operand_order(left, order),
        ),
        AssemblyInstructionView::Idiv { operand } => operand_order(operand, order),
        AssemblyInstructionView::SetCC { operand, .. } => operand_order(operand, order),
        _ => order,
    }
}

/// The instruction with every pseudo-register replaced by its stack slot, where `order`
/// holds the names that had a slot before.
pub open spec fn spec_replace_instruction(
    instruction: AssemblyInstructionView,
    order: Seq<Seq<char>>,
) -> AssemblyInstructionView {
    match instruction {
        AssemblyInstructionView::Mov { source, destination } => AssemblyInstructionView::Mov {
            source: spec_replace_operand(source, order),
            destination: spec_replace_operand(destination, operand_order(source, order)),
        },
        AssemblyInstructionView::Unary { op, operand } => AssemblyInstructionView::Unary {
            op,
            operand: spec_replace_operand(operand, order),
        },
        AssemblyInstructionView::Binary { op, source, destination } => {
            AssemblyInstructionView::Binary {
                op,
                source: spec_replace_operand(source, order),
                destination: spec_replace_operand(destination, operand_order(source, order)),
            }
        },
        AssemblyInstructionView::Cmp { left, right } => AssemblyInstructionView::Cmp {
            left: spec_replace_operand(left, order),
            right: spec_replace_operand(right, operand_order(left, order)),
        },
        AssemblyInstructionView::Idiv { operand } => AssemblyInstructionView::Idiv {
            operand: spec_replace_operand(operand, order),
        },
        AssemblyInstructionView::SetCC { condition, operand } => AssemblyInstructionView::SetCC {
            condition,
            operand: spec_replace_operand(operand, order),
        },
        _ => instruction,
    }
}

/// The distinct names of the pseudo-registers of a list of instructions, in the order in
/// which they first occur.
pub open spec fn slot_order(instructions: Seq<AssemblyInstructionView>) -> Seq<Seq<char>>
    decreases instructions.len(),
{
    if instructions.len() == 0 {
        Seq::empty()
    } else {
        instruction_order(instructions.last(), slot_order(instructions.drop_last()))
    }
}

/// The list of instructions with every pseudo-register replaced by its stack slot.
pub open spec fn spec_replace_pseudos(instructions: Seq<AssemblyInstructionView>) -> Seq<
    AssemblyInstructionView,
>
    decreases instructions.len(),
{
    if instructions.len() == 0 {
        Seq::empty()
    } else {
        spec_replace_pseudos(instructions.drop_last()).push(
            spec_replace_instruction(instructions.last(), slot_order(instructions.drop_last())),
        )
    }
}

/// Whether a table of offsets and its counter hold exactly the slots of the names in
/// `order`.
pub open spec fn table_matches(
    offsets: Map<Seq<char>, i32>,
    counter: int,
    order: Seq<Seq<char>>,
) -> bool {
    &&& counter == -4 * order.len()
    &&& forall|name: Seq<char>| offsets.contains_key(name) <==> order.contains(name)
    &&& forall|name: Seq<char>| #[trigger]
        order.contains(name) ==> offsets[name] == slot_offset(order, name)
}

/// Seeing an operand adds at most one name.
pub proof fn lemma_operand_order_len(operand: AssemblyOperandView, order: Seq<Seq<char>>)
    ensures
        order.len() <= operand_order(operand, order).len() <= order.len() + 1,
{
}

/// Seeing an instruction adds at most two names.
pub proof fn lemma_instruction_order_len(
    instruction: AssemblyInstructionView,
    order: Seq<Seq<char>>,
)
    ensures
        order.len() <= instruction_order(instruction, order).len() <= order.len() + 2,
{
    match instruction {
        AssemblyInstructionView::Mov { source, destination } => {
            lemma_operand_order_len(source, order);
            lemma_operand_order_len(destination, operand_order(source, order));
        },
        AssemblyInstructionView::Binary { source, destination, .. } => {
            lemma_operand_order_len(source, order);
            lemma_operand_order_len(destination, operand_order(source, order));
        },
        AssemblyInstructionView::Cmp { left, right } => {
            lemma_operand_order_len(left, order);
            lemma_operand_order_len(right, operand_order(left, order));
        },
        _ => {},
    }
}

/// A list of instructions names at most twice as many pseudo-registers as it has
/// instructions, and a part of the list from its start names no more than the whole.
pub proof fn lemma_slot_order_len(instructions: Seq<AssemblyInstructionView>, end: int)
    requires
        0 <= end <= instructions.len(),
    ensures
        slot_order(instructions).len() <= 2 * instructions.len(),
        slot_order(instructions.subrange(0, end)).len() <= slot_order(instructions).len(),
    decreases instructions.len(),
{
    if instructions.len() > 0 {
        let front = instructions.drop_last();
        lemma_instruction_order_len(instructions.last(), slot_order(front));
        if end == instructions.len() {
            lemma_slot_order_len(front, 0);
            assert(instructions.subrange(0, end) =~= instructions);
        } else {
            lemma_slot_order_len(front, end);
            assert(front.subrange(0, end) =~= instructions.subrange(0, end));
        }
    } else {
        assert(instructions.subrange(0, end) =~= instructions);
    }
}

/// No instruction names a pseudo-register once each has been replaced by its slot.
pub proof fn lemma_replace_pseudos_free(instructions: Seq<AssemblyInstructionView>)
    ensures
        spec_replace_pseudos(instructions).len() == instructions.len(),
        free_of_pseudo_operands(spec_replace_pseudos(instructions)),
    decreases instructions.len(),
{
    if instructions.len() > 0 {
        lemma_replace_pseudos_free(instructions.drop_last());
        let front = spec_replace_pseudos(instructions.drop_last());
        let all = spec_replace_pseudos(instructions);
        assert forall|i: int| 0 <= i < all.len() implies !has_pseudo_operand(#[trigger] all[i]) by {
            if i < front.len() {
                assert(all[i] == front[i]);
            }
        }
    }
}

/// Replaces a pseudo-register by its stack slot. A name that the table holds keeps its
/// offset. A new name gets the next slot, four bytes below the last one, and enters the
/// table. Any other operand is left as it is.
pub fn convert_pseudo_register(
    operand: &mut AssemblyOperand,
    identifier_offsets: &mut StringHashMap<i32>,
    offset_counter: &mut i32,
)
    requires
        old(operand).deep_view() matches AssemblyOperandView::Pseudo(name)
            && !old(identifier_offsets)@.contains_key(name) ==> *old(offset_counter) - 4
            >= i32::MIN,
    ensures
        match old(operand).deep_view() {
            AssemblyOperandView::Pseudo(name) => {
                if old(identifier_offsets)@.contains_key(name) {
                    &&& final(operand).deep_view() == AssemblyOperandView::Stack(
                        old(identifier_offsets)@[name],
                    )
                    &&& final(identifier_offsets)@ == old(identifier_offsets)@
                    &&& *final(offset_counter) == *old(offset_counter)
                } else {
                    &&& *final(offset_counter) == *old(offset_counter) - 4
                    &&& final(operand).deep_view() == AssemblyOperandView::Stack(
                        *final(offset_counter),
                    )
                    &&& final(identifier_offsets)@ == old(identifier_offsets)@.insert(
                        name,
                        *final(offset_counter),
                    )
                }
            },
            _ => {
                &&& *final(operand) == *old(operand)
                &&& final(identifier_offsets)@ == old(identifier_offsets)@
                &&& *final(offset_counter) == *old(offset_counter)
            },
        },
{
    let identifier: String = match &*operand {
        AssemblyOperand::Pseudo(identifier) => identifier.clone(),
        _ => {
            return ;
        },
    };
    let known: Option<i32> = match identifier_offsets.get(identifier.as_str()) {
        Some(offset) => Some(*offset),
        None => None,
    };
    match known {
        Some(offset) => {
            *operand = AssemblyOperand::Stack(offset);
        },
        None => {
            *offset_counter = *offset_counter - STACK_ADDRESS_OFFSET;
            identifier_offsets.insert(identifier, *offset_counter);
            *operand = AssemblyOperand::Stack(*offset_counter);
        },
    }
}

/// Replaces the pseudo-register of a copy of `operand`, where the table holds the slots of
/// the names in `order`.
fn slot_operand(
    operand: &AssemblyOperand,
    identifier_offsets: &mut StringHashMap<i32>,
    offset_counter: &mut i32,
    Ghost(order): Ghost<Seq<Seq<char>>>,
) -> (replaced: AssemblyOperand)
    requires
        table_matches(old(identifier_offsets)@, *old(offset_counter) as int, order),
        -4 * operand_order(operand.deep_view(), order).len() >= i32::MIN,
    ensures
        table_matches(
            final(identifier_offsets)@,
            *final(offset_counter) as int,
            operand_order(operand.deep_view(), order),
        ),
        replaced.deep_view() == spec_replace_operand(operand.deep_view(), order),
{
    let mut replaced = operand.clone();
    convert_pseudo_register(&mut replaced, identifier_offsets, offset_counter);
    proof {
        match operand.deep_view() {
            AssemblyOperandView::Pseudo(name) => {
                if order.contains(name) {
                } else {
                    let longer = order.push(name);
                    assert(longer.drop_last() =~= order);
                    assert(longer.last() == name);
                    assert(longer[order.len() as int] == name);
                    assert(longer.contains(name));
                    assert forall|other: Seq<char>|
                        identifier_offsets@.contains_key(other) <==> longer.contains(other) by {
                        if order.contains(other) {
                            let i = choose|i: int| 0 <= i < order.len() && order[i] == other;
                            assert(longer[i] == other);
                        }
                        if longer.contains(other) && other != name {
                            let i = choose|i: int| 0 <= i < longer.len() && longer[i] == other;
                            assert(order[i] == other);
                        }
                    }
                    assert forall|other: Seq<char>| #[trigger]
                        longer.contains(other) implies identifier_offsets@[other] == slot_offset(
                        longer,
                        other,
                    ) by {
                        if other != name {
                            let i = choose|i: int| 0 <= i < longer.len() && longer[i] == other;
                            assert(order[i] == other);
                            assert(order.contains(other));
                        }
                    }
                }
            },
            _ => {},
        }
    }
    replaced
}

/// Replaces every pseudo-register of the list by a stack slot and returns the offset of
/// the last slot handed out: zero where there is none, else four bytes below the frame
/// pointer for each distinct name. A name keeps its slot wherever it occurs; slots are
/// handed out in the order in which the names first occur.
pub fn pseudoregister_replacement_pass(instructions: &mut Vec<AssemblyInstruction>) -> (offset:
    i32)
    requires
        -4 * slot_order(old(instructions).deep_view()).len() >= i32::MIN,
    ensures
        final(instructions).deep_view() == spec_replace_pseudos(old(instructions).deep_view()),
        offset == -4 * slot_order(old(instructions).deep_view()).len(),
        free_of_pseudo_operands(final(instructions).deep_view()),
        final(instructions)@.len() == old(instructions)@.len(),
{
    let mut identifier_offsets: StringHashMap<i32> = StringHashMap::new();
    let mut offset_counter: i32 = 0;
    let mut replaced: Vec<AssemblyInstruction> = Vec::new();
    let ghost input = instructions.deep_view();
    let mut index: usize = 0;
    proof {
        assert(replaced.deep_view() =~= Seq::<AssemblyInstructionView>::empty());
        assert(input.subrange(0, 0) =~= Seq::<AssemblyInstructionView>::empty());
    }
    while index < instructions.len()
        invariant
            index <= instructions.len(),
            input == instructions.deep_view(),
            -4 * slot_order(input).len() >= i32::MIN,
            replaced.deep_view() == spec_replace_pseudos(input.subrange(0, index as int)),
            table_matches(
                identifier_offsets@,
                offset_counter as int,
                slot_order(input.subrange(0, index as int)),
            ),
        decreases instructions.len() - index,
    {
        let ghost order = slot_order(input.subrange(0, index as int));
        let ghost current = input[index as int];
        proof {
            assert(current == instructions[index as int].deep_view());
            assert(input.subrange(0, index as int + 1).drop_last() =~= input.subrange(
                0,
                index as int,
            ));
            assert(input.subrange(0, index as int + 1).last() == current);
            lemma_slot_order_len(input, index as int + 1);
            assert(slot_order(input.subrange(0, index as int + 1)) == instruction_order(
                current,
                order,
            ));
        }
        let instruction = &instructions[index];
        let replacement = match instruction {
            AssemblyInstruction::Mov { source, destination } => {
                proof {
                    lemma_operand_order_len(
                        destination.deep_view(),
                        operand_order(source.deep_view(), order),
                    );
                }
                let source = slot_operand(
                    source,
                    &mut identifier_offsets,
                    &mut offset_counter,
                    Ghost(order),
                );
                let destination = slot_operand(
                    destination,
                    &mut identifier_offsets,
                    &mut offset_counter,
                    Ghost(operand_order(current->Mov_source, order)),
                );
                AssemblyInstruction::Mov { source, destination }
            },
            AssemblyInstruction::Unary { op, operand } => {
                let operand = slot_operand(
                    operand,
                    &mut identifier_offsets,
                    &mut offset_counter,
                    Ghost(order),
                );
                AssemblyInstruction::Unary { op: *op, operand }
            },
            AssemblyInstruction::Binary { op, source, destination } => {
                proof {
                    lemma_operand_order_len(
                        destination.deep_view(),
                        operand_order(source.deep_view(), order),
                    );
                }
                let source = slot_operand(
                    source,
                    &mut identifier_offsets,
                    &mut offset_counter,
                    Ghost(order),
                );
                let destination = slot_operand(
                    destination,
                    &mut identifier_offsets,
                    &mut offset_counter,
                    Ghost(operand_order(current->Binary_source, order)),
                );
                AssemblyInstruction::Binary { op: *op, source, destination }
            },
            AssemblyInstruction::Idiv { operand } => {
                let operand = slot_operand(
                    operand,
                    &mut identifier_offsets,
                    &mut offset_counter,
                    Ghost(order),
                );
                AssemblyInstruction::Idiv { operand }
            },
            AssemblyInstruction::Cmp { left, right } => {
                proof {
                    lemma_operand_order_len(
                        right.deep_view(),
                        operand_order(left.deep_view(), order),
                    );
                }
                let left = slot_operand(
                    left,
                    &mut identifier_offsets,
                    &mut offset_counter,
                    Ghost(order),
                );
                let right = slot_operand(
                    right,
                    &mut identifier_offsets,
                    &mut offset_counter,
                    Ghost(operand_order(current->Cmp_left, order)),
                );
                AssemblyInstruction::Cmp { left, right }
            },
            AssemblyInstruction::SetCC { condition, operand } => {
                let operand = slot_operand(
                    operand,
                    &mut identifier_offsets,
                    &mut offset_counter,
                    Ghost(order),
                );
                AssemblyInstruction::SetCC { condition: *condition, operand }
            },
            _ => instruction.clone(),
        };
        assert(replacement.deep_view() == spec_replace_instruction(current, order));
        push_instruction(&mut replaced, replacement);
        index += 1;
    }
    proof {
        assert(input.subrange(0, index as int) =~= input);
        lemma_replace_pseudos_free(input);
    }
    *instructions = replaced;
    offset_counter
}

} // verus!
