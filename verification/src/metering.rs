//! Metering: the rewrite of a function body that charges a ledger of
//! remaining points before every operator at which control may leave the
//! straight line.

use crate::decoded::immediates::BlockType;
use crate::decoded::operator::Operator;
use crate::encoded::instruction::Instruction;
use crate::encoded::module::{ConstExpr, Export, Function, Global};
use crate::encoded::types::{ExportKind, GlobalType, ValType};
use crate::mappings::operators::map_operator;
use crate::mappings::types::operators_map;
use vstd::prelude::*;

verus! {

/// Exported name of the global variable for keeping track of remaining points.
pub const REMAINING_POINTS_EXPORT_NAME: &'static str = "wasmarin_metering_remaining_points";

/// Whether `operator` is an accounting operator: one that control may
/// branch from or to.
pub open spec fn is_accounting(operator: Operator) -> bool {
    ||| operator is Loop
    ||| operator is End
    ||| operator is If
    ||| operator is Else
    ||| operator is Br
    ||| operator is BrTable
    ||| operator is BrIf
    ||| operator is Call
    ||| operator is CallIndirect
    ||| operator is Return
    ||| operator is Throw
    ||| operator is ThrowRef
    ||| operator is Rethrow
    ||| operator is Delegate
    ||| operator is Catch
    ||| operator is ReturnCall
    ||| operator is ReturnCallIndirect
    ||| operator is BrOnCast
    ||| operator is BrOnCastFail
    ||| operator is CallRef
    ||| operator is ReturnCallRef
    ||| operator is BrOnNull
    ||| operator is BrOnNonNull
}

/// The points that one operator costs: none for `end`, one for any other.
pub open spec fn cost_of(operator: Operator) -> int {
    if operator is End {
        0
    } else {
        1
    }
}

/// The points that `operators` cost together.
pub open spec fn total_cost(operators: Seq<Operator>) -> int
    decreases operators.len(),
{
    if operators.len() == 0 {
        0
    } else {
        total_cost(operators.drop_last()) + cost_of(operators.last())
    }
}

/// The points that are accumulated and not yet charged once `operators` have
/// been passed: the cost of the operators after the last accounting operator.
pub open spec fn pending_cost(operators: Seq<Operator>) -> int
    decreases operators.len(),
{
    if operators.len() == 0 {
        0
    } else if is_accounting(operators.last()) {
        0
    } else {
        pending_cost(operators.drop_last()) + cost_of(operators.last())
    }
}

/// The points charged before `operators[i]`, where that is an accounting
/// operator: what was pending, and the cost of the operator itself.
pub open spec fn charge_at(operators: Seq<Operator>, i: int) -> int
    recommends
        0 <= i < operators.len(),
{
    pending_cost(operators.take(i)) + cost_of(operators[i])
}

/// The charges of the accounting operators of `operators`, in order.
pub open spec fn charges(operators: Seq<Operator>) -> Seq<int>
    decreases operators.len(),
{
    if operators.len() == 0 {
        Seq::empty()
    } else if is_accounting(operators.last()) {
        charges(operators.drop_last()).push(charge_at(operators, operators.len() - 1))
    } else {
        charges(operators.drop_last())
    }
}

/// The operators that charge `cost` points to the global at `global_index`
/// and trap where fewer than zero points remain.
pub open spec fn preamble(global_index: u32, cost: i64) -> Seq<Operator> {
    seq![
        Operator::GlobalGet { global_index },
        Operator::I64Const { value: cost },
        Operator::I64Sub,
        Operator::GlobalSet { global_index },
        Operator::GlobalGet { global_index },
        Operator::I64Const { value: 0 },
        Operator::I64LtS,
        Operator::If { blockty: BlockType::Empty },
        Operator::Unreachable,
        Operator::End,
    ]
}

/// What one operator becomes: itself, after the preamble where it is an
/// accounting operator.
pub open spec fn fed(operator: Operator, global_index: u32, accumulated_cost: i64) -> Seq<
    Operator,
> {
    if is_accounting(operator) {
        preamble(global_index, accumulated_cost).push(operator)
    } else {
        seq![operator]
    }
}

/// The metered form of a function body.
pub open spec fn metered(operators: Seq<Operator>, global_index: u32) -> Seq<Operator>
    decreases operators.len(),
{
    if operators.len() == 0 {
        Seq::empty()
    } else {
        metered(operators.drop_last(), global_index) + fed(
            operators.last(),
            global_index,
            charge_at(operators, operators.len() - 1) as i64,
        )
    }
}

/// Nothing is pending beyond the number of operators passed.
pub proof fn lemma_pending_cost_bounds(operators: Seq<Operator>)
    ensures
        0 <= pending_cost(operators) <= operators.len(),
    decreases operators.len(),
{
    if operators.len() > 0 {
        lemma_pending_cost_bounds(operators.drop_last());
    }
}

/// By how much an operator changes the depth of block nesting: an operator
/// that opens a block adds one level, one that closes a block takes one.
pub open spec fn nesting_change(operator: Operator) -> int {
    if operator is Block || operator is Loop || operator is If || operator is Try
        || operator is TryTable {
        1
    } else if operator is End || operator is Delegate {
        -1
    } else {
        0
    }
}

/// The depth of block nesting behind `operators`, counted from where they
/// begin.
pub open spec fn depth(operators: Seq<Operator>) -> int
    decreases operators.len(),
{
    if operators.len() == 0 {
        0
    } else {
        depth(operators.drop_last()) + nesting_change(operators.last())
    }
}

/// The lowest depth that is reached anywhere among `operators`: how many
/// of the blocks around them they close.
pub open spec fn lowest_depth(operators: Seq<Operator>) -> int
    decreases operators.len(),
{
    if operators.len() == 0 {
        0
    } else if lowest_depth(operators.drop_last()) <= depth(operators) {
        lowest_depth(operators.drop_last())
    } else {
        depth(operators)
    }
}

proof fn lemma_depth_of_both(first: Seq<Operator>, second: Seq<Operator>)
    ensures
        depth(first + second) == depth(first) + depth(second),
        lowest_depth(first + second) == if lowest_depth(first) <= depth(first) + lowest_depth(
            second,
        ) {
            lowest_depth(first)
        } else {
            depth(first) + lowest_depth(second)
        },
        lowest_depth(first) <= depth(first),
        lowest_depth(first) <= 0,
    decreases second.len(), first.len(),
{
    if first.len() > 0 {
        lemma_depth_of_both(first.drop_last(), Seq::empty());
    }
    if second.len() == 0 {
        assert(first + second =~= first);
    } else {
        lemma_depth_of_both(first, second.drop_last());
        assert((first + second).drop_last() =~= first + second.drop_last());
        assert((first + second).last() == second.last());
    }
}

proof fn lemma_depth_of_one_more(operators: Seq<Operator>, operator: Operator)
    ensures
        depth(operators.push(operator)) == depth(operators) + nesting_change(operator),
        lowest_depth(operators.push(operator)) == if lowest_depth(operators) <= depth(operators)
            + nesting_change(operator) {
            lowest_depth(operators)
        } else {
            depth(operators) + nesting_change(operator)
        },
{
    assert(operators.push(operator).drop_last() =~= operators);
}

/// A preamble opens one block and closes it again: behind it the depth is
/// what it was before, and no block around it is closed.
pub proof fn lemma_preamble_is_balanced(global_index: u32, cost: i64)
    ensures
        depth(preamble(global_index, cost)) == 0,
        lowest_depth(preamble(global_index, cost)) == 0,
{
    let s0 = Seq::<Operator>::empty();
    let s1 = s0.push(Operator::GlobalGet { global_index });
    let s2 = s1.push(Operator::I64Const { value: cost });
    let s3 = s2.push(Operator::I64Sub);
    let s4 = s3.push(Operator::GlobalSet { global_index });
    let s5 = s4.push(Operator::GlobalGet { global_index });
    let s6 = s5.push(Operator::I64Const { value: 0 });
    let s7 = s6.push(Operator::I64LtS);
    let s8 = s7.push(Operator::If { blockty: BlockType::Empty });
    let s9 = s8.push(Operator::Unreachable);
    let s10 = s9.push(Operator::End);
    lemma_depth_of_one_more(s0, Operator::GlobalGet { global_index });
    lemma_depth_of_one_more(s1, Operator::I64Const { value: cost });
    lemma_depth_of_one_more(s2, Operator::I64Sub);
    lemma_depth_of_one_more(s3, Operator::GlobalSet { global_index });
    lemma_depth_of_one_more(s4, Operator::GlobalGet { global_index });
    lemma_depth_of_one_more(s5, Operator::I64Const { value: 0 });
    lemma_depth_of_one_more(s6, Operator::I64LtS);
    lemma_depth_of_one_more(s7, Operator::If { blockty: BlockType::Empty });
    lemma_depth_of_one_more(s8, Operator::Unreachable);
    lemma_depth_of_one_more(s9, Operator::End);
    assert(s10 =~= preamble(global_index, cost));
}

/// Metering keeps the block structure of a body: behind the metered form
/// the depth of nesting is the one behind the body, and the metered form
/// closes as many of the blocks around it as the body does, no more.
pub proof fn lemma_metering_keeps_nesting(operators: Seq<Operator>, global_index: u32)
    ensures
        depth(metered(operators, global_index)) == depth(operators),
        lowest_depth(metered(operators, global_index)) == lowest_depth(operators),
    decreases operators.len(),
{
    if operators.len() > 0 {
        let before = operators.drop_last();
        let last = operators.last();
        let cost = charge_at(operators, operators.len() - 1) as i64;
        let added = fed(last, global_index, cost);
        lemma_metering_keeps_nesting(before, global_index);
        lemma_depth_of_both(metered(before, global_index), added);
        lemma_depth_of_both(before, Seq::empty());
        if is_accounting(last) {
            lemma_preamble_is_balanced(global_index, cost);
            lemma_depth_of_one_more(preamble(global_index, cost), last);
        } else {
            lemma_depth_of_one_more(Seq::empty(), last);
            assert(added =~= Seq::<Operator>::empty().push(last));
        }
    }
}

/// What a run through a preamble can change: the operand stack, the
/// remaining points, and whether the run has trapped.
pub struct Machine {
    pub stack: Seq<i64>,
    pub remaining: i64,
    pub trapped: bool,
}

/// The position behind the first `end` at or after `position`.
pub open spec fn behind_end(operators: Seq<Operator>, position: int) -> int
    decreases operators.len() - position,
{
    if position < 0 || position >= operators.len() {
        position
    } else if operators[position] is End {
        position + 1
    } else {
        behind_end(operators, position + 1)
    }
}

/// Runs the operators from `position` on, by the meaning that WebAssembly
/// gives to the operators of a preamble: reading and writing the global
/// of the remaining points, 64-bit constants, subtraction and signed
/// comparison, an `if` without a result and without blocks inside it,
/// `unreachable` and `end`. The run stops at a trap, at the end of the
/// operators, and at any other operator.
pub open spec fn executed(
    operators: Seq<Operator>,
    position: int,
    machine: Machine,
    global_index: u32,
) -> Machine
    decreases operators.len() - position,
    via executed_decreases
{
    let stack = machine.stack;
    if position < 0 || position >= operators.len() || machine.trapped {
        machine
    } else {
        match operators[position] {
            Operator::GlobalGet { global_index: index } if index == global_index => executed(
                operators,
                position + 1,
                Machine { stack: stack.push(machine.remaining), ..machine },
                global_index,
            ),
            Operator::GlobalSet { global_index: index } if index == global_index && stack.len()
                >= 1 => executed(
                operators,
                position + 1,
                Machine { stack: stack.drop_last(), remaining: stack.last(), ..machine },
                global_index,
            ),
            Operator::I64Const { value } => executed(
                operators,
                position + 1,
                Machine { stack: stack.push(value), ..machine },
                global_index,
            ),
            Operator::I64Sub if stack.len() >= 2 => executed(
                operators,
                position + 1,
                Machine {
                    stack: stack.drop_last().drop_last().push(
                        (stack[stack.len() - 2] - stack.last()) as i64,
                    ),
                    ..machine
                },
                global_index,
            ),
            Operator::I64LtS if stack.len() >= 2 => executed(
                operators,
                position + 1,
                Machine {
                    stack: stack.drop_last().drop_last().push(
                        if stack[stack.len() - 2] < stack.last() {
                            1i64
                        } else {
                            0i64
                        },
                    ),
                    ..machine
                },
                global_index,
            ),
            Operator::If { blockty: BlockType::Empty } if stack.len() >= 1 => executed(
                operators,
                if stack.last() != 0 {
                    position + 1
                } else {
                    behind_end(operators, position + 1)
                },
                Machine { stack: stack.drop_last(), ..machine },
                global_index,
            ),
            Operator::Unreachable => Machine { trapped: true, ..machine },
            Operator::End => executed(operators, position + 1, machine, global_index),
            _ => machine,
        }
    }
}

/// The position behind an `end` is behind the position the search began
/// at, and not behind the end of the operators.
pub proof fn lemma_behind_end_is_behind(operators: Seq<Operator>, position: int)
    ensures
        0 <= position < operators.len() ==> position < behind_end(operators, position),
        behind_end(operators, position) >= position,
        position <= operators.len() ==> behind_end(operators, position) <= operators.len(),
    decreases operators.len() - position,
{
    if 0 <= position < operators.len() && !(operators[position] is End) {
        lemma_behind_end_is_behind(operators, position + 1);
    }
}

#[via_fn]
proof fn executed_decreases(
    operators: Seq<Operator>,
    position: int,
    machine: Machine,
    global_index: u32,
) {
    lemma_behind_end_is_behind(operators, position + 1);
}

/// What a preamble does when it is run: it takes `cost` from the remaining
/// points, traps exactly if fewer than zero are then left, and leaves the
/// operand stack as it found it. This is the step that [`run`] repeats.
pub proof fn lemma_preamble_charges_then_checks(global_index: u32, cost: i64, machine: Machine)
    requires
        !machine.trapped,
        i64::MIN <= machine.remaining - cost <= i64::MAX,
    ensures
        executed(preamble(global_index, cost), 0, machine, global_index) == (Machine {
            stack: machine.stack,
            remaining: (machine.remaining - cost) as i64,
            trapped: machine.remaining - cost < 0,
        }),
{
    let operators = preamble(global_index, cost);
    let stack = machine.stack;
    let left = (machine.remaining - cost) as i64;
    let m1 = Machine { stack: stack.push(machine.remaining), ..machine };
    let m2 = Machine { stack: stack.push(machine.remaining).push(cost), ..machine };
    let m3 = Machine { stack: stack.push(left), ..machine };
    let m4 = Machine { stack, remaining: left, trapped: false };
    let m5 = Machine { stack: stack.push(left), ..m4 };
    let m6 = Machine { stack: stack.push(left).push(0), ..m4 };
    let flag = if left < 0 {
        1i64
    } else {
        0i64
    };
    let m7 = Machine { stack: stack.push(flag), ..m4 };
    assert(m2.stack.drop_last().drop_last() =~= stack);
    assert(m3.stack.drop_last() =~= stack);
    assert(m6.stack.drop_last().drop_last() =~= stack);
    assert(m7.stack.drop_last() =~= stack);
    assert(executed(operators, 10, m4, global_index) == m4);
    assert(executed(operators, 9, m4, global_index) == m4);
    assert(behind_end(operators, 9) == 10);
    assert(behind_end(operators, 8) == 10);
    assert(executed(operators, 8, m4, global_index) == (Machine { trapped: true, ..m4 }));
    assert(executed(operators, 7, m7, global_index) == (Machine { trapped: left < 0, ..m4 }));
    assert(executed(operators, 6, m6, global_index) == executed(operators, 7, m7, global_index));
    assert(executed(operators, 5, m5, global_index) == executed(operators, 6, m6, global_index));
    assert(executed(operators, 4, m4, global_index) == executed(operators, 5, m5, global_index));
    assert(executed(operators, 3, m3, global_index) == executed(operators, 4, m4, global_index));
    assert(executed(operators, 2, m2, global_index) == executed(operators, 3, m3, global_index));
    assert(executed(operators, 1, m1, global_index) == executed(operators, 2, m2, global_index));
    assert(executed(operators, 0, machine, global_index) == executed(operators, 1, m1, global_index));
}

/// The sum of the first `k` of `charges`.
pub open spec fn charged(charges: Seq<int>, k: int) -> int
    decreases k,
{
    if k <= 0 {
        0
    } else {
        charged(charges, k - 1) + charges[k - 1]
    }
}

/// How a run through metered code ends.
pub enum Outcome {
    /// Every boundary was passed; `remaining` points are left.
    Completed { remaining: int },
    /// The boundary at position `at` trapped, and left the ledger at
    /// `remaining`, which is below zero.
    Trapped { at: int, remaining: int },
}

/// A run that starts with `remaining` points and passes accounting
/// boundaries with the given charges, in this order. Each boundary first
/// takes its charge from the ledger and then traps where the ledger has
/// fallen below zero.
pub open spec fn run(remaining: int, charges: Seq<int>) -> Outcome
    decreases charges.len(),
{
    if charges.len() == 0 {
        Outcome::Completed { remaining }
    } else {
        let left = remaining - charges[0];
        if left < 0 {
            Outcome::Trapped { at: 0, remaining: left }
        } else {
            match run(left, charges.skip(1)) {
                Outcome::Completed { remaining } => Outcome::Completed { remaining },
                Outcome::Trapped { at, remaining } => Outcome::Trapped { at: at + 1, remaining },
            }
        }
    }
}

proof fn lemma_charged_skip(charges: Seq<int>, k: int)
    requires
        0 < k <= charges.len(),
    ensures
        charged(charges, k) == charges[0] + charged(charges.skip(1), k - 1),
    decreases k,
{
    if k > 1 {
        lemma_charged_skip(charges, k - 1);
        assert(charges.skip(1)[k - 2] == charges[k - 1]);
    } else {
        assert(charged(charges, 0) == 0);
        assert(charged(charges.skip(1), 0) == 0);
    }
}

/// A run traps exactly if the charges up to and including some boundary
/// come to more than the points it started with. It then traps at the first
/// such boundary, and the ledger stands at the points it started with less
/// everything charged through that boundary. A run that does not trap
/// leaves the points it started with less all charges.
pub proof fn lemma_run(remaining: int, charges: Seq<int>)
    ensures
        run(remaining, charges) is Trapped <==> exists|k: int|
            0 < k <= charges.len() && #[trigger] charged(charges, k) > remaining,
        run(remaining, charges) matches Outcome::Trapped { at, remaining: left } ==> {
            &&& 0 <= at < charges.len()
            &&& left == remaining - charged(charges, at + 1)
            &&& left < 0
            &&& forall|k: int| 0 < k <= at ==> #[trigger] charged(charges, k) <= remaining
        },
        run(remaining, charges) matches Outcome::Completed { remaining: left } ==> {
            &&& left == remaining - charged(charges, charges.len() as int)
            &&& left >= 0 || charges.len() == 0
        },
    decreases charges.len(),
{
    if charges.len() > 0 {
        let first = charges[0];
        let rest = charges.skip(1);
        let left = remaining - first;
        assert(charged(charges, 1) == first) by {
            assert(charged(charges, 0) == 0);
        }
        if left < 0 {
            assert(charged(charges, 1) > remaining);
        } else {
            lemma_run(left, rest);
            assert forall|k: int| 0 < k <= charges.len() implies #[trigger] charged(charges, k)
                == first + charged(rest, k - 1) by {
                lemma_charged_skip(charges, k);
            }
            if run(left, rest) is Trapped {
                let witness = choose|k: int|
                    0 < k <= rest.len() && #[trigger] charged(rest, k) > left;
                assert(charged(charges, witness + 1) > remaining);
                let at = run(left, rest)->Trapped_at;
                assert forall|k: int| 0 < k <= at + 1 implies #[trigger] charged(charges, k)
                    <= remaining by {
                    if k > 1 {
                        assert(charged(rest, k - 1) <= left);
                    } else {
                        assert(charged(rest, 0) == 0);
                    }
                }
            } else {
                assert forall|k: int| 0 < k <= charges.len() implies !(#[trigger] charged(
                    charges,
                    k,
                ) > remaining) by {
                    if k > 1 {
                        assert(!(charged(rest, k - 1) > left));
                    }
                }
            }
        }
    } else {
        assert(charged(charges, 0) == 0);
    }
}

/// No cost is lost and none is charged twice: what the accounting
/// operators of a body charge, and what is still pending after it, come to
/// the cost of all its operators. Every charge is at least zero.
pub proof fn lemma_charges_conserve_cost(operators: Seq<Operator>)
    ensures
        charged(charges(operators), charges(operators).len() as int) + pending_cost(operators)
            == total_cost(operators),
        forall|k: int| 0 <= k < charges(operators).len() ==> #[trigger] charges(operators)[k] >= 0,
    decreases operators.len(),
{
    if operators.len() > 0 {
        let before = operators.drop_last();
        lemma_charges_conserve_cost(before);
        lemma_pending_cost_bounds(before);
        if is_accounting(operators.last()) {
            let all = charges(operators);
            let n = charges(before).len() as int;
            assert(operators.take(operators.len() - 1) == before);
            assert(all.drop_last() == charges(before));
            lemma_charged_prefix(all, charges(before), n);
        }
    } else {
        assert(charged(charges(operators), 0) == 0);
    }
}

proof fn lemma_charged_prefix(longer: Seq<int>, shorter: Seq<int>, k: int)
    requires
        0 <= k <= shorter.len() <= longer.len(),
        forall|i: int| 0 <= i < shorter.len() ==> shorter[i] == longer[i],
    ensures
        charged(longer, k) == charged(shorter, k),
    decreases k,
{
    if k > 0 {
        lemma_charged_prefix(longer, shorter, k - 1);
    }
}

/// A body that ends in an accounting operator, as every function body does
/// that ends in `end`, has nothing pending: a run through all of it is
/// charged its whole cost.
pub proof fn lemma_whole_cost_is_charged(operators: Seq<Operator>)
    requires
        operators.len() > 0,
        is_accounting(operators.last()),
    ensures
        charged(charges(operators), charges(operators).len() as int) == total_cost(operators),
{
    lemma_charges_conserve_cost(operators);
}

/// Metering properties.
pub struct Metering {
    /// Enables metering functionality.
    enabled: bool,
    /// Index of a global variable storing remaining points.
    remaining_points_global_index: u32,
}

impl Default for Metering {
    /// Metering that is switched off.
    fn default() -> (r: Self)
        ensures
            !r.enabled(),
            r.global_index() == 0,
    {
        Self::new(false)
    }
}

impl Metering {
    /// Whether metering is switched on.
    pub closed spec fn enabled(self) -> bool {
        self.enabled
    }

    /// The index of the global that holds the remaining points.
    pub closed spec fn global_index(self) -> u32 {
        self.remaining_points_global_index
    }

    /// Creates a new [Metering] instance.
    pub fn new(enabled: bool) -> (r: Self)
        ensures
            r.enabled() == enabled,
            r.global_index() == 0,
    {
        Self { enabled, remaining_points_global_index: 0 }
    }

    /// The global that is injected: mutable, 64 bits wide, not shared,
    /// initially zero.
    pub open spec fn injected_global(global: Global) -> bool {
        &&& global.ty == (GlobalType { val_type: ValType::I64, mutable: true, shared: false })
        &&& global.init_expr.instructions@ == seq![Instruction::I64Const(0)]
    }

    /// The export that is injected: the global at `index` under the fixed name.
    pub open spec fn injected_export(export: Export, index: u32) -> bool {
        &&& export.name@ == REMAINING_POINTS_EXPORT_NAME@
        &&& export.kind == ExportKind::Global
        &&& export.index == index
    }

    /// Adds a global variable to keep track of remaining points, and keeps
    /// its index: the number of globals that were there before, those that
    /// the module imports, of which there are `imported`, counted in.
    pub fn update_global_section(&mut self, imported: usize, global_section: &mut Vec<Global>)
        requires
            imported + old(global_section).len() <= u32::MAX,
        ensures
            final(self).enabled() == old(self).enabled(),
            !old(self).enabled() ==> *final(self) == *old(self) && *final(global_section) == *old(
                global_section,
            ),
            old(self).enabled() ==> {
                &&& final(self).global_index() == imported + old(global_section).len()
                &&& final(global_section)@.len() == old(global_section)@.len() + 1
                &&& final(global_section)@.drop_last() == old(global_section)@
                &&& Self::injected_global(final(global_section)@.last())
            },
    {
        if self.enabled {
            self.remaining_points_global_index = (imported + global_section.len()) as u32;
            let mut instructions: Vec<Instruction> = Vec::new();
            instructions.push(Instruction::I64Const(0));
            global_section.push(
                Global {
                    ty: GlobalType { val_type: ValType::I64, mutable: true, shared: false },
                    init_expr: ConstExpr::extended(instructions),
                },
            );
            assert(global_section@.drop_last() =~= old(global_section)@);
        }
    }

    /// Adds an export name for the global variable that keeps track of
    /// remaining points.
    pub fn update_export_section(&mut self, export_section: &mut Vec<Export>)
        ensures
            *final(self) == *old(self),
            !old(self).enabled() ==> *final(export_section) == *old(export_section),
            old(self).enabled() ==> {
                &&& final(export_section)@.len() == old(export_section)@.len() + 1
                &&& final(export_section)@.drop_last() == old(export_section)@
                &&& Self::injected_export(final(export_section)@.last(), old(self).global_index())
            },
    {
        if self.enabled {
            export_section.push(
                Export {
                    name: REMAINING_POINTS_EXPORT_NAME.to_owned(),
                    kind: ExportKind::Global,
                    index: self.remaining_points_global_index,
                },
            );
            assert(export_section@.drop_last() =~= old(export_section)@);
        }
    }

    /// The metered form of `operators`: before every accounting operator, the
    /// preamble that charges what was accumulated since the one before.
    pub fn instrument(&self, operators: Vec<Operator>) -> (r: Vec<Operator>)
        requires
            operators.len() <= i64::MAX,
        ensures
            r@ == metered(operators@, self.global_index()),
    {
        let ghost all = operators@;
        let mut output: Vec<Operator> = Vec::new();
        let mut accumulated_cost: i64 = 0;
        for operator in it: operators
            invariant
                it.seq() == all,
                all.len() <= i64::MAX,
                accumulated_cost == pending_cost(all.take(it.index() as int)),
                output@ == metered(all.take(it.index() as int), self.global_index()),
        {
            let ghost before = all.take(it.index() as int);
            let ghost after = all.take(it.index() + 1);
            proof {
                lemma_pending_cost_bounds(before);
                assert(after.drop_last() == before);
                assert(after.last() == operator);
                assert(after.take(after.len() - 1) == before);
            }
            accumulated_cost += self.cost(&operator);
            let accounting = self.is_accounting_operator(&operator);
            let mut emitted = self.feed(operator, accumulated_cost);
            output.append(&mut emitted);
            if accounting {
                accumulated_cost = 0;
            }
        }
        assert(all.take(all.len() as int) == all);
        output
    }

    /// Updates function's operator with metering code.
    pub fn update_function(&mut self, function: &mut Function, operators: Vec<Operator>)
        requires
            operators.len() <= i64::MAX,
        ensures
            *final(self) == *old(self),
            final(function).locals == old(function).locals,
            final(function).instructions@.len() >= old(function).instructions@.len(),
            final(function).instructions@.take(old(function).instructions@.len() as int) == old(
                function,
            ).instructions@,
            operators_map(
                if old(self).enabled() {
                    metered(operators@, old(self).global_index())
                } else {
                    operators@
                },
                final(function).instructions@.skip(old(function).instructions@.len() as int),
            ),
    {
        let emitted = if self.enabled {
            self.instrument(operators)
        } else {
            operators
        };
        let ghost start = function.instructions@.len() as int;
        let ghost all = emitted@;
        for operator in it: emitted
            invariant
                it.seq() == all,
                start == old(function).instructions@.len(),
                function.locals == old(function).locals,
                function.instructions@.len() == start + it.index(),
                function.instructions@.take(start) == old(function).instructions@,
                operators_map(all.take(it.index() as int), function.instructions@.skip(start)),
        {
            let ghost previous = function.instructions@;
            let instruction = map_operator(operator);
            function.instruction(instruction);
            proof {
                assert(function.instructions@.take(start) =~= previous.take(start));
                assert(function.instructions@.skip(start) =~= previous.skip(start).push(
                    instruction,
                ));
                assert(all.take(it.index() + 1) =~= all.take(it.index() as int).push(operator));
            }
        }
        assert(all.take(all.len() as int) == all);
    }

    fn feed(&self, operator: Operator, accumulated_cost: i64) -> (r: Vec<Operator>)
        ensures
            r@ == fed(operator, self.global_index(), accumulated_cost),
    {
        if self.is_accounting_operator(&operator) {
            let mut emitted: Vec<Operator> = Vec::new();
            emitted.push(Operator::GlobalGet { global_index: self.remaining_points_global_index });
            emitted.push(Operator::I64Const { value: accumulated_cost });
            emitted.push(Operator::I64Sub);
            emitted.push(Operator::GlobalSet { global_index: self.remaining_points_global_index });
            emitted.push(Operator::GlobalGet { global_index: self.remaining_points_global_index });
            emitted.push(Operator::I64Const { value: 0 });
            emitted.push(Operator::I64LtS);
            emitted.push(Operator::If { blockty: BlockType::Empty });
            emitted.push(Operator::Unreachable);
            emitted.push(Operator::End);
            emitted.push(operator);
            assert(emitted@ =~= fed(operator, self.global_index(), accumulated_cost));
            emitted
        } else {
            let mut emitted: Vec<Operator> = Vec::new();
            emitted.push(operator);
            assert(emitted@ =~= fed(operator, self.global_index(), accumulated_cost));
            emitted
        }
    }

    fn cost(&self, operator: &Operator) -> (r: i64)
        ensures
            r == cost_of(*operator),
    {
        match operator {
            Operator::End => 0,
            _ => 1,
        }
    }

    /// Returns `true` iff the given operator is an `accounting` operator.
    ///
    /// Before each `accounting` operator, there is an additional work
    /// to be done to track the metering points properly.
    fn is_accounting_operator(&self, operator: &Operator) -> (r: bool)
        ensures
            r == is_accounting(*operator),
    {
        matches!(
            operator,
            Operator::Loop { .. } // loop headers are branch targets
            | Operator::End // block ends are branch targets
            | Operator::If { .. } // branch source, "if" can branch to else branch
            | Operator::Else // 'else' is the end of 'if' branch
            | Operator::Br { .. } // branch source
            | Operator::BrTable { .. } // branch source
            | Operator::BrIf { .. } // branch source
            | Operator::Call { .. } // function call is a branch source
            | Operator::CallIndirect { .. } // function call is a branch source
            | Operator::Return // end of function is a branch source
            // exceptions
            | Operator::Throw { .. } // branch source
            | Operator::ThrowRef // branch source
            | Operator::Rethrow { .. } // branch source
            | Operator::Delegate { .. } // branch source
            | Operator::Catch { .. } // branch target
            // tail calls
            | Operator::ReturnCall { .. } // branch source
            | Operator::ReturnCallIndirect { .. } // branch source
            // garbage collection
            | Operator::BrOnCast { .. } // branch source
            | Operator::BrOnCastFail { .. } // branch source
            // function references
            | Operator::CallRef { .. } // branch source
            | Operator::ReturnCallRef { .. } // branch source
            | Operator::BrOnNull { .. } // branch source
            | Operator::BrOnNonNull { .. } // branch source
        )
    }
}

} // verus!
