//! What holds of every instruction: its effect on the depth of the stack.

use vstd::prelude::*;

use crate::interp_instructor::machine::effect;
use crate::interp_instructor::machine::halted;
use crate::interp_instructor::machine::is_simple;
use crate::interp_instructor::machine::run;
use crate::interp_instructor::machine::step;
use crate::interp_instructor::ops_flow::is_branch;
use crate::interp_instructor::ops_flow::is_call_op;
use crate::interp_instructor::ops_loops::deltas;
use crate::interp_instructor::ops_loops::each_delta;
use crate::interp_instructor::ops_loops::each_point;
use crate::interp_instructor::ops_loops::is_delta_op;
use crate::interp_instructor::ops_loops::is_loop_op;
use crate::interp_instructor::ops_loops::is_range_op;
use crate::interp_instructor::ops_loops::loop_params;
use crate::interp_instructor::ops_loops::repeat;
use crate::interp_instructor::ops_points::is_line_op;
use crate::interp_instructor::ops_points::is_measure_op;
use crate::interp_instructor::ops_points::is_move_op;
use crate::interp_instructor::ops_stack::is_binary;
use crate::interp_instructor::ops_stack::is_push;
use crate::interp_instructor::ops_stack::is_rearrange;
use crate::interp_instructor::ops_stack::is_unary;
use crate::interp_instructor::ops_state::is_plain;
use crate::interp_instructor::ops_state::is_setter;
use crate::interp_instructor::ops_state::is_transfer;
use crate::interp_instructor::state::signed;
use crate::interp_instructor::state::InterpView;
use crate::interp_instructor::zone_ops::along;

verus! {

/// By how much the instruction `op` changes the depth of the stack of the
/// machine `m` where it succeeds: the number of values that it pushes less
/// the number that it takes.
///
/// Most instructions take and push fixed numbers of values. A push
/// instruction pushes as many as its code or the byte behind it says;
/// `CLEAR` takes all there are; an instruction that the loop counter repeats
/// takes one point for each turn; a delta instruction takes its count and
/// two values for each exception. A user instruction changes nothing by
/// itself.
pub open spec fn stack_change(m: InterpView, op: u8) -> int {
    if op == 0x40 || op == 0x41 {
        m.code()[m.pc + 1] as int
    } else if 0xB0 <= op <= 0xB7 {
        op - 0xAF
    } else if 0xB8 <= op <= 0xBF {
        op - 0xB7
    } else if op == 0x22 {
        -m.depth()
    } else if op == 0x38 {
        -(1 + m.state.loopv)
    } else if is_loop_op(op) {
        -(m.state.loopv as int)
    } else if is_delta_op(op) {
        -(1 + 2 * m.top(0))
    } else if op == 0x0F {
        -5
    } else if op == 0x0C || op == 0x0D {
        2
    } else if op == 0x20 || op == 0x24 || op == 0x4B || op == 0x4C {
        1
    } else if is_binary(op) || is_setter(op) || op == 0x21 || op == 0x26 || op == 0x58 || op
        == 0x1C || op == 0x2C || op == 0x89 || op == 0x2B || op == 0x49 || op == 0x4A || op == 0x2E
        || op == 0x2F || (0xC0 <= op <= 0xDF) || op == 0x29 || (0x34 <= op <= 0x37) {
        -1
    } else if op == 0x78 || op == 0x79 || op == 0x2A || op == 0x0A || op == 0x0B || op == 0x42
        || op == 0x44 || op == 0x70 || op == 0x8E || is_line_op(op) || op == 0x3E || op == 0x3F
        || op >= 0xE0 || op == 0x3A || op == 0x3B || op == 0x48 || op == 0x27 || op == 0x81 || op
        == 0x82 {
        -2
    } else {
        0
    }
}

/// Each turn of an instruction that the loop counter repeats takes one
/// point from the stack and puts nothing there.
pub proof fn lemma_repeat_depth(m: InterpView, op: u8, a: int, b: int, n: nat)
    requires
        repeat(m, op, a, b, n) is Ok,
    ensures
        repeat(m, op, a, b, n)->Ok_0.depth() == m.depth() - n,
    decreases n,
{
    if n > 0 {
        reveal(each_point);
        let after = each_point(m.popped(1), op, m.top(0) as int, a, b)->Ok_0;
        lemma_repeat_depth(after, op, a, b, (n - 1) as nat);
    }
}

/// Each exception of a delta instruction takes two values from the stack
/// and puts nothing there.
pub proof fn lemma_deltas_depth(m: InterpView, op: u8, n: nat)
    requires
        deltas(m, op, n) is Ok,
    ensures
        deltas(m, op, n)->Ok_0.depth() == m.depth() - 2 * n,
    decreases n,
{
    if n > 0 {
        reveal(each_delta);
        let after = each_delta(m.popped(2), op, m.top(0), m.top(1))->Ok_0;
        lemma_deltas_depth(after, op, (n - 1) as nat);
    }
}

proof fn lemma_effect_depth(m: InterpView, op: u8)
    requires
        is_simple(op),
        effect(m, op) is Ok,
    ensures
        effect(m, op)->Ok_0.depth() == m.depth() + stack_change(m, op),
{
    if is_binary(op) {
    } else if is_unary(op) {
    } else if is_rearrange(op) {
    } else if is_plain(op) {
    } else if is_setter(op) {
    } else if is_transfer(op) {
    } else if is_measure_op(op) {
    } else if is_line_op(op) {
    } else if is_move_op(op) {
    } else if is_loop_op(op) {
        if op == 0x38 {
            lemma_repeat_depth(
                m.popped(1),
                op,
                along(signed(m.top(0)), m.state.freedom_vec.x),
                along(signed(m.top(0)), m.state.freedom_vec.y),
                m.state.loopv as nat,
            );
        } else {
            let params = loop_params(m, op)->Some_0;
            lemma_repeat_depth(m, op, params.0, params.1, m.state.loopv as nat);
        }
    } else if is_range_op(op) {
    } else if is_delta_op(op) {
        lemma_deltas_depth(m.popped(1), op, m.top(0) as nat);
    } else {
    }
}

/// The stack discipline of the machine: an instruction that succeeds
/// changes the depth of the stack by exactly the number that `stack_change`
/// gives for it, whatever else it does.
pub proof fn lemma_stack_discipline(m: InterpView)
    requires
        !halted(m),
        step(m) is Ok,
    ensures
        step(m)->Ok_0.depth() == m.depth() + stack_change(m, m.code()[m.pc as int]),
{
    let op = m.code()[m.pc as int];
    if is_push(op) {
    } else if is_branch(op) {
    } else if is_call_op(op) {
    } else if is_simple(op) {
        lemma_effect_depth(m, op);
    } else {
    }
}

/// The sum of the changes that the instructions of a run make to the depth
/// of the stack, one after the other, for as long as the run goes on.
pub open spec fn total_change(m: InterpView, fuel: nat) -> int
    decreases fuel,
{
    if halted(m) || fuel == 0 {
        0
    } else {
        match step(m) {
            Ok(after) => stack_change(m, m.code()[m.pc as int]) + total_change(
                after,
                (fuel - 1) as nat,
            ),
            Err(_) => 0,
        }
    }
}

/// A program that runs to its end leaves on the stack what was there
/// before and what its instructions have put there and not taken away
/// again, and nothing else: the depth at the end is the depth at the start
/// and the changes of all instructions that ran.
pub proof fn lemma_run_depth(m: InterpView, fuel: nat)
    requires
        run(m, fuel) is Ok,
    ensures
        run(m, fuel)->Ok_0.depth() == m.depth() + total_change(m, fuel),
    decreases fuel,
{
    if !halted(m) && fuel > 0 {
        lemma_stack_discipline(m);
        lemma_run_depth(step(m)->Ok_0, (fuel - 1) as nat);
    }
}

} // verus!
