//! Laws relating several instructions, proved over the same relations that
//! the handlers' contracts state. Facts about a single instruction for all
//! inputs (carry and borrow flags, skip distances, clipping) are already the
//! `ensures` of that instruction's handler.

use vstd::prelude::*;

verus! {

use crate::chip8_core::State;
use crate::draw::draw_collision;
use crate::draw::draw_dxyn_rel;
use crate::draw::draw_hit;
use crate::draw::pix;
use crate::operations::add_7xnn_rel;
use crate::operations::ret_rel;
use crate::operations::set_6xnn_rel;
use crate::operations::shift_8xy6_rel;
use crate::operations::shift_8xye_rel;
use crate::operations::subroutine_rel;
use crate::operations::wrap16;

/// Storing NN in register X and then adding NN2 to it leaves exactly
/// (NN + NN2) mod 256 there, whatever the register held before.
pub proof fn lemma_set_then_add(pre: State, mid: State, post: State, x: u16, nn: u16, nn2: u16)
    requires
        pre.wf(),
        x < 16,
        nn < 256,
        nn2 < 256,
        set_6xnn_rel(pre, mid, x, nn),
        add_7xnn_rel(mid, post, x, nn2),
    ensures
        post.v_buffer@[x as int] == (nn + nn2) % 256,
{
}

/// A right shift reads its source register Y and its shifted-out bit before
/// writing anything: when Y is neither the destination nor the flag
/// register, Y keeps its value, and the flag holds bit 0 of that value.
pub proof fn lemma_shift_right_keeps_source(pre: State, post: State, x: u16, y: u16)
    requires
        pre.wf(),
        x < 16,
        y < 16,
        y != x,
        y != 15,
        shift_8xy6_rel(pre, post, x, y),
    ensures
        post.v_buffer@[y as int] == pre.v_buffer@[y as int],
        post.v_buffer@[15] == pre.v_buffer@[y as int] % 2,
{
}

/// A left shift reads its source register Y and its shifted-out bit before
/// writing anything: when Y is neither the destination nor the flag
/// register, Y keeps its value, and the flag holds bit 7 of that value.
pub proof fn lemma_shift_left_keeps_source(pre: State, post: State, x: u16, y: u16)
    requires
        pre.wf(),
        x < 16,
        y < 16,
        y != x,
        y != 15,
        shift_8xye_rel(pre, post, x, y),
    ensures
        post.v_buffer@[y as int] == pre.v_buffer@[y as int],
        post.v_buffer@[15] == pre.v_buffer@[y as int] / 128,
{
}

/// Drawing the same sprite at the same position twice in succession
/// restores the frame buffer: XOR is its own inverse pixel by pixel. The
/// flag register ends up reflecting the second draw's collisions. The
/// position registers must not be the flag register itself, since the first
/// draw rewrites that one.
pub proof fn lemma_draw_twice(pre: State, mid: State, post: State, x: u16, y: u16, n: u16)
    requires
        pre.wf(),
        x < 16,
        y < 16,
        n < 16,
        x != 15,
        y != 15,
        draw_dxyn_rel(pre, mid, x, y, n),
        draw_dxyn_rel(mid, post, x, y, n),
    ensures
        post.screen@ == pre.screen@,
        post.v_buffer@[15] == (if draw_collision(mid, x, y, n) {
            1u8
        } else {
            0u8
        }),
{
    assert forall|r: int, c: int| #[trigger] draw_hit(mid, x, y, n, r, c) == draw_hit(
        pre,
        x,
        y,
        n,
        r,
        c,
    ) by {
        assert(mid.v_buffer@[y as int] == pre.v_buffer@[y as int]);
        assert(mid.v_buffer@[x as int] == pre.v_buffer@[x as int]);
    }
    assert forall|p: int| 0 <= p < pre.screen@.len() implies post.screen@[p] == pre.screen@[p] by {
        let r = p / 64;
        let c = p % 64;
        assert(pix(r, c) == p);
        assert(0 <= r < 32 && 0 <= c < 64);
        assert(post.screen@[pix(r, c)] == (mid.screen@[pix(r, c)] != draw_hit(
            mid,
            x,
            y,
            n,
            r,
            c,
        )));
        assert(mid.screen@[pix(r, c)] == (pre.screen@[pix(r, c)] != draw_hit(
            pre,
            x,
            y,
            n,
            r,
            c,
        )));
    }
    assert(post.screen@ =~= pre.screen@);
}

/// Calling a subroutine and returning from it brings the program counter to
/// the instruction just after the call: the call pushed its own address and
/// the return lands two past it.
pub proof fn lemma_call_ret_round_trip(pre: State, mid: State, post: State, nnn: u16)
    requires
        pre.wf(),
        nnn < 4096,
        pre.stack_pointer < 63,
        subroutine_rel(pre, mid, nnn),
        ret_rel(mid, post),
    ensures
        post.program_counter == wrap16(pre.program_counter + 2),
{
    assert(mid.stack@[mid.stack_pointer as int] == pre.program_counter);
}

} // verus!
