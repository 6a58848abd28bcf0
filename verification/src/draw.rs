//! The sprite-draw instruction (DXYN): N consecutive memory bytes, each one
//! a row of 8 pixels (most significant bit leftmost), are XORed onto the
//! frame buffer. The starting position wraps once, at the sprite's origin;
//! rows past the bottom edge and bits past the right edge are clipped, never
//! wrapped. Register 0xF ends at 1 exactly when some drawn bit turned a lit
//! pixel off.

use vstd::prelude::*;

verus! {

use crate::chip8_core::SCREEN_LEN;
use crate::chip8_core::RAM_LEN;
use crate::chip8_core::State;
use crate::operations::advance_pc;
use crate::operations::keeps_dims;
use crate::operations::keeps_index;
use crate::operations::keeps_ram;
use crate::operations::keeps_stack;
use crate::operations::keeps_timers;
use crate::operations::mem_addr;
use crate::operations::wrap16;

/// The frame-buffer position of the pixel at row `r`, column `c`.
pub open spec fn pix(r: int, c: int) -> int {
    r * 64 + c
}

/// Two in-range positions coincide only for the same row and column.
pub proof fn lemma_pix_injective(r1: int, c1: int, r2: int, c2: int)
    requires
        0 <= c1 < 64,
        0 <= c2 < 64,
        pix(r1, c1) == pix(r2, c2),
    ensures
        r1 == r2,
        c1 == c2,
{
}

/// Bit `j` of sprite byte `b`, counted from the left: bit 0 is the most
/// significant.
pub open spec fn sprite_bit(b: u8, j: int) -> bool {
    (b >> ((7 - j) as u8)) & 1 == 1
}

/// The starting row of the sprite: register Y wrapped into the 32 rows.
pub open spec fn start_row(pre: State, y: u16) -> int {
    pre.v_buffer@[y as int] as int % 32
}

/// The starting column of the sprite: register X wrapped into the 64
/// columns.
pub open spec fn start_col(pre: State, x: u16) -> int {
    pre.v_buffer@[x as int] as int % 64
}

/// Whether the DXYN instruction flips the pixel at row `r`, column `c`:
/// the pixel lies within the clipped sprite rectangle and its sprite bit,
/// read from memory at the index register, is set.
pub open spec fn draw_hit(pre: State, x: u16, y: u16, n: u16, r: int, c: int) -> bool {
    let sr = start_row(pre, y);
    let sc = start_col(pre, x);
    &&& sr <= r < sr + n
    &&& r < 32
    &&& sc <= c < sc + 8
    &&& c < 64
    &&& sprite_bit(pre.ram@[mem_addr(pre.index, r - sr)], c - sc)
}

/// Whether the sprite bit at row `r`, column `c` lands on a lit pixel.
pub open spec fn collides_at(pre: State, x: u16, y: u16, n: u16, r: int, c: int) -> bool {
    draw_hit(pre, x, y, n, r, c) && pre.screen@[pix(r, c)]
}

/// Whether any sprite bit lands on a lit pixel.
pub open spec fn draw_collision(pre: State, x: u16, y: u16, n: u16) -> bool {
    exists|r: int, c: int| collides_at(pre, x, y, n, r, c)
}

/// DXYN: every pixel inside the clipped sprite rectangle is XORed with its
/// sprite bit and every pixel outside it is untouched; register 0xF becomes
/// 1 exactly when a lit pixel went dark; the counter advances by 2.
pub open spec fn draw_dxyn_rel(pre: State, post: State, x: u16, y: u16, n: u16) -> bool {
    &&& keeps_ram(pre, post)
    &&& keeps_index(pre, post)
    &&& keeps_stack(pre, post)
    &&& keeps_timers(pre, post)
    &&& keeps_dims(pre, post)
    &&& post.screen@.len() == pre.screen@.len()
    &&& forall|r: int, c: int|
        #![trigger pix(r, c)]
        0 <= r < 32 && 0 <= c < 64 ==> post.screen@[pix(r, c)] == (pre.screen@[pix(r, c)]
            != draw_hit(pre, x, y, n, r, c))
    &&& post.v_buffer@ == pre.v_buffer@.update(
        15,
        if draw_collision(pre, x, y, n) {
            1u8
        } else {
            0u8
        },
    )
    &&& post.program_counter == wrap16(pre.program_counter + 2)
}

/// DXYN: draw an N-row sprite from memory at the index register, at the
/// position named by registers X and Y.
pub fn draw_dxyn(state: &mut State, x: u16, y: u16, n: u16)
    requires
        old(state).wf(),
        x < 16,
        y < 16,
        n < 16,
    ensures
        final(state).wf(),
        draw_dxyn_rel(*old(state), *final(state), x, y, n),
{
    let sr: usize = (state.v_buffer[y as usize] % 32) as usize;
    let sc: usize = (state.v_buffer[x as usize] % 64) as usize;
    let rows: usize = if (n as usize) < 32 - sr {
        n as usize
    } else {
        32 - sr
    };
    let cols: usize = if 8 < 64 - sc {
        8
    } else {
        64 - sc
    };
    let mut collided: bool = false;
    let mut i: usize = 0;
    while i < rows
        invariant
            old(state).wf(),
            x < 16,
            y < 16,
            n < 16,
            state.ram@ == old(state).ram@,
            state.v_buffer@ == old(state).v_buffer@,
            state.index == old(state).index,
            state.stack@ == old(state).stack@,
            state.stack_pointer == old(state).stack_pointer,
            state.delay_timer == old(state).delay_timer,
            state.sound_timer == old(state).sound_timer,
            state.screen_width == old(state).screen_width,
            state.screen_height == old(state).screen_height,
            state.program_counter == old(state).program_counter,
            state.screen@.len() == SCREEN_LEN,
            sr == start_row(*old(state), y),
            sc == start_col(*old(state), x),
            rows <= n,
            sr + rows <= 32,
            rows == n || sr + rows == 32,
            cols <= 8,
            sc + cols <= 64,
            cols == 8 || sc + cols == 64,
            i <= rows,
            forall|r: int, c: int|
                #![trigger pix(r, c)]
                0 <= r < 32 && 0 <= c < 64 ==> state.screen@[pix(r, c)] == (old(
                    state,
                ).screen@[pix(r, c)] != (r < sr + i && draw_hit(*old(state), x, y, n, r, c))),
            collided == exists|r: int, c: int|
                r < sr + i && collides_at(*old(state), x, y, n, r, c),
        decreases rows - i,
    {
        let byte: u8 = state.ram[(state.index as usize + i) % RAM_LEN];
        proof {
            assert(byte == old(state).ram@[mem_addr(old(state).index, i as int)]);
        }
        let mut j: usize = 0;
        while j < cols
            invariant
                old(state).wf(),
                x < 16,
                y < 16,
                n < 16,
                state.ram@ == old(state).ram@,
                state.v_buffer@ == old(state).v_buffer@,
                state.index == old(state).index,
                state.stack@ == old(state).stack@,
                state.stack_pointer == old(state).stack_pointer,
                state.delay_timer == old(state).delay_timer,
                state.sound_timer == old(state).sound_timer,
                state.screen_width == old(state).screen_width,
                state.screen_height == old(state).screen_height,
                state.program_counter == old(state).program_counter,
                state.screen@.len() == SCREEN_LEN,
                sr == start_row(*old(state), y),
                sc == start_col(*old(state), x),
                rows <= n,
                sr + rows <= 32,
                rows == n || sr + rows == 32,
                cols <= 8,
                sc + cols <= 64,
                cols == 8 || sc + cols == 64,
                i < rows,
                j <= cols,
                byte == old(state).ram@[mem_addr(old(state).index, i as int)],
                forall|r: int, c: int|
                    #![trigger pix(r, c)]
                    0 <= r < 32 && 0 <= c < 64 ==> state.screen@[pix(r, c)] == (old(
                        state,
                    ).screen@[pix(r, c)] != ((r < sr + i || (r == sr + i && c < sc + j))
                        && draw_hit(*old(state), x, y, n, r, c))),
                collided == exists|r: int, c: int|
                    (r < sr + i || (r == sr + i && c < sc + j)) && collides_at(
                        *old(state),
                        x,
                        y,
                        n,
                        r,
                        c,
                    ),
            decreases cols - j,
        {
            let sh: u8 = (7 - j) as u8;
            let ghost r0: int = sr + i;
            let ghost c0: int = sc + j;
            proof {
                assert(pix(r0, c0) == (sr + i) * 64 + (sc + j));
            }
            if (byte >> sh) & 1 == 1 {
                proof {
                    assert(sprite_bit(byte, j as int));
                    assert(draw_hit(*old(state), x, y, n, r0, c0));
                }
                let p: usize = (sr + i) * 64 + (sc + j);
                let cur: bool = state.screen[p];
                if cur {
                    collided = true;
                    proof {
                        assert(state.screen@[pix(r0, c0)] == (old(state).screen@[pix(r0, c0)]
                            != false));
                        assert(collides_at(*old(state), x, y, n, r0, c0));
                    }
                }
                state.screen.set(p, !cur);
                proof {
                    assert forall|r: int, c: int| 0 <= r < 32 && 0 <= c < 64 && !(r == r0 && c
                        == c0) implies pix(r, c) != pix(r0, c0) by {
                        if pix(r, c) == pix(r0, c0) {
                            lemma_pix_injective(r, c, r0, c0);
                        }
                    }
                }
            } else {
                proof {
                    assert(!sprite_bit(byte, j as int));
                    assert(!draw_hit(*old(state), x, y, n, r0, c0));
                }
            }
            j = j + 1;
            proof {
                // Bits past the clipped right edge hit nothing, so a row
                // closed early covers the same pixels as a full one.
                assert forall|r: int, c: int| (r < sr + i || (r == sr + i && c < sc + j))
                    && !(r < sr + i || (r == sr + i && c < sc + (j - 1))) && !(r == r0 && c
                    == c0) implies !draw_hit(*old(state), x, y, n, r, c) by {}
            }
        }
        i = i + 1;
        proof {
            assert forall|r: int, c: int| r < sr + i && !(r < sr + i - 1) && !(r == sr + i - 1
                && c < sc + cols) implies !draw_hit(*old(state), x, y, n, r, c) by {}
        }
    }
    proof {
        // Rows at or past the clipped bottom edge hit nothing.
        assert forall|r: int, c: int| sr + rows <= r implies !draw_hit(
            *old(state),
            x,
            y,
            n,
            r,
            c,
        ) by {}
        assert(collided == draw_collision(*old(state), x, y, n));
    }
    state.v_buffer.set(15, if collided { 1u8 } else { 0u8 });
    advance_pc(state);
}

} // verus!
