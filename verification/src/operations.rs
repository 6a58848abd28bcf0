//! The instruction engine: decoding of 16-bit instruction words and one
//! handler per instruction, each with an exact contract, together with
//! [`operate`], which fetches, decodes and executes one instruction.
//!
//! Every handler states the machine's next program counter itself; resulting
//! addresses follow the conventional fetch-then-advance sequence, so an
//! instruction that does not branch leaves the counter exactly two past
//! where it was fetched.
//!
//! Address policy: memory accesses through the index register or the program
//! counter wrap modulo the 4096-byte space, and the program counter and index
//! register themselves wrap modulo 2^16. A return on an empty call stack or a
//! call on a full one performs no transfer and is reported as a fault.

use vstd::prelude::*;

verus! {

use crate::chip8_core::InputState;
use crate::chip8_core::REG_COUNT;
use crate::chip8_core::RAM_LEN;
use crate::chip8_core::State;
use crate::chip8_core::any_key_down;

/// `n` reduced to a 16-bit address value.
pub open spec fn wrap16(n: int) -> u16 {
    (n % 65536) as u16
}

/// The memory address reached by offsetting the index register by `k`,
/// wrapped into the 4096-byte space.
pub open spec fn mem_addr(idx: u16, k: int) -> int {
    (idx + k) % 4096
}

/// Memory is unchanged.
pub open spec fn keeps_ram(pre: State, post: State) -> bool {
    post.ram@ == pre.ram@
}

/// The frame buffer is unchanged.
pub open spec fn keeps_screen(pre: State, post: State) -> bool {
    post.screen@ == pre.screen@
}

/// The registers are unchanged.
pub open spec fn keeps_regs(pre: State, post: State) -> bool {
    post.v_buffer@ == pre.v_buffer@
}

/// The index register is unchanged.
pub open spec fn keeps_index(pre: State, post: State) -> bool {
    post.index == pre.index
}

/// The call stack and its pointer are unchanged.
pub open spec fn keeps_stack(pre: State, post: State) -> bool {
    post.stack@ == pre.stack@ && post.stack_pointer == pre.stack_pointer
}

/// Both timers are unchanged.
pub open spec fn keeps_timers(pre: State, post: State) -> bool {
    post.delay_timer == pre.delay_timer && post.sound_timer == pre.sound_timer
}

/// The presentation hints are unchanged.
pub open spec fn keeps_dims(pre: State, post: State) -> bool {
    post.screen_width == pre.screen_width && post.screen_height == pre.screen_height
}

/// At most the program counter differs between `pre` and `post`.
pub open spec fn only_pc_changes(pre: State, post: State) -> bool {
    &&& keeps_ram(pre, post)
    &&& keeps_screen(pre, post)
    &&& keeps_regs(pre, post)
    &&& keeps_index(pre, post)
    &&& keeps_stack(pre, post)
    &&& keeps_timers(pre, post)
    &&& keeps_dims(pre, post)
}

/// At most the registers and the program counter differ.
pub open spec fn only_regs_and_pc_change(pre: State, post: State) -> bool {
    &&& keeps_ram(pre, post)
    &&& keeps_screen(pre, post)
    &&& keeps_index(pre, post)
    &&& keeps_stack(pre, post)
    &&& keeps_timers(pre, post)
    &&& keeps_dims(pre, post)
}

/// At most the index register and the program counter differ.
pub open spec fn only_index_and_pc_change(pre: State, post: State) -> bool {
    &&& keeps_ram(pre, post)
    &&& keeps_screen(pre, post)
    &&& keeps_regs(pre, post)
    &&& keeps_stack(pre, post)
    &&& keeps_timers(pre, post)
    &&& keeps_dims(pre, post)
}

/// The instruction set, decoded: each variant carries exactly the fields its
/// handler needs. `Invalid` keeps the whole word for diagnosis.
#[derive(Clone, Copy, Debug, PartialEq, Eq, Structural)]
pub enum Instr {
    /// 00E0: clear the frame buffer.
    ClearScreen,
    /// 00EE: pop the call stack into the program counter.
    Ret,
    /// 1NNN: jump.
    Jump { nnn: u16 },
    /// 2NNN: push the current address, then jump.
    Call { nnn: u16 },
    /// 3XNN: skip the next instruction if register X equals NN.
    SkipEqNn { x: u16, nn: u16 },
    /// 4XNN: skip the next instruction if register X differs from NN.
    SkipNeNn { x: u16, nn: u16 },
    /// 5XY0: skip the next instruction if registers X and Y are equal.
    SkipEqReg { x: u16, y: u16 },
    /// 6XNN: register X becomes NN.
    StoreNn { x: u16, nn: u16 },
    /// 7XNN: register X gains NN, wrapping modulo 256.
    AddNn { x: u16, nn: u16 },
    /// 8XY0: register X becomes register Y.
    CopyReg { x: u16, y: u16 },
    /// 8XY1: bitwise or.
    OrReg { x: u16, y: u16 },
    /// 8XY2: bitwise and.
    AndReg { x: u16, y: u16 },
    /// 8XY3: bitwise exclusive or.
    XorReg { x: u16, y: u16 },
    /// 8XY4: add with carry into register 0xF.
    AddReg { x: u16, y: u16 },
    /// 8XY5: subtract Y from X with borrow flag in register 0xF.
    SubReg { x: u16, y: u16 },
    /// 8XY6: register X becomes register Y shifted right once.
    ShiftRight { x: u16, y: u16 },
    /// 8XY7: register X becomes Y minus X with borrow flag in register 0xF.
    SubFrom { x: u16, y: u16 },
    /// 8XYE: register X becomes register Y shifted left once.
    ShiftLeft { x: u16, y: u16 },
    /// 9XY0: skip the next instruction if registers X and Y differ.
    SkipNeReg { x: u16, y: u16 },
    /// ANNN: the index register becomes NNN.
    StoreIndex { nnn: u16 },
    /// BNNN: jump to NNN offset by register 0xF.
    JumpOffset { nnn: u16 },
    /// CXNN: register X becomes a random byte masked by NN.
    Random { x: u16, nn: u16 },
    /// DXYN: draw an N-row sprite at the position in registers X and Y.
    Draw { x: u16, y: u16, n: u16 },
    /// EX9E: skip if the key numbered by register X is held.
    SkipKeyDown { x: u16 },
    /// EXA1: skip if the key numbered by register X is not held.
    SkipKeyUp { x: u16 },
    /// FX07: register X becomes the delay timer.
    ReadDelay { x: u16 },
    /// FX15: the delay timer becomes register X.
    StoreDelay { x: u16 },
    /// FX18: the sound timer becomes register X.
    StoreSound { x: u16 },
    /// FX1E: the index register gains register X, wrapping modulo 2^16.
    AddIndex { x: u16 },
    /// FX0A: wait for a key press, re-executing until one arrives.
    WaitKey { x: u16 },
    /// FX29: the index register points at the glyph for register X.
    FontChar { x: u16 },
    /// FX33: the three decimal digits of register X go to memory.
    StoreDigits { x: u16 },
    /// FX55: registers 0..=X go to memory at the index register.
    StoreRegs { x: u16 },
    /// FX65: registers 0..=X load from memory at the index register.
    LoadRegs { x: u16 },
    /// Any unmatched opcode/discriminant combination.
    Invalid { word: u16 },
}

/// What a 16-bit instruction word decodes to. The opcode class is the top
/// nibble; classes 0x0, 0x8, 0xE and 0xF discriminate further on the low
/// nibble or byte.
pub open spec fn spec_decode(word: u16) -> Instr {
    let op = word / 4096;
    let x = (word / 256) % 16;
    let y = (word / 16) % 16;
    let n = word % 16;
    let nn = word % 256;
    let nnn = word % 4096;
    if op == 0x0 {
        if n == 0x0 {
            Instr::ClearScreen
        } else if n == 0xE {
            Instr::Ret
        } else {
            Instr::Invalid { word }
        }
    } else if op == 0x1 {
        Instr::Jump { nnn }
    } else if op == 0x2 {
        Instr::Call { nnn }
    } else if op == 0x3 {
        Instr::SkipEqNn { x, nn }
    } else if op == 0x4 {
        Instr::SkipNeNn { x, nn }
    } else if op == 0x5 {
        Instr::SkipEqReg { x, y }
    } else if op == 0x6 {
        Instr::StoreNn { x, nn }
    } else if op == 0x7 {
        Instr::AddNn { x, nn }
    } else if op == 0x8 {
        if n == 0x0 {
            Instr::CopyReg { x, y }
        } else if n == 0x1 {
            Instr::OrReg { x, y }
        } else if n == 0x2 {
            Instr::AndReg { x, y }
        } else if n == 0x3 {
            Instr::XorReg { x, y }
        } else if n == 0x4 {
            Instr::AddReg { x, y }
        } else if n == 0x5 {
            Instr::SubReg { x, y }
        } else if n == 0x6 {
            Instr::ShiftRight { x, y }
        } else if n == 0x7 {
            Instr::SubFrom { x, y }
        } else if n == 0xE {
            Instr::ShiftLeft { x, y }
        } else {
            Instr::Invalid { word }
        }
    } else if op == 0x9 {
        Instr::SkipNeReg { x, y }
    } else if op == 0xA {
        Instr::StoreIndex { nnn }
    } else if op == 0xB {
        Instr::JumpOffset { nnn }
    } else if op == 0xC {
        Instr::Random { x, nn }
    } else if op == 0xD {
        Instr::Draw { x, y, n }
    } else if op == 0xE {
        if nn == 0x9E {
            Instr::SkipKeyDown { x }
        } else if nn == 0xA1 {
            Instr::SkipKeyUp { x }
        } else {
            Instr::Invalid { word }
        }
    } else {
        if nn == 0x07 {
            Instr::ReadDelay { x }
        } else if nn == 0x15 {
            Instr::StoreDelay { x }
        } else if nn == 0x18 {
            Instr::StoreSound { x }
        } else if nn == 0x0A {
            Instr::WaitKey { x }
        } else if nn == 0x29 {
            Instr::FontChar { x }
        } else if nn == 0x33 {
            Instr::StoreDigits { x }
        } else if nn == 0x55 {
            Instr::StoreRegs { x }
        } else if nn == 0x65 {
            Instr::LoadRegs { x }
        } else if nn == 0x1E {
            Instr::AddIndex { x }
        } else {
            Instr::Invalid { word }
        }
    }
}

/// Every field of a decoded instruction is in its nibble/byte/address range.
pub open spec fn instr_wf(i: Instr) -> bool {
    match i {
        Instr::ClearScreen => true,
        Instr::Ret => true,
        Instr::Jump { nnn } => nnn < 4096,
        Instr::Call { nnn } => nnn < 4096,
        Instr::SkipEqNn { x, nn } => x < 16 && nn < 256,
        Instr::SkipNeNn { x, nn } => x < 16 && nn < 256,
        Instr::SkipEqReg { x, y } => x < 16 && y < 16,
        Instr::StoreNn { x, nn } => x < 16 && nn < 256,
        Instr::AddNn { x, nn } => x < 16 && nn < 256,
        Instr::CopyReg { x, y } => x < 16 && y < 16,
        Instr::OrReg { x, y } => x < 16 && y < 16,
        Instr::AndReg { x, y } => x < 16 && y < 16,
        Instr::XorReg { x, y } => x < 16 && y < 16,
        Instr::AddReg { x, y } => x < 16 && y < 16,
        Instr::SubReg { x, y } => x < 16 && y < 16,
        Instr::ShiftRight { x, y } => x < 16 && y < 16,
        Instr::SubFrom { x, y } => x < 16 && y < 16,
        Instr::ShiftLeft { x, y } => x < 16 && y < 16,
        Instr::SkipNeReg { x, y } => x < 16 && y < 16,
        Instr::StoreIndex { nnn } => nnn < 4096,
        Instr::JumpOffset { nnn } => nnn < 4096,
        Instr::Random { x, nn } => x < 16 && nn < 256,
        Instr::Draw { x, y, n } => x < 16 && y < 16 && n < 16,
        Instr::SkipKeyDown { x } => x < 16,
        Instr::SkipKeyUp { x } => x < 16,
        Instr::ReadDelay { x } => x < 16,
        Instr::StoreDelay { x } => x < 16,
        Instr::StoreSound { x } => x < 16,
        Instr::AddIndex { x } => x < 16,
        Instr::WaitKey { x } => x < 16,
        Instr::FontChar { x } => x < 16,
        Instr::StoreDigits { x } => x < 16,
        Instr::StoreRegs { x } => x < 16,
        Instr::LoadRegs { x } => x < 16,
        Instr::Invalid { word } => true,
    }
}

/// Decodes one instruction word.
pub fn decode(word: u16) -> (i: Instr)
    ensures
        i == spec_decode(word),
        instr_wf(i),
{
    let op: u16 = word / 4096;
    let x: u16 = (word / 256) % 16;
    let y: u16 = (word / 16) % 16;
    let n: u16 = word % 16;
    let nn: u16 = word % 256;
    let nnn: u16 = word % 4096;
    match op {
        0x0 => match n {
            0x0 => Instr::ClearScreen,
            0xE => Instr::Ret,
            _ => Instr::Invalid { word },
        },
        0x1 => Instr::Jump { nnn },
        0x2 => Instr::Call { nnn },
        0x3 => Instr::SkipEqNn { x, nn },
        0x4 => Instr::SkipNeNn { x, nn },
        0x5 => Instr::SkipEqReg { x, y },
        0x6 => Instr::StoreNn { x, nn },
        0x7 => Instr::AddNn { x, nn },
        0x8 => match n {
            0x0 => Instr::CopyReg { x, y },
            0x1 => Instr::OrReg { x, y },
            0x2 => Instr::AndReg { x, y },
            0x3 => Instr::XorReg { x, y },
            0x4 => Instr::AddReg { x, y },
            0x5 => Instr::SubReg { x, y },
            0x6 => Instr::ShiftRight { x, y },
            0x7 => Instr::SubFrom { x, y },
            0xE => Instr::ShiftLeft { x, y },
            _ => Instr::Invalid { word },
        },
        0x9 => Instr::SkipNeReg { x, y },
        0xA => Instr::StoreIndex { nnn },
        0xB => Instr::JumpOffset { nnn },
        0xC => Instr::Random { x, nn },
        0xD => Instr::Draw { x, y, n },
        0xE => match nn {
            0x9E => Instr::SkipKeyDown { x },
            0xA1 => Instr::SkipKeyUp { x },
            _ => Instr::Invalid { word },
        },
        _ => match nn {
            0x07 => Instr::ReadDelay { x },
            0x15 => Instr::StoreDelay { x },
            0x18 => Instr::StoreSound { x },
            0x0A => Instr::WaitKey { x },
            0x29 => Instr::FontChar { x },
            0x33 => Instr::StoreDigits { x },
            0x55 => Instr::StoreRegs { x },
            0x65 => Instr::LoadRegs { x },
            0x1E => Instr::AddIndex { x },
            _ => Instr::Invalid { word },
        },
    }
}

/// Advances the program counter past the current two-byte instruction,
/// wrapping modulo 2^16.
pub(crate) fn advance_pc(state: &mut State)
    ensures
        only_pc_changes(*old(state), *final(state)),
        final(state).program_counter == wrap16(old(state).program_counter + 2),
        final(state).wf() == old(state).wf(),
{
    state.program_counter = state.program_counter.wrapping_add(2);
}

/// 00E0 clears the frame buffer; the program counter advances by 2.
pub open spec fn clear_screen_rel(pre: State, post: State) -> bool {
    &&& keeps_ram(pre, post)
    &&& keeps_regs(pre, post)
    &&& keeps_index(pre, post)
    &&& keeps_stack(pre, post)
    &&& keeps_timers(pre, post)
    &&& keeps_dims(pre, post)
    &&& post.screen@.len() == pre.screen@.len()
    &&& forall|p: int| 0 <= p < post.screen@.len() ==> !post.screen@[p]
    &&& post.program_counter == wrap16(pre.program_counter + 2)
}

/// 00E0: every pixel goes dark.
pub fn clear_screen(state: &mut State)
    requires
        old(state).wf(),
    ensures
        final(state).wf(),
        clear_screen_rel(*old(state), *final(state)),
{
    let len = state.screen.len();
    let mut p: usize = 0;
    while p < len
        invariant
            old(state).wf(),
            state.ram@ == old(state).ram@,
            state.v_buffer@ == old(state).v_buffer@,
            state.index == old(state).index,
            state.stack@ == old(state).stack@,
            state.stack_pointer == old(state).stack_pointer,
            state.delay_timer == old(state).delay_timer,
            state.sound_timer == old(state).sound_timer,
            state.screen_width == old(state).screen_width,
            state.screen_height == old(state).screen_height,
            state.program_counter == old(state).program_counter,
            state.screen@.len() == old(state).screen@.len(),
            len == old(state).screen@.len(),
            p <= len,
            forall|q: int| 0 <= q < p ==> !state.screen@[q],
        decreases len - p,
    {
        state.screen.set(p, false);
        p = p + 1;
    }
    advance_pc(state);
}

/// 00EE with a non-empty stack: the program counter returns to two past the
/// saved address and the stack shrinks by one slot; on an empty stack
/// nothing transfers and the counter just advances (the underflow is
/// reported by the caller).
pub open spec fn ret_rel(pre: State, post: State) -> bool {
    &&& keeps_ram(pre, post)
    &&& keeps_screen(pre, post)
    &&& keeps_regs(pre, post)
    &&& keeps_index(pre, post)
    &&& keeps_timers(pre, post)
    &&& keeps_dims(pre, post)
    &&& post.stack@ == pre.stack@
    &&& if pre.stack_pointer > 0 {
        &&& post.stack_pointer == pre.stack_pointer - 1
        &&& post.program_counter == wrap16(pre.stack@[pre.stack_pointer as int] + 2)
    } else {
        &&& post.stack_pointer == pre.stack_pointer
        &&& post.program_counter == wrap16(pre.program_counter + 2)
    }
}

/// 00EE: pop the call stack. Returns whether a saved address was there to
/// pop; `false` means the stack was empty and only the counter advanced.
pub fn ret(state: &mut State) -> (ok: bool)
    requires
        old(state).wf(),
    ensures
        final(state).wf(),
        ret_rel(*old(state), *final(state)),
        ok == (old(state).stack_pointer > 0),
{
    if state.stack_pointer > 0 {
        let target = state.stack[state.stack_pointer as usize];
        state.stack_pointer = state.stack_pointer - 1;
        state.program_counter = target.wrapping_add(2);
        true
    } else {
        advance_pc(state);
        false
    }
}

/// 1NNN: the next instruction is fetched from NNN.
pub open spec fn jump_rel(pre: State, post: State, nnn: u16) -> bool {
    &&& only_pc_changes(pre, post)
    &&& post.program_counter == nnn
}

/// 1NNN: jump.
pub fn jump(state: &mut State, nnn: u16)
    requires
        old(state).wf(),
        nnn < 4096,
    ensures
        final(state).wf(),
        jump_rel(*old(state), *final(state), nnn),
{
    state.program_counter = nnn;
}

/// 2NNN with room on the stack: the calling address is saved in the slot
/// above the old top and the machine jumps to NNN; on a full stack nothing
/// transfers and the counter just advances (the overflow is reported by the
/// caller).
pub open spec fn subroutine_rel(pre: State, post: State, nnn: u16) -> bool {
    &&& keeps_ram(pre, post)
    &&& keeps_screen(pre, post)
    &&& keeps_regs(pre, post)
    &&& keeps_index(pre, post)
    &&& keeps_timers(pre, post)
    &&& keeps_dims(pre, post)
    &&& if pre.stack_pointer < 63 {
        &&& post.stack_pointer == pre.stack_pointer + 1
        &&& post.stack@ == pre.stack@.update(pre.stack_pointer + 1, pre.program_counter)
        &&& post.program_counter == nnn
    } else {
        &&& post.stack_pointer == pre.stack_pointer
        &&& post.stack@ == pre.stack@
        &&& post.program_counter == wrap16(pre.program_counter + 2)
    }
}

/// 2NNN: call a subroutine. Returns whether the stack had room; `false`
/// means it was full and only the counter advanced.
pub fn subroutine(state: &mut State, nnn: u16) -> (ok: bool)
    requires
        old(state).wf(),
        nnn < 4096,
    ensures
        final(state).wf(),
        subroutine_rel(*old(state), *final(state), nnn),
        ok == (old(state).stack_pointer < 63),
{
    if state.stack_pointer < 63 {
        state.stack_pointer = state.stack_pointer + 1;
        let pc = state.program_counter;
        state.stack.set(state.stack_pointer as usize, pc);
        state.program_counter = nnn;
        true
    } else {
        advance_pc(state);
        false
    }
}

/// A conditional skip: the counter advances by 4 when `cond` holds, else by
/// 2, both wrapping modulo 2^16; nothing else changes.
pub open spec fn skip_rel(pre: State, post: State, cond: bool) -> bool {
    &&& only_pc_changes(pre, post)
    &&& post.program_counter == wrap16(pre.program_counter + (if cond { 4int } else { 2int }))
}

/// 3XNN: skip the next instruction if register X equals NN.
pub open spec fn skip_3xnn_rel(pre: State, post: State, x: u16, nn: u16) -> bool {
    skip_rel(pre, post, pre.v_buffer@[x as int] == nn as u8)
}

/// 3XNN.
pub fn skip_3xnn(state: &mut State, x: u16, nn: u16)
    requires
        old(state).wf(),
        x < 16,
        nn < 256,
    ensures
        final(state).wf(),
        skip_3xnn_rel(*old(state), *final(state), x, nn),
{
    let d: u16 = if state.v_buffer[x as usize] == nn as u8 {
        4
    } else {
        2
    };
    state.program_counter = state.program_counter.wrapping_add(d);
}

/// 4XNN: skip the next instruction if register X differs from NN.
pub open spec fn skip_4xnn_rel(pre: State, post: State, x: u16, nn: u16) -> bool {
    skip_rel(pre, post, pre.v_buffer@[x as int] != nn as u8)
}

/// 4XNN.
pub fn skip_4xnn(state: &mut State, x: u16, nn: u16)
    requires
        old(state).wf(),
        x < 16,
        nn < 256,
    ensures
        final(state).wf(),
        skip_4xnn_rel(*old(state), *final(state), x, nn),
{
    let d: u16 = if state.v_buffer[x as usize] != nn as u8 {
        4
    } else {
        2
    };
    state.program_counter = state.program_counter.wrapping_add(d);
}

/// 5XY0: skip the next instruction if registers X and Y are equal.
pub open spec fn skip_5xy0_rel(pre: State, post: State, x: u16, y: u16) -> bool {
    skip_rel(pre, post, pre.v_buffer@[x as int] == pre.v_buffer@[y as int])
}

/// 5XY0.
pub fn skip_5xy0(state: &mut State, x: u16, y: u16)
    requires
        old(state).wf(),
        x < 16,
        y < 16,
    ensures
        final(state).wf(),
        skip_5xy0_rel(*old(state), *final(state), x, y),
{
    let d: u16 = if state.v_buffer[x as usize] == state.v_buffer[y as usize] {
        4
    } else {
        2
    };
    state.program_counter = state.program_counter.wrapping_add(d);
}

/// 9XY0: skip the next instruction if registers X and Y differ.
pub open spec fn skip_9xy0_rel(pre: State, post: State, x: u16, y: u16) -> bool {
    skip_rel(pre, post, pre.v_buffer@[x as int] != pre.v_buffer@[y as int])
}

/// 9XY0.
pub fn skip_9xy0(state: &mut State, x: u16, y: u16)
    requires
        old(state).wf(),
        x < 16,
        y < 16,
    ensures
        final(state).wf(),
        skip_9xy0_rel(*old(state), *final(state), x, y),
{
    let d: u16 = if state.v_buffer[x as usize] != state.v_buffer[y as usize] {
        4
    } else {
        2
    };
    state.program_counter = state.program_counter.wrapping_add(d);
}

/// 6XNN: register X becomes NN; the counter advances by 2.
pub open spec fn set_6xnn_rel(pre: State, post: State, x: u16, nn: u16) -> bool {
    &&& only_regs_and_pc_change(pre, post)
    &&& post.v_buffer@ == pre.v_buffer@.update(x as int, nn as u8)
    &&& post.program_counter == wrap16(pre.program_counter + 2)
}

/// 6XNN.
pub fn set_6xnn(state: &mut State, x: u16, nn: u16)
    requires
        old(state).wf(),
        x < 16,
        nn < 256,
    ensures
        final(state).wf(),
        set_6xnn_rel(*old(state), *final(state), x, nn),
{
    state.v_buffer.set(x as usize, nn as u8);
    advance_pc(state);
}

/// 7XNN: register X gains NN modulo 256; no carry flag is touched.
pub open spec fn add_7xnn_rel(pre: State, post: State, x: u16, nn: u16) -> bool {
    &&& only_regs_and_pc_change(pre, post)
    &&& post.v_buffer@ == pre.v_buffer@.update(
        x as int,
        ((pre.v_buffer@[x as int] + nn) % 256) as u8,
    )
    &&& post.program_counter == wrap16(pre.program_counter + 2)
}

/// 7XNN.
pub fn add_7xnn(state: &mut State, x: u16, nn: u16)
    requires
        old(state).wf(),
        x < 16,
        nn < 256,
    ensures
        final(state).wf(),
        add_7xnn_rel(*old(state), *final(state), x, nn),
{
    let s: u16 = state.v_buffer[x as usize] as u16 + nn;
    state.v_buffer.set(x as usize, (s % 256) as u8);
    advance_pc(state);
}

/// 8XY0: register X becomes register Y.
pub open spec fn set_8xy0_rel(pre: State, post: State, x: u16, y: u16) -> bool {
    &&& only_regs_and_pc_change(pre, post)
    &&& post.v_buffer@ == pre.v_buffer@.update(x as int, pre.v_buffer@[y as int])
    &&& post.program_counter == wrap16(pre.program_counter + 2)
}

/// 8XY0.
pub fn set_8xy0(state: &mut State, x: u16, y: u16)
    requires
        old(state).wf(),
        x < 16,
        y < 16,
    ensures
        final(state).wf(),
        set_8xy0_rel(*old(state), *final(state), x, y),
{
    let v = state.v_buffer[y as usize];
    state.v_buffer.set(x as usize, v);
    advance_pc(state);
}

/// 8XY1: register X becomes the bitwise or of registers X and Y.
pub open spec fn or_8xy1_rel(pre: State, post: State, x: u16, y: u16) -> bool {
    &&& only_regs_and_pc_change(pre, post)
    &&& post.v_buffer@ == pre.v_buffer@.update(
        x as int,
        pre.v_buffer@[x as int] | pre.v_buffer@[y as int],
    )
    &&& post.program_counter == wrap16(pre.program_counter + 2)
}

/// 8XY1.
pub fn or_8xy1(state: &mut State, x: u16, y: u16)
    requires
        old(state).wf(),
        x < 16,
        y < 16,
    ensures
        final(state).wf(),
        or_8xy1_rel(*old(state), *final(state), x, y),
{
    let v = state.v_buffer[x as usize] | state.v_buffer[y as usize];
    state.v_buffer.set(x as usize, v);
    advance_pc(state);
}

/// 8XY2: register X becomes the bitwise and of registers X and Y.
pub open spec fn and_8xy2_rel(pre: State, post: State, x: u16, y: u16) -> bool {
    &&& only_regs_and_pc_change(pre, post)
    &&& post.v_buffer@ == pre.v_buffer@.update(
        x as int,
        pre.v_buffer@[x as int] & pre.v_buffer@[y as int],
    )
    &&& post.program_counter == wrap16(pre.program_counter + 2)
}

/// 8XY2.
pub fn and_8xy2(state: &mut State, x: u16, y: u16)
    requires
        old(state).wf(),
        x < 16,
        y < 16,
    ensures
        final(state).wf(),
        and_8xy2_rel(*old(state), *final(state), x, y),
{
    let v = state.v_buffer[x as usize] & state.v_buffer[y as usize];
    state.v_buffer.set(x as usize, v);
    advance_pc(state);
}

/// 8XY3: register X becomes the bitwise exclusive or of registers X and Y.
pub open spec fn xor_8xy3_rel(pre: State, post: State, x: u16, y: u16) -> bool {
    &&& only_regs_and_pc_change(pre, post)
    &&& post.v_buffer@ == pre.v_buffer@.update(
        x as int,
        pre.v_buffer@[x as int] ^ pre.v_buffer@[y as int],
    )
    &&& post.program_counter == wrap16(pre.program_counter + 2)
}

/// 8XY3.
pub fn xor_8xy3(state: &mut State, x: u16, y: u16)
    requires
        old(state).wf(),
        x < 16,
        y < 16,
    ensures
        final(state).wf(),
        xor_8xy3_rel(*old(state), *final(state), x, y),
{
    let v = state.v_buffer[x as usize] ^ state.v_buffer[y as usize];
    state.v_buffer.set(x as usize, v);
    advance_pc(state);
}

/// 8XY4: register X becomes X plus Y modulo 256, computed from the values
/// before the instruction, and register 0xF then becomes 1 exactly when the
/// unsigned sum exceeded 255.
pub open spec fn add_8xy4_rel(pre: State, post: State, x: u16, y: u16) -> bool {
    let vx = pre.v_buffer@[x as int];
    let vy = pre.v_buffer@[y as int];
    &&& only_regs_and_pc_change(pre, post)
    &&& post.v_buffer@ == pre.v_buffer@.update(x as int, ((vx + vy) % 256) as u8).update(
        15,
        if vx + vy > 255 {
            1u8
        } else {
            0u8
        },
    )
    &&& post.program_counter == wrap16(pre.program_counter + 2)
}

/// 8XY4.
pub fn add_8xy4(state: &mut State, x: u16, y: u16)
    requires
        old(state).wf(),
        x < 16,
        y < 16,
    ensures
        final(state).wf(),
        add_8xy4_rel(*old(state), *final(state), x, y),
{
    let s: u16 = state.v_buffer[x as usize] as u16 + state.v_buffer[y as usize] as u16;
    state.v_buffer.set(x as usize, (s % 256) as u8);
    state.v_buffer.set(15, if s > 255 { 1u8 } else { 0u8 });
    advance_pc(state);
}

/// 8XY5: register X becomes X minus Y modulo 256, from the values before
/// the instruction, and register 0xF then becomes 1 exactly when X was
/// strictly greater than Y (no borrow).
pub open spec fn sub_8xy5_rel(pre: State, post: State, x: u16, y: u16) -> bool {
    let vx = pre.v_buffer@[x as int];
    let vy = pre.v_buffer@[y as int];
    &&& only_regs_and_pc_change(pre, post)
    &&& post.v_buffer@ == pre.v_buffer@.update(x as int, ((vx - vy + 256) % 256) as u8).update(
        15,
        if vx > vy {
            1u8
        } else {
            0u8
        },
    )
    &&& post.program_counter == wrap16(pre.program_counter + 2)
}

/// 8XY5.
pub fn sub_8xy5(state: &mut State, x: u16, y: u16)
    requires
        old(state).wf(),
        x < 16,
        y < 16,
    ensures
        final(state).wf(),
        sub_8xy5_rel(*old(state), *final(state), x, y),
{
    let vx = state.v_buffer[x as usize];
    let vy = state.v_buffer[y as usize];
    let d: u16 = (vx as u16 + 256) - vy as u16;
    state.v_buffer.set(x as usize, (d % 256) as u8);
    state.v_buffer.set(15, if vx > vy { 1u8 } else { 0u8 });
    advance_pc(state);
}

/// 8XY6: register X becomes register Y shifted right once, and register 0xF
/// then becomes the bit shifted out: bit 0 of the pre-shift value.
pub open spec fn shift_8xy6_rel(pre: State, post: State, x: u16, y: u16) -> bool {
    let vy = pre.v_buffer@[y as int];
    &&& only_regs_and_pc_change(pre, post)
    &&& post.v_buffer@ == pre.v_buffer@.update(x as int, (vy / 2) as u8).update(
        15,
        (vy % 2) as u8,
    )
    &&& post.program_counter == wrap16(pre.program_counter + 2)
}

/// 8XY6.
pub fn shift_8xy6(state: &mut State, x: u16, y: u16)
    requires
        old(state).wf(),
        x < 16,
        y < 16,
    ensures
        final(state).wf(),
        shift_8xy6_rel(*old(state), *final(state), x, y),
{
    let vy = state.v_buffer[y as usize];
    state.v_buffer.set(x as usize, vy / 2);
    state.v_buffer.set(15, vy % 2);
    advance_pc(state);
}

/// 8XY7: register X becomes Y minus X modulo 256, from the values before
/// the instruction, and register 0xF then becomes 1 exactly when X was
/// strictly less than Y (no borrow).
pub open spec fn sub_8xy7_rel(pre: State, post: State, x: u16, y: u16) -> bool {
    let vx = pre.v_buffer@[x as int];
    let vy = pre.v_buffer@[y as int];
    &&& only_regs_and_pc_change(pre, post)
    &&& post.v_buffer@ == pre.v_buffer@.update(x as int, ((vy - vx + 256) % 256) as u8).update(
        15,
        if vx < vy {
            1u8
        } else {
            0u8
        },
    )
    &&& post.program_counter == wrap16(pre.program_counter + 2)
}

/// 8XY7.
pub fn sub_8xy7(state: &mut State, x: u16, y: u16)
    requires
        old(state).wf(),
        x < 16,
        y < 16,
    ensures
        final(state).wf(),
        sub_8xy7_rel(*old(state), *final(state), x, y),
{
    let vx = state.v_buffer[x as usize];
    let vy = state.v_buffer[y as usize];
    let d: u16 = (vy as u16 + 256) - vx as u16;
    state.v_buffer.set(x as usize, (d % 256) as u8);
    state.v_buffer.set(15, if vx < vy { 1u8 } else { 0u8 });
    advance_pc(state);
}

/// 8XYE: register X becomes register Y shifted left once modulo 256, and
/// register 0xF then becomes the bit shifted out: bit 7 of the pre-shift
/// value.
pub open spec fn shift_8xye_rel(pre: State, post: State, x: u16, y: u16) -> bool {
    let vy = pre.v_buffer@[y as int];
    &&& only_regs_and_pc_change(pre, post)
    &&& post.v_buffer@ == pre.v_buffer@.update(x as int, ((vy * 2) % 256) as u8).update(
        15,
        (vy / 128) as u8,
    )
    &&& post.program_counter == wrap16(pre.program_counter + 2)
}

/// 8XYE.
pub fn shift_8xye(state: &mut State, x: u16, y: u16)
    requires
        old(state).wf(),
        x < 16,
        y < 16,
    ensures
        final(state).wf(),
        shift_8xye_rel(*old(state), *final(state), x, y),
{
    let vy = state.v_buffer[y as usize];
    let t: u16 = vy as u16 * 2;
    state.v_buffer.set(x as usize, (t % 256) as u8);
    state.v_buffer.set(15, vy / 128);
    advance_pc(state);
}

/// ANNN: the index register becomes NNN.
pub open spec fn set_index_annn_rel(pre: State, post: State, nnn: u16) -> bool {
    &&& only_index_and_pc_change(pre, post)
    &&& post.index == nnn
    &&& post.program_counter == wrap16(pre.program_counter + 2)
}

/// ANNN.
pub fn set_index_annn(state: &mut State, nnn: u16)
    requires
        old(state).wf(),
        nnn < 4096,
    ensures
        final(state).wf(),
        set_index_annn_rel(*old(state), *final(state), nnn),
{
    state.index = nnn;
    advance_pc(state);
}

/// BNNN: the machine jumps to NNN offset by register 0xF, landing two past
/// that sum, as the fetch-advance sequence leaves it. This machine reads the
/// offset from register 0xF, a deliberate quirk of this instruction set.
pub open spec fn jump_bnnn_rel(pre: State, post: State, nnn: u16) -> bool {
    &&& only_pc_changes(pre, post)
    &&& post.program_counter == pre.v_buffer@[15] + nnn + 2
}

/// BNNN.
pub fn jump_bnnn(state: &mut State, nnn: u16)
    requires
        old(state).wf(),
        nnn < 4096,
    ensures
        final(state).wf(),
        jump_bnnn_rel(*old(state), *final(state), nnn),
{
    state.program_counter = state.v_buffer[15] as u16 + nnn + 2;
}

/// CXNN with a given byte `b`: register X becomes `b` masked by NN.
pub open spec fn rand_cxnn_rel(pre: State, post: State, x: u16, nn: u16, b: u8) -> bool {
    &&& only_regs_and_pc_change(pre, post)
    &&& post.v_buffer@ == pre.v_buffer@.update(x as int, b & (nn as u8))
    &&& post.program_counter == wrap16(pre.program_counter + 2)
}

/// Relies on rand::random: draws one value of the standard distribution;
/// nothing is promised about which value comes back.
pub assume_specification<T>[ rand::random::<T> ]() -> (r: T)
    where
        rand::distributions::Standard: rand::distributions::Distribution<T>,
;

/// CXNN with the random byte handed in: the deterministic rest of the
/// instruction, verified for every byte the source may supply.
pub fn rand_cxnn_with(state: &mut State, x: u16, nn: u16, b: u8)
    requires
        old(state).wf(),
        x < 16,
        nn < 256,
    ensures
        final(state).wf(),
        rand_cxnn_rel(*old(state), *final(state), x, nn, b),
{
    state.v_buffer.set(x as usize, b & (nn as u8));
    advance_pc(state);
}

/// CXNN: register X becomes a fresh random byte masked by NN. Which byte
/// was drawn is not observable in the contract; every draw satisfies it.
pub fn rand_cxnn(state: &mut State, x: u16, nn: u16)
    requires
        old(state).wf(),
        x < 16,
        nn < 256,
    ensures
        final(state).wf(),
        exists|b: u8| rand_cxnn_rel(*old(state), *final(state), x, nn, b),
{
    let b: u8 = rand::random::<u8>();
    rand_cxnn_with(state, x, nn, b);
}

/// Whether the key numbered `key` is held; values outside the 16 logical
/// keys name no key and are never held.
pub open spec fn key_held(inp: InputState, key: u8) -> bool {
    key < 16 && inp.keys@[key as int]
}

/// EX9E: skip the next instruction when the key numbered by register X is
/// held.
pub open spec fn skip_key_ex9e_rel(pre: State, post: State, inp: InputState, x: u16) -> bool {
    skip_rel(pre, post, key_held(inp, pre.v_buffer@[x as int]))
}

/// EX9E.
pub fn skip_key_ex9e(state: &mut State, input: &InputState, x: u16)
    requires
        old(state).wf(),
        input.wf(),
        x < 16,
    ensures
        final(state).wf(),
        skip_key_ex9e_rel(*old(state), *final(state), *input, x),
{
    let key = state.v_buffer[x as usize];
    let held = (key as usize) < REG_COUNT && input.keys[key as usize];
    let d: u16 = if held {
        4
    } else {
        2
    };
    state.program_counter = state.program_counter.wrapping_add(d);
}

/// EXA1: skip the next instruction when the key numbered by register X is
/// not held.
pub open spec fn skip_key_exa1_rel(pre: State, post: State, inp: InputState, x: u16) -> bool {
    skip_rel(pre, post, !key_held(inp, pre.v_buffer@[x as int]))
}

/// EXA1.
pub fn skip_key_exa1(state: &mut State, input: &InputState, x: u16)
    requires
        old(state).wf(),
        input.wf(),
        x < 16,
    ensures
        final(state).wf(),
        skip_key_exa1_rel(*old(state), *final(state), *input, x),
{
    let key = state.v_buffer[x as usize];
    let held = (key as usize) < REG_COUNT && input.keys[key as usize];
    let d: u16 = if held {
        2
    } else {
        4
    };
    state.program_counter = state.program_counter.wrapping_add(d);
}

/// FX07: register X becomes the delay timer.
pub open spec fn timer_fx07_rel(pre: State, post: State, x: u16) -> bool {
    &&& only_regs_and_pc_change(pre, post)
    &&& post.v_buffer@ == pre.v_buffer@.update(x as int, pre.delay_timer)
    &&& post.program_counter == wrap16(pre.program_counter + 2)
}

/// FX07.
pub fn timer_fx07(state: &mut State, x: u16)
    requires
        old(state).wf(),
        x < 16,
    ensures
        final(state).wf(),
        timer_fx07_rel(*old(state), *final(state), x),
{
    let t = state.delay_timer;
    state.v_buffer.set(x as usize, t);
    advance_pc(state);
}

/// FX15: the delay timer becomes register X.
pub open spec fn timer_fx15_rel(pre: State, post: State, x: u16) -> bool {
    &&& keeps_ram(pre, post)
    &&& keeps_screen(pre, post)
    &&& keeps_regs(pre, post)
    &&& keeps_index(pre, post)
    &&& keeps_stack(pre, post)
    &&& keeps_dims(pre, post)
    &&& post.delay_timer == pre.v_buffer@[x as int]
    &&& post.sound_timer == pre.sound_timer
    &&& post.program_counter == wrap16(pre.program_counter + 2)
}

/// FX15.
pub fn timer_fx15(state: &mut State, x: u16)
    requires
        old(state).wf(),
        x < 16,
    ensures
        final(state).wf(),
        timer_fx15_rel(*old(state), *final(state), x),
{
    state.delay_timer = state.v_buffer[x as usize];
    advance_pc(state);
}

/// FX18: the sound timer becomes register X.
pub open spec fn timer_fx18_rel(pre: State, post: State, x: u16) -> bool {
    &&& keeps_ram(pre, post)
    &&& keeps_screen(pre, post)
    &&& keeps_regs(pre, post)
    &&& keeps_index(pre, post)
    &&& keeps_stack(pre, post)
    &&& keeps_dims(pre, post)
    &&& post.sound_timer == pre.v_buffer@[x as int]
    &&& post.delay_timer == pre.delay_timer
    &&& post.program_counter == wrap16(pre.program_counter + 2)
}

/// FX18.
pub fn timer_fx18(state: &mut State, x: u16)
    requires
        old(state).wf(),
        x < 16,
    ensures
        final(state).wf(),
        timer_fx18_rel(*old(state), *final(state), x),
{
    state.sound_timer = state.v_buffer[x as usize];
    advance_pc(state);
}

/// FX1E: the index register gains register X, wrapping modulo 2^16.
pub open spec fn add_ind_fx1e_rel(pre: State, post: State, x: u16) -> bool {
    &&& only_index_and_pc_change(pre, post)
    &&& post.index == wrap16(pre.index + pre.v_buffer@[x as int])
    &&& post.program_counter == wrap16(pre.program_counter + 2)
}

/// FX1E.
pub fn add_ind_fx1e(state: &mut State, x: u16)
    requires
        old(state).wf(),
        x < 16,
    ensures
        final(state).wf(),
        add_ind_fx1e_rel(*old(state), *final(state), x),
{
    let v = state.v_buffer[x as usize];
    state.index = state.index.wrapping_add(v as u16);
    advance_pc(state);
}

/// FX0A with no key held: the machine stands still, re-executing this
/// instruction next cycle. With a key held, the first key-press event (if
/// any arrived) lands in register X and the counter advances.
pub open spec fn get_key_fx0a_rel(pre: State, post: State, x: u16, inp: InputState) -> bool {
    if !any_key_down(inp) {
        post == pre
    } else {
        &&& only_regs_and_pc_change(pre, post)
        &&& post.v_buffer@ == (match inp.key_event {
            Some(k) => pre.v_buffer@.update(x as int, k),
            None => pre.v_buffer@,
        })
        &&& post.program_counter == wrap16(pre.program_counter + 2)
    }
}

/// FX0A: wait for a key press as a cooperative poll: the caller's loop keeps
/// the machine on this instruction until its input reports a key.
pub fn get_key_fx0a(state: &mut State, x: u16, input: &InputState)
    requires
        old(state).wf(),
        input.wf(),
        x < 16,
    ensures
        final(state).wf(),
        get_key_fx0a_rel(*old(state), *final(state), x, *input),
{
    let mut held = false;
    let mut k: usize = 0;
    while k < REG_COUNT
        invariant
            input.wf(),
            k <= REG_COUNT,
            held == exists|j: int| 0 <= j < k && input.keys@[j],
        decreases REG_COUNT - k,
    {
        if input.keys[k] {
            held = true;
        }
        k = k + 1;
    }
    if held {
        match input.key_event {
            Some(key) => {
                state.v_buffer.set(x as usize, key);
            },
            None => {},
        }
        advance_pc(state);
    }
}

/// FX29: the index register points at the 5-byte font glyph for the value
/// of register X.
pub open spec fn get_char_fx29_rel(pre: State, post: State, x: u16) -> bool {
    &&& only_index_and_pc_change(pre, post)
    &&& post.index == pre.v_buffer@[x as int] * 5
    &&& post.program_counter == wrap16(pre.program_counter + 2)
}

/// FX29.
pub fn get_char_fx29(state: &mut State, x: u16)
    requires
        old(state).wf(),
        x < 16,
    ensures
        final(state).wf(),
        get_char_fx29_rel(*old(state), *final(state), x),
{
    let font_char = state.v_buffer[x as usize];
    state.index = font_char as u16 * 5;
    advance_pc(state);
}

/// The hundreds digit of `v`.
pub open spec fn digit_hundreds(v: u8) -> u8 {
    ((v / 100) % 10) as u8
}

/// The tens digit of `v`.
pub open spec fn digit_tens(v: u8) -> u8 {
    ((v / 10) % 10) as u8
}

/// The ones digit of `v`.
pub open spec fn digit_ones(v: u8) -> u8 {
    (v % 10) as u8
}

/// FX33: the three decimal digits of register X go to memory at the index
/// register, hundreds first, addresses wrapping modulo 4096.
pub open spec fn bcd_fx33_rel(pre: State, post: State, x: u16) -> bool {
    let v = pre.v_buffer@[x as int];
    &&& keeps_screen(pre, post)
    &&& keeps_regs(pre, post)
    &&& keeps_index(pre, post)
    &&& keeps_stack(pre, post)
    &&& keeps_timers(pre, post)
    &&& keeps_dims(pre, post)
    &&& post.ram@ == pre.ram@.update(mem_addr(pre.index, 0), digit_hundreds(v)).update(
        mem_addr(pre.index, 1),
        digit_tens(v),
    ).update(mem_addr(pre.index, 2), digit_ones(v))
    &&& post.program_counter == wrap16(pre.program_counter + 2)
}

/// FX33.
pub fn bcd_fx33(state: &mut State, x: u16)
    requires
        old(state).wf(),
        x < 16,
    ensures
        final(state).wf(),
        bcd_fx33_rel(*old(state), *final(state), x),
{
    let v = state.v_buffer[x as usize];
    let hundreds = (v / 100) % 10;
    let tens = (v / 10) % 10;
    let ones = v % 10;
    let base = state.index as usize;
    state.ram.set(base % RAM_LEN, hundreds);
    state.ram.set((base + 1) % RAM_LEN, tens);
    state.ram.set((base + 2) % RAM_LEN, ones);
    advance_pc(state);
}

/// Memory after registers 0 up to (but not including) `k` have been stored
/// starting at `idx`, each address wrapping modulo 4096.
pub open spec fn ram_after_store(ram: Seq<u8>, regs: Seq<u8>, idx: u16, k: int) -> Seq<u8>
    decreases k,
{
    if k <= 0 {
        ram
    } else {
        ram_after_store(ram, regs, idx, k - 1).update(mem_addr(idx, k - 1), regs[k - 1])
    }
}

/// Storing any number of registers keeps the length of memory, since every
/// written address wraps into the 4096-byte space.
pub proof fn lemma_ram_after_store_len(ram: Seq<u8>, regs: Seq<u8>, idx: u16, k: int)
    requires
        ram.len() == RAM_LEN,
    ensures
        ram_after_store(ram, regs, idx, k).len() == ram.len(),
    decreases k,
{
    if k > 0 {
        lemma_ram_after_store_len(ram, regs, idx, k - 1);
    }
}

/// FX55: registers 0..=X go to memory starting at the index register, which
/// then moves past them.
pub open spec fn store_load_fx55_rel(pre: State, post: State, x: u16) -> bool {
    &&& keeps_screen(pre, post)
    &&& keeps_regs(pre, post)
    &&& keeps_stack(pre, post)
    &&& keeps_timers(pre, post)
    &&& keeps_dims(pre, post)
    &&& post.ram@ == ram_after_store(pre.ram@, pre.v_buffer@, pre.index, x + 1)
    &&& post.index == wrap16(pre.index + x + 1)
    &&& post.program_counter == wrap16(pre.program_counter + 2)
}

/// FX55.
pub fn store_load_fx55(state: &mut State, x: u16)
    requires
        old(state).wf(),
        x < 16,
    ensures
        final(state).wf(),
        store_load_fx55_rel(*old(state), *final(state), x),
{
    let mut i: usize = 0;
    while i < x as usize + 1
        invariant
            old(state).wf(),
            x < 16,
            i <= x + 1,
            state.v_buffer@ == old(state).v_buffer@,
            state.screen@ == old(state).screen@,
            state.index == old(state).index,
            state.stack@ == old(state).stack@,
            state.stack_pointer == old(state).stack_pointer,
            state.delay_timer == old(state).delay_timer,
            state.sound_timer == old(state).sound_timer,
            state.screen_width == old(state).screen_width,
            state.screen_height == old(state).screen_height,
            state.program_counter == old(state).program_counter,
            state.ram@.len() == old(state).ram@.len(),
            state.ram@ == ram_after_store(
                old(state).ram@,
                old(state).v_buffer@,
                old(state).index,
                i as int,
            ),
        decreases x + 1 - i,
    {
        let a = (state.index as usize + i) % RAM_LEN;
        let b = state.v_buffer[i];
        state.ram.set(a, b);
        proof {
            lemma_ram_after_store_len(
                old(state).ram@,
                old(state).v_buffer@,
                old(state).index,
                i as int,
            );
        }
        i = i + 1;
    }
    proof {
        lemma_ram_after_store_len(
            old(state).ram@,
            old(state).v_buffer@,
            old(state).index,
            x + 1,
        );
    }
    state.index = state.index.wrapping_add(x + 1);
    advance_pc(state);
}

/// Registers after slots 0 up to (but not including) `k` have been loaded
/// from memory starting at `idx`, each address wrapping modulo 4096.
pub open spec fn regs_after_load(regs: Seq<u8>, ram: Seq<u8>, idx: u16, k: int) -> Seq<u8>
    decreases k,
{
    if k <= 0 {
        regs
    } else {
        regs_after_load(regs, ram, idx, k - 1).update(k - 1, ram[mem_addr(idx, k - 1)])
    }
}

/// Loading registers 0 up to `k` keeps the length of the register file, as
/// long as every loaded slot is a real register.
pub proof fn lemma_regs_after_load_len(regs: Seq<u8>, ram: Seq<u8>, idx: u16, k: int)
    requires
        regs.len() == REG_COUNT,
        k <= REG_COUNT,
    ensures
        regs_after_load(regs, ram, idx, k).len() == regs.len(),
    decreases k,
{
    if k > 0 {
        lemma_regs_after_load_len(regs, ram, idx, k - 1);
    }
}

/// FX65: registers 0..=X load from memory starting at the index register,
/// which then moves past them; registers above X keep their values.
pub open spec fn store_load_fx65_rel(pre: State, post: State, x: u16) -> bool {
    &&& keeps_ram(pre, post)
    &&& keeps_screen(pre, post)
    &&& keeps_stack(pre, post)
    &&& keeps_timers(pre, post)
    &&& keeps_dims(pre, post)
    &&& post.v_buffer@ == regs_after_load(pre.v_buffer@, pre.ram@, pre.index, x + 1)
    &&& post.index == wrap16(pre.index + x + 1)
    &&& post.program_counter == wrap16(pre.program_counter + 2)
}

/// FX65.
pub fn store_load_fx65(state: &mut State, x: u16)
    requires
        old(state).wf(),
        x < 16,
    ensures
        final(state).wf(),
        store_load_fx65_rel(*old(state), *final(state), x),
{
    let mut i: usize = 0;
    while i < x as usize + 1
        invariant
            old(state).wf(),
            x < 16,
            i <= x + 1,
            state.ram@ == old(state).ram@,
            state.screen@ == old(state).screen@,
            state.index == old(state).index,
            state.stack@ == old(state).stack@,
            state.stack_pointer == old(state).stack_pointer,
            state.delay_timer == old(state).delay_timer,
            state.sound_timer == old(state).sound_timer,
            state.screen_width == old(state).screen_width,
            state.screen_height == old(state).screen_height,
            state.program_counter == old(state).program_counter,
            state.v_buffer@.len() == old(state).v_buffer@.len(),
            state.v_buffer@ == regs_after_load(
                old(state).v_buffer@,
                old(state).ram@,
                old(state).index,
                i as int,
            ),
        decreases x + 1 - i,
    {
        let a = (state.index as usize + i) % RAM_LEN;
        let b = state.ram[a];
        state.v_buffer.set(i, b);
        proof {
            lemma_regs_after_load_len(
                old(state).v_buffer@,
                old(state).ram@,
                old(state).index,
                i as int,
            );
        }
        i = i + 1;
    }
    proof {
        lemma_regs_after_load_len(
            old(state).v_buffer@,
            old(state).ram@,
            old(state).index,
            x + 1,
        );
    }
    state.index = state.index.wrapping_add(x + 1);
    advance_pc(state);
}

/// What can go wrong while executing one instruction. None of these aborts
/// the machine; each is reported beside a defined state change.
#[derive(Clone, Copy, Debug, PartialEq, Eq, Structural)]
pub enum Fault {
    /// The fetched word matches no instruction; the machine only advanced
    /// past it.
    InvalidOpcode { word: u16 },
    /// A call arrived with the stack full; the machine only advanced.
    StackOverflow,
    /// A return arrived with the stack empty; the machine only advanced.
    StackUnderflow,
}

/// What one cycle reports back to the caller.
#[derive(Clone, Copy, Debug, PartialEq, Eq)]
pub struct OpReport {
    /// True exactly when the instruction was the sprite draw, so the caller
    /// knows to redraw.
    pub draw: bool,
    /// The diagnostic for this cycle, if any.
    pub fault: Option<Fault>,
}

/// The 16-bit word fetched at the program counter: the byte there is the
/// high byte, its successor the low byte, both addresses wrapping into the
/// 4096-byte space.
pub open spec fn fetch_word(s: State) -> u16 {
    (s.ram@[(s.program_counter as int) % 4096] * 256 + s.ram@[(s.program_counter as int + 1)
        % 4096]) as u16
}

/// A report with no fault and the given draw signal.
pub open spec fn report_ok(r: OpReport, draw: bool) -> bool {
    r.draw == draw && r.fault is None
}

/// One full cycle: what `post` and the report `r` must be, given the
/// machine `pre` and the input snapshot `inp`, for every instruction. The
/// random instruction is pinned only up to the byte the source supplied.
pub open spec fn step_rel(pre: State, post: State, inp: InputState, r: OpReport) -> bool {
    let word = fetch_word(pre);
    match spec_decode(word) {
        Instr::ClearScreen => clear_screen_rel(pre, post) && report_ok(r, false),
        Instr::Ret => ret_rel(pre, post) && r.draw == false && r.fault == (if pre.stack_pointer
            > 0 {
            Option::<Fault>::None
        } else {
            Some(Fault::StackUnderflow)
        }),
        Instr::Jump { nnn } => jump_rel(pre, post, nnn) && report_ok(r, false),
        Instr::Call { nnn } => subroutine_rel(pre, post, nnn) && r.draw == false && r.fault == (
        if pre.stack_pointer < 63 {
            Option::<Fault>::None
        } else {
            Some(Fault::StackOverflow)
        }),
        Instr::SkipEqNn { x, nn } => skip_3xnn_rel(pre, post, x, nn) && report_ok(r, false),
        Instr::SkipNeNn { x, nn } => skip_4xnn_rel(pre, post, x, nn) && report_ok(r, false),
        Instr::SkipEqReg { x, y } => skip_5xy0_rel(pre, post, x, y) && report_ok(r, false),
        Instr::StoreNn { x, nn } => set_6xnn_rel(pre, post, x, nn) && report_ok(r, false),
        Instr::AddNn { x, nn } => add_7xnn_rel(pre, post, x, nn) && report_ok(r, false),
        Instr::CopyReg { x, y } => set_8xy0_rel(pre, post, x, y) && report_ok(r, false),
        Instr::OrReg { x, y } => or_8xy1_rel(pre, post, x, y) && report_ok(r, false),
        Instr::AndReg { x, y } => and_8xy2_rel(pre, post, x, y) && report_ok(r, false),
        Instr::XorReg { x, y } => xor_8xy3_rel(pre, post, x, y) && report_ok(r, false),
        Instr::AddReg { x, y } => add_8xy4_rel(pre, post, x, y) && report_ok(r, false),
        Instr::SubReg { x, y } => sub_8xy5_rel(pre, post, x, y) && report_ok(r, false),
        Instr::ShiftRight { x, y } => shift_8xy6_rel(pre, post, x, y) && report_ok(r, false),
        Instr::SubFrom { x, y } => sub_8xy7_rel(pre, post, x, y) && report_ok(r, false),
        Instr::ShiftLeft { x, y } => shift_8xye_rel(pre, post, x, y) && report_ok(r, false),
        Instr::SkipNeReg { x, y } => skip_9xy0_rel(pre, post, x, y) && report_ok(r, false),
        Instr::StoreIndex { nnn } => set_index_annn_rel(pre, post, nnn) && report_ok(r, false),
        Instr::JumpOffset { nnn } => jump_bnnn_rel(pre, post, nnn) && report_ok(r, false),
        Instr::Random { x, nn } => (exists|b: u8| rand_cxnn_rel(pre, post, x, nn, b))
            && report_ok(r, false),
        Instr::Draw { x, y, n } => crate::draw::draw_dxyn_rel(pre, post, x, y, n) && report_ok(
            r,
            true,
        ),
        Instr::SkipKeyDown { x } => skip_key_ex9e_rel(pre, post, inp, x) && report_ok(r, false),
        Instr::SkipKeyUp { x } => skip_key_exa1_rel(pre, post, inp, x) && report_ok(r, false),
        Instr::ReadDelay { x } => timer_fx07_rel(pre, post, x) && report_ok(r, false),
        Instr::StoreDelay { x } => timer_fx15_rel(pre, post, x) && report_ok(r, false),
        Instr::StoreSound { x } => timer_fx18_rel(pre, post, x) && report_ok(r, false),
        Instr::AddIndex { x } => add_ind_fx1e_rel(pre, post, x) && report_ok(r, false),
        Instr::WaitKey { x } => get_key_fx0a_rel(pre, post, x, inp) && report_ok(r, false),
        Instr::FontChar { x } => get_char_fx29_rel(pre, post, x) && report_ok(r, false),
        Instr::StoreDigits { x } => bcd_fx33_rel(pre, post, x) && report_ok(r, false),
        Instr::StoreRegs { x } => store_load_fx55_rel(pre, post, x) && report_ok(r, false),
        Instr::LoadRegs { x } => store_load_fx65_rel(pre, post, x) && report_ok(r, false),
        Instr::Invalid { word } => only_pc_changes(pre, post) && post.program_counter == wrap16(
            pre.program_counter + 2,
        ) && r.draw == false && r.fault == Some(Fault::InvalidOpcode { word }),
    }
}

/// Fetches, decodes and executes exactly one instruction: the sole entry
/// point of the engine, called once per emulated cycle. The input snapshot
/// is the caller's view of the 16-key device for this cycle; timers are
/// never decremented here. The report says whether the frame buffer may
/// have changed and carries any diagnostic.
pub fn operate(state: &mut State, input: &InputState) -> (r: OpReport)
    requires
        old(state).wf(),
        input.wf(),
    ensures
        final(state).wf(),
        step_rel(*old(state), *final(state), *input, r),
{
    let pc = state.program_counter as usize;
    let first_byte: u8 = state.ram[pc % RAM_LEN];
    let last_byte: u8 = state.ram[(pc + 1) % RAM_LEN];
    let word: u16 = first_byte as u16 * 256 + last_byte as u16;
    proof {
        assert(word == fetch_word(*old(state)));
    }
    let instr = decode(word);
    match instr {
        Instr::ClearScreen => {
            clear_screen(state);
            OpReport { draw: false, fault: None }
        },
        Instr::Ret => {
            let ok = ret(state);
            OpReport {
                draw: false,
                fault: if ok {
                    None
                } else {
                    Some(Fault::StackUnderflow)
                },
            }
        },
        Instr::Jump { nnn } => {
            jump(state, nnn);
            OpReport { draw: false, fault: None }
        },
        Instr::Call { nnn } => {
            let ok = subroutine(state, nnn);
            OpReport {
                draw: false,
                fault: if ok {
                    None
                } else {
                    Some(Fault::StackOverflow)
                },
            }
        },
        Instr::SkipEqNn { x, nn } => {
            skip_3xnn(state, x, nn);
            OpReport { draw: false, fault: None }
        },
        Instr::SkipNeNn { x, nn } => {
            skip_4xnn(state, x, nn);
            OpReport { draw: false, fault: None }
        },
        Instr::SkipEqReg { x, y } => {
            skip_5xy0(state, x, y);
            OpReport { draw: false, fault: None }
        },
        Instr::StoreNn { x, nn } => {
            set_6xnn(state, x, nn);
            OpReport { draw: false, fault: None }
        },
        Instr::AddNn { x, nn } => {
            add_7xnn(state, x, nn);
            OpReport { draw: false, fault: None }
        },
        Instr::CopyReg { x, y } => {
            set_8xy0(state, x, y);
            OpReport { draw: false, fault: None }
        },
        Instr::OrReg { x, y } => {
            or_8xy1(state, x, y);
            OpReport { draw: false, fault: None }
        },
        Instr::AndReg { x, y } => {
            and_8xy2(state, x, y);
            OpReport { draw: false, fault: None }
        },
        Instr::XorReg { x, y } => {
            xor_8xy3(state, x, y);
            OpReport { draw: false, fault: None }
        },
        Instr::AddReg { x, y } => {
            add_8xy4(state, x, y);
            OpReport { draw: false, fault: None }
        },
        Instr::SubReg { x, y } => {
            sub_8xy5(state, x, y);
            OpReport { draw: false, fault: None }
        },
        Instr::ShiftRight { x, y } => {
            shift_8xy6(state, x, y);
            OpReport { draw: false, fault: None }
        },
        Instr::SubFrom { x, y } => {
            sub_8xy7(state, x, y);
            OpReport { draw: false, fault: None }
        },
        Instr::ShiftLeft { x, y } => {
            shift_8xye(state, x, y);
            OpReport { draw: false, fault: None }
        },
        Instr::SkipNeReg { x, y } => {
            skip_9xy0(state, x, y);
            OpReport { draw: false, fault: None }
        },
        Instr::StoreIndex { nnn } => {
            set_index_annn(state, nnn);
            OpReport { draw: false, fault: None }
        },
        Instr::JumpOffset { nnn } => {
            jump_bnnn(state, nnn);
            OpReport { draw: false, fault: None }
        },
        Instr::Random { x, nn } => {
            rand_cxnn(state, x, nn);
            OpReport { draw: false, fault: None }
        },
        Instr::Draw { x, y, n } => {
            crate::draw::draw_dxyn(state, x, y, n);
            OpReport { draw: true, fault: None }
        },
        Instr::SkipKeyDown { x } => {
            skip_key_ex9e(state, input, x);
            OpReport { draw: false, fault: None }
        },
        Instr::SkipKeyUp { x } => {
            skip_key_exa1(state, input, x);
            OpReport { draw: false, fault: None }
        },
        Instr::ReadDelay { x } => {
            timer_fx07(state, x);
            OpReport { draw: false, fault: None }
        },
        Instr::StoreDelay { x } => {
            timer_fx15(state, x);
            OpReport { draw: false, fault: None }
        },
        Instr::StoreSound { x } => {
            timer_fx18(state, x);
            OpReport { draw: false, fault: None }
        },
        Instr::AddIndex { x } => {
            add_ind_fx1e(state, x);
            OpReport { draw: false, fault: None }
        },
        Instr::WaitKey { x } => {
            get_key_fx0a(state, x, input);
            OpReport { draw: false, fault: None }
        },
        Instr::FontChar { x } => {
            get_char_fx29(state, x);
            OpReport { draw: false, fault: None }
        },
        Instr::StoreDigits { x } => {
            bcd_fx33(state, x);
            OpReport { draw: false, fault: None }
        },
        Instr::StoreRegs { x } => {
            store_load_fx55(state, x);
            OpReport { draw: false, fault: None }
        },
        Instr::LoadRegs { x } => {
            store_load_fx65(state, x);
            OpReport { draw: false, fault: None }
        },
        Instr::Invalid { word } => {
            advance_pc(state);
            OpReport { draw: false, fault: Some(Fault::InvalidOpcode { word }) }
        },
    }
}

} // verus!
