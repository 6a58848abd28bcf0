//! Machine state of the virtual machine: memory, frame buffer, registers,
//! call stack and timers, together with its well-formedness invariant and the
//! font loader that seeds the first 80 bytes of memory.

use vstd::prelude::*;

verus! {

/// Bytes of addressable memory.
pub const RAM_LEN: usize = 4096;

/// Width of the frame buffer in pixels.
pub const SCREEN_WIDTH: usize = 64;

/// Height of the frame buffer in pixels.
pub const SCREEN_HEIGHT: usize = 32;

/// Cells in the row-major frame buffer (64 columns by 32 rows).
pub const SCREEN_LEN: usize = 2048;

/// Capacity of the call stack.
pub const STACK_LEN: usize = 64;

/// Number of general-purpose registers.
pub const REG_COUNT: usize = 16;

/// Address where program code conventionally starts.
pub const PROGRAM_START: u16 = 512;

/// Bytes occupied by the built-in font: 16 glyphs of 5 bytes each.
pub const FONT_LEN: usize = 80;

/// The complete mutable state of the virtual machine. The engine borrows it
/// for the duration of one instruction; the caller owns it for the life of
/// the emulation loop.
///
/// The frame buffer is row-major with origin top-left: the pixel at row `r`,
/// column `c` lives at `screen[r * 64 + c]`.
pub struct State {
    /// 4096-byte addressable space; addresses 0-511 are reserved for
    /// font/system data, program code loads at 512.
    pub ram: Vec<u8>,
    /// 64x32 grid of pixel states, row-major, origin top-left.
    pub screen: Vec<bool>,
    /// Address of the next instruction to fetch.
    pub program_counter: u16,
    /// Address register used by memory-indexed instructions.
    pub index: u16,
    /// Saved return addresses; `stack_pointer` indexes the top.
    pub stack: Vec<u16>,
    /// Index of the top of `stack`; 0 means the stack is empty
    /// (slot 0 itself is never occupied).
    pub stack_pointer: u8,
    /// Countdown timer, decremented by the caller at a fixed cadence.
    pub delay_timer: u8,
    /// Countdown timer driving sound, decremented by the caller.
    pub sound_timer: u8,
    /// The sixteen 8-bit registers; register 0xF doubles as the
    /// carry/borrow/collision flag.
    pub v_buffer: Vec<u8>,
    /// Suggested presentation width in host pixels; not read by the engine.
    pub screen_width: u32,
    /// Suggested presentation height in host pixels; not read by the engine.
    pub screen_height: u32,
}

impl State {
    /// Well-formedness: every fixed-capacity field has its fixed length and
    /// the stack pointer stays inside the stack.
    pub open spec fn wf(self) -> bool {
        &&& self.ram@.len() == RAM_LEN
        &&& self.screen@.len() == SCREEN_LEN
        &&& self.stack@.len() == STACK_LEN
        &&& self.v_buffer@.len() == REG_COUNT
        &&& self.stack_pointer < STACK_LEN
    }

    /// A machine at startup: all storage zeroed, the screen dark, and the
    /// program counter at the conventional program start.
    pub fn new() -> (s: State)
        ensures
            s.wf(),
            s.ram@ == Seq::new(RAM_LEN as nat, |i: int| 0u8),
            s.screen@ == Seq::new(SCREEN_LEN as nat, |i: int| false),
            s.stack@ == Seq::new(STACK_LEN as nat, |i: int| 0u16),
            s.v_buffer@ == Seq::new(REG_COUNT as nat, |i: int| 0u8),
            s.program_counter == PROGRAM_START,
            s.index == 0,
            s.stack_pointer == 0,
            s.delay_timer == 0,
            s.sound_timer == 0,
    {
        let mut ram: Vec<u8> = Vec::new();
        let mut screen: Vec<bool> = Vec::new();
        let mut stack: Vec<u16> = Vec::new();
        let mut v_buffer: Vec<u8> = Vec::new();
        let mut i: usize = 0;
        while i < RAM_LEN
            invariant
                i <= RAM_LEN,
                ram@.len() == i,
                forall|j: int| 0 <= j < i ==> ram@[j] == 0u8,
            decreases RAM_LEN - i,
        {
            ram.push(0u8);
            i = i + 1;
        }
        let mut i: usize = 0;
        while i < SCREEN_LEN
            invariant
                i <= SCREEN_LEN,
                screen@.len() == i,
                forall|j: int| 0 <= j < i ==> screen@[j] == false,
            decreases SCREEN_LEN - i,
        {
            screen.push(false);
            i = i + 1;
        }
        let mut i: usize = 0;
        while i < STACK_LEN
            invariant
                i <= STACK_LEN,
                stack@.len() == i,
                forall|j: int| 0 <= j < i ==> stack@[j] == 0u16,
            decreases STACK_LEN - i,
        {
            stack.push(0u16);
            i = i + 1;
        }
        let mut i: usize = 0;
        while i < REG_COUNT
            invariant
                i <= REG_COUNT,
                v_buffer@.len() == i,
                forall|j: int| 0 <= j < i ==> v_buffer@[j] == 0u8,
            decreases REG_COUNT - i,
        {
            v_buffer.push(0u8);
            i = i + 1;
        }
        let s = State {
            ram,
            screen,
            program_counter: PROGRAM_START,
            index: 0,
            stack: stack,
            stack_pointer: 0,
            delay_timer: 0,
            sound_timer: 0,
            v_buffer,
            screen_width: 640,
            screen_height: 320,
        };
        proof {
            assert(s.ram@ =~= Seq::new(RAM_LEN as nat, |i: int| 0u8));
            assert(s.screen@ =~= Seq::new(SCREEN_LEN as nat, |i: int| false));
            assert(s.stack@ =~= Seq::new(STACK_LEN as nat, |i: int| 0u16));
            assert(s.v_buffer@ =~= Seq::new(REG_COUNT as nat, |i: int| 0u8));
        }
        s
    }
}

/// What the engine may learn about the 16-key input device during one
/// instruction: which logical keys are currently held, and the first
/// key-press event observed since the last cycle, already mapped to its
/// logical key value by the caller.
pub struct InputState {
    /// `keys[k]` is true when the key with logical value `k` is held.
    pub keys: Vec<bool>,
    /// First key-press event since the last query, mapped to a logical key
    /// value by the caller's key table; `None` when no event occurred.
    pub key_event: Option<u8>,
}

impl InputState {
    /// Well-formedness: one entry per logical key.
    pub open spec fn wf(self) -> bool {
        self.keys@.len() == REG_COUNT
    }

    /// An input snapshot with no key held and no pending event.
    pub fn idle() -> (inp: InputState)
        ensures
            inp.wf(),
            forall|k: int| 0 <= k < REG_COUNT ==> !inp.keys@[k],
            inp.key_event is None,
    {
        let mut keys: Vec<bool> = Vec::new();
        let mut i: usize = 0;
        while i < REG_COUNT
            invariant
                i <= REG_COUNT,
                keys@.len() == i,
                forall|j: int| 0 <= j < i ==> !keys@[j],
            decreases REG_COUNT - i,
        {
            keys.push(false);
            i = i + 1;
        }
        InputState { keys, key_event: None }
    }
}

/// Whether some logical key is currently held in `inp`.
pub open spec fn any_key_down(inp: InputState) -> bool {
    exists|k: int| 0 <= k < REG_COUNT && inp.keys@[k]
}

/// The bytes of the built-in font table: 16 hexadecimal digit glyphs of
/// 5 bytes each, drawn 4 pixels wide in the high nibble of each byte.
pub open spec fn font_table() -> Seq<u8> {
    seq![
        0xF0u8, 0x90, 0x90, 0x90, 0xF0, // 0
        0x20, 0x60, 0x20, 0x20, 0x70, // 1
        0xF0, 0x10, 0xF0, 0x80, 0xF0, // 2
        0xF0, 0x10, 0xF0, 0x10, 0xF0, // 3
        0x90, 0x90, 0xF0, 0x10, 0x10, // 4
        0xF0, 0x80, 0xF0, 0x10, 0xF0, // 5
        0xF0, 0x80, 0xF0, 0x90, 0xF0, // 6
        0xF0, 0x10, 0x20, 0x40, 0x40, // 7
        0xF0, 0x90, 0xF0, 0x90, 0xF0, // 8
        0xF0, 0x90, 0xF0, 0x10, 0xF0, // 9
        0xF0, 0x90, 0xF0, 0x90, 0x90, // A
        0xE0, 0x90, 0xE0, 0x90, 0xE0, // B
        0xF0, 0x80, 0x80, 0x80, 0xF0, // C
        0xE0, 0x90, 0x90, 0x90, 0xE0, // D
        0xF0, 0x80, 0xF0, 0x80, 0xF0, // E
        0xF0, 0x80, 0xF0, 0x80, 0x80, // F
    ]
}

/// Writes the font table into the first 80 bytes of memory and leaves the
/// rest untouched.
pub fn init_fonts(ram: &mut Vec<u8>)
    requires
        old(ram)@.len() == RAM_LEN,
    ensures
        final(ram)@.len() == RAM_LEN,
        forall|i: int| 0 <= i < FONT_LEN ==> final(ram)@[i] == font_table()[i],
        forall|i: int| FONT_LEN <= i < RAM_LEN ==> final(ram)@[i] == old(ram)@[i],
    {
        let fonts: Vec<u8> = vec![
            0xF0u8, 0x90, 0x90, 0x90, 0xF0, // 0
            0x20, 0x60, 0x20, 0x20, 0x70, // 1
            0xF0, 0x10, 0xF0, 0x80, 0xF0, // 2
            0xF0, 0x10, 0xF0, 0x10, 0xF0, // 3
            0x90, 0x90, 0xF0, 0x10, 0x10, // 4
            0xF0, 0x80, 0xF0, 0x10, 0xF0, // 5
            0xF0, 0x80, 0xF0, 0x90, 0xF0, // 6
            0xF0, 0x10, 0x20, 0x40, 0x40, // 7
            0xF0, 0x90, 0xF0, 0x90, 0xF0, // 8
            0xF0, 0x90, 0xF0, 0x10, 0xF0, // 9
            0xF0, 0x90, 0xF0, 0x90, 0x90, // A
            0xE0, 0x90, 0xE0, 0x90, 0xE0, // B
            0xF0, 0x80, 0x80, 0x80, 0xF0, // C
            0xE0, 0x90, 0x90, 0x90, 0xE0, // D
            0xF0, 0x80, 0xF0, 0x80, 0xF0, // E
            0xF0, 0x80, 0xF0, 0x80, 0x80, // F
        ];
        proof {
            assert(fonts@ =~= font_table());
        }
        let mut i: usize = 0;
        while i < FONT_LEN
            invariant
                i <= FONT_LEN,
                fonts@ == font_table(),
                fonts@.len() == FONT_LEN,
                ram@.len() == RAM_LEN,
                forall|j: int| 0 <= j < i ==> ram@[j] == font_table()[j],
                forall|j: int| i <= j < RAM_LEN ==> ram@[j] == old(ram)@[j],
            decreases FONT_LEN - i,
        {
            let b = fonts[i];
            ram.set(i, b);
            i = i + 1;
        }
    }

} // verus!
