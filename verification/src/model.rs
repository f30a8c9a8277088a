//! The mathematical model of the machine: its state as plain sequences and
//! integers, the initial (reset) state, and the transition relation of one
//! fetch-decode-execute step.

use vstd::prelude::*;

verus! {

pub const RAM_SIZE: usize = 4096;
pub const NUM_REGS: usize = 16;
pub const NUM_KEYS: usize = 16;
pub const STACK_SIZE: usize = 16;
pub const START_ADDR: u16 = 0x200;
pub const FONTSET_SIZE: usize = 80;

pub const SCREEN_WIDTH: usize = 64;
pub const SCREEN_HEIGHT: usize = 32;

/// The abstract state of the machine; the view of the executable `Emu`.
#[verifier::ext_equal]
pub ghost struct EmuView {
    /// Program counter.
    pub pc: u16,
    /// Memory, `RAM_SIZE` bytes.
    pub ram: Seq<u8>,
    /// Display buffer, row-major, `SCREEN_WIDTH * SCREEN_HEIGHT` pixels.
    pub screen: Seq<bool>,
    /// General-purpose registers V0..VF.
    pub v_reg: Seq<u8>,
    /// Index register.
    pub i_reg: u16,
    /// Stack pointer: number of live entries on the stack.
    pub sp: u16,
    /// Key pad state, one flag per key 0..0xF.
    pub keys: Seq<bool>,
    /// Call stack of return addresses.
    pub stack: Seq<u16>,
    /// Delay timer.
    pub dt: u8,
    /// Sound timer.
    pub st: u8,
}

impl EmuView {
    /// All backing storage has its fixed size, and the stack pointer never
    /// exceeds the stack's capacity.
    pub open spec fn wf(self) -> bool {
        &&& self.ram.len() == RAM_SIZE
        &&& self.screen.len() == SCREEN_WIDTH * SCREEN_HEIGHT
        &&& self.v_reg.len() == NUM_REGS
        &&& self.keys.len() == NUM_KEYS
        &&& self.stack.len() == STACK_SIZE
        &&& self.sp <= STACK_SIZE
    }
}

/// The built-in bitmap font: sixteen glyphs for the hexadecimal digits,
/// each 5 bytes tall and 8 bits wide, kept in the first 80 bytes of memory.
pub open spec fn font_seq() -> Seq<u8> {
    seq![
        0xF0u8, 0x90, 0x90, 0x90, 0xF0, // 0
        0x20, 0x60, 0x20, 0x20, 0x70, // 1
        0xF0, 0x10, 0xF0, 0x80, 0xF0, // 2
        0xF0, 0x10, 0xF0, 0x10, 0xF0, // 3
        0x90, 0x90, 0xF0, 0x10, 0x10, // 4
        0xF0, 0x80, 0xF0, 0x10, 0xF0, // 5
        0xF0, 0x80, 0xF0, 0x90, 0xF0, // 6
        0xF0, 0x10, 0x20, 0x40, 0x40, // 7
        0xF0, 0x90, 0xF0, 0x90, 0xF0, // 8
        0xF0, 0x90, 0xF0, 0x10, 0xF0, // 9
        0xF0, 0x90, 0xF0, 0x90, 0x90, // A
        0xE0, 0x90, 0xE0, 0x90, 0xE0, // B
        0xF0, 0x80, 0x80, 0x80, 0xF0, // C
        0xE0, 0x90, 0x90, 0x90, 0xE0, // D
        0xF0, 0x80, 0xF0, 0x80, 0xF0, // E
        0xF0, 0x80, 0xF0, 0x80, 0x80, // F
    ]
}

/// The canonical reset state: program counter at the base address, the font
/// in the first 80 bytes of memory, everything else zeroed.
pub open spec fn initial_state() -> EmuView {
    EmuView {
        pc: START_ADDR,
        ram: Seq::new(RAM_SIZE as nat, |i: int| if i < FONTSET_SIZE { font_seq()[i] } else { 0u8 }),
        screen: Seq::new((SCREEN_WIDTH * SCREEN_HEIGHT) as nat, |i: int| false),
        v_reg: Seq::new(NUM_REGS as nat, |i: int| 0u8),
        i_reg: 0,
        sp: 0,
        keys: Seq::new(NUM_KEYS as nat, |i: int| false),
        stack: Seq::new(STACK_SIZE as nat, |i: int| 0u16),
        dt: 0,
        st: 0,
    }
}

/// Highest nibble of an instruction word.
pub open spec fn nib1(op: u16) -> u16 {
    (op & 0xF000) >> 12
}

/// Second nibble: the X register selector.
pub open spec fn nib2(op: u16) -> u16 {
    (op & 0x0F00) >> 8
}

/// Third nibble: the Y register selector.
pub open spec fn nib3(op: u16) -> u16 {
    (op & 0x00F0) >> 4
}

/// Lowest nibble.
pub open spec fn nib4(op: u16) -> u16 {
    op & 0x000F
}

/// Low byte of an instruction word (the NN immediate).
pub open spec fn low_byte(op: u16) -> u8 {
    (op & 0xFF) as u8
}

/// Low 12 bits of an instruction word (the NNN address immediate).
pub open spec fn low_addr(op: u16) -> u16 {
    op & 0xFFF
}

/// 8-bit addition that wraps on overflow.
pub open spec fn wrap_add8(a: u8, b: u8) -> u8 {
    ((a + b) % 0x100) as u8
}

/// 8-bit subtraction that wraps on borrow.
pub open spec fn wrap_sub8(a: u8, b: u8) -> u8 {
    (if a >= b {
        a - b
    } else {
        a + 0x100 - b
    }) as u8
}

/// 16-bit addition that wraps on overflow.
pub open spec fn wrap_add16(a: u16, b: u16) -> u16 {
    ((a + b) % 0x10000) as u16
}

/// Whether sprite-row byte `pixels` has its bit for column `c` set
/// (most-significant bit is column 0).
pub open spec fn spr_bit(pixels: u8, c: u16) -> bool {
    pixels & (0b1000_0000u8 >> c) != 0
}

/// Flat display-buffer index of the pixel a sprite bit lands on: column
/// `xc + c` wrapped at the screen width, on the (already wrapped) row `y_pos`.
pub open spec fn pix_index(xc: u8, c: u16, y_pos: int) -> int {
    (xc + c) % (SCREEN_WIDTH as int) + (SCREEN_WIDTH as int) * y_pos
}

/// One sprite row XOR-composited column by column: `st` is the pair of the
/// display buffer and the collision flag so far; columns `0..k` of byte
/// `pixels` are applied in order. A set bit toggles its target pixel, and the
/// collision flag absorbs the pixel's prior state.
pub open spec fn draw_row(st: (Seq<bool>, bool), pixels: u8, xc: u8, y_pos: int, k: int) -> (Seq<
    bool,
>, bool)
    decreases k,
{
    if k <= 0 {
        st
    } else {
        let prev = draw_row(st, pixels, xc, y_pos, k - 1);
        let c = (k - 1) as u16;
        if spr_bit(pixels, c) {
            let idx = pix_index(xc, c, y_pos);
            (prev.0.update(idx, !prev.0[idx]), prev.1 || prev.0[idx])
        } else {
            prev
        }
    }
}

/// Sprite rows `0..r` composited in order: row `j` is the memory byte at
/// `i_reg + j`, drawn on screen row `(yc + j) mod SCREEN_HEIGHT`.
pub open spec fn draw_rows(
    st: (Seq<bool>, bool),
    ram: Seq<u8>,
    i_reg: u16,
    xc: u8,
    yc: u8,
    r: int,
) -> (Seq<bool>, bool)
    decreases r,
{
    if r <= 0 {
        st
    } else {
        let prev = draw_rows(st, ram, i_reg, xc, yc, r - 1);
        let pixels = ram[i_reg + (r - 1)];
        let y_pos = (yc + (r - 1)) % (SCREEN_HEIGHT as int);
        draw_row(prev, pixels, xc, y_pos, 8)
    }
}

/// The lowest-index key at or above `i` that is pressed, if any.
pub open spec fn first_pressed(keys: Seq<bool>, i: int) -> Option<u8>
    decreases NUM_KEYS - i,
{
    if i >= NUM_KEYS {
        None
    } else if keys[i] {
        Some(i as u8)
    } else {
        first_pressed(keys, i + 1)
    }
}

/// Scanning for the first pressed key skips over a stretch of unpressed ones.
pub proof fn lemma_first_pressed_skip(keys: Seq<bool>, j: int, i: int)
    requires
        0 <= j <= i <= NUM_KEYS,
        forall|m: int| j <= m < i ==> !keys[m],
    ensures
        first_pressed(keys, j) == first_pressed(keys, i),
    decreases i - j,
{
    if j < i {
        lemma_first_pressed_skip(keys, j + 1, i);
    }
}

/// Memory after storing registers `0..k` (exclusive of `k`) at base `i`.
/// The upper bound is exclusive: this machine's register-store instruction
/// deliberately leaves register X itself out.
pub open spec fn store_regs(ram: Seq<u8>, v: Seq<u8>, i: int, k: int) -> Seq<u8>
    decreases k,
{
    if k <= 0 {
        ram
    } else {
        store_regs(ram, v, i, k - 1).update(i + (k - 1), v[k - 1])
    }
}

/// Registers after loading `0..k` (exclusive of `k`) from memory at base `i`.
pub open spec fn load_regs(v: Seq<u8>, ram: Seq<u8>, i: int, k: int) -> Seq<u8>
    decreases k,
{
    if k <= 0 {
        v
    } else {
        load_regs(v, ram, i, k - 1).update(k - 1, ram[i + (k - 1)])
    }
}

/// Whether the instruction word is one of the machine's 35 opcodes. Any
/// other pattern is a fatal, unrecoverable condition.
pub open spec fn op_implemented(op: u16) -> bool {
    let d1 = nib1(op);
    let d2 = nib2(op);
    let d3 = nib3(op);
    let d4 = nib4(op);
    ||| (d1 == 0 && d2 == 0 && d3 == 0 && d4 == 0)
    ||| (d1 == 0 && d2 == 0 && d3 == 0xE && d4 == 0)
    ||| (d1 == 0 && d2 == 0 && d3 == 0xE && d4 == 0xE)
    ||| d1 == 1
    ||| d1 == 2
    ||| d1 == 3
    ||| d1 == 4
    ||| (d1 == 5 && d4 == 0)
    ||| d1 == 6
    ||| d1 == 7
    ||| (d1 == 8 && d4 <= 8)
    ||| (d1 == 9 && d4 == 0)
    ||| d1 == 0xA
    ||| d1 == 0xB
    ||| d1 == 0xC
    ||| d1 == 0xD
    ||| (d1 == 0xE && d3 == 9 && d4 == 0xE)
    ||| (d1 == 0xE && d3 == 0xA && d4 == 1)
    ||| (d1 == 0xF && d3 == 0 && d4 == 7)
    ||| (d1 == 0xF && d3 == 0 && d4 == 0xA)
    ||| (d1 == 0xF && d3 == 1 && d4 == 5)
    ||| (d1 == 0xF && d3 == 1 && d4 == 8)
    ||| (d1 == 0xF && d3 == 1 && d4 == 0xE)
    ||| (d1 == 0xF && d3 == 2 && d4 == 9)
    ||| (d1 == 0xF && d3 == 3 && d4 == 3)
    ||| (d1 == 0xF && d3 == 5 && d4 == 5)
    ||| (d1 == 0xF && d3 == 6 && d4 == 5)
}

/// The conditions under which executing `op` in (post-fetch) state `s` hits
/// none of the machine's fatal conditions: the opcode is implemented, the
/// stack neither overflows nor underflows, and every memory, register and
/// key index stays in range.
pub open spec fn op_safe(s: EmuView, op: u16) -> bool {
    let d1 = nib1(op);
    let d3 = nib3(op);
    let d4 = nib4(op);
    let x = nib2(op) as int;
    let vx = s.v_reg[x];
    &&& op_implemented(op)
    &&& (d1 == 0 && d3 == 0xE && d4 == 0xE ==> s.sp > 0)
    &&& (d1 == 2 ==> s.sp < STACK_SIZE)
    &&& ((d1 == 3 || d1 == 4 || d1 == 5 || d1 == 9 || d1 == 0xE) ==> s.pc + 2 <= 0xFFFF)
    &&& (d1 == 0xE ==> vx < NUM_KEYS)
    &&& (d1 == 0xD && d4 > 0 ==> s.i_reg + d4 <= RAM_SIZE)
    &&& (d1 == 0xF && d3 == 0 && d4 == 0xA ==> s.pc >= 2)
    &&& (d1 == 0xF && d3 == 2 && d4 == 9 ==> vx * 5 <= 0xFF)
    &&& (d1 == 0xF && d3 == 3 && d4 == 3 ==> s.i_reg + 2 < RAM_SIZE)
    &&& (d1 == 0xF && (d3 == 5 || d3 == 6) && d4 == 5 && nib2(op) > 0 ==> s.i_reg + nib2(op)
        <= RAM_SIZE)
}

/// The state after decoding and executing one instruction word `op` in
/// (post-fetch) state `s`. `rb` is the byte the random-number source handed
/// back; only the random-mask opcode (CXNN) reads it.
pub open spec fn op_step(s: EmuView, op: u16, rb: u8) -> EmuView {
    let d1 = nib1(op);
    let d2 = nib2(op);
    let d3 = nib3(op);
    let d4 = nib4(op);
    let x = d2 as int;
    let y = d3 as int;
    let vx = s.v_reg[x];
    let vy = s.v_reg[y];
    let nn = low_byte(op);
    let nnn = low_addr(op);
    if d1 == 0 && d2 == 0 && d3 == 0 && d4 == 0 {
        // no-op
        s
    } else if d1 == 0 && d2 == 0 && d3 == 0xE && d4 == 0 {
        // clear screen
        EmuView { screen: Seq::new((SCREEN_WIDTH * SCREEN_HEIGHT) as nat, |i: int| false), ..s }
    } else if d1 == 0 && d2 == 0 && d3 == 0xE && d4 == 0xE {
        // return from subroutine
        EmuView { sp: (s.sp - 1) as u16, pc: s.stack[s.sp - 1], ..s }
    } else if d1 == 1 {
        // jump
        EmuView { pc: nnn, ..s }
    } else if d1 == 2 {
        // call subroutine
        EmuView { stack: s.stack.update(s.sp as int, s.pc), sp: (s.sp + 1) as u16, pc: nnn, ..s }
    } else if d1 == 3 {
        // skip if VX == NN
        if vx == nn {
            EmuView { pc: (s.pc + 2) as u16, ..s }
        } else {
            s
        }
    } else if d1 == 4 {
        // skip if VX != NN
        if vx != nn {
            EmuView { pc: (s.pc + 2) as u16, ..s }
        } else {
            s
        }
    } else if d1 == 5 && d4 == 0 {
        // skip if VX == VY
        if vx == vy {
            EmuView { pc: (s.pc + 2) as u16, ..s }
        } else {
            s
        }
    } else if d1 == 6 {
        // VX = NN
        EmuView { v_reg: s.v_reg.update(x, nn), ..s }
    } else if d1 == 7 {
        // VX += NN, wrapping, no flag
        EmuView { v_reg: s.v_reg.update(x, wrap_add8(vx, nn)), ..s }
    } else if d1 == 8 && d4 == 0 {
        // VX = VY
        EmuView { v_reg: s.v_reg.update(x, vy), ..s }
    } else if d1 == 8 && d4 == 1 {
        EmuView { v_reg: s.v_reg.update(x, vx | vy), ..s }
    } else if d1 == 8 && d4 == 2 {
        EmuView { v_reg: s.v_reg.update(x, vx & vy), ..s }
    } else if d1 == 8 && d4 == 3 {
        EmuView { v_reg: s.v_reg.update(x, vx ^ vy), ..s }
    } else if d1 == 8 && d4 == 4 {
        // VX += VY; VF = carry
        let vf: u8 = if vx + vy > 0xFF {
            1
        } else {
            0
        };
        EmuView { v_reg: s.v_reg.update(x, wrap_add8(vx, vy)).update(0xF, vf), ..s }
    } else if d1 == 8 && d4 == 5 {
        // VX -= VY; VF = 0 on borrow else 1
        let vf: u8 = if vx < vy {
            0
        } else {
            1
        };
        EmuView { v_reg: s.v_reg.update(x, wrap_sub8(vx, vy)).update(0xF, vf), ..s }
    } else if d1 == 8 && d4 == 6 {
        // VX >>= 1; VF = shifted-out bit
        EmuView { v_reg: s.v_reg.update(x, vx >> 1u8).update(0xF, vx & 1), ..s }
    } else if d1 == 8 && d4 == 7 {
        // VX = VY - VX; VF = 0 on borrow else 1
        let vf: u8 = if vy < vx {
            0
        } else {
            1
        };
        EmuView { v_reg: s.v_reg.update(x, wrap_sub8(vy, vx)).update(0xF, vf), ..s }
    } else if d1 == 8 && d4 == 8 {
        // VX <<= 1; VF = the whole pre-shift value (masked with 0xFF) — a
        // deliberate quirk of this machine, not the shifted-out top bit
        EmuView { v_reg: s.v_reg.update(x, vx << 1u8).update(0xF, vx & 0xFF), ..s }
    } else if d1 == 9 && d4 == 0 {
        // skip if VX != VY
        if vx != vy {
            EmuView { pc: (s.pc + 2) as u16, ..s }
        } else {
            s
        }
    } else if d1 == 0xA {
        // I = NNN
        EmuView { i_reg: nnn, ..s }
    } else if d1 == 0xB {
        // jump to V0 + NNN
        EmuView { pc: (s.v_reg[0] + nnn) as u16, ..s }
    } else if d1 == 0xC {
        // VX = random byte AND NN
        EmuView { v_reg: s.v_reg.update(x, nn & rb), ..s }
    } else if d1 == 0xD {
        // draw sprite
        let res = draw_rows((s.screen, false), s.ram, s.i_reg, vx, vy, d4 as int);
        let vf: u8 = if res.1 {
            1
        } else {
            0
        };
        EmuView { screen: res.0, v_reg: s.v_reg.update(0xF, vf), ..s }
    } else if d1 == 0xE && d3 == 9 && d4 == 0xE {
        // skip if key VX pressed
        if s.keys[vx as int] {
            EmuView { pc: (s.pc + 2) as u16, ..s }
        } else {
            s
        }
    } else if d1 == 0xE && d3 == 0xA && d4 == 1 {
        // skip if key VX not pressed
        if !s.keys[vx as int] {
            EmuView { pc: (s.pc + 2) as u16, ..s }
        } else {
            s
        }
    } else if d1 == 0xF && d3 == 0 && d4 == 7 {
        // VX = delay timer
        EmuView { v_reg: s.v_reg.update(x, s.dt), ..s }
    } else if d1 == 0xF && d3 == 0 && d4 == 0xA {
        // wait for a key: take the lowest pressed key, or rewind to re-fetch
        match first_pressed(s.keys, 0) {
            Some(k) => EmuView { v_reg: s.v_reg.update(x, k), ..s },
            None => EmuView { pc: (s.pc - 2) as u16, ..s },
        }
    } else if d1 == 0xF && d3 == 1 && d4 == 5 {
        // delay timer = VX
        EmuView { dt: vx, ..s }
    } else if d1 == 0xF && d3 == 1 && d4 == 8 {
        // sound timer = VX
        EmuView { st: vx, ..s }
    } else if d1 == 0xF && d3 == 1 && d4 == 0xE {
        // I += VX, wrapping
        EmuView { i_reg: wrap_add16(s.i_reg, vx as u16), ..s }
    } else if d1 == 0xF && d3 == 2 && d4 == 9 {
        // I = font glyph address of digit VX
        EmuView { i_reg: (vx * 5) as u16, ..s }
    } else if d1 == 0xF && d3 == 3 && d4 == 3 {
        // binary-coded decimal of VX at I, I+1, I+2
        EmuView {
            ram: s.ram.update(s.i_reg as int, vx / 100).update(
                s.i_reg + 1,
                (vx / 10) % 10,
            ).update(s.i_reg + 2, vx % 10),
            ..s
        }
    } else if d1 == 0xF && d3 == 5 && d4 == 5 {
        // store registers 0..X (exclusive) at I
        EmuView { ram: store_regs(s.ram, s.v_reg, s.i_reg as int, x), ..s }
    } else if d1 == 0xF && d3 == 6 && d4 == 5 {
        // load registers 0..X (exclusive) from I
        EmuView { v_reg: load_regs(s.v_reg, s.ram, s.i_reg as int, x), ..s }
    } else {
        // not an opcode of the machine; ruled out by op_safe
        s
    }
}

/// The big-endian instruction word at the program counter.
pub open spec fn word_at(s: EmuView) -> u16 {
    ((s.ram[s.pc as int] as u16) << 8u16) | (s.ram[s.pc as int + 1] as u16)
}

/// Both bytes of the next instruction lie inside memory.
pub open spec fn fetch_ok(s: EmuView) -> bool {
    s.pc + 1 < RAM_SIZE
}

/// The state right after fetching: the program counter has moved past the
/// instruction word.
pub open spec fn after_fetch(s: EmuView) -> EmuView {
    EmuView { pc: (s.pc + 2) as u16, ..s }
}

/// One whole tick (fetch, decode, execute) hits no fatal condition.
pub open spec fn tick_ok(s: EmuView) -> bool {
    &&& fetch_ok(s)
    &&& op_safe(after_fetch(s), word_at(s))
}

/// The state after one whole tick, given the byte `rb` the random-number
/// source handed back.
pub open spec fn tick_step(s: EmuView, rb: u8) -> EmuView {
    op_step(after_fetch(s), word_at(s), rb)
}

/// The state after one timer tick: each timer counts down by one and floors
/// at zero.
pub open spec fn timer_step(s: EmuView) -> EmuView {
    EmuView {
        dt: if s.dt > 0 {
            (s.dt - 1) as u8
        } else {
            0
        },
        st: if s.st > 0 {
            (s.st - 1) as u8
        } else {
            0
        },
        ..s
    }
}

} // verus!
