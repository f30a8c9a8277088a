//! The executable machine and its verified operations. Every public method's
//! contract relates the machine's view to the transition functions of
//! `crate::model`.

use vstd::prelude::*;

use crate::model::EmuView;
use crate::model::FONTSET_SIZE;
use crate::model::NUM_KEYS;
use crate::model::NUM_REGS;
use crate::model::RAM_SIZE;
use crate::model::SCREEN_HEIGHT;
use crate::model::SCREEN_WIDTH;
use crate::model::STACK_SIZE;
use crate::model::START_ADDR;
use crate::model::after_fetch;
use crate::model::draw_row;
use crate::model::draw_rows;
use crate::model::fetch_ok;
use crate::model::first_pressed;
use crate::model::font_seq;
use crate::model::initial_state;
use crate::model::lemma_first_pressed_skip;
use crate::model::load_regs;
use crate::model::nib2;
use crate::model::nib3;
use crate::model::nib4;
use crate::model::op_safe;
use crate::model::op_step;
use crate::model::store_regs;
use crate::model::tick_ok;
use crate::model::tick_step;
use crate::model::word_at;
use crate::rng::random_byte;

verus! {

/// The byte-code interpreter: all machine state, driven one instruction at a
/// time by `tick` and once per displayed frame by `timer_tick`.
pub struct Emu {
    pc: u16,
    ram: Vec<u8>,
    screen: Vec<bool>,
    v_reg: Vec<u8>,
    i_reg: u16,
    sp: u16,
    keys: Vec<bool>,
    stack: Vec<u16>,
    dt: u8,
    st: u8,
}

impl View for Emu {
    type V = EmuView;

    closed spec fn view(&self) -> EmuView {
        EmuView {
            pc: self.pc,
            ram: self.ram@,
            screen: self.screen@,
            v_reg: self.v_reg@,
            i_reg: self.i_reg,
            sp: self.sp,
            keys: self.keys@,
            stack: self.stack@,
            dt: self.dt,
            st: self.st,
        }
    }
}

/// A vector of `n` copies of `val`.
fn filled<T: Copy>(n: usize, val: T) -> (r: Vec<T>)
    ensures
        r@ == Seq::new(n as nat, |i: int| val),
{
    let mut r: Vec<T> = Vec::new();
    let mut i: usize = 0;
    while i < n
        invariant
            i <= n,
            r@.len() == i,
            forall|j: int| 0 <= j < i ==> r@[j] == val,
        decreases n - i,
    {
        r.push(val);
        i += 1;
    }
    proof {
        assert(r@ =~= Seq::new(n as nat, |i: int| val));
    }
    r
}

/// The built-in font table as bytes, equal to the model's `font_seq`.
fn fontset() -> (r: Vec<u8>)
    ensures
        r@ == font_seq(),
{
    let r: Vec<u8> = vec![
        0xF0, 0x90, 0x90, 0x90, 0xF0, // 0
        0x20, 0x60, 0x20, 0x20, 0x70, // 1
        0xF0, 0x10, 0xF0, 0x80, 0xF0, // 2
        0xF0, 0x10, 0xF0, 0x10, 0xF0, // 3
        0x90, 0x90, 0xF0, 0x10, 0x10, // 4
        0xF0, 0x80, 0xF0, 0x10, 0xF0, // 5
        0xF0, 0x80, 0xF0, 0x90, 0xF0, // 6
        0xF0, 0x10, 0x20, 0x40, 0x40, // 7
        0xF0, 0x90, 0xF0, 0x90, 0xF0, // 8
        0xF0, 0x90, 0xF0, 0x10, 0xF0, // 9
        0xF0, 0x90, 0xF0, 0x90, 0x90, // A
        0xE0, 0x90, 0xE0, 0x90, 0xE0, // B
        0xF0, 0x80, 0x80, 0x80, 0xF0, // C
        0xE0, 0x90, 0x90, 0x90, 0xE0, // D
        0xF0, 0x80, 0xF0, 0x80, 0xF0, // E
        0xF0, 0x80, 0xF0, 0x80, 0x80, // F
    ];
    proof {
        assert(r@ =~= font_seq());
    }
    r
}

impl Emu {
    /// The machine's storage has its fixed sizes.
    pub open spec fn wf(&self) -> bool {
        self@.wf()
    }

    /// A machine in the canonical reset state: program counter at the base
    /// address, font preloaded, all else zeroed.
    pub fn new() -> (r: Self)
        ensures
            r.wf(),
            r@ == initial_state(),
    {
        let mut new_emu = Emu {
            pc: START_ADDR,
            ram: Vec::new(),
            screen: Vec::new(),
            v_reg: Vec::new(),
            i_reg: 0,
            sp: 0,
            keys: Vec::new(),
            stack: Vec::new(),
            dt: 0,
            st: 0,
        };
        new_emu.reset();
        new_emu
    }

    /// Return the machine to the canonical reset state, bitwise identical to
    /// a fresh construction: the font is re-copied, and memory, registers,
    /// stack, keys, timers and screen are cleared, whatever went before.
    pub fn reset(&mut self)
        ensures
            final(self).wf(),
            final(self)@ == initial_state(),
    {
        self.pc = START_ADDR;
        self.ram = filled(RAM_SIZE, 0u8);
        self.screen = filled(SCREEN_WIDTH * SCREEN_HEIGHT, false);
        self.v_reg = filled(NUM_REGS, 0u8);
        self.i_reg = 0;
        self.sp = 0;
        self.keys = filled(NUM_KEYS, false);
        self.stack = filled(STACK_SIZE, 0u16);
        self.dt = 0;
        self.st = 0;
        let font = fontset();
        let mut i: usize = 0;
        while i < FONTSET_SIZE
            invariant
                i <= FONTSET_SIZE,
                font@ == font_seq(),
                self.ram@.len() == RAM_SIZE,
                forall|j: int| 0 <= j < i ==> self.ram@[j] == font_seq()[j],
                forall|j: int| i <= j < RAM_SIZE ==> self.ram@[j] == 0u8,
                self.pc == START_ADDR,
                self.screen@ == initial_state().screen,
                self.v_reg@ == initial_state().v_reg,
                self.i_reg == 0,
                self.sp == 0,
                self.keys@ == initial_state().keys,
                self.stack@ == initial_state().stack,
                self.dt == 0,
                self.st == 0,
            decreases FONTSET_SIZE - i,
        {
            self.ram[i] = font[i];
            i += 1;
        }
        proof {
            assert(self@.ram =~= initial_state().ram);
            assert(self@ =~= initial_state());
        }
    }

    /// Push a return address; the stack must not be full.
    pub fn push(&mut self, val: u16)
        requires
            old(self).wf(),
            old(self)@.sp < STACK_SIZE,
        ensures
            final(self).wf(),
            final(self)@ == (EmuView {
                stack: old(self)@.stack.update(old(self)@.sp as int, val),
                sp: (old(self)@.sp + 1) as u16,
                ..old(self)@
            }),
    {
        self.stack[self.sp as usize] = val;
        self.sp += 1;
    }

    /// Pop the most recently pushed return address; the stack must not be
    /// empty.
    pub fn pop(&mut self) -> (r: u16)
        requires
            old(self).wf(),
            old(self)@.sp > 0,
        ensures
            final(self).wf(),
            r == old(self)@.stack[old(self)@.sp - 1],
            final(self)@ == (EmuView { sp: (old(self)@.sp - 1) as u16, ..old(self)@ }),
    {
        self.sp -= 1;
        self.stack[self.sp as usize]
    }

    /// The display buffer, row-major, one flag per pixel, read-only.
    pub fn get_display(&self) -> (r: &[bool])
        ensures
            r@ == self@.screen,
    {
        self.screen.as_slice()
    }

    /// Set or clear one key's pressed state. The pad has `NUM_KEYS` keys.
    pub fn keypress(&mut self, idx: usize, pressed: bool)
        requires
            old(self).wf(),
            idx < NUM_KEYS,
        ensures
            final(self).wf(),
            final(self)@ == (EmuView {
                keys: old(self)@.keys.update(idx as int, pressed),
                ..old(self)@
            }),
    {
        self.keys[idx] = pressed;
    }

    /// Copy a program image verbatim into memory starting at the base
    /// address. The image must fit below the end of memory.
    pub fn load(&mut self, data: &[u8])
        requires
            old(self).wf(),
            START_ADDR + data@.len() <= RAM_SIZE,
        ensures
            final(self).wf(),
            final(self)@ == (EmuView {
                ram: Seq::new(
                    RAM_SIZE as nat,
                    |i: int|
                        if START_ADDR <= i < START_ADDR + data@.len() {
                            data@[i - START_ADDR]
                        } else {
                            old(self)@.ram[i]
                        },
                ),
                ..old(self)@
            }),
    {
        let ghost ram0 = self.ram@;
        let mut i: usize = 0;
        while i < data.len()
            invariant
                i <= data@.len(),
                START_ADDR + data@.len() <= RAM_SIZE,
                self.ram@.len() == RAM_SIZE,
                forall|j: int|
                    START_ADDR <= j < START_ADDR + i ==> self.ram@[j] == data@[j - START_ADDR],
                forall|j: int|
                    0 <= j < RAM_SIZE && !(START_ADDR <= j < START_ADDR + i) ==> self.ram@[j]
                        == ram0[j],
                self.pc == old(self).pc,
                self.screen@ == old(self)@.screen,
                self.v_reg@ == old(self)@.v_reg,
                self.i_reg == old(self).i_reg,
                self.sp == old(self).sp,
                self.keys@ == old(self)@.keys,
                self.stack@ == old(self)@.stack,
                self.dt == old(self).dt,
                self.st == old(self).st,
            decreases data@.len() - i,
        {
            self.ram[START_ADDR as usize + i] = data[i];
            i += 1;
        }
        proof {
            assert(self@.ram =~= Seq::new(
                RAM_SIZE as nat,
                |i: int|
                    if START_ADDR <= i < START_ADDR + data@.len() {
                        data@[i - START_ADDR]
                    } else {
                        old(self)@.ram[i]
                    },
            ));
            assert(self@ =~= (EmuView { ram: self@.ram, ..old(self)@ }));
        }
    }

    /// One execution step: fetch the instruction word at the program counter,
    /// decode it and execute it. The caller must hand the machine a state in
    /// which the step hits none of the fatal conditions (`tick_ok`): an
    /// in-range fetch, an implemented opcode, and no stack overflow,
    /// underflow or out-of-range index. The new state is one `tick_step` of
    /// the old, for some byte the random-number source handed back.
    pub fn tick(&mut self)
        requires
            old(self).wf(),
            tick_ok(old(self)@),
        ensures
            final(self).wf(),
            exists|rb: u8| final(self)@ == tick_step(old(self)@, rb),
    {
        let rb = random_byte();
        let op = self.fetch();
        self.execute(op, rb);
        proof {
            assert(self@ == tick_step(old(self)@, rb));
        }
    }

    /// Whether the next `tick` is free of the machine's fatal conditions:
    /// the fetch stays inside memory, the instruction word at the program
    /// counter is an implemented opcode, and executing it neither overflows
    /// nor underflows the stack nor indexes memory, registers or keys out of
    /// range. `tick` may be called exactly when this holds; a state where it
    /// does not signals a malformed program image, which the machine treats
    /// as unrecoverable.
    pub fn can_tick(&self) -> (r: bool)
        requires
            self.wf(),
        ensures
            r == tick_ok(self@),
    {
        if !(self.pc as usize + 1 < RAM_SIZE) {
            return false;
        }
        let high = self.ram[self.pc as usize] as u16;
        let low = self.ram[(self.pc + 1) as usize] as u16;
        let op = (high << 8u16) | low;
        let digit1 = (op & 0xF000) >> 12;
        let digit2 = (op & 0x0F00) >> 8;
        let digit3 = (op & 0x00F0) >> 4;
        let digit4 = op & 0x000F;
        proof {
            assert((op & 0xF000) >> 12 < 16) by (bit_vector);
            assert((op & 0x0F00) >> 8 < 16) by (bit_vector);
            assert((op & 0x00F0) >> 4 < 16) by (bit_vector);
            assert(op & 0x000F < 16) by (bit_vector);
        }
        let x = digit2 as usize;
        match (digit1, digit2, digit3, digit4) {
            (0, 0, 0, 0) => true,
            (0, 0, 0xE, 0) => true,
            (0, 0, 0xE, 0xE) => self.sp > 0,
            (1, _, _, _) => true,
            (2, _, _, _) => (self.sp as usize) < STACK_SIZE,
            (3, _, _, _) => true,
            (4, _, _, _) => true,
            (5, _, _, 0) => true,
            (6, _, _, _) => true,
            (7, _, _, _) => true,
            (8, _, _, 0) | (8, _, _, 1) | (8, _, _, 2) | (8, _, _, 3) | (8, _, _, 4)
            | (8, _, _, 5) | (8, _, _, 6) | (8, _, _, 7) | (8, _, _, 8) => true,
            (9, _, _, 0) => true,
            (0xA, _, _, _) => true,
            (0xB, _, _, _) => true,
            (0xC, _, _, _) => true,
            (0xD, _, _, _) => digit4 == 0 || self.i_reg as usize + digit4 as usize <= RAM_SIZE,
            (0xE, _, 9, 0xE) | (0xE, _, 0xA, 1) => (self.v_reg[x] as usize) < NUM_KEYS,
            (0xF, _, 0, 7) => true,
            (0xF, _, 0, 0xA) => true,
            (0xF, _, 1, 5) => true,
            (0xF, _, 1, 8) => true,
            (0xF, _, 1, 0xE) => true,
            (0xF, _, 2, 9) => self.v_reg[x] <= 51,
            (0xF, _, 3, 3) => self.i_reg as usize + 2 < RAM_SIZE,
            (0xF, _, 5, 5) | (0xF, _, 6, 5) => x == 0 || self.i_reg as usize + x <= RAM_SIZE,
            (_, _, _, _) => false,
        }
    }

    /// Read the big-endian instruction word at the program counter and move
    /// the program counter past it.
    fn fetch(&mut self) -> (op: u16)
        requires
            old(self).wf(),
            fetch_ok(old(self)@),
        ensures
            final(self).wf(),
            op == word_at(old(self)@),
            final(self)@ == after_fetch(old(self)@),
    {
        let high = self.ram[self.pc as usize] as u16;
        let low = self.ram[(self.pc + 1) as usize] as u16;
        let op = (high << 8u16) | low;
        self.pc += 2;
        op
    }

    /// Decode the instruction word into its four nibbles and execute it.
    /// `rb` is the byte the random-number source handed back; only the
    /// random-mask opcode reads it.
    fn execute(&mut self, op: u16, rb: u8)
        requires
            old(self).wf(),
            op_safe(old(self)@, op),
        ensures
            final(self).wf(),
            final(self)@ == op_step(old(self)@, op, rb),
    {
        let digit1 = (op & 0xF000) >> 12;
        let digit2 = (op & 0x0F00) >> 8;
        let digit3 = (op & 0x00F0) >> 4;
        let digit4 = op & 0x000F;
        proof {
            assert((op & 0x0F00) >> 8 < 16) by (bit_vector);
            assert((op & 0x00F0) >> 4 < 16) by (bit_vector);
            assert(op & 0x000F < 16) by (bit_vector);
            assert(op & 0xFFF < 4096) by (bit_vector);
        }
        let x = digit2 as usize;
        let y = digit3 as usize;
        match (digit1, digit2, digit3, digit4) {
            // no-op
            (0, 0, 0, 0) => {},
            // clear screen
            (0, 0, 0xE, 0) => {
                self.screen = filled(SCREEN_WIDTH * SCREEN_HEIGHT, false);
                proof {
                    assert(self@.screen =~= Seq::new(
                        (SCREEN_WIDTH * SCREEN_HEIGHT) as nat,
                        |i: int| false,
                    ));
                }
            },
            // return from subroutine
            (0, 0, 0xE, 0xE) => {
                let ret = self.pop();
                self.pc = ret;
            },
            // jump
            (1, _, _, _) => {
                let addr = op & 0xFFF;
                self.pc = addr;
            },
            // call subroutine
            (2, _, _, _) => {
                let addr = op & 0xFFF;
                let here = self.pc;
                self.push(here);
                self.pc = addr;
            },
            // skip if VX == NN
            (3, _, _, _) => {
                let nn = (op & 0xFF) as u8;
                if self.v_reg[x] == nn {
                    self.pc += 2;
                }
            },
            // skip if VX != NN
            (4, _, _, _) => {
                let nn = (op & 0xFF) as u8;
                if self.v_reg[x] != nn {
                    self.pc += 2;
                }
            },
            // skip if VX == VY
            (5, _, _, 0) => {
                if self.v_reg[x] == self.v_reg[y] {
                    self.pc += 2;
                }
            },
            // VX = NN
            (6, _, _, _) => {
                let nn = (op & 0xFF) as u8;
                self.v_reg[x] = nn;
            },
            // VX += NN, wrapping, no flag
            (7, _, _, _) => {
                let nn = (op & 0xFF) as u8;
                let sum = self.v_reg[x] as u16 + nn as u16;
                self.v_reg[x] = (sum % 0x100) as u8;
            },
            // VX = VY
            (8, _, _, 0) => {
                let vy = self.v_reg[y];
                self.v_reg[x] = vy;
            },
            // VX |= VY
            (8, _, _, 1) => {
                let val = self.v_reg[x] | self.v_reg[y];
                self.v_reg[x] = val;
            },
            // VX &= VY
            (8, _, _, 2) => {
                let val = self.v_reg[x] & self.v_reg[y];
                self.v_reg[x] = val;
            },
            // VX ^= VY
            (8, _, _, 3) => {
                let val = self.v_reg[x] ^ self.v_reg[y];
                self.v_reg[x] = val;
            },
            // VX += VY; VF = carry
            (8, _, _, 4) => {
                let vx = self.v_reg[x];
                let vy = self.v_reg[y];
                let sum = vx as u16 + vy as u16;
                let new_vf: u8 = if sum > 0xFF {
                    1
                } else {
                    0
                };
                self.v_reg[x] = (sum % 0x100) as u8;
                self.v_reg[0xF] = new_vf;
            },
            // VX -= VY; VF = 0 on borrow else 1
            (8, _, _, 5) => {
                let vx = self.v_reg[x];
                let vy = self.v_reg[y];
                let new_vx: u8 = if vx >= vy {
                    vx - vy
                } else {
                    (vx as u16 + 0x100 - vy as u16) as u8
                };
                let new_vf: u8 = if vx < vy {
                    0
                } else {
                    1
                };
                self.v_reg[x] = new_vx;
                self.v_reg[0xF] = new_vf;
            },
            // VX >>= 1; VF = shifted-out bit
            (8, _, _, 6) => {
                let vx = self.v_reg[x];
                let lsb = vx & 1;
                self.v_reg[x] = vx >> 1u8;
                self.v_reg[0xF] = lsb;
            },
            // VX = VY - VX; VF = 0 on borrow else 1
            (8, _, _, 7) => {
                let vx = self.v_reg[x];
                let vy = self.v_reg[y];
                let new_vx: u8 = if vy >= vx {
                    vy - vx
                } else {
                    (vy as u16 + 0x100 - vx as u16) as u8
                };
                let new_vf: u8 = if vy < vx {
                    0
                } else {
                    1
                };
                self.v_reg[x] = new_vx;
                self.v_reg[0xF] = new_vf;
            },
            // VX <<= 1; VF = the whole pre-shift value (masked with 0xFF) — a
            // deliberate quirk of this machine, not the shifted-out top bit
            (8, _, _, 8) => {
                let vx = self.v_reg[x];
                let msb = vx & 0xFF;
                self.v_reg[x] = vx << 1u8;
                self.v_reg[0xF] = msb;
            },
            // skip if VX != VY
            (9, _, _, 0) => {
                if self.v_reg[x] != self.v_reg[y] {
                    self.pc += 2;
                }
            },
            // I = NNN
            (0xA, _, _, _) => {
                let nnn = op & 0xFFF;
                self.i_reg = nnn;
            },
            // jump to V0 + NNN
            (0xB, _, _, _) => {
                let nnn = op & 0xFFF;
                self.pc = self.v_reg[0] as u16 + nnn;
            },
            // VX = random byte AND NN
            (0xC, _, _, _) => {
                let nn = (op & 0xFF) as u8;
                self.v_reg[x] = nn & rb;
            },
            // draw sprite
            (0xD, _, _, _) => {
                let x_coord = self.v_reg[x] as u16;
                let y_coord = self.v_reg[y] as u16;
                let num_rows = digit4;
                let ghost gxc: u8 = old(self)@.v_reg[nib2(op) as int];
                let ghost gyc: u8 = old(self)@.v_reg[nib3(op) as int];
                let mut flipped = false;
                let mut y_line: u16 = 0;
                while y_line < num_rows
                    invariant
                        y_line <= num_rows,
                        num_rows == nib4(op),
                        num_rows > 0 ==> old(self)@.i_reg + num_rows <= RAM_SIZE,
                        x_coord == gxc as u16,
                        y_coord == gyc as u16,
                        self.wf(),
                        self@ == (EmuView { screen: self@.screen, ..old(self)@ }),
                        ({
                            let st = draw_rows(
                                (old(self)@.screen, false),
                                old(self)@.ram,
                                old(self)@.i_reg,
                                gxc,
                                gyc,
                                y_line as int,
                            );
                            self@.screen == st.0 && flipped == st.1
                        }),
                    decreases num_rows - y_line,
                {
                    let addr = self.i_reg + y_line;
                    let pixels = self.ram[addr as usize];
                    let ghost row_st: (Seq<bool>, bool) = (self@.screen, flipped);
                    let ghost gypos: int = (gyc + y_line) % (SCREEN_HEIGHT as int);
                    let mut x_line: u16 = 0;
                    while x_line < 8
                        invariant
                            x_line <= 8,
                            num_rows == nib4(op),
                            y_line < num_rows,
                            num_rows > 0 ==> old(self)@.i_reg + num_rows <= RAM_SIZE,
                            x_coord == gxc as u16,
                            y_coord == gyc as u16,
                            pixels == old(self)@.ram[old(self)@.i_reg + y_line],
                            gypos == (gyc + y_line) % (SCREEN_HEIGHT as int),
                            self.wf(),
                            self@ == (EmuView { screen: self@.screen, ..old(self)@ }),
                            ({
                                let st = draw_row(row_st, pixels, gxc, gypos, x_line as int);
                                self@.screen == st.0 && flipped == st.1
                            }),
                        decreases 8 - x_line,
                    {
                        if (pixels & (0b1000_0000u8 >> x_line)) != 0 {
                            let x_pos = ((x_coord + x_line) as usize) % SCREEN_WIDTH;
                            let y_pos = ((y_coord + y_line) as usize) % SCREEN_HEIGHT;
                            let idx = x_pos + SCREEN_WIDTH * y_pos;
                            let cur = self.screen[idx];
                            flipped = flipped || cur;
                            self.screen[idx] = !cur;
                        }
                        x_line += 1;
                    }
                    y_line += 1;
                }
                if flipped {
                    self.v_reg[0xF] = 1;
                } else {
                    self.v_reg[0xF] = 0;
                }
            },
            // skip if key VX pressed
            (0xE, _, 9, 0xE) => {
                let vx = self.v_reg[x];
                let key = self.keys[vx as usize];
                if key {
                    self.pc += 2;
                }
            },
            // skip if key VX not pressed
            (0xE, _, 0xA, 1) => {
                let vx = self.v_reg[x];
                let key = self.keys[vx as usize];
                if !key {
                    self.pc += 2;
                }
            },
            // VX = delay timer
            (0xF, _, 0, 7) => {
                let dt = self.dt;
                self.v_reg[x] = dt;
            },
            // wait for a key: take the lowest pressed key, or rewind the
            // program counter so the same instruction is fetched next tick
            (0xF, _, 0, 0xA) => {
                let mut pressed = false;
                let mut i: usize = 0;
                while i < NUM_KEYS && !pressed
                    invariant
                        i <= NUM_KEYS,
                        x == nib2(op),
                        x < NUM_REGS,
                        self.wf(),
                        !pressed ==> self@ == old(self)@,
                        !pressed ==> forall|j: int| 0 <= j < i ==> !old(self)@.keys[j],
                        pressed ==> match first_pressed(old(self)@.keys, 0) {
                            Some(k) => self@ == (EmuView {
                                v_reg: old(self)@.v_reg.update(nib2(op) as int, k),
                                ..old(self)@
                            }),
                            None => false,
                        },
                    decreases NUM_KEYS - i,
                {
                    if self.keys[i] {
                        proof {
                            lemma_first_pressed_skip(old(self)@.keys, 0, i as int);
                        }
                        self.v_reg[x] = i as u8;
                        pressed = true;
                    }
                    i += 1;
                }
                if !pressed {
                    proof {
                        lemma_first_pressed_skip(old(self)@.keys, 0, NUM_KEYS as int);
                    }
                    self.pc -= 2;
                }
            },
            // delay timer = VX
            (0xF, _, 1, 5) => {
                let vx = self.v_reg[x];
                self.dt = vx;
            },
            // sound timer = VX
            (0xF, _, 1, 8) => {
                let vx = self.v_reg[x];
                self.st = vx;
            },
            // I += VX, wrapping
            (0xF, _, 1, 0xE) => {
                let sum = self.i_reg as u32 + self.v_reg[x] as u32;
                self.i_reg = (sum % 0x10000) as u16;
            },
            // I = font glyph address of digit VX
            (0xF, _, 2, 9) => {
                let vx = self.v_reg[x];
                self.i_reg = (vx * 5) as u16;
            },
            // binary-coded decimal of VX at I, I+1, I+2
            (0xF, _, 3, 3) => {
                let vx = self.v_reg[x];
                let base = self.i_reg as usize;
                self.ram[base] = vx / 100;
                self.ram[base + 1] = (vx / 10) % 10;
                self.ram[base + 2] = vx % 10;
            },
            // store registers 0..X (exclusive) at I
            (0xF, _, 5, 5) => {
                let base = self.i_reg as usize;
                let mut idx: usize = 0;
                while idx < x
                    invariant
                        idx <= x,
                        x == nib2(op),
                        x < NUM_REGS,
                        base == old(self)@.i_reg,
                        x > 0 ==> base + x <= RAM_SIZE,
                        self.wf(),
                        self@ == (EmuView { ram: self@.ram, ..old(self)@ }),
                        self@.ram == store_regs(
                            old(self)@.ram,
                            old(self)@.v_reg,
                            base as int,
                            idx as int,
                        ),
                    decreases x - idx,
                {
                    let val = self.v_reg[idx];
                    self.ram[base + idx] = val;
                    idx += 1;
                }
            },
            // load registers 0..X (exclusive) from I
            (0xF, _, 6, 5) => {
                let base = self.i_reg as usize;
                let mut idx: usize = 0;
                while idx < x
                    invariant
                        idx <= x,
                        x == nib2(op),
                        x < NUM_REGS,
                        base == old(self)@.i_reg,
                        x > 0 ==> base + x <= RAM_SIZE,
                        self.wf(),
                        self@ == (EmuView { v_reg: self@.v_reg, ..old(self)@ }),
                        self@.v_reg == load_regs(
                            old(self)@.v_reg,
                            old(self)@.ram,
                            base as int,
                            idx as int,
                        ),
                    decreases x - idx,
                {
                    let val = self.ram[base + idx];
                    self.v_reg[idx] = val;
                    idx += 1;
                }
            },
            // not an opcode of the machine; ruled out by the precondition
            (_, _, _, _) => {
                proof {
                    assert(false);
                }
            },
        }
    }

    /// One timer tick, at the display's frame cadence: each timer counts
    /// down by one and floors at zero. The tick that takes the sound timer
    /// from one to zero is the one on which a tone should sound.
    pub fn timer_tick(&mut self)
        requires
            old(self).wf(),
        ensures
            final(self).wf(),
            final(self)@ == crate::model::timer_step(old(self)@),
    {
        if self.dt > 0 {
            self.dt -= 1;
        }
        if self.st > 0 {
            if self.st == 1 {
                // a tone should sound on this tick; the presentation layer
                // owns making it audible
            }
            self.st -= 1;
        }
        proof {
            assert(self@ =~= crate::model::timer_step(old(self)@));
        }
    }

    /// The program counter.
    pub fn get_pc(&self) -> (r: u16)
        ensures
            r == self@.pc,
    {
        self.pc
    }

    /// The index register.
    pub fn get_index_reg(&self) -> (r: u16)
        ensures
            r == self@.i_reg,
    {
        self.i_reg
    }

    /// The stack pointer: how many return addresses are live.
    pub fn get_stack_pointer(&self) -> (r: u16)
        ensures
            r == self@.sp,
    {
        self.sp
    }

    /// The delay timer.
    pub fn get_delay_timer(&self) -> (r: u8)
        ensures
            r == self@.dt,
    {
        self.dt
    }

    /// The sound timer.
    pub fn get_sound_timer(&self) -> (r: u8)
        ensures
            r == self@.st,
    {
        self.st
    }

    /// General-purpose register `idx`.
    pub fn get_register(&self, idx: usize) -> (r: u8)
        requires
            self.wf(),
            idx < NUM_REGS,
        ensures
            r == self@.v_reg[idx as int],
    {
        self.v_reg[idx]
    }

    /// The pressed state of key `idx`.
    pub fn get_key(&self, idx: usize) -> (r: bool)
        requires
            self.wf(),
            idx < NUM_KEYS,
        ensures
            r == self@.keys[idx as int],
    {
        self.keys[idx]
    }

    /// The memory byte at `addr`.
    pub fn read_ram(&self, addr: usize) -> (r: u8)
        requires
            self.wf(),
            addr < RAM_SIZE,
        ensures
            r == self@.ram[addr as int],
    {
        self.ram[addr]
    }

    /// The stack entry at `idx` (live or not).
    pub fn read_stack(&self, idx: usize) -> (r: u16)
        requires
            self.wf(),
            idx < STACK_SIZE,
        ensures
            r == self@.stack[idx as int],
    {
        self.stack[idx]
    }
}

} // verus!
