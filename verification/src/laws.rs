//! Laws of the machine that relate several operations, proved once and for
//! all from the transition functions of `crate::model`.

use vstd::prelude::*;

use crate::model::EmuView;
use crate::model::NUM_KEYS;
use crate::model::RAM_SIZE;
use crate::model::SCREEN_HEIGHT;
use crate::model::after_fetch;
use crate::model::draw_row;
use crate::model::draw_rows;
use crate::model::first_pressed;
use crate::model::lemma_first_pressed_skip;
use crate::model::low_addr;
use crate::model::nib1;
use crate::model::nib2;
use crate::model::nib3;
use crate::model::nib4;
use crate::model::pix_index;
use crate::model::spr_bit;
use crate::model::tick_ok;
use crate::model::tick_step;
use crate::model::word_at;

verus! {

/// Key-wait blocks: when the instruction at the program counter is the
/// wait-for-key opcode (FX0A) and no key is pressed, one tick leaves the
/// whole machine state exactly as it was — the fetch advances the program
/// counter by two and the handler rewinds it by two, so the same instruction
/// is fetched again on the next tick.
pub proof fn lemma_key_wait_blocks(s: EmuView, rb: u8)
    requires
        s.wf(),
        tick_ok(s),
        nib1(word_at(s)) == 0xF,
        nib3(word_at(s)) == 0,
        nib4(word_at(s)) == 0xA,
        forall|j: int| 0 <= j < NUM_KEYS ==> !s.keys[j],
    ensures
        tick_step(s, rb) == s,
{
    lemma_first_pressed_skip(s.keys, 0, NUM_KEYS as int);
    assert(first_pressed(s.keys, 0) is None);
    assert(tick_step(s, rb) =~= s);
}

/// Key-wait resolves: when the instruction at the program counter is the
/// wait-for-key opcode (FX0A) and some key is pressed, one tick stores the
/// lowest-index pressed key in register X and nets a program-counter advance
/// of one instruction; nothing else changes.
pub proof fn lemma_key_wait_takes_lowest(s: EmuView, rb: u8, k: u8)
    requires
        s.wf(),
        tick_ok(s),
        nib1(word_at(s)) == 0xF,
        nib3(word_at(s)) == 0,
        nib4(word_at(s)) == 0xA,
        first_pressed(s.keys, 0) == Some(k),
    ensures
        tick_step(s, rb) == (EmuView {
            pc: (s.pc + 2) as u16,
            v_reg: s.v_reg.update(nib2(word_at(s)) as int, k),
            ..s
        }),
{
    assert(tick_step(s, rb) =~= (EmuView {
        pc: (s.pc + 2) as u16,
        v_reg: s.v_reg.update(nib2(word_at(s)) as int, k),
        ..s
    }));
}

/// Call/return round trip: when the instruction at the program counter is a
/// subroutine call (2NNN) and the subroutine body is a single return (00EE),
/// two ticks net one instruction's advance of the program counter and leave
/// the stack pointer where it was; the only other trace is the return
/// address parked in the stack slot the call used.
pub proof fn lemma_call_return_round_trip(s: EmuView, rb1: u8, rb2: u8)
    requires
        s.wf(),
        tick_ok(s),
        nib1(word_at(s)) == 2,
        low_addr(word_at(s)) + 1 < RAM_SIZE,
        s.ram[low_addr(word_at(s)) as int] == 0x00u8,
        s.ram[low_addr(word_at(s)) + 1] == 0xEEu8,
    ensures
        tick_step(tick_step(s, rb1), rb2) == (EmuView {
            pc: (s.pc + 2) as u16,
            stack: s.stack.update(s.sp as int, (s.pc + 2) as u16),
            ..s
        }),
{
    let w = word_at(s);
    let target = low_addr(w);
    let s1 = tick_step(s, rb1);
    assert(s1 =~= (EmuView {
        pc: target,
        stack: s.stack.update(s.sp as int, (s.pc + 2) as u16),
        sp: (s.sp + 1) as u16,
        ..s
    }));
    assert(((0x00u16 << 8u16) | 0xEEu16) == 0xEEu16) by (bit_vector);
    assert(word_at(s1) == 0xEEu16);
    assert(nib1(0xEEu16) == 0 && nib2(0xEEu16) == 0 && nib3(0xEEu16) == 0xE && nib4(0xEEu16)
        == 0xE) by (bit_vector);
    assert(tick_step(s1, rb2) =~= (EmuView {
        pc: (s.pc + 2) as u16,
        stack: s.stack.update(s.sp as int, (s.pc + 2) as u16),
        ..s
    }));
}

/// Draw collision, exactly: a draw of a one-row, one-bit-wide sprite (the
/// single leftmost bit set) XOR-toggles exactly its target pixel, and the
/// flag register reports precisely the state that pixel had before the
/// toggle — on if and only if the draw collided. Drawing the same sprite at
/// the same coordinates twice therefore first turns the pixel on with the
/// flag clear, then turns it back off with the flag set.
pub proof fn lemma_draw_single_bit(s: EmuView, rb: u8)
    requires
        s.wf(),
        tick_ok(s),
        nib1(word_at(s)) == 0xD,
        nib4(word_at(s)) == 1,
        s.ram[s.i_reg as int] == 0x80u8,
    ensures
        ({
            let w = word_at(s);
            let xc = s.v_reg[nib2(w) as int];
            let ypos = (s.v_reg[nib3(w) as int] as int) % (SCREEN_HEIGHT as int);
            let idx = pix_index(xc, 0, ypos);
            tick_step(s, rb) == (EmuView {
                pc: (s.pc + 2) as u16,
                screen: s.screen.update(idx, !s.screen[idx]),
                v_reg: s.v_reg.update(
                    0xF,
                    if s.screen[idx] {
                        1u8
                    } else {
                        0u8
                    },
                ),
                ..s
            })
        }),
{
    let w = word_at(s);
    let a = after_fetch(s);
    let xc = s.v_reg[nib2(w) as int];
    let yc = s.v_reg[nib3(w) as int];
    let ypos = (yc as int) % (SCREEN_HEIGHT as int);
    let idx = pix_index(xc, 0, ypos);
    let st0 = (s.screen, false);

    assert(spr_bit(0x80u8, 0u16)) by (bit_vector);
    assert(forall|c: u16| 1 <= c < 8 ==> !spr_bit(0x80u8, c)) by (bit_vector);

    assert(draw_row(st0, 0x80u8, xc, ypos, 0) == st0);
    assert(draw_rows(st0, a.ram, a.i_reg, xc, yc, 0) == st0);
    assert(draw_row(st0, 0x80u8, xc, ypos, 1) == (
        s.screen.update(idx, !s.screen[idx]),
        s.screen[idx],
    ));
    assert(draw_row(st0, 0x80u8, xc, ypos, 2) == draw_row(st0, 0x80u8, xc, ypos, 1));
    assert(draw_row(st0, 0x80u8, xc, ypos, 3) == draw_row(st0, 0x80u8, xc, ypos, 2));
    assert(draw_row(st0, 0x80u8, xc, ypos, 4) == draw_row(st0, 0x80u8, xc, ypos, 3));
    assert(draw_row(st0, 0x80u8, xc, ypos, 5) == draw_row(st0, 0x80u8, xc, ypos, 4));
    assert(draw_row(st0, 0x80u8, xc, ypos, 6) == draw_row(st0, 0x80u8, xc, ypos, 5));
    assert(draw_row(st0, 0x80u8, xc, ypos, 7) == draw_row(st0, 0x80u8, xc, ypos, 6));
    assert(draw_row(st0, 0x80u8, xc, ypos, 8) == draw_row(st0, 0x80u8, xc, ypos, 7));
    assert(draw_row(st0, 0x80u8, xc, ypos, 8) == draw_row(st0, 0x80u8, xc, ypos, 1));
    assert(draw_rows(st0, a.ram, a.i_reg, xc, yc, 1) == draw_row(st0, 0x80u8, xc, ypos, 8));
    assert(tick_step(s, rb) =~= (EmuView {
        pc: (s.pc + 2) as u16,
        screen: s.screen.update(idx, !s.screen[idx]),
        v_reg: s.v_reg.update(
            0xF,
            if s.screen[idx] {
                1u8
            } else {
                0u8
            },
        ),
        ..s
    }));
}

} // verus!
