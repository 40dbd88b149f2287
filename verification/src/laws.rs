//! What holds of the machine in every state: theorems about the semantics,
//! each proved from the definitions that the contracts of the machine use.

use vstd::prelude::*;
use crate::display::{
    collides, drawn, flips, lemma_pixel_under, pixel_under, row_bit, sprite_at, sprite_column,
    sprite_row,
};
use crate::fault::Fault;
use crate::instruction::{decode_spec, decoded_is_valid, Instruction};
use crate::semantics::{
    any_pressed, can_fetch, effect, fetched, is_lowest_pressed, lowest_pressed_is_unique,
    next_draws_random, run, step, timers_ticked, trap_of,
};
use crate::state::{MachineState, DISPLAY_SIZE, START_ADDR};

verus! {

/// Whether no pixel of a display is lit.
pub open spec fn blank(display: Seq<bool>) -> bool {
    forall|p: int| 0 <= p < display.len() ==> !display[p]
}

/// Whether a sprite has a set bit at all.
pub open spec fn has_set_bit(sprite: Seq<u8>) -> bool {
    exists|r: int, c: int| 0 <= r < sprite.len() && 0 <= c < 8 && #[trigger] row_bit(sprite[r], c)
}

/// The power-up state is well formed, starts at `0x200` and shows nothing.
pub proof fn initial_state_is_blank()
    ensures
        MachineState::initial().wf(),
        MachineState::initial().pc == START_ADDR,
        blank(MachineState::initial().display),
{
}

/// A cycle that fetches an instruction which does not trap is the effect of
/// that instruction on the state with the program counter moved past it.
/// What is stated below of the effect of an instruction therefore holds of
/// the cycle that executes it.
pub proof fn cycle_is_effect_after_fetch(s: MachineState, instruction: Instruction, random: u8)
    requires
        can_fetch(s),
        decode_spec(s.next_opcode()) == Some(instruction),
        trap_of(fetched(s), instruction) is None,
    ensures
        step(s, random) == Ok::<MachineState, Fault>(effect(fetched(s), instruction, random)),
        fetched(s).pc == s.pc + 2,
{
}

/// An instruction that does not trap takes a well-formed state to a
/// well-formed state: every component keeps its size and the stack depth
/// stays within the sixteen entries.
pub proof fn effect_preserves_wf(s: MachineState, instruction: Instruction, random: u8)
    requires
        s.wf(),
        instruction.valid(),
        trap_of(s, instruction) is None,
    ensures
        effect(s, instruction, random).wf(),
{
}

/// A cycle takes a well-formed state to a well-formed state.
pub proof fn step_preserves_wf(s: MachineState, random: u8)
    requires
        s.wf(),
    ensures
        step(s, random) matches Ok(next) ==> next.wf(),
{
    if can_fetch(s) {
        let op = s.next_opcode();
        if let Some(instruction) = decode_spec(op) {
            decoded_is_valid(op);
            if trap_of(fetched(s), instruction) is None {
                effect_preserves_wf(fetched(s), instruction, random);
            }
        }
    }
}

/// Only the random instruction looks at the random byte: a cycle that does
/// not execute it comes out the same whatever the byte.
pub proof fn step_ignores_random(s: MachineState, random: u8, other: u8)
    requires
        !next_draws_random(s),
    ensures
        step(s, random) == step(s, other),
{
}

/// Whether an instruction sets the program counter itself: the jumps, call
/// and return, the skips, and the wait for a key, which may step back.
pub open spec fn sets_pc(instruction: Instruction) -> bool {
    match instruction {
        Instruction::Return
        | Instruction::Jump { .. }
        | Instruction::Call { .. }
        | Instruction::JumpOffset { .. }
        | Instruction::SkipIfEqualByte { .. }
        | Instruction::SkipIfNotEqualByte { .. }
        | Instruction::SkipIfEqual { .. }
        | Instruction::SkipIfNotEqual { .. }
        | Instruction::SkipIfKeyDown { .. }
        | Instruction::SkipIfKeyUp { .. }
        | Instruction::WaitKey { .. } => true,
        _ => false,
    }
}

/// A cycle that goes through moves the program counter on by exactly 2,
/// unless the instruction is one that sets the program counter itself.
pub proof fn plain_instruction_advances_pc(s: MachineState, random: u8)
    requires
        can_fetch(s),
        decode_spec(s.next_opcode()) matches Some(instruction) && !sets_pc(instruction),
    ensures
        step(s, random) matches Ok(next) ==> next.pc == s.pc + 2,
{
}

/// A tick of the timers never wraps a timer around: each goes down by one
/// and stays at zero once it is there.
pub proof fn timers_stop_at_zero(s: MachineState)
    ensures
        timers_ticked(s).delay_timer <= s.delay_timer,
        timers_ticked(s).sound_timer <= s.sound_timer,
        s.delay_timer == 0 ==> timers_ticked(s).delay_timer == 0,
        s.sound_timer == 0 ==> timers_ticked(s).sound_timer == 0,
{
}

/// Adding a constant to a register wraps modulo 256 and leaves the flag
/// register alone, unless the flag register is the one added to.
pub proof fn add_byte_keeps_flag(s: MachineState, x: u8, byte: u8, random: u8)
    requires
        s.wf(),
        x < 15,
    ensures
        effect(s, Instruction::AddByte { x, byte }, random).v[0xF] == s.v[0xF],
        effect(s, Instruction::AddByte { x, byte }, random).v[x as int] == (s.v[x as int] + byte)
            % 256,
{
}

/// The random instruction keeps of the random byte only the bits that its
/// mask has: the register ends up with no bit outside the mask.
pub proof fn random_is_masked(s: MachineState, x: u8, byte: u8, random: u8)
    requires
        s.wf(),
        x < 16,
    ensures
        effect(s, Instruction::Random { x, byte }, random).v[x as int] & byte == effect(
            s,
            Instruction::Random { x, byte },
            random,
        ).v[x as int],
        effect(s, Instruction::Random { x, byte }, random).v[x as int] <= byte,
{
    assert((random & byte) & byte == random & byte) by (bit_vector);
    assert(random & byte <= byte) by (bit_vector);
}

/// The three bytes that the decimal store writes are the decimal digits of
/// `Vx`: each is below ten and together they make up the value.
pub proof fn stored_decimal_digits_make_up_the_value(s: MachineState, x: u8, random: u8)
    requires
        s.wf(),
        x < 16,
        trap_of(s, Instruction::StoreDecimal { x }) is None,
    ensures
        ({
            let memory = effect(s, Instruction::StoreDecimal { x }, random).memory;
            &&& memory[s.i as int] < 10
            &&& memory[s.i + 1] < 10
            &&& memory[s.i + 2] < 10
            &&& memory[s.i as int] * 100 + memory[s.i + 1] * 10 + memory[s.i + 2] == s.v[x as int]
        }),
{
}

/// The clear-screen opcode turns every pixel off and, but for the program
/// counter, touches nothing else.
pub proof fn clear_screen_blanks_display(s: MachineState, random: u8)
    requires
        can_fetch(s),
        s.next_opcode() == 0x00E0,
    ensures
        step(s, random) == Ok::<MachineState, Fault>(
            MachineState {
                pc: (s.pc + 2) as u16,
                display: Seq::new(DISPLAY_SIZE as nat, |p: int| false),
                ..s
            },
        ),
        step(s, random) matches Ok(next) && blank(next.display),
{
}

/// The pixels that a sprite of at most 32 rows flips are those under its set
/// bits: the bit at column `c` of row `r` lands on column `x0 + c` modulo 64
/// of row `y0 + r` modulo 32, so a sprite that reaches past an edge comes
/// back in on the other side.
pub proof fn flipped_pixels_lie_under_set_bits(sprite: Seq<u8>, x0: int, y0: int, p: int)
    requires
        sprite.len() <= 32,
        0 <= p < DISPLAY_SIZE,
    ensures
        flips(sprite, x0, y0, p) <==> exists|r: int, c: int|
            0 <= r < sprite.len() && 0 <= c < 8 && row_bit(sprite[r], c) && p == #[trigger] pixel_under(
                x0,
                y0,
                r,
                c,
            ),
{
    if flips(sprite, x0, y0, p) {
        let r = sprite_row(y0, p);
        let c = sprite_column(x0, p);
        lemma_pixel_under(x0, y0, r, c, p);
        assert(p == pixel_under(x0, y0, r, c));
    }
    if exists|r: int, c: int|
        0 <= r < sprite.len() && 0 <= c < 8 && row_bit(sprite[r], c) && p == #[trigger] pixel_under(
            x0,
            y0,
            r,
            c,
        ) {
        let (r, c) = choose|r: int, c: int|
            0 <= r < sprite.len() && 0 <= c < 8 && row_bit(sprite[r], c) && p
                == #[trigger] pixel_under(x0, y0, r, c);
        lemma_pixel_under(x0, y0, r, c, p);
    }
}

/// Drawing a sprite twice at the same place gives back the display as it
/// was: every pixel the sprite touches is flipped and flipped back.
pub proof fn drawing_twice_restores(display: Seq<bool>, sprite: Seq<u8>, x0: int, y0: int)
    ensures
        drawn(drawn(display, sprite, x0, y0), sprite, x0, y0) == display,
{
}

/// Drawing onto a blank display turns no pixel off.
pub proof fn drawing_on_blank_has_no_collision(
    display: Seq<bool>,
    sprite: Seq<u8>,
    x0: int,
    y0: int,
)
    requires
        blank(display),
    ensures
        !collides(display, sprite, x0, y0),
{
}

/// A sprite of at most 32 rows with a set bit flips some pixel of the
/// display wherever it is drawn.
pub proof fn sprite_with_bit_flips_a_pixel(sprite: Seq<u8>, x0: int, y0: int) -> (p: int)
    requires
        sprite.len() <= 32,
        has_set_bit(sprite),
    ensures
        0 <= p < DISPLAY_SIZE,
        flips(sprite, x0, y0, p),
{
    let (r, c) = choose|r: int, c: int|
        0 <= r < sprite.len() && 0 <= c < 8 && #[trigger] row_bit(sprite[r], c);
    let p = pixel_under(x0, y0, r, c);
    lemma_pixel_under(x0, y0, r, c, p);
    p
}

/// Drawing a sprite that has a set bit a second time at the same place on a
/// display that was blank before the first draw turns a pixel off.
pub proof fn second_draw_collides(display: Seq<bool>, sprite: Seq<u8>, x0: int, y0: int)
    requires
        display.len() == DISPLAY_SIZE,
        blank(display),
        sprite.len() <= 32,
        has_set_bit(sprite),
    ensures
        collides(drawn(display, sprite, x0, y0), sprite, x0, y0),
{
    let p = sprite_with_bit_flips_a_pixel(sprite, x0, y0);
    assert(drawn(display, sprite, x0, y0)[p]);
}

/// The draw instruction run twice with the same coordinates restores the
/// display. On a display that was blank, the first draw leaves `VF` at 0,
/// and the second sets it to 1 if the sprite has a set bit at all.
///
/// The coordinates are the same both times whenever neither of them is taken
/// from `VF`, which the first draw overwrites.
pub proof fn draw_twice_restores_display(
    s: MachineState,
    x: u8,
    y: u8,
    rows: u8,
    random: u8,
    other: u8,
)
    requires
        s.wf(),
        x < 16,
        y < 16,
        rows < 16,
        trap_of(s, Instruction::Draw { x, y, rows }) is None,
        // the second draw is at the same coordinates as the first
        effect(s, Instruction::Draw { x, y, rows }, random).v[x as int] == s.v[x as int],
        effect(s, Instruction::Draw { x, y, rows }, random).v[y as int] == s.v[y as int],
    ensures
        ({
            let draw = Instruction::Draw { x, y, rows };
            let once = effect(s, draw, random);
            let twice = effect(once, draw, other);
            &&& trap_of(once, draw) is None
            &&& twice.display == s.display
            &&& blank(s.display) ==> once.v[0xF] == 0
            &&& blank(s.display) && has_set_bit(sprite_at(s.memory, s.i as int, rows as int))
                ==> twice.v[0xF] == 1
        }),
{
    let draw = Instruction::Draw { x, y, rows };
    let sprite = sprite_at(s.memory, s.i as int, rows as int);
    let x0 = s.v[x as int] as int;
    let y0 = s.v[y as int] as int;
    let once = effect(s, draw, random);
    drawing_twice_restores(s.display, sprite, x0, y0);
    if blank(s.display) {
        drawing_on_blank_has_no_collision(s.display, sprite, x0, y0);
        if has_set_bit(sprite) {
            second_draw_collides(s.display, sprite, x0, y0);
        }
    }
}

/// With no key down, a cycle on the wait-for-key instruction changes
/// nothing at all: the program counter is back on the instruction.
pub proof fn wait_key_stalls(s: MachineState, x: u8, random: u8)
    requires
        can_fetch(s),
        decode_spec(s.next_opcode()) == Some(Instruction::WaitKey { x }),
        !any_pressed(s.keys),
    ensures
        step(s, random) == Ok::<MachineState, Fault>(s),
{
    assert(effect(fetched(s), Instruction::WaitKey { x }, random) =~= s);
}

/// With no key down, the machine stays on the wait-for-key instruction for
/// as many cycles as are run.
pub proof fn wait_key_stalls_forever(s: MachineState, x: u8, randoms: Seq<u8>)
    requires
        can_fetch(s),
        decode_spec(s.next_opcode()) == Some(Instruction::WaitKey { x }),
        !any_pressed(s.keys),
    ensures
        run(s, randoms) == Ok::<MachineState, Fault>(s),
    decreases randoms.len(),
{
    if randoms.len() > 0 {
        wait_key_stalls(s, x, randoms[0]);
        wait_key_stalls_forever(s, x, randoms.drop_first());
    }
}

/// With keys down, a cycle on the wait-for-key instruction stores the index
/// of the lowest of them in `Vx` and moves on to the next instruction.
pub proof fn wait_key_resumes(s: MachineState, x: u8, k: int, random: u8)
    requires
        s.wf(),
        can_fetch(s),
        decode_spec(s.next_opcode()) == Some(Instruction::WaitKey { x }),
        is_lowest_pressed(s.keys, k),
    ensures
        step(s, random) == Ok::<MachineState, Fault>(fetched(s).with_register(x as int, k as u8)),
        fetched(s).pc == s.pc + 2,
{
    lowest_pressed_is_unique(s.keys, k);
}

/// Storing `V0..=Vx` and loading them back from the same address gives the
/// registers the values they had, whatever happened to the registers in
/// between: `t` is any state with the memory the store left and the same `I`.
pub proof fn store_then_load_round_trips(
    s: MachineState,
    t: MachineState,
    x: u8,
    random: u8,
    other: u8,
)
    requires
        s.wf(),
        t.wf(),
        x < 16,
        trap_of(s, Instruction::StoreRegisters { x }) is None,
        t.memory == effect(s, Instruction::StoreRegisters { x }, random).memory,
        t.i == s.i,
    ensures
        trap_of(t, Instruction::LoadRegisters { x }) is None,
        forall|k: int|
            0 <= k <= x ==> effect(t, Instruction::LoadRegisters { x }, other).v[k] == s.v[k],
        t.v == s.v ==> effect(t, Instruction::LoadRegisters { x }, other).v == s.v,
{
}

} // verus!
