//! What a host program needs to put the machine on a screen and a keyboard:
//! where the key that was pressed and a random byte go, and how the screen
//! memory becomes pixels.
//!
//! The programs that this serves keep a screen of 32 by 32 pixels in the
//! bytes from $0200 to $05FF, one byte for a pixel, row by row. They read the
//! last key from $FF and a random number from $FE.

use crate::cpu::CPU;
use crate::fault::Fault;
use crate::machine::Machine;
use rand::rngs::ThreadRng;
use rand::Rng;
use vstd::prelude::*;

verus! {

/// Where the program reads a random byte.
pub const RANDOM_ADDRESS: u16 = 0x00FE;

/// Where the program reads the key that was pressed last.
pub const KEY_ADDRESS: u16 = 0x00FF;

/// The first byte of the screen memory.
pub const SCREEN_START: u16 = 0x0200;

/// The number of pixels of the screen.
pub const SCREEN_PIXELS: usize = 1024;

/// The number of bytes of a frame: three for each pixel.
pub const FRAME_SIZE: usize = 3072;

/// The keys that the program listens to.
#[derive(Clone, Copy, Debug, PartialEq, Eq, Structural)]
pub enum Key {
    Up,
    Down,
    Left,
    Right,
}

/// The colours that the screen can show.
#[derive(Clone, Copy, Debug, PartialEq, Eq, Structural)]
pub enum Shade {
    Black,
    White,
    Grey,
    Red,
    Green,
    Blue,
    Magenta,
    Yellow,
    Cyan,
}

/// The byte that stands for a key: the letters `w`, `s`, `a` and `d`.
pub open spec fn key_code(key: Key) -> u8 {
    match key {
        Key::Up => 0x77,
        Key::Down => 0x73,
        Key::Left => 0x61,
        Key::Right => 0x64,
    }
}

/// The colour of a pixel that holds `byte`.
pub open spec fn shade_of(byte: u8) -> Shade {
    match byte {
        0 => Shade::Black,
        1 => Shade::White,
        2 | 9 => Shade::Grey,
        3 | 10 => Shade::Red,
        4 | 11 => Shade::Green,
        5 | 12 => Shade::Blue,
        6 | 13 => Shade::Magenta,
        7 | 14 => Shade::Yellow,
        _ => Shade::Cyan,
    }
}

/// Red, green and blue of a colour.
pub open spec fn rgb_of(shade: Shade) -> (u8, u8, u8) {
    match shade {
        Shade::Black => (0, 0, 0),
        Shade::White => (255, 255, 255),
        Shade::Grey => (128, 128, 128),
        Shade::Red => (255, 0, 0),
        Shade::Green => (0, 255, 0),
        Shade::Blue => (0, 0, 255),
        Shade::Magenta => (255, 0, 255),
        Shade::Yellow => (255, 255, 0),
        Shade::Cyan => (0, 255, 255),
    }
}

/// The byte at the place `index` of the frame that shows the screen memory
/// of `machine`: pixel after pixel, and red, green and blue of each.
pub open spec fn frame_byte(machine: Machine, index: int) -> u8 {
    let rgb = rgb_of(shade_of(machine.mem.ram[SCREEN_START + index / 3]));
    if index % 3 == 0 {
        rgb.0
    } else if index % 3 == 1 {
        rgb.1
    } else {
        rgb.2
    }
}

/// The frame that shows the screen memory of `machine`.
pub open spec fn frame_of(machine: Machine) -> Seq<u8> {
    Seq::new(FRAME_SIZE as nat, |index: int| frame_byte(machine, index))
}

/// The byte that stands for a key.
pub fn code_of(key: Key) -> (code: u8)
    ensures
        code == key_code(key),
{
    match key {
        Key::Up => 0x77,
        Key::Down => 0x73,
        Key::Left => 0x61,
        Key::Right => 0x64,
    }
}

/// Tells the program that a key was pressed.
pub fn handle_user_input(cpu: &mut CPU, key: Key)
    ensures
        old(cpu)@.write(KEY_ADDRESS, key_code(key)) == Ok::<Machine, Fault>(final(cpu)@),
{
    cpu.write_ram(KEY_ADDRESS, code_of(key));
}

/// The generator of random numbers that `rand::thread_rng` hands out. What
/// it holds is not known here.
#[verifier::external_type_specification]
#[verifier::external_body]
pub struct ExThreadRng(rand::rngs::ThreadRng);

/// Draws a random byte.
///
/// This is `Rng::gen_range` of the crate `rand`, taken on trust: it gives a
/// number from `low` up to, but not including, `high`, and panics where
/// `low` is not below `high`. Which number it gives is left open.
#[verifier::external_body]
fn gen_range(rng: &mut ThreadRng, low: u8, high: u8) -> (byte: u8)
    requires
        low < high,
    ensures
        low <= byte < high,
{
    rng.gen_range(low, high)
}

/// Gives the program the byte `byte` to read as its random number.
pub fn feed_byte(cpu: &mut CPU, byte: u8)
    ensures
        old(cpu)@.write(RANDOM_ADDRESS, byte) == Ok::<Machine, Fault>(final(cpu)@),
{
    cpu.write_ram(RANDOM_ADDRESS, byte);
}

/// Gives the program a random number from 1 to 15 to read.
pub fn feed_random(cpu: &mut CPU, rng: &mut ThreadRng)
    ensures
        exists|byte: u8|
            1 <= byte < 16 && #[trigger] old(cpu)@.write(RANDOM_ADDRESS, byte) == Ok::<
                Machine,
                Fault,
            >(final(cpu)@),
{
    let byte = gen_range(rng, 1, 16);
    feed_byte(cpu, byte);
}

/// The colour of a pixel that holds `byte`.
pub fn color(byte: u8) -> (shade: Shade)
    ensures
        shade == shade_of(byte),
{
    match byte {
        0 => Shade::Black,
        1 => Shade::White,
        2 | 9 => Shade::Grey,
        3 | 10 => Shade::Red,
        4 | 11 => Shade::Green,
        5 | 12 => Shade::Blue,
        6 | 13 => Shade::Magenta,
        7 | 14 => Shade::Yellow,
        _ => Shade::Cyan,
    }
}

impl Shade {
    /// Red, green and blue of the colour.
    pub fn rgb(self) -> (rgb: (u8, u8, u8))
        ensures
            rgb == rgb_of(self),
    {
        match self {
            Shade::Black => (0, 0, 0),
            Shade::White => (255, 255, 255),
            Shade::Grey => (128, 128, 128),
            Shade::Red => (255, 0, 0),
            Shade::Green => (0, 255, 0),
            Shade::Blue => (0, 0, 255),
            Shade::Magenta => (255, 0, 255),
            Shade::Yellow => (255, 255, 0),
            Shade::Cyan => (0, 255, 255),
        }
    }
}

/// Brings `frame` up to what the screen memory holds, and says whether that
/// changed any of its bytes.
pub fn read_screen_state(cpu: &CPU, frame: &mut [u8; 3072]) -> (update: bool)
    ensures
        final(frame)@ == frame_of(cpu@),
        update == (old(frame)@ != final(frame)@),
{
    let mut frame_idx: usize = 0;
    let mut update = false;
    let mut pixel: u16 = 0;
    proof {
        cpu.lemma_wf();
    }
    while pixel < 1024
        invariant
            pixel <= 1024,
            frame_idx == 3 * pixel,
            cpu@.wf(),
            forall|j: int| 0 <= j < frame_idx ==> frame@[j] == frame_byte(cpu@, j),
            forall|j: int| frame_idx <= j < FRAME_SIZE ==> frame@[j] == old(frame)@[j],
            update == exists|j: int| 0 <= j < frame_idx && old(frame)@[j] != frame_byte(cpu@, j),
        decreases 1024 - pixel,
    {
        let color_idx = cpu.read_ram(SCREEN_START + pixel);
        let (b1, b2, b3) = color(color_idx).rgb();
        let ghost before = frame_idx as int;
        let ghost earlier = update;
        assert(frame_byte(cpu@, before) == b1);
        assert(frame_byte(cpu@, before + 1) == b2);
        assert(frame_byte(cpu@, before + 2) == b3);
        if frame[frame_idx] != b1 || frame[frame_idx + 1] != b2 || frame[frame_idx + 2] != b3 {
            frame[frame_idx] = b1;
            frame[frame_idx + 1] = b2;
            frame[frame_idx + 2] = b3;
            update = true;
        }
        frame_idx += 3;
        pixel += 1;
        proof {
            if earlier {
                let j = choose|j: int| 0 <= j < before && old(frame)@[j] != frame_byte(cpu@, j);
                assert(0 <= j < frame_idx && old(frame)@[j] != frame_byte(cpu@, j));
            }
        }
    }
    assert(frame@ =~= frame_of(cpu@));
    proof {
        if update {
            let j = choose|j: int| 0 <= j < FRAME_SIZE && old(frame)@[j] != frame_byte(cpu@, j);
            assert(old(frame)@[j] != frame@[j]);
        } else {
            assert(old(frame)@ =~= frame@);
        }
    }
    update
}

} // verus!
