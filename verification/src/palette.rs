//! Palette generation: an ordered ramp of RGB triples per fire type.
//!
//! Index 0 is the coolest colour (the background, which an override may
//! replace) and the last index is the hottest; the ramp interpolates four
//! anchor colours in fixed-point integer arithmetic. The aurora-like type's
//! anchors depend on the clock phase, so regenerating its palette each frame
//! animates the colours; every other type's ramp is independent of the phase.

use vstd::prelude::*;
use crate::fire_type::FireType;

verus! {

/// Number of entries in every generated palette. Heat indices always lie in
/// `[0, PALETTE_LEN)`, which fits comfortably in a byte.
pub const PALETTE_LEN: usize = 64;

#[derive(Clone, Copy, Debug, PartialEq, Eq, Structural)]
pub struct Rgb {
    pub r: u8,
    pub g: u8,
    pub b: u8,
}

/// A triangle wave over `[0, 255]` with period 512, used to drift the
/// animated anchors smoothly back and forth.
pub open spec fn tri_wave(x: int) -> int {
    let m = x % 512;
    if m < 256 {
        m
    } else {
        511 - m
    }
}

fn tri_wave_exec(x: u64) -> (r: u64)
    ensures
        r == tri_wave(x as int),
        r <= 255,
{
    let m = x % 512;
    if m < 256 {
        m
    } else {
        511 - m
    }
}

/// The animated type's anchors drift with this scaled, wrapped phase.
pub open spec fn aurora_phase(phase: u64) -> int {
    ((phase as int) % 64) * 8
}

fn aurora_phase_exec(phase: u64) -> (r: u64)
    ensures
        r == aurora_phase(phase),
        r <= 504,
{
    (phase % 64) * 8
}

/// The four anchor colours of a fire type's ramp, cold to hot.
pub open spec fn anchor(ft: FireType, phase: u64, k: int) -> Rgb {
    match ft {
        FireType::Original => [
            Rgb { r: 0, g: 0, b: 0 },
            Rgb { r: 170, g: 20, b: 0 },
            Rgb { r: 230, g: 120, b: 0 },
            Rgb { r: 255, g: 255, b: 180 },
        ][k],
        FireType::Blue => [
            Rgb { r: 0, g: 0, b: 0 },
            Rgb { r: 0, g: 30, b: 120 },
            Rgb { r: 40, g: 120, b: 220 },
            Rgb { r: 200, g: 240, b: 255 },
        ][k],
        FireType::Rainbow => [
            Rgb { r: 60, g: 0, b: 90 },
            Rgb { r: 0, g: 90, b: 200 },
            Rgb { r: 0, g: 200, b: 80 },
            Rgb { r: 255, g: 60, b: 60 },
        ][k],
        FireType::Green => [
            Rgb { r: 0, g: 0, b: 0 },
            Rgb { r: 0, g: 80, b: 0 },
            Rgb { r: 60, g: 190, b: 40 },
            Rgb { r: 220, g: 255, b: 180 },
        ][k],
        FireType::Purple => [
            Rgb { r: 0, g: 0, b: 0 },
            Rgb { r: 70, g: 0, b: 110 },
            Rgb { r: 150, g: 60, b: 200 },
            Rgb { r: 255, g: 210, b: 255 },
        ][k],
        FireType::WhiteHot => [
            Rgb { r: 0, g: 0, b: 0 },
            Rgb { r: 90, g: 90, b: 90 },
            Rgb { r: 180, g: 180, b: 180 },
            Rgb { r: 255, g: 255, b: 255 },
        ][k],
        FireType::White => [
            Rgb { r: 0, g: 0, b: 0 },
            Rgb { r: 60, g: 60, b: 70 },
            Rgb { r: 150, g: 150, b: 160 },
            Rgb { r: 255, g: 255, b: 255 },
        ][k],
        FireType::Ice => [
            Rgb { r: 0, g: 0, b: 0 },
            Rgb { r: 0, g: 60, b: 90 },
            Rgb { r: 90, g: 180, b: 220 },
            Rgb { r: 230, g: 250, b: 255 },
        ][k],
        FireType::Toxic => [
            Rgb { r: 0, g: 0, b: 0 },
            Rgb { r: 40, g: 90, b: 0 },
            Rgb { r: 130, g: 220, b: 0 },
            Rgb { r: 240, g: 255, b: 120 },
        ][k],
        FireType::FireAndIce => [
            Rgb { r: 0, g: 20, b: 80 },
            Rgb { r: 60, g: 120, b: 200 },
            Rgb { r: 230, g: 120, b: 40 },
            Rgb { r: 255, g: 230, b: 120 },
        ][k],
        FireType::ChemicalFire => [
            Rgb { r: 0, g: 0, b: 0 },
            Rgb { r: 0, g: 140, b: 90 },
            Rgb { r: 190, g: 0, b: 190 },
            Rgb { r: 255, g: 255, b: 120 },
        ][k],
        FireType::Cyberpunk => [
            Rgb { r: 10, g: 0, b: 40 },
            Rgb { r: 180, g: 0, b: 130 },
            Rgb { r: 0, g: 200, b: 230 },
            Rgb { r: 255, g: 240, b: 180 },
        ][k],
        FireType::Aurora => [
            Rgb { r: 0, g: 0, b: 0 },
            Rgb {
                r: (tri_wave(aurora_phase(phase)) / 4) as u8,
                g: (120 + tri_wave(aurora_phase(phase)) / 4) as u8,
                b: 80,
            },
            Rgb {
                r: (tri_wave(aurora_phase(phase) + 170) / 2) as u8,
                g: 180,
                b: (120 + tri_wave(aurora_phase(phase) + 340) / 4) as u8,
            },
            Rgb { r: 200, g: 255, b: 220 },
        ][k],
        FireType::Plasma => [
            Rgb { r: 0, g: 0, b: 40 },
            Rgb { r: 120, g: 0, b: 160 },
            Rgb { r: 255, g: 80, b: 120 },
            Rgb { r: 255, g: 230, b: 200 },
        ][k],
        FireType::Void => [
            Rgb { r: 0, g: 0, b: 0 },
            Rgb { r: 30, g: 0, b: 50 },
            Rgb { r: 80, g: 20, b: 120 },
            Rgb { r: 160, g: 120, b: 200 },
        ][k],
        FireType::Candy => [
            Rgb { r: 40, g: 0, b: 40 },
            Rgb { r: 230, g: 60, b: 150 },
            Rgb { r: 90, g: 200, b: 230 },
            Rgb { r: 255, g: 250, b: 200 },
        ][k],
    }
}

fn anchor_exec(ft: FireType, phase: u64, k: usize) -> (r: Rgb)
    requires
        k <= 3,
    ensures
        r == anchor(ft, phase, k as int),
{
    match ft {
        FireType::Original => {
            if k == 0 { Rgb { r: 0, g: 0, b: 0 } }
            else if k == 1 { Rgb { r: 170, g: 20, b: 0 } }
            else if k == 2 { Rgb { r: 230, g: 120, b: 0 } }
            else { Rgb { r: 255, g: 255, b: 180 } }
        },
        FireType::Blue => {
            if k == 0 { Rgb { r: 0, g: 0, b: 0 } }
            else if k == 1 { Rgb { r: 0, g: 30, b: 120 } }
            else if k == 2 { Rgb { r: 40, g: 120, b: 220 } }
            else { Rgb { r: 200, g: 240, b: 255 } }
        },
        FireType::Rainbow => {
            if k == 0 { Rgb { r: 60, g: 0, b: 90 } }
            else if k == 1 { Rgb { r: 0, g: 90, b: 200 } }
            else if k == 2 { Rgb { r: 0, g: 200, b: 80 } }
            else { Rgb { r: 255, g: 60, b: 60 } }
        },
        FireType::Green => {
            if k == 0 { Rgb { r: 0, g: 0, b: 0 } }
            else if k == 1 { Rgb { r: 0, g: 80, b: 0 } }
            else if k == 2 { Rgb { r: 60, g: 190, b: 40 } }
            else { Rgb { r: 220, g: 255, b: 180 } }
        },
        FireType::Purple => {
            if k == 0 { Rgb { r: 0, g: 0, b: 0 } }
            else if k == 1 { Rgb { r: 70, g: 0, b: 110 } }
            else if k == 2 { Rgb { r: 150, g: 60, b: 200 } }
            else { Rgb { r: 255, g: 210, b: 255 } }
        },
        FireType::WhiteHot => {
            if k == 0 { Rgb { r: 0, g: 0, b: 0 } }
            else if k == 1 { Rgb { r: 90, g: 90, b: 90 } }
            else if k == 2 { Rgb { r: 180, g: 180, b: 180 } }
            else { Rgb { r: 255, g: 255, b: 255 } }
        },
        FireType::White => {
            if k == 0 { Rgb { r: 0, g: 0, b: 0 } }
            else if k == 1 { Rgb { r: 60, g: 60, b: 70 } }
            else if k == 2 { Rgb { r: 150, g: 150, b: 160 } }
            else { Rgb { r: 255, g: 255, b: 255 } }
        },
        FireType::Ice => {
            if k == 0 { Rgb { r: 0, g: 0, b: 0 } }
            else if k == 1 { Rgb { r: 0, g: 60, b: 90 } }
            else if k == 2 { Rgb { r: 90, g: 180, b: 220 } }
            else { Rgb { r: 230, g: 250, b: 255 } }
        },
        FireType::Toxic => {
            if k == 0 { Rgb { r: 0, g: 0, b: 0 } }
            else if k == 1 { Rgb { r: 40, g: 90, b: 0 } }
            else if k == 2 { Rgb { r: 130, g: 220, b: 0 } }
            else { Rgb { r: 240, g: 255, b: 120 } }
        },
        FireType::FireAndIce => {
            if k == 0 { Rgb { r: 0, g: 20, b: 80 } }
            else if k == 1 { Rgb { r: 60, g: 120, b: 200 } }
            else if k == 2 { Rgb { r: 230, g: 120, b: 40 } }
            else { Rgb { r: 255, g: 230, b: 120 } }
        },
        FireType::ChemicalFire => {
            if k == 0 { Rgb { r: 0, g: 0, b: 0 } }
            else if k == 1 { Rgb { r: 0, g: 140, b: 90 } }
            else if k == 2 { Rgb { r: 190, g: 0, b: 190 } }
            else { Rgb { r: 255, g: 255, b: 120 } }
        },
        FireType::Cyberpunk => {
            if k == 0 { Rgb { r: 10, g: 0, b: 40 } }
            else if k == 1 { Rgb { r: 180, g: 0, b: 130 } }
            else if k == 2 { Rgb { r: 0, g: 200, b: 230 } }
            else { Rgb { r: 255, g: 240, b: 180 } }
        },
        FireType::Aurora => {
            let ap = aurora_phase_exec(phase);
            if k == 0 { Rgb { r: 0, g: 0, b: 0 } }
            else if k == 1 {
                Rgb {
                    r: (tri_wave_exec(ap) / 4) as u8,
                    g: (120 + tri_wave_exec(ap) / 4) as u8,
                    b: 80,
                }
            } else if k == 2 {
                Rgb {
                    r: (tri_wave_exec(ap + 170) / 2) as u8,
                    g: 180,
                    b: (120 + tri_wave_exec(ap + 340) / 4) as u8,
                }
            } else { Rgb { r: 200, g: 255, b: 220 } }
        },
        FireType::Plasma => {
            if k == 0 { Rgb { r: 0, g: 0, b: 40 } }
            else if k == 1 { Rgb { r: 120, g: 0, b: 160 } }
            else if k == 2 { Rgb { r: 255, g: 80, b: 120 } }
            else { Rgb { r: 255, g: 230, b: 200 } }
        },
        FireType::Void => {
            if k == 0 { Rgb { r: 0, g: 0, b: 0 } }
            else if k == 1 { Rgb { r: 30, g: 0, b: 50 } }
            else if k == 2 { Rgb { r: 80, g: 20, b: 120 } }
            else { Rgb { r: 160, g: 120, b: 200 } }
        },
        FireType::Candy => {
            if k == 0 { Rgb { r: 40, g: 0, b: 40 } }
            else if k == 1 { Rgb { r: 230, g: 60, b: 150 } }
            else if k == 2 { Rgb { r: 90, g: 200, b: 230 } }
            else { Rgb { r: 255, g: 250, b: 200 } }
        },
    }
}

/// Fixed-point linear interpolation of one colour channel:
/// `frac` out of 1000 of the way from `a` to `b`.
pub open spec fn lerp_channel(a: u8, b: u8, frac: int) -> int {
    ((a as int) * (1000 - frac) + (b as int) * frac) / 1000
}

fn lerp_channel_exec(a: u8, b: u8, frac: u64) -> (r: u8)
    requires
        frac <= 1000,
    ensures
        r == lerp_channel(a, b, frac as int),
{
    assert((a as int) * (1000 - frac as int) <= 255000 && (b as int) * (frac as int) <= 255000
        && (a as int) * (1000 - frac as int) + (b as int) * (frac as int) <= 255000)
        by (nonlinear_arith)
        requires
            a <= 255,
            b <= 255,
            0 <= frac <= 1000,
    ;
    let num: u64 = (a as u64) * (1000 - frac) + (b as u64) * frac;
    (num / 1000) as u8
}

/// The colour at ramp position `i`: three equal segments between the four
/// anchors, interpolated in thousandths.
pub open spec fn ramp_color(ft: FireType, phase: u64, i: int) -> Rgb {
    let pos = i * 3000 / ((PALETTE_LEN - 1) as int);
    let seg = if pos < 1000 { 0int } else if pos < 2000 { 1int } else { 2int };
    let frac = pos - seg * 1000;
    let a = anchor(ft, phase, seg);
    let b = anchor(ft, phase, seg + 1);
    Rgb {
        r: lerp_channel(a.r, b.r, frac) as u8,
        g: lerp_channel(a.g, b.g, frac) as u8,
        b: lerp_channel(a.b, b.b, frac) as u8,
    }
}

fn ramp_color_exec(ft: FireType, phase: u64, i: usize) -> (r: Rgb)
    requires
        i < PALETTE_LEN,
    ensures
        r == ramp_color(ft, phase, i as int),
{
    let pos: u64 = (i as u64) * 3000 / ((PALETTE_LEN - 1) as u64);
    let (seg, frac): (usize, u64) = if pos < 1000 {
        (0, pos)
    } else if pos < 2000 {
        (1, pos - 1000)
    } else {
        (2, pos - 2000)
    };
    assert(pos <= 3000);
    let a = anchor_exec(ft, phase, seg);
    let b = anchor_exec(ft, phase, seg + 1);
    Rgb {
        r: lerp_channel_exec(a.r, b.r, frac),
        g: lerp_channel_exec(a.g, b.g, frac),
        b: lerp_channel_exec(a.b, b.b, frac),
    }
}

/// The full palette a fire type generates at a given clock phase, with the
/// optional background override replacing the coolest entry.
pub open spec fn palette_spec(ft: FireType, background: Option<Rgb>, phase: u64) -> Seq<Rgb> {
    Seq::new(
        PALETTE_LEN as nat,
        |i: int|
            if i == 0 && background is Some {
                background->Some_0
            } else {
                ramp_color(ft, phase, i)
            },
    )
}

/// Generate the palette for a fire type: `PALETTE_LEN` colours, coolest
/// first, hottest last.
pub fn generate_palette(fire_type: FireType, background: Option<Rgb>, phase: u64) -> (p: Vec<
    Rgb,
>)
    ensures
        p@ == palette_spec(fire_type, background, phase),
        p@.len() == PALETTE_LEN,
{
    let mut p: Vec<Rgb> = Vec::new();
    let mut i: usize = 0;
    while i < PALETTE_LEN
        invariant
            i <= PALETTE_LEN,
            p@.len() == i,
            forall|j: int|
                0 <= j < i ==> p@[j] == palette_spec(fire_type, background, phase)[j],
        decreases PALETTE_LEN - i,
    {
        let c = if i == 0 && background.is_some() {
            background.unwrap()
        } else {
            ramp_color_exec(fire_type, phase, i)
        };
        p.push(c);
        i += 1;
    }
    proof {
        assert(p@ =~= palette_spec(fire_type, background, phase));
    }
    p
}

} // verus!
