//! The simulation engine: grid state, lifecycle, and frame orchestration.
//!
//! A `DoomFire` owns a flat row-major buffer of heat indices (`y * width +
//! x`), a palette, the active fire type, an integer frame clock, and the
//! ember particles. Construction validates the configuration and refuses a
//! zero-area grid; reset clears the buffer, draws the fire-type name as a
//! label overlay, seeds the bottom row, and clears the particles; each
//! frame computes the shared wind, runs the diffusion pass, steps the
//! particles, and regenerates the palette for the time-animated type.

use vstd::prelude::*;
use crate::diffusion::{
    cells_bounded, diffuse, diffuse_draw_count, diffuse_spec, valid_draws,
};
use crate::fire_type::{parse_fire_type, FireType};
use crate::palette::{generate_palette, palette_spec, Rgb, PALETTE_LEN};
use crate::particle::{
    heats_bounded, maybe_spawn_particle, particle_in_grid, particles_valid, render_particles,
    stepped_particles, update_particles, Particle,
};
use crate::rng::rand_below;
use crate::wind::{compute_wind, round_milli, smoothed_noise_spec, wind_phase};

verus! {

/// Every buffer value is a valid palette index.
pub open spec fn heat_indices_valid(s: Seq<u8>, plen: int) -> bool {
    forall|i: int| 0 <= i < s.len() ==> (#[trigger] s[i] as int) < plen
}

/// The label's visibility value: three quarters of the palette length, at
/// least 1.
pub open spec fn label_value(plen: int) -> int {
    let q = plen * 3 / 4;
    if q < 1 {
        1
    } else {
        q
    }
}

/// The row the label is drawn on: four rows up from the bottom, clamped to
/// the top.
pub open spec fn label_row(height: int) -> int {
    if height >= 4 {
        height - 4
    } else {
        0
    }
}

/// The column where the label starts: horizontally centred when it fits,
/// flush left otherwise.
pub open spec fn label_offset(width: int, n: int) -> int {
    if width >= n {
        (width - n) / 2
    } else {
        0
    }
}

/// Whether buffer index `i` holds a character of the fire type's label
/// after a reset: within the label's extent, at a non-space character.
pub open spec fn is_label_cell(ft: FireType, width: int, height: int, i: int) -> bool {
    let name = ft.name_seq();
    let base = label_row(height) * width + label_offset(width, name.len() as int);
    base <= i < base + name.len() && name[i - base] != ' '
}

/// What a reset leaves in a seed-row cell: the hottest index, or any
/// index from the hot half of the palette for the randomized-seed type.
pub open spec fn seed_cell_ok(ft: FireType, plen: int, s: u8) -> bool {
    if ft.has_random_seed_row() {
        plen / 2 <= (s as int) < plen
    } else {
        s == (plen - 1) as u8
    }
}

/// The buffer contents a reset establishes: zero everywhere except the
/// label cells, and a seed row that is the hottest index — or, for the
/// randomized-seed type, any indices from the hot half of the palette.
pub open spec fn is_reset_buffer(
    buf: Seq<u8>,
    ft: FireType,
    width: int,
    height: int,
    plen: int,
) -> bool {
    &&& buf.len() == width * height
    &&& forall|i: int|
        0 <= i < (height - 1) * width ==> buf[i] == (if is_label_cell(ft, width, height, i) {
            label_value(plen) as u8
        } else {
            0u8
        })
    &&& forall|x: int|
        0 <= x < width ==> seed_cell_ok(ft, plen, #[trigger] buf[(height - 1) * width + x])
}

/// What one ember-spawn step can leave: the embers unchanged, or one
/// ember appended at a column of the grid, just above the seed row, with a
/// heat from the hot half of the palette.
pub open spec fn spawn_outcome(
    ps0: Seq<Particle>,
    ps1: Seq<Particle>,
    width: int,
    height: int,
    plen: int,
) -> bool {
    ||| ps1 == ps0
    ||| {
        &&& ps1.len() == ps0.len() + 1
        &&& ps1.drop_last() == ps0
        &&& (ps1.last().x as int) < width
        &&& height >= 2 && ps1.last().y == height - 2
        &&& plen / 2 <= (ps1.last().heat as int) < plen
    }
}

/// What one frame does to the grid and the embers, given the frame's wind,
/// the pass's per-cell draws, and the embers after the spawn step: the
/// diffusion fold over the draws, then the ember step-and-render.
pub open spec fn pass_outcome(
    buf0: Seq<u8>,
    ps0: Seq<Particle>,
    buf2: Seq<u8>,
    ps2: Seq<Particle>,
    width: int,
    height: int,
    plen: int,
    wind: int,
    draws: Seq<(bool, int, bool)>,
    ps1: Seq<Particle>,
) -> bool {
    &&& valid_draws(draws)
    &&& draws.len() == diffuse_draw_count(width, height)
    &&& spawn_outcome(ps0, ps1, width, height, plen)
    &&& ps2 == stepped_particles(ps1)
    &&& buf2 == render_particles(diffuse_spec(buf0, width, height, wind, draws), ps1, width)
}

/// What one update does to the grid and the embers: for some wind of the
/// frame — the smoothed noise at the new clock phase plus a bounded
/// jitter, rounded — some per-cell draws, and some spawn outcome, the new
/// buffer and embers are exactly the pass's result on the old ones.
pub open spec fn frame_outcome(
    pre: DoomFire,
    post: DoomFire,
    wind: int,
    draws: Seq<(bool, int, bool)>,
    ps1: Seq<Particle>,
) -> bool {
    &&& (exists|j: int|
        -500 <= j <= 500 && wind == #[trigger] round_milli(
            smoothed_noise_spec(wind_phase(post.ticks)) + j,
        ))
    &&& pass_outcome(
        pre.pixel_buffer@,
        pre.particles@,
        post.pixel_buffer@,
        post.particles@,
        pre.width as int,
        pre.height as int,
        pre.palette@.len() as int,
        wind,
        draws,
        ps1,
    )
}

/// The fire simulation: grid, palette, fire type, clock, and embers.
pub struct DoomFire {
    pub width: usize,
    pub height: usize,
    pub pixel_buffer: Vec<u8>,
    pub palette: Vec<Rgb>,
    pub fire_type: FireType,
    pub ticks: u64,
    pub particles: Vec<Particle>,
}

impl DoomFire {
    /// The frame clock: how many updates have run. The simulation time is
    /// this count times the clock increment.
    pub open spec fn clock(self) -> u64 {
        self.ticks
    }

    /// Well-formedness: a positive-area grid whose buffer length is exactly
    /// `width * height`, a palette that fits in a byte index, every heat
    /// index valid for the palette, and every ember valid for the grid.
    pub open spec fn wf(self) -> bool {
        &&& self.width >= 1
        &&& self.height >= 1
        &&& self.pixel_buffer@.len() == self.width * self.height
        &&& 2 <= self.palette@.len() <= 256
        &&& (self.fire_type.is_animated() ==> self.palette@.len() == PALETTE_LEN)
        &&& heat_indices_valid(self.pixel_buffer@, self.palette@.len() as int)
        &&& particles_valid(
            self.particles@,
            self.width as int,
            self.height as int,
            self.palette@.len() as int,
        )
    }
}

fn label_value_exec(plen: usize) -> (r: u8)
    requires
        2 <= plen <= 256,
    ensures
        r == label_value(plen as int) as u8,
        (r as int) < plen,
        r >= 1,
{
    proof {
        assert(plen * 3 / 4 < plen && plen * 3 / 4 >= 1) by (nonlinear_arith)
            requires
                2 <= plen <= 256,
        ;
    }
    let q = plen * 3 / 4;
    if q < 1 {
        1
    } else {
        q as u8
    }
}

impl DoomFire {
    /// Build a simulation from the configuration values: screen dimensions
    /// divided by the scale give the grid, the name selects the fire type
    /// (absent or unrecognized names degrade to the default), and the
    /// palette is generated at phase zero with the optional background
    /// override. A zero scale or a zero-area grid is refused.
    pub fn new(
        screen_width: usize,
        screen_height: usize,
        scale: usize,
        fire_type_name: Option<&str>,
        background: Option<Rgb>,
    ) -> (r: Option<DoomFire>)
        requires
            (screen_width as int) * (screen_height as int) <= usize::MAX,
        ensures
            r is Some <==> (scale >= 1 && (screen_width as int) / (scale as int) >= 1 && (
            screen_height as int) / (scale as int) >= 1),
            r matches Some(f) ==> {
                &&& f.wf()
                &&& f.width == screen_width as int / scale as int
                &&& f.height == screen_height as int / scale as int
                &&& (fire_type_name is None ==> f.fire_type == FireType::Original)
                &&& (fire_type_name matches Some(s) ==> (s@ == "Random"@ || f.fire_type
                    == parse_fire_type(s@)))
                &&& f.palette@ == palette_spec(f.fire_type, background, 0)
                &&& f.palette@.len() == PALETTE_LEN
                &&& f.clock() == 0
                &&& f.particles@.len() == 0
                &&& is_reset_buffer(
                    f.pixel_buffer@,
                    f.fire_type,
                    f.width as int,
                    f.height as int,
                    f.palette@.len() as int,
                )
            },
    {
        if scale == 0 {
            return None;
        }
        let width = screen_width / scale;
        let height = screen_height / scale;
        if width == 0 || height == 0 {
            return None;
        }
        proof {
            assert((width as int) * (height as int) <= (screen_width as int) * (
            screen_height as int)) by (nonlinear_arith)
                requires
                    0 <= width <= screen_width,
                    0 <= height <= screen_height,
            ;
            assert((screen_width as int) / (scale as int) <= screen_width) by (nonlinear_arith)
                requires
                    scale >= 1,
                    screen_width >= 0,
            ;
            assert((screen_height as int) / (scale as int) <= screen_height) by (nonlinear_arith)
                requires
                    scale >= 1,
                    screen_height >= 0,
            ;
        }
        let size = width * height;
        let fire_type = FireType::from_name(fire_type_name);
        let palette = generate_palette(fire_type, background, 0);
        let mut pixel_buffer: Vec<u8> = Vec::new();
        let mut i: usize = 0;
        while i < size
            invariant
                i <= size,
                pixel_buffer@.len() == i,
                forall|j: int| 0 <= j < i ==> pixel_buffer@[j] == 0,
            decreases size - i,
        {
            pixel_buffer.push(0);
            i += 1;
        }
        let mut fire = DoomFire {
            width,
            height,
            pixel_buffer,
            palette,
            fire_type,
            ticks: 0,
            particles: Vec::new(),
        };
        assert(fire.wf());
        fire.initialize_fire();
        Some(fire)
    }

    /// Reset the simulation in place: clear every cell, draw the fire-type
    /// name as a label overlay on the row four up from the bottom, seed the
    /// bottom row with the hottest index (or a random hot-half index for
    /// the randomized-seed type), and clear the embers. The grid, palette,
    /// fire type and clock are untouched.
    #[verifier::loop_isolation(false)]
    pub fn initialize_fire(&mut self)
        requires
            old(self).wf(),
        ensures
            final(self).wf(),
            final(self).width == old(self).width,
            final(self).height == old(self).height,
            final(self).palette == old(self).palette,
            final(self).fire_type == old(self).fire_type,
            final(self).clock() == old(self).clock(),
            final(self).particles@.len() == 0,
            is_reset_buffer(
                final(self).pixel_buffer@,
                final(self).fire_type,
                final(self).width as int,
                final(self).height as int,
                final(self).palette@.len() as int,
            ),
    {
        let width = self.width;
        let height = self.height;
        let plen = self.palette.len();
        let total = self.pixel_buffer.len();
        proof {
            assert((height - 1) * width + width == (height as int) * (width as int) && (
            height as int) * (width as int) == (width as int) * (height as int))
                by (nonlinear_arith);
            assert(total == (width as int) * (height as int));
        }

        // clear every cell
        let mut i: usize = 0;
        while i < total
            invariant
                i <= total,
                self.width == old(self).width,
                self.height == old(self).height,
                self.palette == old(self).palette,
                self.fire_type == old(self).fire_type,
                self.ticks == old(self).ticks,
                self.particles == old(self).particles,
                self.pixel_buffer@.len() == total,
                forall|j: int| 0 <= j < i ==> self.pixel_buffer@[j] == 0,
            decreases total - i,
        {
            self.pixel_buffer.set(i, 0);
            i += 1;
        }

        // draw the fire-type name as a label overlay
        let name = self.fire_type.name();
        let n = name.unicode_len();
        let y = if height >= 4 {
            height - 4
        } else {
            0
        };
        let x_off = if width >= n {
            (width - n) / 2
        } else {
            0
        };
        proof {
            assert(y * width <= (height - 1) * width) by (nonlinear_arith)
                requires
                    0 <= y <= height - 1,
                    width >= 0,
            ;
            assert(x_off <= width);
            assert(y * width + x_off <= total);
        }
        let base = y * width + x_off;
        let lv = label_value_exec(plen);
        let ghost ft = self.fire_type;
        proof {
            assert(base == label_row(height as int) * width + label_offset(
                width as int,
                ft.name_seq().len() as int,
            ));
        }
        let mut j: usize = 0;
        while j < n
            invariant
                j <= n,
                self.width == old(self).width,
                self.height == old(self).height,
                self.palette == old(self).palette,
                self.fire_type == old(self).fire_type,
                self.ticks == old(self).ticks,
                self.particles == old(self).particles,
                self.pixel_buffer@.len() == total,
                forall|k: int|
                    0 <= k < total ==> self.pixel_buffer@[k] == (if base <= k < base + j
                        && ft.name_seq()[k - base] != ' ' {
                        lv
                    } else {
                        0u8
                    }),
            decreases n - j,
        {
            let c = name.get_char(j);
            if c != ' ' {
                if base < total && j < total - base {
                    self.pixel_buffer.set(base + j, lv);
                }
            }
            j += 1;
        }

        proof {
            assert forall|k: int| 0 <= k < total implies self.pixel_buffer@[k] == (
            if is_label_cell(ft, width as int, height as int, k) {
                lv
            } else {
                0u8
            }) by {
                assert(self.pixel_buffer@[k] == (if base <= k < base + j && ft.name_seq()[k
                    - base] != ' ' {
                    lv
                } else {
                    0u8
                }));
            }
        }

        // seed the bottom row
        let seed_base = (height - 1) * width;
        let is_candy = match self.fire_type {
            FireType::Candy => true,
            _ => false,
        };
        let mut x: usize = 0;
        while x < width
            invariant
                x <= width,
                self.width == old(self).width,
                self.height == old(self).height,
                self.palette == old(self).palette,
                self.fire_type == old(self).fire_type,
                self.ticks == old(self).ticks,
                self.particles == old(self).particles,
                self.pixel_buffer@.len() == total,
                is_candy == ft.has_random_seed_row(),
                forall|k: int|
                    0 <= k < seed_base ==> self.pixel_buffer@[k] == (if is_label_cell(
                        ft,
                        width as int,
                        height as int,
                        k,
                    ) {
                        lv
                    } else {
                        0u8
                    }),
                forall|xx: int|
                    0 <= xx < x ==> seed_cell_ok(
                        ft,
                        plen as int,
                        #[trigger] self.pixel_buffer@[seed_base + xx],
                    ),
            decreases width - x,
        {
            let idx = seed_base + x;
            if is_candy {
                let lo = plen / 2;
                let v = lo + rand_below((plen - lo) as u64) as usize;
                self.pixel_buffer.set(idx, v as u8);
            } else {
                self.pixel_buffer.set(idx, (plen - 1) as u8);
            }
            x += 1;
        }

        // clear the embers
        self.particles.clear();

        proof {
            assert(is_reset_buffer(
                self.pixel_buffer@,
                self.fire_type,
                width as int,
                height as int,
                plen as int,
            ));
            assert forall|k: int| 0 <= k < self.pixel_buffer@.len() implies (
            #[trigger] self.pixel_buffer@[k] as int) < plen by {
                assert(plen * 3 / 4 < plen) by (nonlinear_arith)
                    requires
                        2 <= plen,
                ;
                if k >= seed_base {
                    let xx = k - seed_base;
                    assert(self.pixel_buffer@[seed_base + xx] == self.pixel_buffer@[k]);
                }
            }
        }
    }

    /// One frame's in-place work on the grid and embers: the diffusion
    /// pass with the frame's wind, a possible ember spawn, and the ember
    /// step-and-render. Heat indices stay valid, embers stay valid, and
    /// the seed row is untouched.
    #[verifier::rlimit(60)]
    fn frame_pass(
        buffer: &mut Vec<u8>,
        particles: &mut Vec<Particle>,
        fire_type: FireType,
        plen: usize,
        width: usize,
        height: usize,
        wind: i64,
    )
        requires
            old(buffer)@.len() == width * height,
            width >= 1,
            height >= 1,
            2 <= plen <= 256,
            heat_indices_valid(old(buffer)@, plen as int),
            particles_valid(old(particles)@, width as int, height as int, plen as int),
            -2 <= wind <= 2,
        ensures
            final(buffer)@.len() == width * height,
            heat_indices_valid(final(buffer)@, plen as int),
            particles_valid(final(particles)@, width as int, height as int, plen as int),
            final(particles)@.len() <= old(particles)@.len() + 1,
            forall|x: int|
                0 <= x < width ==> #[trigger] final(buffer)@[(height - 1) * width + x] == old(
                    buffer,
                )@[(height - 1) * width + x],
            // the result is exactly one pass: diffusion fold, spawn, render
            exists|draws: Seq<(bool, int, bool)>, ps1: Seq<Particle>|
                #[trigger] pass_outcome(
                    old(buffer)@,
                    old(particles)@,
                    final(buffer)@,
                    final(particles)@,
                    width as int,
                    height as int,
                    plen as int,
                    wind as int,
                    draws,
                    ps1,
                ),
    {
        let ghost hot = (plen - 1) as u8;
        proof {
            assert(cells_bounded(buffer@, hot));
        }
        diffuse(buffer, width, height, wind);
        proof {
            assert(cells_bounded(buffer@, hot));
            assert forall|i: int| 0 <= i < buffer@.len() implies (#[trigger] buffer@[i] as int)
                < plen by {
                assert(buffer@[i] <= hot);
            }
        }

        maybe_spawn_particle(particles, fire_type, plen, width, height);

        let ghost pre_particles = particles@;
        let ghost pre_buf = buffer@;
        proof {
            assert(exists|ds: Seq<(bool, int, bool)>|
                valid_draws(ds) && ds.len() == diffuse_draw_count(width as int, height as int)
                    && pre_buf == #[trigger] diffuse_spec(
                    old(buffer)@,
                    width as int,
                    height as int,
                    wind as int,
                    ds,
                ));
            if pre_particles.len() == old(particles)@.len() {
                assert(pre_particles =~= old(particles)@);
            } else {
                assert(pre_particles.drop_last() =~= old(particles)@);
            }
            assert(spawn_outcome(
                old(particles)@,
                pre_particles,
                width as int,
                height as int,
                plen as int,
            ));
            assert forall|i: int| 0 <= i < pre_particles.len() implies particle_in_grid(
                #[trigger] pre_particles[i],
                width as int,
                height as int,
            ) by {
                assert(particles_valid(pre_particles, width as int, height as int, plen as int));
            }
            assert(heats_bounded(pre_particles, hot));
        }
        update_particles(particles, buffer, width, height);
        proof {
            assert(heats_bounded(particles@, hot));
            assert forall|i: int| 0 <= i < particles@.len() implies crate::particle::particle_valid(
                #[trigger] particles@[i],
                width as int,
                height as int,
                plen as int,
            ) by {
                assert(particles@[i].heat <= hot);
            }
            assert forall|c: int| 0 <= c < buffer@.len() implies (#[trigger] buffer@[c] as int)
                < plen by {
                if buffer@[c] != pre_buf[c] {
                    assert(exists|j: int|
                        0 <= j < pre_particles.len() && #[trigger] buffer@[c] < pre_particles[j].heat);
                } else {
                    assert((pre_buf[c] as int) < plen);
                }
            }
            assert((height - 1) * width + width == (width as int) * (height as int))
                by (nonlinear_arith);
            assert forall|x: int| 0 <= x < width implies #[trigger] buffer@[(height - 1) * width
                + x] == old(buffer)@[(height - 1) * width + x] by {
                assert(0 <= (height - 1) * width + x < buffer@.len());
                assert(buffer@[(height - 1) * width + x] == pre_buf[(height - 1) * width + x]);
                assert(pre_buf[(height - 1) * width + x] == old(buffer)@[(height - 1) * width
                    + x]);
            }
            let ds = choose|ds: Seq<(bool, int, bool)>|
                valid_draws(ds) && ds.len() == diffuse_draw_count(width as int, height as int)
                    && pre_buf == #[trigger] diffuse_spec(
                    old(buffer)@,
                    width as int,
                    height as int,
                    wind as int,
                    ds,
                );
            assert(buffer@ == render_particles(pre_buf, pre_particles, width as int));
            assert(pass_outcome(
                old(buffer)@,
                old(particles)@,
                buffer@,
                particles@,
                width as int,
                height as int,
                plen as int,
                wind as int,
                ds,
                pre_particles,
            ));
        }
    }

    /// Advance the simulation by one frame: tick the clock, compute the
    /// frame's shared wind, run the diffusion pass, maybe spawn an ember,
    /// step and render the embers, and regenerate the palette for the
    /// time-animated fire type. The `frame_outcome` clause ties the new
    /// buffer and embers exactly to that pass: the diffusion fold under
    /// the frame's wind and some per-cell draws, a spawn outcome, and the
    /// ember render. The grid and fire type are unchanged, no heat index
    /// ever leaves the palette's range, and the seed row is exactly what
    /// it was.
    pub fn update(&mut self)
        requires
            old(self).wf(),
            old(self).clock() < u64::MAX,
        ensures
            final(self).wf(),
            final(self).width == old(self).width,
            final(self).height == old(self).height,
            final(self).fire_type == old(self).fire_type,
            final(self).clock() == old(self).clock() + 1,
            final(self).particles@.len() <= old(self).particles@.len() + 1,
            final(self).palette@.len() == old(self).palette@.len(),
            heat_indices_valid(final(self).pixel_buffer@, final(self).palette@.len() as int),
            final(self).pixel_buffer@.len() == old(self).pixel_buffer@.len(),
            // the seed row is only ever read, never rewritten, by a frame
            forall|x: int|
                0 <= x < old(self).width ==> #[trigger] final(self).pixel_buffer@[(old(self).height
                    - 1) * old(self).width + x] == old(self).pixel_buffer@[(old(self).height - 1)
                    * old(self).width + x],
            // only the time-animated type regenerates its palette, at the new phase
            !old(self).fire_type.is_animated() ==> final(self).palette == old(self).palette,
            old(self).fire_type.is_animated() ==> final(self).palette@ == palette_spec(
                old(self).fire_type,
                None,
                (old(self).clock() + 1) as u64,
            ),
            // the buffer and embers are exactly one pass's result, for some
            // wind of the frame, per-cell draws and spawn outcome
            exists|wind: int, draws: Seq<(bool, int, bool)>, ps1: Seq<Particle>|
                #[trigger] frame_outcome(*old(self), *final(self), wind, draws, ps1),
    {
        self.ticks = self.ticks + 1;
        let wind = compute_wind(self.ticks);
        let plen = self.palette.len();
        Self::frame_pass(
            &mut self.pixel_buffer,
            &mut self.particles,
            self.fire_type,
            plen,
            self.width,
            self.height,
            wind,
        );
        let ghost mid = *self;
        if self.fire_type.is_animated_exec() {
            self.palette = generate_palette(self.fire_type, None, self.ticks);
        }
        proof {
            let (ds, p1) = choose|ds: Seq<(bool, int, bool)>, p1: Seq<Particle>|
                pass_outcome(
                    old(self).pixel_buffer@,
                    old(self).particles@,
                    mid.pixel_buffer@,
                    mid.particles@,
                    old(self).width as int,
                    old(self).height as int,
                    old(self).palette@.len() as int,
                    wind as int,
                    ds,
                    p1,
                );
            let jw = choose|j: int|
                -500 <= j <= 500 && (wind as int) == #[trigger] round_milli(
                    smoothed_noise_spec(wind_phase(mid.ticks)) + j,
                );
            assert(-500 <= jw <= 500 && (wind as int) == round_milli(
                smoothed_noise_spec(wind_phase(self.ticks)) + jw,
            ));
            assert(frame_outcome(*old(self), *self, wind as int, ds, p1));
        }
    }
}

/// Resetting is deterministic for every fire type without the randomized
/// seed row: two buffers in the reset state for the same fire type, grid
/// and palette length are identical — in particular, resetting twice with
/// no update in between reproduces the same seed row.
pub proof fn lemma_reset_deterministic(
    buf1: Seq<u8>,
    buf2: Seq<u8>,
    ft: FireType,
    width: int,
    height: int,
    plen: int,
)
    requires
        !ft.has_random_seed_row(),
        width >= 1,
        height >= 1,
        is_reset_buffer(buf1, ft, width, height, plen),
        is_reset_buffer(buf2, ft, width, height, plen),
    ensures
        buf1 == buf2,
{
    assert((height - 1) * width + width == height * width && height * width == width * height)
        by (nonlinear_arith);
    assert forall|i: int| 0 <= i < buf1.len() implies buf1[i] == buf2[i] by {
        if i >= (height - 1) * width {
            let x = i - (height - 1) * width;
            assert(0 <= x < width);
            assert(seed_cell_ok(ft, plen, buf1[(height - 1) * width + x]));
            assert(seed_cell_ok(ft, plen, buf2[(height - 1) * width + x]));
        } else {
            assert(buf1[i] == (if is_label_cell(ft, width, height, i) {
                label_value(plen) as u8
            } else {
                0u8
            }));
            assert(buf2[i] == (if is_label_cell(ft, width, height, i) {
                label_value(plen) as u8
            } else {
                0u8
            }));
        }
    }
    assert(buf1 =~= buf2);
}

} // verus!
