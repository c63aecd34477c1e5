//! The ember particle overlay.
//!
//! Embers are spawned probabilistically near the bottom of the grid with a
//! heat index drawn from the hot half of the palette; each frame they rise
//! one row, cool by one step, and render their heat directly into the pixel
//! buffer, possibly overwriting cells the diffusion step wrote. An ember
//! dies when it cools out or reaches the top. Particles never stand on the
//! seed row, so the seed row is never overwritten by their rendering.

use vstd::prelude::*;
use crate::fire_type::FireType;
use crate::rng::rand_below;

verus! {

/// An ember: a grid position and the heat index it renders.
#[derive(Clone, Copy, Debug, PartialEq, Eq, Structural)]
pub struct Particle {
    pub x: usize,
    pub y: usize,
    pub heat: u8,
}

/// A particle stands inside the grid, above the seed row.
pub open spec fn particle_in_grid(p: Particle, width: int, height: int) -> bool {
    &&& (p.x as int) < width
    &&& p.y + 2 <= height
}

/// A particle's position is in the grid and its heat is a valid palette
/// index.
pub open spec fn particle_valid(p: Particle, width: int, height: int, palette_len: int) -> bool {
    &&& particle_in_grid(p, width, height)
    &&& (p.heat as int) < palette_len
}

pub open spec fn particles_valid(
    ps: Seq<Particle>,
    width: int,
    height: int,
    palette_len: int,
) -> bool {
    forall|i: int| 0 <= i < ps.len() ==> particle_valid(#[trigger] ps[i], width, height, palette_len)
}

/// An ember survives a step when it can still rise and still glows.
pub open spec fn particle_lives(p: Particle) -> bool {
    p.y >= 1 && p.heat >= 1
}

/// One step of an ember's life: up one row, one step cooler.
pub open spec fn step_particle(p: Particle) -> Particle {
    Particle { x: p.x, y: (p.y - 1) as usize, heat: (p.heat - 1) as u8 }
}

/// What one update leaves of a collection of embers: exactly the live
/// ones, in order, each stepped.
pub open spec fn stepped_particles(ps: Seq<Particle>) -> Seq<Particle> {
    ps.filter(|p: Particle| particle_lives(p)).map_values(|p: Particle| step_particle(p))
}

/// The buffer after the first `i` embers have been stepped and the live
/// ones rendered, in order: a later ember overwrites an earlier one that
/// lands on the same cell.
pub open spec fn render_upto(buf: Seq<u8>, ps: Seq<Particle>, width: int, i: int) -> Seq<u8>
    decreases i,
{
    if i <= 0 {
        buf
    } else {
        let b = render_upto(buf, ps, width, i - 1);
        if particle_lives(ps[i - 1]) {
            let np = step_particle(ps[i - 1]);
            b.update(np.y * width + np.x, np.heat)
        } else {
            b
        }
    }
}

/// The buffer after one whole ember update: a deterministic function of
/// the starting buffer and the embers.
pub open spec fn render_particles(buf: Seq<u8>, ps: Seq<Particle>, width: int) -> Seq<u8> {
    render_upto(buf, ps, width, ps.len() as int)
}

/// Every particle's heat is at most `b`.
pub open spec fn heats_bounded(ps: Seq<Particle>, b: u8) -> bool {
    forall|j: int| 0 <= j < ps.len() ==> (#[trigger] ps[j]).heat <= b
}

/// How many of ten frames, on average, spawn a new ember.
pub const EMBER_SPAWN_CHANCE_IN_TEN: u64 = 2;

/// Probabilistically spawn one ember just above the seed row, at a uniform
/// column, with a heat index drawn from the hot half of the palette.
/// Whatever the draws, every particle stays valid and the existing ones are
/// untouched.
pub fn maybe_spawn_particle(
    particles: &mut Vec<Particle>,
    _fire_type: FireType,
    palette_len: usize,
    width: usize,
    height: usize,
)
    requires
        width >= 1,
        2 <= palette_len <= 256,
        particles_valid(old(particles)@, width as int, height as int, palette_len as int),
    ensures
        particles_valid(final(particles)@, width as int, height as int, palette_len as int),
        old(particles)@.len() <= final(particles)@.len() <= old(particles)@.len() + 1,
        forall|i: int|
            0 <= i < old(particles)@.len() ==> final(particles)@[i] == old(particles)@[i],
        height < 2 ==> final(particles)@ == old(particles)@,
        // a spawned ember sits just above the seed row with a hot-half heat
        final(particles)@.len() == old(particles)@.len() + 1 ==> ({
            let p = final(particles)@.last();
            &&& (p.x as int) < width
            &&& height >= 2 && p.y == height - 2
            &&& palette_len / 2 <= (p.heat as int) < palette_len
        }),
{
    if height < 2 {
        return ;
    }
    if rand_below(10) < EMBER_SPAWN_CHANCE_IN_TEN {
        let x = rand_below(width as u64) as usize;
        let lo = palette_len / 2;
        let heat = (lo + rand_below((palette_len - lo) as u64) as usize) as u8;
        let p = Particle { x, y: height - 2, heat };
        particles.push(p);
    }
}

/// Advance and render the embers: each live ember rises one row, cools one
/// step, and writes its heat into the buffer; embers that have cooled out
/// or reached the top are dropped. The step is deterministic, and the
/// contract pins both results exactly: the surviving embers are the live
/// ones stepped, and the buffer is the in-order render fold over them. In
/// particular every cell keeps its old value or takes one bounded by an
/// old ember's heat, and the seed row is never written.
pub fn update_particles(
    particles: &mut Vec<Particle>,
    buffer: &mut Vec<u8>,
    width: usize,
    height: usize,
)
    requires
        old(buffer)@.len() == width * height,
        width >= 1,
        height >= 1,
        forall|i: int|
            0 <= i < old(particles)@.len() ==> particle_in_grid(
                #[trigger] old(particles)@[i],
                width as int,
                height as int,
            ),
    ensures
        final(buffer)@.len() == old(buffer)@.len(),
        // the buffer is exactly the old one with every live ember stepped
        // and rendered, in order
        final(buffer)@ == render_particles(old(buffer)@, old(particles)@, width as int),
        // the surviving embers are exactly the live ones, stepped
        final(particles)@ == stepped_particles(old(particles)@),
        final(particles)@.len() <= old(particles)@.len(),
        forall|i: int|
            0 <= i < final(particles)@.len() ==> particle_in_grid(
                #[trigger] final(particles)@[i],
                width as int,
                height as int,
            ),
        // surviving embers only cool: any bound on the old heats bounds the new
        forall|b: u8| #[trigger]
            heats_bounded(old(particles)@, b) ==> heats_bounded(final(particles)@, b),
        // each cell keeps its value or takes one bounded by an old ember's heat
        forall|c: int|
            0 <= c < final(buffer)@.len() ==> final(buffer)@[c] == old(buffer)@[c] || exists|j: int|
                0 <= j < old(particles)@.len() && #[trigger] final(buffer)@[c]
                    < old(particles)@[j].heat,
        // the seed row is never written
        forall|c: int|
            (height - 1) * width <= c < final(buffer)@.len() ==> final(buffer)@[c] == old(buffer)@[c],
{
    let ghost old_ps = particles@;
    let ghost old_buf = buffer@;
    let mut kept: Vec<Particle> = Vec::new();
    let mut i: usize = 0;
    let blen = buffer.len();
    proof {
        assert((height - 1) * width + width == (height as int) * (width as int))
            by (nonlinear_arith);
        assert(buffer@.len() == blen);
        reveal(Seq::filter);
        assert(stepped_particles(old_ps.take(0)) =~= Seq::<Particle>::empty());
    }
    while i < particles.len()
        invariant
            particles@ == old_ps,
            i <= old_ps.len(),
            buffer@.len() == width * height,
            buffer@.len() <= usize::MAX,
            (height - 1) * width + width == (height as int) * (width as int),
            width >= 1,
            height >= 1,
            forall|k: int|
                0 <= k < old_ps.len() ==> particle_in_grid(
                    #[trigger] old_ps[k],
                    width as int,
                    height as int,
                ),
            kept@.len() <= i,
            kept@ == stepped_particles(old_ps.take(i as int)),
            buffer@ == render_upto(old_buf, old_ps, width as int, i as int),
            forall|k: int|
                0 <= k < kept@.len() ==> particle_in_grid(
                    #[trigger] kept@[k],
                    width as int,
                    height as int,
                ),
            forall|b: u8| #[trigger] heats_bounded(old_ps, b) ==> heats_bounded(kept@, b),
            forall|c: int|
                0 <= c < buffer@.len() ==> buffer@[c] == old_buf[c] || exists|j: int|
                    0 <= j < old_ps.len() && #[trigger] buffer@[c] < old_ps[j].heat,
            forall|c: int|
                (height - 1) * width <= c < buffer@.len() ==> buffer@[c] == old_buf[c],
        decreases particles.len() - i,
    {
        let p = particles[i];
        if p.y >= 1 && p.heat >= 1 {
            let np = Particle { x: p.x, y: p.y - 1, heat: p.heat - 1 };
            proof {
                assert(np.y * width + np.x < (height - 1) * width) by (nonlinear_arith)
                    requires
                        np.y + 3 <= height,
                        (np.x as int) < width,
                        width >= 1,
                ;
            }
            let idx = np.y * width + np.x;
            buffer.set(idx, np.heat);
            kept.push(np);
            proof {
                assert(particle_in_grid(np, width as int, height as int));
                assert(np.heat < old_ps[i as int].heat);
            }
        }
        proof {
            reveal(Seq::filter);
            let p = old_ps[i as int];
            let taken = old_ps.take(i as int);
            let taken1 = old_ps.take(i + 1);
            assert(taken1.drop_last() =~= taken);
            assert(taken1.last() == p);
            if particle_lives(p) {
                assert(taken1.filter(|q: Particle| particle_lives(q)) == taken.filter(
                    |q: Particle| particle_lives(q),
                ).push(p));
                assert(stepped_particles(taken1) =~= stepped_particles(taken).push(
                    step_particle(p),
                ));
            } else {
                assert(taken1.filter(|q: Particle| particle_lives(q)) == taken.filter(
                    |q: Particle| particle_lives(q),
                ));
                assert(stepped_particles(taken1) =~= stepped_particles(taken));
            }
        }
        i += 1;
    }
    proof {
        assert(old_ps.take(old_ps.len() as int) =~= old_ps);
    }
    *particles = kept;
}

} // verus!
