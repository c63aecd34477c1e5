use doom_fire::diffusion::{apply_decay, diffuse};
use doom_fire::fire_type::FireType;
use doom_fire::palette::{generate_palette, Rgb, PALETTE_LEN};
use doom_fire::particle::{maybe_spawn_particle, update_particles, Particle};
use doom_fire::wind::{compute_wind, smoothed_noise};

#[test]
fn decay_is_monotone() {
    // with the decay flag set the next value never exceeds the previous
    assert_eq!(apply_decay(5, true), 4);
    assert_eq!(apply_decay(1, true), 0);
    assert_eq!(apply_decay(0, true), 0);
    for v in 0..=255u8 {
        assert!(apply_decay(v, true) <= v);
        assert_eq!(apply_decay(v, false), v);
    }
}

#[test]
fn diffuse_leaves_all_zero_buffer_zero() {
    // the provable core of the top-rows property: with nothing to
    // propagate, one diffusion pass changes nothing, rows 0 and 1 included
    let mut buf = vec![0u8; 100];
    diffuse(&mut buf, 10, 10, 0);
    assert!(buf.iter().all(|&v| v == 0));
}

#[test]
fn diffuse_never_writes_the_seed_row_or_raises_the_maximum() {
    let mut buf = vec![0u8; 100];
    for x in 0..10 {
        buf[90 + x] = 63;
    }
    buf[55] = 40;
    let before = buf.clone();
    for wind in [-2i64, -1, 0, 1, 2] {
        diffuse(&mut buf, 10, 10, wind);
        for x in 0..10 {
            assert_eq!(buf[90 + x], before[90 + x]);
        }
        let max = buf.iter().copied().max().unwrap();
        assert!(max <= 63);
    }
}

#[test]
fn diffuse_on_two_rows_is_a_no_op() {
    let mut buf = vec![7u8, 3, 1, 5];
    let before = buf.clone();
    diffuse(&mut buf, 2, 2, 1);
    assert_eq!(buf, before);
}

#[test]
fn wind_is_always_in_range() {
    for t in [0u64, 1, 2, 50, 1000, 123456, 999999, 1000000, u64::MAX] {
        for _ in 0..10 {
            let w = compute_wind(t);
            assert!((-2..=2).contains(&w));
        }
    }
}

#[test]
fn noise_is_bounded_and_deterministic() {
    for phase in [0u64, 1, 499, 1000, 4999, 45000, 44999955] {
        let a = smoothed_noise(phase);
        let b = smoothed_noise(phase);
        assert_eq!(a, b);
        assert!((-1000..=1000).contains(&a));
    }
    // the lattice actually varies, so the wind can actually drift
    let mut seen = std::collections::BTreeSet::new();
    for k in 0..40u64 {
        seen.insert(smoothed_noise(k * 1000));
    }
    assert!(seen.len() > 1);
}

#[test]
fn spawned_particles_are_valid() {
    let mut ps: Vec<Particle> = Vec::new();
    for _ in 0..200 {
        maybe_spawn_particle(&mut ps, FireType::Original, 64, 10, 10);
    }
    assert!(!ps.is_empty());
    for p in ps.iter() {
        assert!(p.x < 10);
        assert!(p.y <= 8);
        // ember heat comes from the hot half of the palette
        assert!((32..64).contains(&p.heat));
    }
}

#[test]
fn particles_rise_cool_and_render() {
    let mut ps = vec![Particle { x: 3, y: 5, heat: 50 }];
    let mut buf = vec![0u8; 100];
    update_particles(&mut ps, &mut buf, 10, 10);
    assert_eq!(ps.len(), 1);
    assert_eq!(ps[0], Particle { x: 3, y: 4, heat: 49 });
    assert_eq!(buf[4 * 10 + 3], 49);
    assert_eq!(buf.iter().filter(|&&v| v != 0).count(), 1);
}

#[test]
fn particles_die_at_the_top_or_when_cold() {
    let mut ps = vec![
        Particle { x: 0, y: 0, heat: 50 },
        Particle { x: 1, y: 5, heat: 0 },
        Particle { x: 2, y: 5, heat: 9 },
    ];
    let mut buf = vec![0u8; 100];
    update_particles(&mut ps, &mut buf, 10, 10);
    assert_eq!(ps.len(), 1);
    assert_eq!(ps[0], Particle { x: 2, y: 4, heat: 8 });
}

#[test]
fn every_fire_type_generates_a_full_palette() {
    for ft in FireType::all() {
        let p = generate_palette(ft, None, 0);
        assert_eq!(p.len(), PALETTE_LEN);
    }
}

#[test]
fn palette_interpolates_between_its_anchors() {
    // for the default type, position 21 of 63 lands exactly on the second
    // anchor and position 63 on the hottest anchor
    let p = generate_palette(FireType::Original, None, 0);
    assert_eq!(p[0], Rgb { r: 0, g: 0, b: 0 });
    assert_eq!(p[21], Rgb { r: 170, g: 20, b: 0 });
    assert_eq!(p[63], Rgb { r: 255, g: 255, b: 180 });
    // halfway through the first segment: lerp(0, 170, ~500/1000)
    let mid = p[10];
    assert!(mid.r > 0 && mid.r < 170);
}

#[test]
fn aurora_palette_depends_on_phase() {
    let p0 = generate_palette(FireType::Aurora, None, 0);
    let p1 = generate_palette(FireType::Aurora, None, 10);
    assert_eq!(p0.len(), p1.len());
    assert_ne!(p0, p1);
    // the same phase always gives the same palette
    assert_eq!(p0, generate_palette(FireType::Aurora, None, 0));
}

#[test]
fn fire_types_parse_by_exact_name() {
    assert_eq!(FireType::from_name(None), FireType::Original);
    assert_eq!(FireType::from_name(Some("Blue")), FireType::Blue);
    assert_eq!(FireType::from_name(Some("WhiteHot")), FireType::WhiteHot);
    assert_eq!(FireType::from_name(Some("White")), FireType::White);
    assert_eq!(FireType::from_name(Some("Candy")), FireType::Candy);
    assert_eq!(FireType::from_name(Some("blue")), FireType::Original);
    assert_eq!(FireType::from_name(Some("nonsense")), FireType::Original);
    assert_eq!(FireType::from_name(Some("")), FireType::Original);
}

#[test]
fn every_name_round_trips() {
    for ft in FireType::all() {
        assert_eq!(FireType::from_name(Some(ft.name())), ft);
    }
}

#[test]
fn random_selection_picks_a_listed_variant() {
    let all = FireType::all();
    assert_eq!(all.len(), 16);
    for _ in 0..30 {
        let ft = FireType::from_name(Some("Random"));
        assert!(all.contains(&ft));
    }
}
