use doom_fire::doom_fire::DoomFire;
use doom_fire::fire_type::FireType;
use doom_fire::palette::{generate_palette, Rgb, PALETTE_LEN};

#[test]
fn new_builds_default_grid() {
    let f = DoomFire::new(10, 10, 1, None, None).unwrap();
    assert_eq!(f.width, 10);
    assert_eq!(f.height, 10);
    assert_eq!(f.pixel_buffer.len(), 100);
    assert_eq!(f.palette.len(), PALETTE_LEN);
    assert_eq!(f.fire_type, FireType::Original);
    assert_eq!(f.ticks, 0);
    assert!(f.particles.is_empty());
}

#[test]
fn new_scales_screen_dimensions() {
    let f = DoomFire::new(1920, 1080, 4, None, None).unwrap();
    assert_eq!(f.width, 480);
    assert_eq!(f.height, 270);
    assert_eq!(f.pixel_buffer.len(), 480 * 270);
}

#[test]
fn new_refuses_zero_scale() {
    assert!(DoomFire::new(10, 10, 0, None, None).is_none());
}

#[test]
fn new_refuses_zero_area_grid() {
    assert!(DoomFire::new(0, 10, 1, None, None).is_none());
    assert!(DoomFire::new(10, 0, 1, None, None).is_none());
    // scale larger than the screen collapses a dimension to zero
    assert!(DoomFire::new(5, 10, 10, None, None).is_none());
}

#[test]
fn seed_row_is_hottest_after_initialize() {
    // width=10, height=10, default fire type, scale=1: the bottom row holds
    // the hottest palette index everywhere
    let f = DoomFire::new(10, 10, 1, None, None).unwrap();
    let hottest = (f.palette.len() - 1) as u8;
    for x in 0..10 {
        assert_eq!(f.pixel_buffer[9 * 10 + x], hottest);
    }
}

#[test]
fn update_preserves_seed_row_and_bounds() {
    let mut f = DoomFire::new(10, 10, 1, None, None).unwrap();
    let hottest = (f.palette.len() - 1) as u8;
    f.update();
    for x in 0..10 {
        assert_eq!(f.pixel_buffer[9 * 10 + x], hottest);
    }
    for &v in f.pixel_buffer.iter() {
        assert!((v as usize) < f.palette.len());
    }
}

#[test]
fn many_updates_stay_in_bounds() {
    let mut f = DoomFire::new(30, 20, 1, None, None).unwrap();
    let hottest = (f.palette.len() - 1) as u8;
    for _ in 0..100 {
        f.update();
    }
    assert_eq!(f.ticks, 100);
    for x in 0..30 {
        assert_eq!(f.pixel_buffer[19 * 30 + x], hottest);
    }
    for &v in f.pixel_buffer.iter() {
        assert!((v as usize) < f.palette.len());
    }
}

#[test]
fn reset_twice_reproduces_the_buffer() {
    // seed-row idempotence: for a non-randomized fire type, resetting twice
    // with no update in between gives an identical buffer
    let mut f = DoomFire::new(12, 8, 1, Some("Blue"), None).unwrap();
    let first = f.pixel_buffer.clone();
    f.initialize_fire();
    assert_eq!(f.pixel_buffer, first);
    // also after some updates, two consecutive resets agree
    f.update();
    f.update();
    f.initialize_fire();
    let again = f.pixel_buffer.clone();
    f.initialize_fire();
    assert_eq!(f.pixel_buffer, again);
    assert_eq!(f.pixel_buffer, first);
}

#[test]
fn reset_clears_particles() {
    let mut f = DoomFire::new(10, 10, 1, None, None).unwrap();
    for _ in 0..50 {
        f.update();
    }
    f.initialize_fire();
    assert!(f.particles.is_empty());
}

#[test]
fn label_is_centred_on_its_row() {
    // "Blue" is 4 characters; on a 20-wide grid the offset is (20-4)/2 = 8,
    // the label row is height-4 = 6, and the visibility value is
    // max(1, 64*3/4) = 48; the rest of the row stays zero
    let f = DoomFire::new(20, 10, 1, Some("Blue"), None).unwrap();
    assert_eq!(f.fire_type, FireType::Blue);
    let row = 6;
    for x in 0..20 {
        let v = f.pixel_buffer[row * 20 + x];
        if (8..12).contains(&x) {
            assert_eq!(v, 48);
        } else {
            assert_eq!(v, 0);
        }
    }
    // every other non-seed row is fully zero
    for y in 0..9 {
        if y == row {
            continue;
        }
        for x in 0..20 {
            assert_eq!(f.pixel_buffer[y * 20 + x], 0);
        }
    }
}

#[test]
fn label_wider_than_grid_is_skipped_safely() {
    // "ChemicalFire" is 12 characters on a 4-wide grid: no panic, and all
    // heat indices stay valid
    let f = DoomFire::new(4, 10, 1, Some("ChemicalFire"), None).unwrap();
    assert_eq!(f.fire_type, FireType::ChemicalFire);
    for &v in f.pixel_buffer.iter() {
        assert!((v as usize) < f.palette.len());
    }
}

#[test]
fn tiny_grids_update_without_panicking() {
    for (w, h) in [(1usize, 1usize), (2, 2), (3, 1), (1, 3), (2, 3), (10, 3)] {
        let mut f = DoomFire::new(w, h, 1, None, None).unwrap();
        let hottest = (f.palette.len() - 1) as u8;
        for _ in 0..5 {
            f.update();
        }
        for x in 0..w {
            assert_eq!(f.pixel_buffer[(h - 1) * w + x], hottest);
        }
        for &v in f.pixel_buffer.iter() {
            assert!((v as usize) < f.palette.len());
        }
    }
}

#[test]
fn candy_seed_row_is_in_hot_half() {
    // the randomized seed row draws from [len/2, len); this would fail if
    // the random draw handed its bound back unchanged (32 + 32 = 64 would
    // be out of range)
    for _ in 0..20 {
        let f = DoomFire::new(16, 8, 1, Some("Candy"), None).unwrap();
        let plen = f.palette.len();
        for x in 0..16 {
            let v = f.pixel_buffer[7 * 16 + x] as usize;
            assert!(v >= plen / 2);
            assert!(v < plen);
        }
    }
}

#[test]
fn aurora_palette_animates_with_updates() {
    let mut f = DoomFire::new(10, 10, 1, Some("Aurora"), None).unwrap();
    assert_eq!(f.fire_type, FireType::Aurora);
    let before = f.palette.clone();
    for _ in 0..10 {
        f.update();
    }
    assert_eq!(f.ticks, 10);
    assert_eq!(f.palette.len(), before.len());
    assert_ne!(f.palette, before);
    // the regenerated palette is exactly the generator's output at the
    // clock's phase
    assert_eq!(f.palette, generate_palette(FireType::Aurora, None, 10));
}

#[test]
fn static_palette_is_untouched_by_updates() {
    let mut f = DoomFire::new(10, 10, 1, Some("Green"), None).unwrap();
    let before = f.palette.clone();
    for _ in 0..10 {
        f.update();
    }
    assert_eq!(f.palette, before);
}

#[test]
fn background_override_sets_coolest_entry() {
    let bg = Rgb { r: 9, g: 8, b: 7 };
    let f = DoomFire::new(10, 10, 1, None, Some(bg)).unwrap();
    assert_eq!(f.palette[0], bg);
}
