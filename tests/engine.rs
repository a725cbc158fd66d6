use fireworks::colour::{palette, Colour, PALETTE_SIZE};
use fireworks::colour_shift::{shift_hue, ColourShiftFirework, HUE_FIRST, HUE_LAST};
use fireworks::fireworks::Cue;
use fireworks::graphics::{Graphics, Spawned, STAR_COUNT};
use fireworks::maths::isqrt;
use fireworks::shell::{
    burst_offset, random_burst, vel_min_max, Shell, PARTICLE_COUNT, PARTICLE_LIFETIME,
};
use fireworks::sim::{Particle, TwoVec};
use fireworks::sparkle::SparkleFirework;
use fireworks::standard::{pick_colour, StandardFirework};

fn speed_in_range(height: u32, m: i64) -> bool {
    let h = if height == 0 { 1.0 } else { height as f64 };
    let m = m as f64 / 1000.0;
    m >= h.sqrt() / 5.5 - 1e-9 && m <= h.sqrt() / 3.0 + 1e-9
}

#[test]
fn isqrt_exact_values() {
    assert_eq!(isqrt(0), 0);
    assert_eq!(isqrt(1), 1);
    assert_eq!(isqrt(15), 3);
    assert_eq!(isqrt(16), 4);
    assert_eq!(isqrt(600_000_000), 24494);
}

#[test]
fn vel_min_max_for_600() {
    // isqrt(600 * 10^6) = 24494; (2 * 24494 + 12) / 11 = 4454; 24494 / 3 = 8164
    assert_eq!(vel_min_max(600), (4454, 8164));
}

#[test]
fn vel_min_max_zero_height_is_clamped() {
    assert_eq!(vel_min_max(0), vel_min_max(1));
    assert_eq!(vel_min_max(1), (182, 333));
}

#[test]
fn launch_speed_within_bounds_by_sampling() {
    for &h in &[1u32, 2, 7, 600, 1080, 4000, u32::MAX] {
        for _ in 0..200 {
            let s = Shell::new(800, h);
            assert!(!s.exploded);
            assert_eq!(s.rocket.vel.x, 0);
            assert!(speed_in_range(h, -s.rocket.vel.y), "height {} speed {}", h, s.rocket.vel.y);
            assert_eq!(s.rocket.pos.y, h as i64 * 1000);
            assert!(s.rocket.pos.x >= 0 && s.rocket.pos.x <= 800_000);
        }
    }
}

#[test]
fn launch_with_uses_draws() {
    let s = Shell::new_with(800, 600, 1_000_000, 5);
    assert_eq!(s.rocket.pos.x, 1_000_000 % 800_001);
    assert_eq!(s.rocket.vel.y, -(4454 + 5));
    assert_eq!(s.lifetime, PARTICLE_LIFETIME);
    assert!(s.particles.is_empty());
}

#[test]
fn twovec_add_and_scale() {
    let a = TwoVec::new(3, -4);
    let b = TwoVec::new(10, 20);
    assert_eq!(a.add(b), TwoVec::new(13, 16));
    assert_eq!(a.scale(-2), TwoVec::new(-6, 8));
    assert_eq!(TwoVec::zero(), TwoVec::new(0, 0));
}

#[test]
fn particle_force_then_step() {
    let mut p = Particle::new(TwoVec::new(100, 200), TwoVec::new(5, -10));
    p.apply_force(TwoVec::new(0, 70));
    assert_eq!(p.vel(), TwoVec::new(5, 60));
    p.step();
    assert_eq!(p.pos(), TwoVec::new(105, 260));
}

#[test]
fn burst_offset_exact() {
    // dx = 0 % 3001 - 1500 = -1500, dy = 0
    assert_eq!(burst_offset(1500, 0, true), TwoVec::new(-1500, 0));
    // dx = 2000 % 4001 - 2000 = 0, dy = -2000
    assert_eq!(burst_offset(2000, 2000, true), TwoVec::new(0, -2000));
    assert_eq!(burst_offset(2000, 2000, false), TwoVec::new(0, 2000));
    // dx = 3000 - 2500 = 500, dy = isqrt(2500^2 - 500^2) = 2449
    assert_eq!(burst_offset(2500, 3000, false), TwoVec::new(500, 2449));
}

#[test]
fn apex_reached_on_predicted_tick() {
    let mut s = Shell::new_with(800, 600, 0, 0);
    let v0 = s.rocket.vel.y;
    assert_eq!(v0, -4454);
    // first tick with v0 + 70 t > -2000
    let predicted = (-2000 - v0) / 70 + 1;
    let mut tick = 0;
    loop {
        tick += 1;
        let apex = s.ascend();
        assert_eq!(s.rocket.vel.y, v0 + 70 * tick);
        if apex {
            break;
        }
        assert!(tick < predicted);
    }
    assert_eq!(tick, predicted);
    assert!(s.rocket.vel.y > -2000);
}

#[test]
fn explosion_twenty_particles_with_rocket_momentum() {
    for _ in 0..100 {
        let mut s = Shell {
            rocket: Particle::new(TwoVec::new(400_000, 250_000), TwoVec::new(0, -1990)),
            exploded: false,
            particles: Vec::new(),
            lifetime: PARTICLE_LIFETIME,
        };
        let offsets = random_burst();
        s.burst_with(&offsets);
        assert!(s.exploded);
        assert_eq!(s.particles.len(), PARTICLE_COUNT);
        assert_eq!(PARTICLE_COUNT, 20);
        for p in &s.particles {
            assert_eq!(p.pos, TwoVec::new(400_000, 250_000));
            let dx = (p.vel.x - 0) as f64;
            let dy = (p.vel.y + 1990) as f64;
            let m = (dx * dx + dy * dy).sqrt();
            assert!(m >= 1499.0 && m <= 3500.0, "offset length {}", m);
        }
    }
}

#[test]
fn burst_lifetime_counts_down_and_respawns_on_zero() {
    let mut f = StandardFirework::new("a".to_string(), 800, 600);
    while !f.exploded() {
        assert_eq!(f.step(800, 600).is_some(), f.exploded());
    }
    assert_eq!(f.lifetime(), 140);
    for expected in (1..140).rev() {
        assert_eq!(f.step(800, 600), None);
        assert!(f.exploded());
        assert_eq!(f.lifetime(), expected);
    }
    assert_eq!(f.step(800, 600), Some(Cue::Launch));
    assert!(!f.exploded());
    assert_eq!(f.lifetime(), 140);
    assert!(f.particles().is_empty());
}

#[test]
fn standard_respawns_140_ticks_after_explosion() {
    let mut f = StandardFirework::new("e2e".to_string(), 800, 600);
    assert!(!f.exploded());
    let mut ticks = 0;
    while !f.exploded() {
        f.step(800, 600);
        ticks += 1;
        assert!(ticks < 10_000);
    }
    for _ in 0..140 {
        f.step(800, 600);
    }
    assert!(!f.exploded());
    assert_eq!(f.rocket().pos().y(), 600_000);
    assert!(f.rocket().pos().x() >= 0 && f.rocket().pos().x() <= 800_000);
}

#[test]
fn standard_burst_fades_linearly() {
    let mut f = StandardFirework::new("fade".to_string(), 800, 600);
    assert_eq!(f.draw().len(), 1);
    assert_eq!(f.draw()[0].radius_tenths, 23);
    while !f.exploded() {
        f.step(800, 600);
    }
    f.step(800, 600);
    let marks = f.draw();
    assert_eq!(marks.len(), 20);
    for m in &marks {
        assert_eq!((m.alpha_num, m.alpha_den), (139, 140));
        assert_eq!(m.colour, f.colour());
    }
}

#[test]
fn palette_pick() {
    assert_eq!(pick_colour(7), palette(7 % PALETTE_SIZE));
    assert_eq!(palette(0), Colour::Rgb { r: 255, g: 64, b: 64 });
}

#[test]
fn colour_shift_hue_ends_and_monotone() {
    assert_eq!(shift_hue(0), HUE_FIRST);
    assert_eq!(shift_hue(PARTICLE_LIFETIME), HUE_LAST);
    assert_eq!(shift_hue(70), 150);
    let mut last = 0;
    for e in 0..=PARTICLE_LIFETIME {
        let h = shift_hue(e);
        assert!(h >= last);
        last = h;
    }
}

#[test]
fn colour_shift_colour_follows_burst_age() {
    let mut f = ColourShiftFirework::new("cs".to_string(), 800, 600);
    while !f.exploded() {
        f.step(800, 600);
    }
    assert_eq!(f.colour(), Colour::Hue { degrees: 0 });
    for _ in 0..70 {
        f.step(800, 600);
    }
    assert_eq!(f.colour(), Colour::Hue { degrees: 150 });
    assert_eq!(f.draw()[0].colour, Colour::Hue { degrees: 150 });
}

#[test]
fn sparkle_never_fully_dark() {
    for _ in 0..5 {
        let mut f = SparkleFirework::new("sp".to_string(), 800, 600);
        while !f.exploded() {
            f.step(800, 600);
        }
        while f.exploded() {
            let marks = f.draw();
            assert!(!marks.is_empty());
            assert!(marks.iter().all(|m| m.alpha_num > 0));
            f.step(800, 600);
        }
    }
}

#[test]
fn graphics_spawn_round_robin_and_step() {
    let mut g = Graphics::new(800, 600);
    g.init();
    assert_eq!(g.stars.len(), STAR_COUNT);
    for i in 0..4 {
        assert_eq!(g.spawn_firework(format!("f{}", i)), Cue::Launch);
    }
    assert!(matches!(g.fireworks[0], Spawned::Standard(_)));
    assert!(matches!(g.fireworks[1], Spawned::ColourShift(_)));
    assert!(matches!(g.fireworks[2], Spawned::Standard(_)));
    assert!(matches!(g.fireworks[3], Spawned::ColourShift(_)));
    g.fireworks.push(Spawned::new(2, "f4".to_string(), 800, 600));
    assert!(matches!(g.fireworks[4], Spawned::Sparkle(_)));
    let cues = g.step();
    assert_eq!(cues.len(), 5);
    assert_eq!(g.draw().len(), STAR_COUNT + 5);
}

#[test]
fn graphics_resize_scales_stars() {
    let mut g = Graphics::new(800, 600);
    g.stars.push(Particle::new(TwoVec::new(400_000, 300_000), TwoVec::zero()));
    g.stars.push(Particle::new(TwoVec::new(800_000, 0), TwoVec::zero()));
    g.resize(1600, 300);
    assert_eq!(g.stars[0].pos, TwoVec::new(800_000, 150_000));
    assert_eq!(g.stars[1].pos, TwoVec::new(1_600_000, 0));
    assert_eq!((g.width, g.height), (1600, 300));
}

fn run_until_relaunch<F: fireworks::fireworks::Firework>(f: &mut F) -> (usize, usize) {
    let mut explosions = 0;
    let mut ticks = 0;
    loop {
        ticks += 1;
        match f.step(1024, 768) {
            Some(Cue::Explosion) => explosions += 1,
            Some(Cue::Launch) => return (explosions, ticks),
            None => {}
        }
        assert!(!f.draw().is_empty() || explosions == 1);
    }
}

#[test]
fn every_variant_cycles_through_one_explosion() {
    let (e, t) = run_until_relaunch(&mut StandardFirework::new("s".to_string(), 1024, 768));
    assert_eq!(e, 1);
    assert!(t > 140);
    let (e, _) = run_until_relaunch(&mut ColourShiftFirework::new("c".to_string(), 1024, 768));
    assert_eq!(e, 1);
    let (e, _) = run_until_relaunch(&mut SparkleFirework::new("k".to_string(), 1024, 768));
    assert_eq!(e, 1);
}

#[test]
fn trait_reset_relaunches() {
    let mut f = SparkleFirework::new("r".to_string(), 800, 600);
    while !f.exploded() {
        fireworks::fireworks::Firework::step(&mut f, 800, 600);
    }
    fireworks::fireworks::Firework::reset(&mut f, 640, 480);
    assert!(!f.exploded());
    assert_eq!(f.rocket().pos().y(), 480_000);
    assert!(f.particles().is_empty());
}
