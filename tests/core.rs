use rtw::frame::{pack_rgba, ConfigError, FrameConfig, Jitter, Rgb8};
use rtw::hit::{choose_root, nearest_hit, Root};
use rtw::material::{scatter, Scatter, ScatterTest};
use rtw::rng::{Rng, DEFAULT_SEED, MULTIPLIER};
use rtw::sampling::{random_in_unit_disk, random_in_unit_sphere, FixedVec3, UNIT};
use rtw::trace::{PathEnd, PathState, Probe};

#[test]
fn rng_steps_by_the_multiplier() {
    let mut rng = Rng::new(1);
    assert_eq!(rng.next_u32(), 0xda94_2042);
    assert_eq!(rng.state(), MULTIPLIER);
    assert_eq!(rng.next_u32(), 0xfa32_02b8);
    assert_eq!(rng.state(), 0xfa32_02b8_af3e_eff9);
    assert_eq!(rng.next_u32(), 0xbdfb_be12);
}

#[test]
fn rng_default_seed_first_draw() {
    let mut rng = Rng::new(DEFAULT_SEED);
    assert_eq!(rng.next_u32(), 0xfa32_02b8);
}

#[test]
fn same_seed_same_draws() {
    let mut a = Rng::new(0x1234_5678_9abc_def0);
    let mut b = Rng::new(0x1234_5678_9abc_def0);
    let first: Vec<u32> = (0..5).map(|_| a.next_u32()).collect();
    let mut second: Vec<u32> = (0..2).map(|_| b.next_u32()).collect();
    second.extend((0..3).map(|_| b.next_u32()));
    assert_eq!(first, second);
    assert_eq!(a.state(), b.state());
}

#[test]
fn pixel_generators_are_odd_and_fixed() {
    assert_eq!(Rng::for_pixel(0, 0).state(), 1);
    assert_eq!(Rng::for_pixel(5, 2).state(), 0x3c6e_f372_fe94_f82f);
    assert_eq!(Rng::for_pixel(5, 2).state(), Rng::for_pixel(5, 2).state());
    assert_ne!(Rng::for_pixel(5, 2).state(), Rng::for_pixel(5, 3).state());
}

#[test]
fn unit_ball_rejects_then_accepts() {
    let mut rng = Rng::new(42);
    let p = random_in_unit_sphere(&mut rng, 10);
    assert_eq!(p, Some(FixedVec3 { x: -922_335_508, y: -360_125_578, z: 572_369_886 }));
    let mut check = Rng::new(42);
    for _ in 0..6 {
        check.next_u32();
    }
    assert_eq!(rng.state(), check.state());
}

#[test]
fn unit_ball_point_is_inside() {
    let mut rng = Rng::new(7);
    for _ in 0..50 {
        let p = random_in_unit_sphere(&mut rng, 1000).unwrap();
        let n2 = (p.x as i128).pow(2) + (p.y as i128).pow(2) + (p.z as i128).pow(2);
        assert!(n2 < (UNIT as i128) * (UNIT as i128));
    }
}

#[test]
fn unit_ball_gives_up_after_the_attempts() {
    let mut rng = Rng::new(0);
    assert_eq!(random_in_unit_sphere(&mut rng, 5), None);
    assert_eq!(rng.state(), 0);
    let mut rng = Rng::new(42);
    assert_eq!(random_in_unit_sphere(&mut rng, 1), None);
    let mut check = Rng::new(42);
    for _ in 0..3 {
        check.next_u32();
    }
    assert_eq!(rng.state(), check.state());
    let mut rng = Rng::new(42);
    assert_eq!(random_in_unit_sphere(&mut rng, 0), None);
    assert_eq!(rng.state(), 42);
}

#[test]
fn unit_disk_point_lies_in_the_plane() {
    let mut rng = Rng::new(42);
    let p = random_in_unit_disk(&mut rng, 10);
    assert_eq!(p, Some(FixedVec3 { x: -1_421_005_049, y: -922_335_508, z: 0 }));
    let mut rng = Rng::new(9);
    for _ in 0..50 {
        let p = random_in_unit_disk(&mut rng, 1000).unwrap();
        assert_eq!(p.z, 0);
        let n2 = (p.x as i128).pow(2) + (p.y as i128).pow(2);
        assert!(n2 < (UNIT as i128) * (UNIT as i128));
    }
}

#[test]
fn nearest_hit_picks_the_closest() {
    let hits = vec![None, Some(5), Some(3), Some(7)];
    assert_eq!(nearest_hit(&hits), Some(2));
}

#[test]
fn nearest_hit_first_wins_ties() {
    let hits = vec![Some(9), Some(3), None, Some(3), Some(4)];
    assert_eq!(nearest_hit(&hits), Some(1));
}

#[test]
fn nearest_hit_none_when_all_miss() {
    assert_eq!(nearest_hit(&vec![None, None]), None);
    assert_eq!(nearest_hit(&Vec::new()), None);
}

#[test]
fn overlapping_spheres_report_the_nearer() {
    // Two overlapping spheres on one ray: the far one listed first.
    let far = 4.0f64;
    let near = 2.5f64;
    let hits = vec![Some(far.to_bits()), Some(near.to_bits())];
    assert_eq!(nearest_hit(&hits), Some(1));
}

#[test]
fn root_choice() {
    assert_eq!(choose_root(true, true, true), None);
    assert_eq!(choose_root(false, true, true), Some(Root::Near));
    assert_eq!(choose_root(false, true, false), Some(Root::Near));
    assert_eq!(choose_root(false, false, true), Some(Root::Far));
    assert_eq!(choose_root(false, false, false), None);
}

#[test]
fn scatter_rules() {
    assert_eq!(scatter(ScatterTest::Lambertian { near_zero: false }), Scatter::Diffuse);
    assert_eq!(scatter(ScatterTest::Lambertian { near_zero: true }), Scatter::Normal);
    assert_eq!(scatter(ScatterTest::Metal { leaves_surface: true }), Scatter::FuzzedReflection);
    assert_eq!(scatter(ScatterTest::Metal { leaves_surface: false }), Scatter::Absorbed);
    let glass = |c, r| scatter(ScatterTest::Dielectric { cannot_refract: c, reflectance_wins: r });
    assert_eq!(glass(false, false), Scatter::Refraction);
    assert_eq!(glass(true, false), Scatter::Reflection);
    assert_eq!(glass(false, true), Scatter::Reflection);
    assert_eq!(glass(true, true), Scatter::Reflection);
}

#[test]
fn path_with_no_depth_ends_black() {
    assert_eq!(PathState::start(0), PathState::Done { end: PathEnd::Exhausted, bounces: 0 });
    assert_eq!(PathState::start(-3), PathState::Done { end: PathEnd::Exhausted, bounces: 0 });
}

#[test]
fn path_transitions() {
    let s = PathState::start(3);
    assert!(s.is_tracing());
    assert_eq!(s.advance(Probe::Miss), PathState::Done { end: PathEnd::Sky, bounces: 0 });
    assert_eq!(
        s.advance(Probe::Hit { scattered: false }),
        PathState::Done { end: PathEnd::Absorbed, bounces: 0 }
    );
    let s = s.advance(Probe::Hit { scattered: true });
    assert_eq!(s, PathState::Tracing { depth: 2, bounces: 1 });
    let s = s.advance(Probe::Hit { scattered: true });
    let s = s.advance(Probe::Hit { scattered: true });
    assert_eq!(s, PathState::Done { end: PathEnd::Exhausted, bounces: 3 });
    assert!(!s.is_tracing());
    assert_eq!(s.advance(Probe::Miss), s);
}

#[test]
fn path_ends_within_its_depth() {
    for depth in 0..6 {
        let mut s = PathState::start(depth);
        let mut probes = 0;
        while s.is_tracing() {
            s = s.advance(Probe::Hit { scattered: true });
            probes += 1;
        }
        assert_eq!(probes, depth.max(0));
    }
}

#[test]
fn two_by_two_frame_scenario() {
    // One sample per pixel, one bounce: nothing is drawn for the jitter; a ray
    // that hits the small sphere and scatters has spent its depth and ends
    // black; a ray that misses everything ends in the sky.
    let frame = FrameConfig::new(2, 2, 1, 1).unwrap();
    let mut rng = Rng::new(DEFAULT_SEED);
    assert_eq!(frame.jitter(&mut rng), Jitter::Fixed);
    assert_eq!(rng.state(), DEFAULT_SEED);
    let centre = PathState::start(frame.max_depth).advance(Probe::Hit { scattered: true });
    assert_eq!(centre, PathState::Done { end: PathEnd::Exhausted, bounces: 1 });
    let corner = PathState::start(frame.max_depth).advance(Probe::Miss);
    assert_eq!(corner, PathState::Done { end: PathEnd::Sky, bounces: 0 });
    let order: Vec<(u32, u32)> = (0..frame.pixel_count()).map(|i| frame.pixel_position(i)).collect();
    assert_eq!(order, vec![(0, 1), (1, 1), (0, 0), (1, 0)]);
}

#[test]
fn frame_config_errors() {
    assert_eq!(FrameConfig::new(0, 2, 1, 1), Err(ConfigError::ZeroWidth));
    assert_eq!(FrameConfig::new(2, 0, 1, 1), Err(ConfigError::ZeroHeight));
    assert_eq!(FrameConfig::new(2, 2, 0, 1), Err(ConfigError::NoSamples));
    assert_eq!(FrameConfig::new(2, 2, 1, -1), Err(ConfigError::NegativeDepth));
    assert_eq!(FrameConfig::new(0, 0, 0, -1), Err(ConfigError::ZeroWidth));
    let ok = FrameConfig::new(400, 266, 100, 0).unwrap();
    assert_eq!(ok, FrameConfig { width: 400, height: 266, samples_per_pixel: 100, max_depth: 0 });
    assert_eq!(ok.pixel_count(), 106_400);
}

#[test]
fn frame_too_large_for_the_machine() {
    let r = FrameConfig::new(u32::MAX, u32::MAX, 1, 1);
    if usize::BITS == 64 {
        assert!(r.is_ok());
    } else {
        assert_eq!(r, Err(ConfigError::TooManyPixels));
    }
}

#[test]
fn pixel_order_round_trip() {
    let frame = FrameConfig::new(3, 2, 4, 5).unwrap();
    assert_eq!(frame.pixel_position(0), (0, 1));
    assert_eq!(frame.pixel_position(4), (1, 0));
    assert_eq!(frame.pixel_index(2, 1), 2);
    assert_eq!(frame.pixel_index(0, 0), 3);
    for i in 0..frame.pixel_count() {
        let (x, y) = frame.pixel_position(i);
        assert_eq!(frame.pixel_index(x, y), i);
    }
}

#[test]
fn jitter_draws_two_values() {
    let frame = FrameConfig::new(2, 2, 2, 1).unwrap();
    let mut rng = Rng::new(1);
    assert_eq!(frame.jitter(&mut rng), Jitter::Drawn { u: 0xda94_2042, v: 0xfa32_02b8 });
    assert_eq!(rng.state(), 0xfa32_02b8_af3e_eff9);
}

#[test]
fn rgba_packing() {
    let px = vec![Rgb8 { r: 1, g: 2, b: 3 }, Rgb8 { r: 250, g: 0, b: 9 }];
    assert_eq!(pack_rgba(&px), vec![1, 2, 3, 255, 250, 0, 9, 255]);
    assert_eq!(pack_rgba(&Vec::new()), Vec::<u8>::new());
}
