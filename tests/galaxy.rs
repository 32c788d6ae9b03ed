use spiral_galaxy::binary32::{positive_finite, truncate_to_u32};
use spiral_galaxy::config::{systems_per_branch, systems_per_revolution};
use spiral_galaxy::{
    branch_color, generate, GalaxyConfig, GalaxyError, InputData, PressedKeys, StarColor,
};

fn config(
    seed: u64,
    branch_count: u32,
    elem_count: u32,
    init_radius: f32,
    expansion_rate: f32,
    revolution_count: f32,
    depth_std_dev: f32,
    lat_offset_std_dev: f32,
) -> GalaxyConfig {
    GalaxyConfig {
        seed,
        branch_count,
        elem_count,
        init_radius_bits: init_radius.to_bits(),
        expansion_rate_bits: expansion_rate.to_bits(),
        revolution_count_bits: revolution_count.to_bits(),
        depth_std_dev_bits: depth_std_dev.to_bits(),
        lat_offset_std_dev_bits: lat_offset_std_dev.to_bits(),
    }
}

fn reference_config() -> GalaxyConfig {
    config(12345678, 3, 2000, 0.05, 1.0, 2.5, 0.15, 0.05)
}

#[test]
fn positive_finite_classifies_values() {
    assert!(positive_finite(1.0f32.to_bits()));
    assert!(positive_finite(f32::MIN_POSITIVE.to_bits()));
    assert!(positive_finite(f32::MAX.to_bits()));
    assert!(positive_finite(1e-45f32.to_bits()));
    assert!(!positive_finite(0.0f32.to_bits()));
    assert!(!positive_finite((-0.0f32).to_bits()));
    assert!(!positive_finite((-1.0f32).to_bits()));
    assert!(!positive_finite(f32::INFINITY.to_bits()));
    assert!(!positive_finite(f32::NAN.to_bits()));
}

#[test]
fn truncation_exact_values() {
    assert_eq!(truncate_to_u32(2.5f32.to_bits()), 2);
    assert_eq!(truncate_to_u32(0.5f32.to_bits()), 0);
    assert_eq!(truncate_to_u32(1.0f32.to_bits()), 1);
    assert_eq!(truncate_to_u32(300.75f32.to_bits()), 300);
    assert_eq!(truncate_to_u32(16777216.0f32.to_bits()), 16777216);
    assert_eq!(truncate_to_u32(4294967040.0f32.to_bits()), 4294967040);
    assert_eq!(truncate_to_u32(4294967296.0f32.to_bits()), u32::MAX);
    assert_eq!(truncate_to_u32(1e10f32.to_bits()), u32::MAX);
    assert_eq!(truncate_to_u32(f32::MAX.to_bits()), u32::MAX);
    assert_eq!(truncate_to_u32(f32::INFINITY.to_bits()), u32::MAX);
    assert_eq!(truncate_to_u32(f32::INFINITY.to_bits()), f32::INFINITY as u32);
}

#[test]
fn truncation_agrees_with_cast() {
    let mut bits: u32 = 1;
    while bits < 0x7F80_0000 {
        let x = f32::from_bits(bits);
        assert_eq!(truncate_to_u32(bits), x as u32, "bits {:#x}", bits);
        bits = bits.wrapping_add(0x1357);
    }
}

#[test]
fn divisions_truncate() {
    assert_eq!(systems_per_branch(10, 3), 3);
    assert_eq!(systems_per_branch(2, 3), 0);
    assert_eq!(systems_per_revolution(666, 2), 333);
    assert_eq!(systems_per_revolution(5, 2), 2);
    assert_eq!(systems_per_revolution(2, 5), 1);
    assert_eq!(systems_per_revolution(0, 5), 1);
}

#[test]
fn palette_cycles_by_three() {
    assert_eq!(branch_color(0), StarColor::Red);
    assert_eq!(branch_color(1), StarColor::Green);
    assert_eq!(branch_color(2), StarColor::Blue);
    assert_eq!(branch_color(3), StarColor::Red);
    assert_eq!(branch_color(4), StarColor::Green);
    assert_eq!(StarColor::Red.channels(), (1, 0, 0));
    assert_eq!(StarColor::Green.channels(), (0, 1, 0));
    assert_eq!(StarColor::Blue.channels(), (0, 0, 1));
}

#[test]
fn same_config_same_layout() {
    let c = reference_config();
    let a = generate(&c).unwrap();
    let b = generate(&c).unwrap();
    assert_eq!(a.plan, b.plan);
    assert_eq!(a.stars, b.stars);
}

#[test]
fn remainder_stars_dropped() {
    let g = generate(&config(1, 3, 10, 0.05, 1.0, 1.0, 0.1, 0.1)).unwrap();
    assert_eq!(g.stars.len(), 9);
}

#[test]
fn first_star_on_start_angle() {
    let g = generate(&config(1, 4, 40, 0.05, 1.0, 2.0, 0.1, 0.1)).unwrap();
    assert_eq!(g.plan.systems_per_branch, 10);
    assert_eq!(g.plan.systems_per_revolution, 5);
    let first = g.stars[2 * 10];
    assert_eq!((first.branch, first.index, first.phase, first.revolution), (2, 0, 0, 0));
    let angle = first.branch as f32 * (2.0 * std::f32::consts::PI / g.plan.branch_count as f32);
    assert_eq!(angle, std::f32::consts::PI);
    let later = g.stars[2 * 10 + 7];
    assert_eq!((later.revolution, later.phase), (1, 2));
}

#[test]
fn arms_share_colors_mod_three() {
    let g = generate(&config(1, 5, 50, 0.05, 1.0, 1.0, 0.1, 0.1)).unwrap();
    for s in &g.stars {
        assert_eq!(s.color, branch_color(s.branch));
    }
    assert_eq!(g.stars[0].color, g.stars[3 * 10].color);
    assert_ne!(g.stars[0].color, g.stars[10].color);
}

#[test]
fn center_dist_grows_along_arm() {
    let c = reference_config();
    let g = generate(&c).unwrap();
    let radius = f32::from_bits(c.init_radius_bits);
    let rate = f32::from_bits(c.expansion_rate_bits);
    let spr = g.plan.systems_per_revolution as f32;
    let mut last = f32::MIN;
    for s in g.stars.iter().filter(|s| s.branch == 1) {
        let d = radius + rate * (s.index as f32 / spr);
        assert!(d >= last);
        last = d;
    }
}

#[test]
fn fewer_stars_than_arms_is_empty() {
    let g = generate(&config(1, 3, 2, 0.05, 1.0, 1.0, 0.1, 0.1)).unwrap();
    assert!(g.stars.is_empty());
}

#[test]
fn negative_depth_deviation_rejected() {
    let r = generate(&config(1, 3, 30, 0.05, 1.0, 1.0, -1.0, 0.1));
    assert_eq!(r.unwrap_err(), GalaxyError::InvalidParameter);
}

#[test]
fn negative_lateral_deviation_rejected() {
    let r = generate(&config(1, 3, 30, 0.05, 1.0, 1.0, 0.1, -0.5));
    assert_eq!(r.unwrap_err(), GalaxyError::InvalidParameter);
}

#[test]
fn other_invalid_settings_rejected() {
    let bad = [
        config(1, 0, 30, 0.05, 1.0, 1.0, 0.1, 0.1),
        config(1, 3, 30, 0.05, 1.0, 0.0, 0.1, 0.1),
        config(1, 3, 30, 0.05, 1.0, -2.0, 0.1, 0.1),
        config(1, 3, 30, 0.05, 1.0, f32::NAN, 0.1, 0.1),
        config(1, 3, 30, 0.05, 1.0, 1.0, 0.0, 0.1),
        config(1, 3, 30, 0.05, 1.0, 1.0, 0.1, f32::INFINITY),
    ];
    for c in &bad {
        assert_eq!(generate(c).unwrap_err(), GalaxyError::InvalidParameter);
    }
}

#[test]
fn revolution_count_below_one_turn_accepted() {
    let g = generate(&config(1, 3, 30, 0.05, 1.0, 0.5, 0.1, 0.1)).unwrap();
    assert_eq!(g.plan.systems_per_branch, 10);
    assert_eq!(g.plan.systems_per_revolution, 10);
    assert_eq!(g.stars.len(), 30);
    let first = g.stars[2 * 10];
    assert_eq!((first.branch, first.index, first.phase, first.revolution), (2, 0, 0, 0));
    let empty = generate(&config(1, 3, 2, 0.05, 1.0, 0.25, 0.1, 0.1)).unwrap();
    assert!(empty.stars.is_empty());
}

#[test]
fn infinite_revolution_count_accepted() {
    let g = generate(&config(1, 2, 20, 0.05, 1.0, f32::INFINITY, 0.1, 0.1)).unwrap();
    assert_eq!(g.plan.systems_per_revolution, 1);
    assert_eq!(g.stars.len(), 20);
    assert!(g.stars.iter().all(|s| s.phase == 0 && s.revolution == s.index));
}

#[test]
fn reference_galaxy_layout() {
    let g = generate(&reference_config()).unwrap();
    assert_eq!(g.plan.systems_per_branch, 666);
    assert_eq!(g.plan.systems_per_revolution, 333);
    assert_eq!(g.stars.len(), 1998);
    for (k, s) in g.stars.iter().enumerate() {
        assert_eq!(s.branch as usize, k / 666);
        assert_eq!(s.index as usize, k % 666);
    }
    let last = g.stars[1997];
    assert_eq!((last.branch, last.index, last.revolution, last.phase), (2, 665, 1, 332));
    assert_eq!(last.color, StarColor::Blue);
}

#[test]
fn plan_slot_matches_listing() {
    let g = generate(&reference_config()).unwrap();
    assert_eq!(g.plan.slot(1, 400), g.stars[666 + 400]);
}

#[test]
fn input_capture_and_reset() {
    let mut d = InputData::new();
    let keys = PressedKeys {
        quit: false,
        left: true,
        right: false,
        up: false,
        down: true,
        forward: true,
        backward: false,
        alt: true,
    };
    assert!(!d.capture(&keys));
    assert!(d.left && d.down && d.front && d.alt);
    assert!(!d.right && !d.up && !d.back);
    assert!(d.use_map_input());
    let quit = PressedKeys { quit: true, alt: false, ..keys };
    assert!(d.capture(&quit));
    assert!(!d.use_map_input());
    d.reset();
    assert_eq!(d, InputData::new());
}
