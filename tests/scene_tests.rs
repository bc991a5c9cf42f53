use rand::rngs::StdRng;
use rand::SeedableRng;
use snowscene::layout::Layout;
use snowscene::particle::{GRAVITY, SCALE};
use snowscene::{is_apart, max_population_for, plan_layout, Scene, Snowflake, SnowfallIntensity, Wind};

#[test]
fn flake_step_adds_wind_and_fall() {
    let mut f = Snowflake::new(3 * SCALE, 0, 100);
    f.update(250, 40);
    assert_eq!(f.x, 3 * SCALE + 250);
    assert_eq!(f.y, 40 + GRAVITY * 100);
    assert_eq!(f.y, 9840);
    assert_eq!(f.m, 100);
}

#[test]
fn flake_constant_wind_many_steps() {
    let mut f = Snowflake::new(1000, 500, 60);
    let n: i64 = 7;
    for _ in 0..n {
        f.update(-30, 12);
    }
    assert_eq!(f.x, 1000 + n * -30);
    assert_eq!(f.y, 500 + n * (12 + GRAVITY * 60));
}

#[test]
fn flake_liveness_bounds() {
    assert!(Snowflake::new(0, 0, 80).is_alive(10, 10));
    assert!(Snowflake::new(10, 10, 80).is_alive(10, 10));
    assert!(!Snowflake::new(-1, 0, 80).is_alive(10, 10));
    assert!(!Snowflake::new(11, 0, 80).is_alive(10, 10));
    assert!(!Snowflake::new(5, 11, 80).is_alive(10, 10));
    assert!(Snowflake::new(5, -50, 80).is_alive(10, 10));
}

#[test]
fn flake_glyph_and_cell() {
    assert!(!Snowflake::new(0, 0, 90).is_heavy());
    assert!(Snowflake::new(0, 0, 91).is_heavy());
    assert_eq!(Snowflake::new(3 * SCALE + 9999, 2 * SCALE, 90).cell(), (3, 2));
    assert_eq!(Snowflake::new(-5, 7 * SCALE + 1, 90).cell(), (0, 7));
}

#[test]
fn wind_nudge_never_upward() {
    let mut w = Wind { drift_x: 100, drift_y: 50 };
    w.nudge(-1000, -1000);
    assert_eq!(w, Wind { drift_x: -900, drift_y: 0 });
    w.nudge(1000, 700);
    assert_eq!(w, Wind { drift_x: 100, drift_y: 700 });
    for d in [-1000i64, -1, 0, 1, 1000] {
        let mut v = Wind { drift_x: 0, drift_y: 3 };
        v.nudge(d, d);
        assert!(v.drift_y >= 0);
    }
}

#[test]
fn population_targets() {
    assert_eq!(max_population_for(SnowfallIntensity::Low, 20, 10), 10);
    assert_eq!(max_population_for(SnowfallIntensity::Medium, 20, 10), 20);
    assert_eq!(max_population_for(SnowfallIntensity::High, 20, 10), 40);
    assert_eq!(max_population_for(SnowfallIntensity::Low, 7, 3), 1);
    assert_eq!(max_population_for(SnowfallIntensity::High, 0, 50), 0);
    assert_eq!(max_population_for(SnowfallIntensity::High, 65535, 65535), 858967245);
}

#[test]
fn columns_apart() {
    assert!(is_apart(10, 4, 6));
    assert!(is_apart(4, 10, 6));
    assert!(!is_apart(4, 9, 6));
    assert!(is_apart(0, 0, 0));
}

fn check_layout(l: Layout, cols: u16) {
    if cols < 6 {
        assert_eq!(l, Layout { snowman: None, tree: None, santa: None });
        return;
    }
    let s = l.snowman.expect("snowman placed");
    assert!(1 <= s && s < cols - 1);
    if cols < 12 {
        assert_eq!(l.tree, None);
    }
    if cols < 17 {
        assert_eq!(l.santa, None);
    }
    if let Some(t) = l.tree {
        assert!(2 <= t && t < cols - 2);
        assert!(is_apart(t, s, 6));
    }
    if let Some(a) = l.santa {
        let t = l.tree.expect("tree placed before santa");
        assert!(1 <= a && a < cols - 1);
        assert!(is_apart(a, s, 5));
        assert!(is_apart(a, t, 6));
    }
}

#[test]
fn layout_by_width() {
    for cols in 0u16..60 {
        for seed in 0u64..20 {
            let mut rng = StdRng::seed_from_u64(seed);
            check_layout(plan_layout(&mut rng, cols), cols);
        }
    }
}

#[test]
fn layout_wide_grid_places_all() {
    let mut rng = StdRng::seed_from_u64(11);
    let l = plan_layout(&mut rng, 80);
    assert!(l.snowman.is_some() && l.tree.is_some() && l.santa.is_some());
    check_layout(l, 80);
}

#[test]
fn low_intensity_small_grid_starts_empty() {
    for seed in 0u64..10 {
        let s = Scene::new(SnowfallIntensity::Low, 20, 10, seed);
        assert_eq!(s.max_population(), 10);
        assert_eq!(s.population(), 0);
    }
}

#[test]
fn tiny_grid_has_no_figures() {
    let mut s = Scene::new(SnowfallIntensity::High, 5, 5, 3);
    assert_eq!(s.snowman_col(), None);
    assert_eq!(s.tree_col(), None);
    assert_eq!(s.santa_col(), None);
    s.update(80, 24);
    s.update(5, 5);
    assert_eq!(s.layout(), Layout { snowman: None, tree: None, santa: None });
}

#[test]
fn resize_replans_and_respawns() {
    let mut s = Scene::new(SnowfallIntensity::Medium, 80, 24, 42);
    for _ in 0..30 {
        s.update(80, 24);
    }
    let wind = s.wind();
    s.update(100, 30);
    assert_eq!(s.cols(), 100);
    assert_eq!(s.rows(), 30);
    assert_eq!(s.wind(), wind);
    assert_eq!(s.max_population(), 300);
    assert!(s.population() < 300 / 16);
    for f in s.snowflakes() {
        assert_eq!(f.y, 0);
        assert_eq!(f.x % SCALE, 0);
        assert!(f.x >= 0 && f.x < 100 * SCALE);
    }
    check_layout(s.layout(), 100);
}

#[test]
fn same_seed_same_scene() {
    let mut a = Scene::new(SnowfallIntensity::High, 60, 20, 9);
    let mut b = Scene::new(SnowfallIntensity::High, 60, 20, 9);
    for _ in 0..50 {
        a.update(60, 20);
        b.update(60, 20);
        assert_eq!(a.wind(), b.wind());
        assert_eq!(a.snowflakes(), b.snowflakes());
    }
    assert_eq!(a.layout(), b.layout());
}

#[test]
fn population_stays_within_target() {
    let mut s = Scene::new(SnowfallIntensity::High, 120, 40, 5);
    let max = s.max_population();
    assert_eq!(max, 960);
    let mut grew = false;
    for _ in 0..300 {
        let before = s.population();
        s.update(120, 40);
        assert!(s.population() <= max);
        if s.population() > before {
            grew = true;
        }
    }
    assert!(grew);
}

#[test]
fn advance_moves_and_culls() {
    let mut s = Scene::new(SnowfallIntensity::High, 100, 100, 1);
    let n = s.population();
    let batch = vec![
        Snowflake::new(5 * SCALE, 0, 100),
        Snowflake::new(100 * SCALE, 0, 140),
        Snowflake::new(0, 0, 60),
    ];
    s.add_flakes(batch);
    assert_eq!(s.population(), n + 3);
    s.advance(Wind { drift_x: 1, drift_y: 2 });
    let flakes = s.snowflakes();
    assert_eq!(flakes.len(), n + 2);
    assert_eq!(flakes[n], Snowflake::new(5 * SCALE + 1, 2 + GRAVITY * 100, 100));
    assert_eq!(flakes[n + 1], Snowflake::new(1, 2 + GRAVITY * 60, 60));
    for f in flakes {
        assert!(f.is_alive(100 * SCALE, 100 * SCALE));
    }
    assert_eq!(s.wind(), Wind { drift_x: 1, drift_y: 2 });
}

#[test]
fn flakes_leaving_grid_are_culled() {
    let mut s = Scene::new(SnowfallIntensity::High, 40, 5, 8);
    let n = s.population();
    s.add_flakes(vec![Snowflake::new(20 * SCALE, 0, 140)]);
    s.advance(Wind { drift_x: 0, drift_y: 0 });
    s.advance(Wind { drift_x: 0, drift_y: 0 });
    assert_eq!(s.population(), n + 1);
    assert_eq!(s.snowflakes()[n].y, 2 * GRAVITY * 140);
    s.advance(Wind { drift_x: 0, drift_y: 40000 });
    assert_eq!(s.population(), 0);
}

#[test]
fn update_leaves_only_flakes_in_grid() {
    let mut t = Scene::new(SnowfallIntensity::High, 40, 40, 8);
    t.add_flakes(vec![Snowflake::new(0, 0, 60), Snowflake::new(40 * SCALE, 0, 60)]);
    for _ in 0..40 {
        t.update(40, 40);
        for f in t.snowflakes() {
            assert!(f.x >= 0 && f.x <= 40 * SCALE && f.y <= 40 * SCALE);
        }
    }
}
