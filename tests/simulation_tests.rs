use bubbles::diagnostics::INITIAL_X_LIMIT;
use bubbles::population::{spawn, MAX_LIFE, MIN_LIFE};
use bubbles::random::draw;
use bubbles::{Color, DiagnosticsView, PopulationManager, Rgb, Settings, TickOutcome, MAX_RADIUS_LIMIT};

fn settings(max_count: u8) -> Settings {
    Settings {
        paused: false,
        background: Rgb { red: 0, green: 0, blue: 0 },
        max_count,
        max_speed: 159_155,
        max_growth_rate: 100_000,
        gamma_shape: 10_000,
        gamma_scale: 10_000,
    }
}

#[test]
fn fills_empty_population_in_one_tick() {
    let mut pm = PopulationManager::new();
    let s = settings(3);
    let r = pm.update(16_667, &s, &vec![5_000, 900_000, 40_000]);
    assert_eq!(r, TickOutcome::Advanced { spawned: 3 });
    assert_eq!(pm.particles().len(), 3);
    for p in pm.particles() {
        assert!(p.time_to_live >= MIN_LIFE && p.time_to_live <= MAX_LIFE);
        assert!(p.max_radius <= MAX_RADIUS_LIMIT);
        assert!(p.radius <= p.max_radius);
    }
    assert_eq!(pm.particles()[0].max_radius, 5_000);
    assert_eq!(pm.particles()[0].radius, 5_000);
    assert_eq!(pm.particles()[1].max_radius, MAX_RADIUS_LIMIT);
    assert_eq!(pm.particles()[2].radius, 10_000);
}

#[test]
fn never_spawns_past_target() {
    let mut pm = PopulationManager::new();
    pm.update(1, &settings(5), &vec![50_000; 5]);
    assert_eq!(pm.particles().len(), 5);
    let r = pm.update(1, &settings(2), &vec![50_000; 5]);
    assert_eq!(r, TickOutcome::Advanced { spawned: 0 });
    assert!(pm.particles().len() <= 5);
    let r = pm.update(1, &settings(6), &vec![50_000; 5]);
    assert_eq!(r, TickOutcome::Advanced { spawned: 1 });
    assert_eq!(pm.particles().len(), 6);
}

#[test]
fn expired_particles_are_culled() {
    let mut pm = PopulationManager::new();
    pm.update(1, &settings(1), &vec![400_000]);
    assert_eq!(pm.particles().len(), 1);
    let r = pm.update(MAX_LIFE, &settings(0), &vec![]);
    assert_eq!(r, TickOutcome::Advanced { spawned: 0 });
    assert_eq!(pm.particles().len(), 0);
}

#[test]
fn invalid_gamma_skips_spawn() {
    let mut pm = PopulationManager::new();
    let mut s = settings(3);
    s.gamma_shape = -1_000;
    let r = pm.update(16_667, &s, &vec![5_000, 5_000, 5_000]);
    assert_eq!(r, TickOutcome::SpawnSkipped);
    assert_eq!(pm.particles().len(), 0);
    s.gamma_shape = 1_000;
    s.gamma_scale = 0;
    assert!(!s.gamma_is_valid());
}

#[test]
fn paused_changes_nothing() {
    let mut pm = PopulationManager::new();
    pm.update(1, &settings(2), &vec![50_000, 50_000]);
    let before = pm.particles().clone();
    let mut s = settings(4);
    s.paused = true;
    assert_eq!(pm.update(5_000_000, &s, &vec![50_000; 4]), TickOutcome::Paused);
    assert_eq!(*pm.particles(), before);
    pm.clear();
    assert!(pm.particles().is_empty());
}

#[test]
fn spawned_particle_within_ranges() {
    let mut s = settings(1);
    s.max_speed = 0;
    s.max_growth_rate = 0;
    for _ in 0..50 {
        let p = spawn(&s, 20_000);
        assert_eq!(p.angular_speed, 0);
        assert_eq!(p.growth_rate, 1_000);
        assert_eq!(p.angle, 0);
        assert!(p.color.red < 128 && p.color.alpha >= 128);
        assert!(p.pivot.x >= -500 && p.pivot.x < 500 && p.pivot.y >= -500 && p.pivot.y < 500);
        let ox = p.pivot.x + p.offset.x;
        let oy = p.pivot.y + p.offset.y;
        assert!(ox >= -500 && ox < 500 && oy >= -500 && oy < 500);
    }
}

#[test]
fn draw_stays_in_range() {
    assert_eq!(draw(5, 5), 5);
    assert_eq!(draw(7, 2), 7);
    for _ in 0..100 {
        let v = draw(-3, 3);
        assert!((-3..3).contains(&v));
    }
    let draws: Vec<i64> = (0..200).map(|_| draw(0, 1_000)).collect();
    assert!(draws.iter().any(|&v| v != 0));
}

#[test]
fn axis_limit_decays_and_jumps() {
    let mut v = DiagnosticsView::new();
    assert_eq!(v.x_limit, INITIAL_X_LIMIT);
    v.observe(0);
    assert_eq!(v.x_limit, 99);
    v.observe(500);
    assert_eq!(v.x_limit, 500);
    v.observe(10);
    assert_eq!(v.x_limit, 497);
}

#[test]
fn diagnostics_of_empty_population() {
    let pm = PopulationManager::new();
    let mut v = DiagnosticsView::new();
    let d = v.refresh(&pm, &settings(0));
    assert_eq!(d.speed_axis, 159_155);
    assert_eq!(d.speed.len(), 10);
    assert!(d.radius.iter().all(|b| b.count == 0 && b.upper == 0));
    assert!(d.max_radius.iter().all(|b| b.count == 0));
    assert_eq!(d.x_limit, 99);
    assert_eq!(v.x_limit, 99);
}

#[test]
fn diagnostics_share_radius_axis() {
    let mut pm = PopulationManager::new();
    pm.update(1, &settings(3), &vec![300_000, 200_000, 100_000]);
    let mut v = DiagnosticsView::new();
    let d = v.refresh(&pm, &settings(3));
    assert_eq!(d.radius.iter().map(|b| b.count).sum::<u64>(), 3);
    assert_eq!(d.max_radius.iter().map(|b| b.count).sum::<u64>(), 3);
    assert_eq!(d.speed.iter().map(|b| b.count).sum::<u64>(), 3);
    assert_eq!(d.radius[9].upper, 3000);
    assert_eq!(d.max_radius[9].upper, 3000);
    assert_eq!(d.max_radius[9].count, 1);
    assert_eq!(d.max_radius[6].count, 1);
    assert_eq!(d.max_radius[3].count, 1);
    assert_eq!(d.radius[0].count, 3);
    assert_eq!(d.x_limit, 300);
}

#[test]
fn color_names_resolve() {
    assert_eq!(Color::DimGray.name(), "dimgray");
    assert_eq!(Color::DimGray.rgb(), Ok(Rgb { red: 105, green: 105, blue: 105 }));
    assert_eq!(Color::SteelBlue.rgb(), Ok(Rgb { red: 70, green: 130, blue: 180 }));
    assert_eq!(Color::Honeydew.rgb(), Ok(Rgb { red: 240, green: 255, blue: 240 }));
    assert_eq!(Color::Black.rgb(), Ok(Rgb { red: 0, green: 0, blue: 0 }));
}

#[test]
fn startup_settings() {
    let s = Settings::startup(Color::Silver, 7, 100, 200).unwrap();
    assert!(!s.paused);
    assert_eq!(s.background, Rgb { red: 192, green: 192, blue: 192 });
    assert_eq!(s.max_count, 7);
    assert_eq!(s.max_speed, 100);
    assert_eq!(s.max_growth_rate, 200);
    assert!(s.gamma_is_valid());
}
