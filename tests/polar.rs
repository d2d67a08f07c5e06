use polar_oxides::{
    build_batch, frame_bound, is_visible, max_number_from_arg, Configs, DrawEntry, HostAction,
    Input, PaletteColor, Particle, PolarOxideColors, PolarOxides, PrimeOracle,
    DEFAULT_MAX_NUMBER, MAX_ZOOM_LEVEL,
};

fn trial_division(n: u64) -> bool {
    if n < 2 {
        return false;
    }
    let mut d = 2;
    while d * d <= n {
        if n % d == 0 {
            return false;
        }
        d += 1;
    }
    true
}

/// Whole-pixel magnitudes of each particle's position scaled by `pixel_rate`.
fn magnitudes(particles: &[Particle], pixel_rate: f32) -> Vec<(i32, i32)> {
    particles
        .iter()
        .map(|p| {
            let n = p.number as f32;
            ((n * n.cos() * pixel_rate).abs() as i32, (n * n.sin() * pixel_rate).abs() as i32)
        })
        .collect()
}

#[test]
fn particles_cover_one_to_bound() {
    let ps = PolarOxides::generate_particles(20);
    assert_eq!(ps.len(), 19);
    for (i, p) in ps.iter().enumerate() {
        assert_eq!(p.number, i as u64 + 1);
    }
    assert!(PolarOxides::generate_particles(0).is_empty());
    assert!(PolarOxides::generate_particles(1).is_empty());
}

#[test]
fn primality_matches_trial_division() {
    let ps = PolarOxides::generate_particles(2000);
    for p in &ps {
        assert_eq!(p.is_prime, trial_division(p.number), "n = {}", p.number);
    }
    assert!(!ps[0].is_prime);
    assert!(ps[1].is_prime);
}

#[test]
fn oracle_answers_at_its_bound() {
    let o = PrimeOracle::build(97);
    assert!(o.is_prime(97));
    assert!(!o.is_prime(1));
    assert!(!o.is_prime(0));
    assert!(o.is_prime(2));
    assert!(!o.is_prime(91));
    let o = PrimeOracle::build(100);
    assert!(!o.is_prime(100));
    assert!(Particle::new(89, &o).is_prime);
    assert!(!Particle::new(99, &o).is_prime);
}

#[test]
fn zoom_in_at_zero_is_clamped() {
    let mut c = Configs::initial();
    assert_eq!(c.apply(Input::ZoomIn), HostAction::Nothing);
    assert_eq!(c, Configs { zoom_level: 0, draw_nonprimes: true });
    c.apply(Input::ZoomOut);
    c.apply(Input::ZoomOut);
    c.apply(Input::ZoomIn);
    assert_eq!(c.zoom_level, 1);
}

#[test]
fn zoom_out_stops_above_max() {
    let mut c = Configs { zoom_level: MAX_ZOOM_LEVEL - 1, draw_nonprimes: true };
    for _ in 0..5 {
        c.apply(Input::ZoomOut);
    }
    assert_eq!(c.zoom_level, MAX_ZOOM_LEVEL + 1);
}

#[test]
fn fullscreen_toggle_also_zooms_out() {
    let mut c = Configs { zoom_level: MAX_ZOOM_LEVEL + 1, draw_nonprimes: false };
    assert_eq!(c.apply(Input::ToggleFullscreen), HostAction::ToggleFullscreen);
    assert_eq!(c.zoom_level, MAX_ZOOM_LEVEL + 2);
    let mut c = Configs { zoom_level: i32::MAX, draw_nonprimes: false };
    c.apply(Input::ToggleFullscreen);
    assert_eq!(c.zoom_level, i32::MAX);
}

#[test]
fn toggle_and_quit() {
    let mut c = Configs::initial();
    assert_eq!(c.apply(Input::ToggleDrawNonprimes), HostAction::Nothing);
    assert!(!c.draw_nonprimes);
    c.apply(Input::ToggleDrawNonprimes);
    assert!(c.draw_nonprimes);
    assert_eq!(c.apply(Input::Quit), HostAction::Quit);
    assert_eq!(c, Configs::initial());
}

#[test]
fn visibility_thresholds() {
    assert!(is_visible(1, 0, 100, false, true));
    assert!(is_visible(0, 1, 100, true, false));
    assert!(!is_visible(0, 0, 100, true, true));
    let almost_one = 0.999f32.abs() as i32;
    assert!(!is_visible(almost_one, almost_one, 100, true, true));
    assert!(is_visible(200, 3, 100, true, true));
    assert!(!is_visible(201, 3, 100, true, true));
    assert!(!is_visible(3, 201, 100, true, true));
    assert!(!is_visible(5, 5, 100, false, false));
    assert!(is_visible(i32::MAX, 0, i32::MAX, true, true));
}

#[test]
fn frame_bound_is_larger_side() {
    assert_eq!(frame_bound(1280, 800), 1280);
    assert_eq!(frame_bound(600, 900), 900);
    assert_eq!(frame_bound(100, 100), 100);
}

#[test]
fn palette_columns() {
    assert_eq!(PolarOxideColors::index_of(PaletteColor::Black), 0);
    assert_eq!(PolarOxideColors::index_of(PaletteColor::Yellow), 1);
    assert_eq!(PolarOxideColors::index_of(PaletteColor::Blue), 2);
}

#[test]
fn hiding_composites_keeps_primes() {
    let ps = PolarOxides::generate_particles(20);
    let mags = magnitudes(&ps, 10.0);
    let all = build_batch(&ps, &mags, 100, true);
    let primes = build_batch(&ps, &mags, 100, false);
    let expected: Vec<DrawEntry> = all.iter().copied().filter(|e| e.color_index == 2).collect();
    assert_eq!(primes, expected);
    let numbers: Vec<u64> = primes.iter().map(|e| ps[e.index].number).collect();
    assert_eq!(numbers, vec![2, 3, 5, 7, 11, 13, 17, 19]);
    assert!(all.iter().any(|e| e.color_index == 1));
}

#[test]
fn end_to_end_small_field() {
    let mut view = PolarOxides::new(PolarOxides::generate_particles(10));
    assert_eq!(view.configs, Configs { zoom_level: 0, draw_nonprimes: true });
    let mags = magnitudes(&view.particles, 10.0);
    let batch = view.draw(&mags, frame_bound(100, 100)).unwrap();
    let got: Vec<(u64, u16)> =
        batch.iter().map(|e| (view.particles[e.index].number, e.color_index)).collect();
    assert_eq!(
        got,
        vec![(1, 1), (2, 2), (3, 2), (4, 1), (5, 2), (6, 1), (7, 2), (8, 1), (9, 1)]
    );
}

#[test]
fn unchanged_view_is_not_rebuilt() {
    let mut view = PolarOxides::new(PolarOxides::generate_particles(30));
    let mags = magnitudes(&view.particles, 10.0);
    let first = view.draw(&mags, 640).unwrap();
    assert!(view.draw(&mags, 640).is_none());
    assert!(view.draw(&mags, 640).is_none());
    assert_eq!(view.interact(Input::ZoomOut), HostAction::Nothing);
    view.interact(Input::ZoomIn);
    let again = view.draw(&mags, 640);
    assert!(again.is_none());
    view.interact(Input::ToggleDrawNonprimes);
    view.interact(Input::ToggleDrawNonprimes);
    assert!(view.draw(&mags, 640).is_none());
    view.interact(Input::ZoomOut);
    let zoomed = view.draw(&mags, 640).unwrap();
    assert_eq!(zoomed, first);
    assert!(!first.is_empty());
}

#[test]
fn bound_from_argument() {
    assert_eq!(max_number_from_arg(None), DEFAULT_MAX_NUMBER);
    assert_eq!(max_number_from_arg(Some("1234")), 1234);
    assert_eq!(max_number_from_arg(Some("  42\n")), 42);
    assert_eq!(max_number_from_arg(Some("+7")), 7);
    assert_eq!(max_number_from_arg(Some("-1")), DEFAULT_MAX_NUMBER);
    assert_eq!(max_number_from_arg(Some("12ab")), DEFAULT_MAX_NUMBER);
    assert_eq!(max_number_from_arg(Some("")), DEFAULT_MAX_NUMBER);
    assert_eq!(max_number_from_arg(Some("18446744073709551616")), DEFAULT_MAX_NUMBER);
    assert_eq!(max_number_from_arg(Some("18446744073709551615")), u64::MAX);
}
