use topbar::geometry::{
    resize_geometry, setup_geometry, AppliedGeometry, MonitorDescriptor, UnitMode,
    MAX_SCREEN_WIDTH,
};
use topbar::scale::ScaleFactor;

fn monitor(physical_width: u32, scale: f64) -> MonitorDescriptor {
    let scale_factor = ScaleFactor::from_bits(scale.to_bits()).unwrap();
    MonitorDescriptor::new(physical_width, 1080, scale_factor)
}

/// Nearest integer to `numer / denom`, a tie going toward zero, in plain
/// integer arithmetic.
fn nearest(numer: i128, denom: i128) -> i128 {
    let magnitude = numer.abs();
    let quotient = magnitude / denom;
    let remainder = magnitude % denom;
    let rounded = if 2 * remainder > denom { quotient + 1 } else { quotient };
    if numer < 0 {
        -rounded
    } else {
        rounded
    }
}

#[test]
fn setup_on_full_hd_in_physical_pixels() {
    let geometry = setup_geometry(&monitor(1920, 1.0), 48, UnitMode::Physical);
    assert_eq!(geometry, AppliedGeometry { x: 384, y: 0, width: 1152, height: 48 });
}

#[test]
fn setup_on_full_hd_in_logical_pixels_at_scale_one() {
    let geometry = setup_geometry(&monitor(1920, 1.0), 48, UnitMode::Logical);
    assert_eq!(geometry, AppliedGeometry { x: 384, y: 0, width: 1152, height: 48 });
}

#[test]
fn resize_centres_the_window() {
    let geometry = resize_geometry(&monitor(1920, 1.0), 800, 60, UnitMode::Physical);
    assert_eq!(geometry, AppliedGeometry { x: 560, y: 0, width: 800, height: 60 });
    let geometry = resize_geometry(&monitor(1920, 1.0), 800, 60, UnitMode::Logical);
    assert_eq!(geometry, AppliedGeometry { x: 560, y: 0, width: 800, height: 60 });
}

#[test]
fn resize_wider_than_the_screen_goes_negative() {
    let geometry = resize_geometry(&monitor(1920, 1.0), 2000, 60, UnitMode::Physical);
    assert_eq!(geometry, AppliedGeometry { x: -40, y: 0, width: 2000, height: 60 });
    let geometry = resize_geometry(&monitor(0, 1.0), u32::MAX, 1, UnitMode::Physical);
    assert_eq!(geometry.x, -2147483647);
    assert_eq!(geometry.width, u32::MAX);
}

#[test]
fn setup_rounds_to_the_nearest_pixel() {
    // 1921 * 0.6 = 1152.6 and 1921 * 0.2 = 384.2
    let geometry = setup_geometry(&monitor(1921, 1.0), 10, UnitMode::Physical);
    assert_eq!((geometry.width, geometry.x), (1153, 384));
    // 1923 * 0.6 = 1153.8 and 1923 * 0.2 = 384.6
    let geometry = setup_geometry(&monitor(1923, 1.0), 10, UnitMode::Physical);
    assert_eq!((geometry.width, geometry.x), (1154, 385));
    // 1 * 0.6 = 0.6 and 1 * 0.2 = 0.2
    let geometry = setup_geometry(&monitor(1, 1.0), 10, UnitMode::Physical);
    assert_eq!((geometry.width, geometry.x), (1, 0));
}

#[test]
fn resize_tie_goes_toward_zero() {
    // (1921 - 800) / 2 = 560.5
    assert_eq!(resize_geometry(&monitor(1921, 1.0), 800, 1, UnitMode::Physical).x, 560);
    // (1921 - 2722) / 2 = -400.5
    assert_eq!(resize_geometry(&monitor(1921, 1.0), 2722, 1, UnitMode::Physical).x, -400);
    // (0 - 5) / 2 = -2.5
    assert_eq!(resize_geometry(&monitor(0, 1.0), 5, 1, UnitMode::Logical).x, -2);
    // (1 - 0) / 2 = 0.5
    assert_eq!(resize_geometry(&monitor(1, 1.0), 0, 1, UnitMode::Logical).x, 0);
}

#[test]
fn setup_on_an_empty_screen() {
    let geometry = setup_geometry(&monitor(0, 1.5), 7, UnitMode::Logical);
    assert_eq!(geometry, AppliedGeometry { x: 0, y: 0, width: 0, height: 7 });
    let geometry = setup_geometry(&monitor(0, 1.5), 0, UnitMode::Physical);
    assert_eq!(geometry, AppliedGeometry { x: 0, y: 0, width: 0, height: 0 });
}

#[test]
fn setup_on_the_widest_physical_screen() {
    let geometry = setup_geometry(&monitor(u32::MAX, 1.0), u32::MAX, UnitMode::Physical);
    assert_eq!(geometry.width, 2576980377);
    assert_eq!(geometry.x, 858993459);
    assert_eq!(geometry.height, u32::MAX);
    // (4294967295 - 0) / 2 = 2147483647.5
    assert_eq!(resize_geometry(&monitor(u32::MAX, 1.0), 0, 1, UnitMode::Physical).x, 2147483647);
}

#[test]
fn logical_pixels_divide_by_the_scale_factor() {
    let geometry = setup_geometry(&monitor(3840, 2.0), 48, UnitMode::Logical);
    assert_eq!((geometry.width, geometry.x), (1152, 384));
    let geometry = setup_geometry(&monitor(2880, 1.5), 48, UnitMode::Logical);
    assert_eq!((geometry.width, geometry.x), (1152, 384));
    let geometry = setup_geometry(&monitor(1000, 1.25), 48, UnitMode::Logical);
    assert_eq!((geometry.width, geometry.x), (480, 160));
    let geometry = setup_geometry(&monitor(1000, 0.5), 48, UnitMode::Logical);
    assert_eq!((geometry.width, geometry.x), (1200, 400));
    assert_eq!(resize_geometry(&monitor(3840, 2.0), 800, 1, UnitMode::Logical).x, 560);
}

#[test]
fn logical_pixels_keep_their_fraction_until_the_one_rounding() {
    // 1001 / 1.25 = 800.8 logical pixels
    let geometry = setup_geometry(&monitor(1001, 1.25), 48, UnitMode::Logical);
    assert_eq!((geometry.width, geometry.x), (480, 160));
    // (800.8 - 300) / 2 = 250.4
    assert_eq!(resize_geometry(&monitor(1001, 1.25), 300, 1, UnitMode::Logical).x, 250);
    // 1004 / 1.25 = 803.2; (803.2 - 300) / 2 = 251.6
    assert_eq!(resize_geometry(&monitor(1004, 1.25), 300, 1, UnitMode::Logical).x, 252);
    // 7 / 2 = 3.5 logical pixels: 2.1 and 0.7
    let geometry = setup_geometry(&monitor(7, 2.0), 48, UnitMode::Logical);
    assert_eq!((geometry.width, geometry.x), (2, 1));
}

#[test]
fn scale_factor_that_is_no_binary_fraction() {
    // 2112 / 1.1 is 1920 but for the last bits of the binary64 nearest 1.1
    let geometry = setup_geometry(&monitor(2112, 1.1), 48, UnitMode::Logical);
    assert_eq!((geometry.width, geometry.x), (1152, 384));
    assert_eq!(resize_geometry(&monitor(2112, 1.1), 800, 1, UnitMode::Logical).x, 560);
}

#[test]
fn physical_mode_ignores_the_scale_factor() {
    for scale in [0.5, 1.0, 1.25, 3.0, 1e-300, 1e300] {
        let geometry = setup_geometry(&monitor(1920, scale), 48, UnitMode::Physical);
        assert_eq!((geometry.width, geometry.x), (1152, 384));
        assert_eq!(resize_geometry(&monitor(1920, scale), 800, 1, UnitMode::Physical).x, 560);
    }
}

#[test]
fn unit_modes_agree_at_scale_one() {
    for physical_width in [0, 1, 2, 3, 4, 5, 799, 800, 801, 1919, 1920, 1921, 65535, u32::MAX] {
        let monitor = monitor(physical_width, 1.0);
        assert_eq!(
            setup_geometry(&monitor, 33, UnitMode::Logical),
            setup_geometry(&monitor, 33, UnitMode::Physical)
        );
        for width in [0, 1, 800, 1921, u32::MAX] {
            assert_eq!(
                resize_geometry(&monitor, width, 33, UnitMode::Logical),
                resize_geometry(&monitor, width, 33, UnitMode::Physical)
            );
        }
    }
}

#[test]
fn logical_width_is_capped_at_the_widest_screen() {
    assert_eq!(MAX_SCREEN_WIDTH, u32::MAX);
    for scale in [1e-300, f64::MIN_POSITIVE, 1.0 / 34359738368.0, 1.0 / 17179869184.0] {
        let geometry = setup_geometry(&monitor(1, scale), 5, UnitMode::Logical);
        assert_eq!((geometry.width, geometry.x), (2576980377, 858993459));
        assert_eq!(resize_geometry(&monitor(1, scale), 0, 5, UnitMode::Logical).x, 2147483647);
        assert_eq!(resize_geometry(&monitor(1, scale), u32::MAX, 5, UnitMode::Logical).x, 0);
        let geometry = setup_geometry(&monitor(0, scale), 5, UnitMode::Logical);
        assert_eq!((geometry.width, geometry.x), (0, 0));
    }
    // 3 / 2^-31 = 6442450944 logical pixels, beyond the cap
    let geometry = setup_geometry(&monitor(3, 1.0 / 2147483648.0), 5, UnitMode::Logical);
    assert_eq!((geometry.width, geometry.x), (2576980377, 858993459));
}

#[test]
fn logical_width_just_below_the_cap() {
    // 1 / 2^-31 = 2147483648 logical pixels
    let geometry = setup_geometry(&monitor(1, 1.0 / 2147483648.0), 5, UnitMode::Logical);
    assert_eq!((geometry.width, geometry.x), (1288490189, 429496730));
    assert_eq!(
        resize_geometry(&monitor(1, 1.0 / 2147483648.0), 0, 5, UnitMode::Logical).x,
        1073741824
    );
}

#[test]
fn huge_scale_factor_leaves_no_logical_pixel() {
    for scale in [4503599627370496.0, 2251799813685248.0, 1e300, f64::MAX] {
        let geometry = setup_geometry(&monitor(u32::MAX, scale), 5, UnitMode::Logical);
        assert_eq!((geometry.width, geometry.x), (0, 0));
        assert_eq!(resize_geometry(&monitor(1920, scale), 800, 5, UnitMode::Logical).x, -400);
        assert_eq!(resize_geometry(&monitor(1920, scale), 801, 5, UnitMode::Logical).x, -400);
        assert_eq!(resize_geometry(&monitor(0, scale), 801, 5, UnitMode::Logical).x, -400);
    }
}

#[test]
fn logical_geometry_matches_exact_fractions() {
    // scale factors as fractions of small integers, all exact in binary64
    let scales: [(u32, u32); 8] =
        [(1, 1), (5, 4), (3, 2), (7, 4), (2, 1), (5, 2), (3, 1), (3, 4)];
    let widths = [0u32, 1, 2, 3, 5, 7, 640, 799, 1001, 1366, 1920, 2560, 3841, 5120];
    for (numer, denom) in scales {
        let scale = numer as f64 / denom as f64;
        for physical_width in widths {
            let monitor = monitor(physical_width, scale);
            // screen width = physical_width * denom / numer
            let n = physical_width as i128 * denom as i128;
            let d = numer as i128;
            let setup = setup_geometry(&monitor, 1, UnitMode::Logical);
            assert_eq!(setup.width as i128, nearest(3 * n, 5 * d));
            assert_eq!(setup.x as i128, nearest(n, 5 * d));
            for width in [0u32, 1, 333, 800, 4000] {
                let resized = resize_geometry(&monitor, width, 1, UnitMode::Logical);
                assert_eq!(resized.x as i128, nearest(n - width as i128 * d, 2 * d));
                assert_eq!((resized.y, resized.width, resized.height), (0, width, 1));
            }
        }
    }
}

#[test]
fn centred_window_has_even_margins() {
    for physical_width in [0u32, 1, 1000, 1919, 1920, 1921] {
        for width in [0u32, 1, 2, 999, 1920, 1921, 5000] {
            let x = resize_geometry(&monitor(physical_width, 1.0), width, 1, UnitMode::Physical).x;
            let right = physical_width as i64 - width as i64 - x as i64;
            assert!((right - x as i64).abs() <= 1);
            assert_eq!(x < 0, width > physical_width + 1);
        }
    }
}

#[test]
fn monitor_descriptor_keeps_what_it_is_given() {
    let scale_factor = ScaleFactor::from_bits(2.0f64.to_bits()).unwrap();
    let monitor = MonitorDescriptor::new(2560, 1440, scale_factor);
    assert_eq!(monitor.physical_width, 2560);
    assert_eq!(monitor.physical_height, 1440);
    assert_eq!(monitor.scale_factor, scale_factor);
}
