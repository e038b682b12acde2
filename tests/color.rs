use led_strip::animation::{wheel_frame, Rainbow};
use led_strip::color::{color_wheel, scale_frame, scale_rgb, Rgb};

fn gap(a: u8, b: u8) -> u8 {
    if a >= b {
        a - b
    } else {
        b - a
    }
}

#[test]
fn wheel_boundaries_reach_full_channels() {
    assert_eq!(color_wheel(0), Rgb::new(255, 0, 0));
    assert_eq!(color_wheel(255), Rgb::new(255, 0, 0));
    assert_eq!(color_wheel(85), Rgb::new(0, 255, 0));
    assert_eq!(color_wheel(170), Rgb::new(0, 0, 255));
}

#[test]
fn wheel_ramps_inside_each_third() {
    assert_eq!(color_wheel(254), Rgb::new(252, 0, 3));
    assert_eq!(color_wheel(171), Rgb::new(3, 0, 252));
    assert_eq!(color_wheel(169), Rgb::new(0, 3, 252));
    assert_eq!(color_wheel(86), Rgb::new(0, 252, 3));
    assert_eq!(color_wheel(84), Rgb::new(3, 252, 0));
    assert_eq!(color_wheel(1), Rgb::new(252, 3, 0));
    assert_eq!(color_wheel(42), Rgb::new(129, 126, 0));
}

#[test]
fn wheel_splits_full_intensity_between_two_channels() {
    for p in 0..=255u8 {
        let c = color_wheel(p);
        assert_eq!(c.r as u16 + c.g as u16 + c.b as u16, 255);
        assert!(c.r == 0 || c.g == 0 || c.b == 0);
    }
}

#[test]
fn wheel_has_no_seam() {
    for p in 0..=255u8 {
        let a = color_wheel(p);
        let b = color_wheel(p.wrapping_add(1));
        assert!(gap(a.r, b.r) <= 3 && gap(a.g, b.g) <= 3 && gap(a.b, b.b) <= 3);
    }
}

#[test]
fn default_color_is_off() {
    assert_eq!(Rgb::default(), Rgb::new(0, 0, 0));
    assert_eq!(Rgb::off(), Rgb::new(0, 0, 0));
}

#[test]
fn wheel_frame_spreads_leds_over_the_ring() {
    let f = wheel_frame(6, 0);
    let positions = [0u8, 42, 85, 128, 170, 213];
    assert_eq!(f.len(), 6);
    for i in 0..6 {
        assert_eq!(f[i], color_wheel(positions[i]));
    }
    let shifted = wheel_frame(4, 300);
    let positions = [44u8, 108, 172, 236];
    for i in 0..4 {
        assert_eq!(shifted[i], color_wheel(positions[i]));
    }
    assert!(wheel_frame(0, 7).is_empty());
}

#[test]
fn full_brightness_keeps_colors() {
    let mut anim = Rainbow::new(6, 255);
    assert_eq!(anim.tick(), wheel_frame(6, 0));
}

#[test]
fn zero_brightness_turns_leds_off() {
    let mut anim = Rainbow::new(6, 0);
    let frame = anim.tick();
    assert_eq!(frame.len(), 6);
    assert!(frame.iter().all(|c| *c == Rgb::off()));
}

#[test]
fn brightness_is_monotonic() {
    let phases = [0u16, 17, 600];
    for phase in phases {
        for s1 in [0u8, 1, 31, 32, 100, 200, 254] {
            let s2 = s1 + 1;
            let mut a = Rainbow::new(6, s1);
            let mut b = Rainbow::new(6, s2);
            a.phase = phase;
            b.phase = phase;
            let fa = a.tick();
            let fb = b.tick();
            for i in 0..6 {
                assert!(fa[i].r <= fb[i].r && fa[i].g <= fb[i].g && fa[i].b <= fb[i].b);
            }
        }
    }
}

#[test]
fn scaling_truncates_channel_times_scale_over_255() {
    assert_eq!(scale_rgb(Rgb::new(129, 126, 0), 32), Rgb::new(16, 15, 0));
    assert_eq!(scale_rgb(Rgb::new(255, 128, 1), 127), Rgb::new(127, 63, 0));
    assert_eq!(scale_rgb(Rgb::new(200, 17, 255), 255), Rgb::new(200, 17, 255));
    assert_eq!(scale_rgb(Rgb::new(200, 17, 255), 0), Rgb::new(0, 0, 0));
}

#[test]
fn scale_frame_keeps_length_order_and_source() {
    let src = vec![Rgb::new(255, 0, 0), Rgb::new(0, 255, 0), Rgb::new(10, 20, 30)];
    let out = scale_frame(&src, 51);
    assert_eq!(out, vec![Rgb::new(51, 0, 0), Rgb::new(0, 51, 0), Rgb::new(2, 4, 6)]);
    assert_eq!(src[0], Rgb::new(255, 0, 0));
    assert!(scale_frame(&Vec::new(), 51).is_empty());
}

#[test]
fn scaling_is_monotonic_for_every_channel_value() {
    for c in 0..=255u8 {
        for s in 0..255u8 {
            let a = scale_rgb(Rgb::new(c, c, c), s);
            let b = scale_rgb(Rgb::new(c, c, c), s + 1);
            assert!(a.r <= b.r);
        }
    }
}
