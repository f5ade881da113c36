use cpu_tray::icon::{IconGenerator, ICON_SIZE};

/// Asks the generator for `value` the way the application does: an icon is
/// made only when the generator needs one.
fn ask(g: &mut IconGenerator, value: u8, made: &mut Vec<u8>, base: usize) -> usize {
    let icon = if g.needs(value) {
        made.push(value);
        Some(base + value as usize)
    } else {
        None
    };
    g.generate(value, icon)
}

#[test]
fn generate_makes_each_icon_once() {
    let mut g = IconGenerator::new();
    let mut made = Vec::new();
    assert!(g.needs(5));
    assert_eq!(ask(&mut g, 5, &mut made, 1000), 1005);
    assert!(!g.needs(5));
    assert_eq!(ask(&mut g, 5, &mut made, 2000), 1005);
    assert_eq!(ask(&mut g, 6, &mut made, 3000), 3006);
    assert_eq!(made, vec![5, 6]);
    assert_eq!(g.cached(5), Some(1005));
    assert_eq!(g.cached(6), Some(3006));
    assert_eq!(g.cached(7), None);
}

#[test]
fn at_most_one_icon_per_value() {
    let mut g = IconGenerator::new();
    let mut made = Vec::new();
    for round in 0..3 {
        for v in 0..=255u8 {
            let icon = ask(&mut g, v, &mut made, 10_000 * (round + 1));
            assert_eq!(icon, 10_000 + v as usize);
        }
    }
    assert_eq!(made.len(), 256);
}

#[test]
fn scale_params_by_length() {
    assert_eq!(IconGenerator::scale_params(1), ((5, -2), (30, 27)));
    assert_eq!(IconGenerator::scale_params(2), ((-1, -2), (30, 27)));
    assert_eq!(IconGenerator::scale_params(3), ((-2, 3), (20, 21)));
    assert_eq!(IconGenerator::scale_params(0), ((-2, 3), (20, 21)));
}

#[test]
fn color_bands() {
    let white = [255u8, 255, 255, 255];
    let orange = [0u8, 165, 255, 255];
    let red = [0u8, 0, 255, 255];
    assert_eq!(IconGenerator::color(0), white);
    assert_eq!(IconGenerator::color(39), white);
    assert_eq!(IconGenerator::color(40), orange);
    assert_eq!(IconGenerator::color(79), orange);
    assert_eq!(IconGenerator::color(80), red);
    assert_eq!(IconGenerator::color(100), red);
    assert_eq!(IconGenerator::color(255), red);
}

#[test]
fn design_of_each_length() {
    let d = IconGenerator::design(7);
    assert_eq!(d.text, "7");
    assert_eq!((d.coord, d.scale), ((5, -2), (30, 27)));
    assert_eq!(d.color, [255, 255, 255, 255]);

    let d = IconGenerator::design(42);
    assert_eq!(d.text, "42");
    assert_eq!((d.coord, d.scale), ((-1, -2), (30, 27)));
    assert_eq!(d.color, [0, 165, 255, 255]);

    let d = IconGenerator::design(100);
    assert_eq!(d.text, "100");
    assert_eq!((d.coord, d.scale), ((-2, 3), (20, 21)));
    assert_eq!(d.color, [0, 0, 255, 255]);
    assert_eq!(ICON_SIZE, 24);
}
