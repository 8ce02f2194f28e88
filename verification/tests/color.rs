use raytracer::color::Color;

#[test]
fn new_keeps_the_channels() {
    let c = Color::new(12, 34, 56);
    assert_eq!(c.r(), 12);
    assert_eq!(c.g(), 34);
    assert_eq!(c.b(), 56);
}

#[test]
fn to_hex_packs_red_green_blue() {
    assert_eq!(Color::new(0x12, 0x34, 0x56).to_hex(), 0x123456);
    assert_eq!(Color::new(255, 0, 0).to_hex(), 0xFF0000);
    assert_eq!(Color::new(0, 255, 0).to_hex(), 0x00FF00);
    assert_eq!(Color::new(0, 0, 255).to_hex(), 0x0000FF);
    assert_eq!(Color::new(0, 0, 0).to_hex(), 0);
    assert_eq!(Color::new(255, 255, 255).to_hex(), 0xFFFFFF);
}

#[test]
fn from_hex_unpacks_red_green_blue() {
    let c = Color::from_hex(0x87CEEB);
    assert_eq!((c.r(), c.g(), c.b()), (135, 206, 235));
    assert_eq!(Color::from_hex(0x040C24), Color::new(4, 12, 36));
}

#[test]
fn from_hex_ignores_the_top_byte() {
    assert_eq!(Color::from_hex(0xAB123456), Color::new(0x12, 0x34, 0x56));
    assert_eq!(Color::from_hex(0xFF000000), Color::new(0, 0, 0));
    assert_eq!(Color::from_hex(0xAB123456).to_hex(), 0x123456);
}

#[test]
fn hex_round_trip_over_a_grid() {
    let samples = [0u8, 1, 2, 15, 16, 127, 128, 200, 254, 255];
    for &r in samples.iter() {
        for &g in samples.iter() {
            for &b in samples.iter() {
                let c = Color::new(r, g, b);
                assert_eq!(Color::from_hex(c.to_hex()), c);
                assert!(c.to_hex() < 0x1000000);
            }
        }
    }
}

#[test]
fn add_saturates_each_channel() {
    let sum = Color::new(200, 100, 0) + Color::new(100, 100, 0);
    assert_eq!(sum, Color::new(255, 200, 0));
    let sum = Color::new(255, 255, 255) + Color::new(255, 1, 0);
    assert_eq!(sum, Color::new(255, 255, 255));
    let sum = Color::new(1, 2, 3) + Color::new(0, 0, 0);
    assert_eq!(sum, Color::new(1, 2, 3));
    let sum = Color::new(254, 0, 10) + Color::new(1, 0, 245);
    assert_eq!(sum, Color::new(255, 0, 255));
}

#[test]
fn add_commutes() {
    let a = Color::new(250, 3, 77);
    let b = Color::new(9, 254, 100);
    assert_eq!(a + b, b + a);
    assert_eq!(a + b, Color::new(255, 255, 177));
}

#[test]
fn to_string_writes_the_channels_in_decimal() {
    assert_eq!(Color::new(135, 206, 235).to_string(), "Color(r: 135, g: 206, b: 235)");
    assert_eq!(Color::new(0, 0, 0).to_string(), "Color(r: 0, g: 0, b: 0)");
    assert_eq!(Color::new(255, 255, 255).to_string(), "Color(r: 255, g: 255, b: 255)");
    assert_eq!(Color::new(1, 20, 100).to_string(), "Color(r: 1, g: 20, b: 100)");
    assert_eq!(Color::new(9, 10, 99).to_string(), "Color(r: 9, g: 10, b: 99)");
    assert_eq!(Color::new(101, 110, 200).to_string(), "Color(r: 101, g: 110, b: 200)");
}

#[test]
fn to_string_agrees_with_the_formatter_for_every_value() {
    for n in 0..=255u8 {
        let text = Color::new(n, 255 - n, n / 2).to_string();
        assert_eq!(text, format!("Color(r: {}, g: {}, b: {})", n, 255 - n, n / 2));
    }
}
