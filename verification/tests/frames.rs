use lcd_i2c::{BitMap, Config, DataPlacement, NibbleStrategy, OutputState};

fn stock_bitmap() -> BitMap {
    Config::registered_tca9534().bitmap
}

fn pins(rs: bool, rw: bool, e: bool, led: bool, data: u8) -> OutputState {
    let mut p = OutputState::new();
    p.rs = rs;
    p.rw = rw;
    p.e = e;
    p.led = led;
    p.data = data;
    p
}

#[test]
fn high_frame_of_stock_layout() {
    let m = stock_bitmap();
    // RS + Enable + high nibble of 0x48 ('H').
    assert_eq!(pins(true, false, true, false, 0x48).get_high_data(&m), 0x45);
    // Backlight only.
    assert_eq!(pins(false, false, false, true, 0x00).get_high_data(&m), 0x08);
    // Everything low.
    assert_eq!(pins(false, false, false, false, 0x00).get_high_data(&m), 0x00);
    // R/W alone.
    assert_eq!(pins(false, true, false, false, 0x00).get_high_data(&m), 0x02);
}

#[test]
fn low_frame_of_stock_layout() {
    let m = stock_bitmap();
    // Low nibble of 0x48 is 8, exposed on the high data bits.
    assert_eq!(pins(true, false, true, false, 0x48).get_low_data(&m), 0x85);
    assert_eq!(pins(false, false, false, false, 0x0F).get_low_data(&m), 0xF0);
    assert_eq!(pins(false, false, false, true, 0xA3).get_low_data(&m), 0x38);
}

#[test]
fn distinct_signals_render_distinct_frames() {
    // Concrete face of the injectivity law: flipping any one of the five
    // used signals changes the frame byte.
    let m = stock_bitmap();
    let base = pins(false, false, false, false, 0x5A);
    let base_frame = base.get_high_data(&m);
    assert_ne!(pins(true, false, false, false, 0x5A).get_high_data(&m), base_frame);
    assert_ne!(pins(false, true, false, false, 0x5A).get_high_data(&m), base_frame);
    assert_ne!(pins(false, false, true, false, 0x5A).get_high_data(&m), base_frame);
    assert_ne!(pins(false, false, false, true, 0x5A).get_high_data(&m), base_frame);
    // A different high nibble changes the frame too.
    assert_ne!(pins(false, false, false, false, 0x6A).get_high_data(&m), base_frame);
    // A different low nibble does not show in the high frame...
    assert_eq!(pins(false, false, false, false, 0x5B).get_high_data(&m), base_frame);
    // ...but shows in the low frame.
    assert_ne!(
        pins(false, false, false, false, 0x5B).get_low_data(&m),
        base.get_low_data(&m)
    );
}

#[test]
fn stock_configurations_are_well_formed() {
    assert!(Config::registered_tca9534().is_well_formed());
    assert!(Config::direct_expander().is_well_formed());
}

#[test]
fn overlapping_masks_are_rejected() {
    let mut m = stock_bitmap();
    m.rw_mask = 0x01; // collides with RS
    assert!(!m.is_well_formed());
    let mut m2 = stock_bitmap();
    m2.enable_mask = 0x10; // intrudes on the data nibble
    assert!(!m2.is_well_formed());
    let mut m3 = stock_bitmap();
    m3.backlight_mask = 0x00; // no bit at all
    assert!(!m3.is_well_formed());
    let mut m4 = stock_bitmap();
    m4.rs_mask = 0x03; // two bits
    assert!(!m4.is_well_formed());
}

#[test]
fn low_bits_placement_renders_into_low_nibble() {
    let m = BitMap {
        rs_mask: 0x10,
        rw_mask: 0x20,
        enable_mask: 0x40,
        backlight_mask: 0x80,
        data_placement: DataPlacement::LowBits,
        strategy: NibbleStrategy::SelectorDriven,
    };
    assert!(m.is_well_formed());
    assert_eq!(pins(true, false, true, false, 0x48).get_high_data(&m), 0x54);
    assert_eq!(pins(true, false, true, false, 0x48).get_low_data(&m), 0x58);
}
