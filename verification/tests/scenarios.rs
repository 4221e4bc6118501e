use lcd_i2c::{BusAction, Config, LcdI2c};

/// `(rs, nibble)` of every frame latched by an Enable-high write, for the
/// stock bit layout, whichever addressing mode carried it.
fn latch_list(acts: &[BusAction]) -> Vec<(bool, u8)> {
    let mut out = Vec::new();
    for a in acts {
        if let BusAction::Write(payload) = a {
            let frame = *payload.last().unwrap();
            if frame & 0x04 != 0 {
                out.push((frame & 0x01 != 0, (frame & 0xF0) >> 4));
            }
        }
    }
    out
}

#[test]
fn direct_expander_full_session() {
    // Direct expander, 2 rows, 16 columns: begin, write "HI", move to the
    // second row, write "LO".
    let mut lcd = LcdI2c::new(Config::direct_expander(), 0x27, 16, 2);
    let mut acts = lcd.begin();
    acts.extend(lcd.write_str("HI"));
    acts.extend(lcd.set_cursor(0, 1));
    acts.extend(lcd.write_str("LO"));

    // Bring-up: the equivalent all-low byte, its settle, the power-on wait.
    assert_eq!(acts[0], BusAction::Write(vec![0x00]));
    assert_eq!(acts[1], BusAction::DelayMicros(10000));
    assert_eq!(acts[2], BusAction::DelayMicros(50000));

    // The controller-level conversation, latch by latch: three legacy
    // 8-bit-mode nibbles, the 4-bit switch, function set 0x28, display
    // control 0x0C, clear 0x01, entry mode 0x06, then the session's data
    // and addressing.
    let expected: Vec<(bool, u8)> = vec![
        (false, 0x3),
        (false, 0x3),
        (false, 0x3),
        (false, 0x2),
        (false, 0x2),
        (false, 0x8), // function set 0x28
        (false, 0x0),
        (false, 0xC), // display control 0x0C
        (false, 0x0),
        (false, 0x1), // clear 0x01
        (false, 0x0),
        (false, 0x6), // entry mode 0x06
        (true, 0x4),
        (true, 0x8), // 'H'
        (true, 0x4),
        (true, 0x9), // 'I'
        (false, 0xC),
        (false, 0x0), // set address: row 1 offset 0x40
        (true, 0x4),
        (true, 0xC), // 'L'
        (true, 0x4),
        (true, 0xF), // 'O'
    ];
    assert_eq!(latch_list(&acts), expected);

    // The clear command is followed by the long settle before anything
    // further goes out.
    let clear_low_latch = acts
        .iter()
        .position(|a| *a == BusAction::Write(vec![0x14]))
        .expect("clear's low-nibble latch");
    let next_delay = acts[clear_low_latch + 2..]
        .iter()
        .find_map(|a| match a {
            BusAction::DelayMicros(us) => Some(*us),
            _ => None,
        })
        .unwrap();
    assert_eq!(next_delay, 2000);

    // Every payload of a direct-write expander is a single bare byte.
    for a in &acts {
        if let BusAction::Write(payload) = a {
            assert_eq!(payload.len(), 1);
        }
    }
}

#[test]
fn registered_expander_configures_before_any_command() {
    // Registered expander: begin issues exactly the three
    // configuration-register writes — direction, polarity, output —
    // before anything for the controller appears on the bus.
    let mut lcd = LcdI2c::new(Config::registered_tca9534(), 0x27, 16, 2);
    let acts = lcd.begin();
    assert_eq!(acts[0], BusAction::Write(vec![0x03, 0x00]));
    assert_eq!(acts[1], BusAction::DelayMicros(10000));
    assert_eq!(acts[2], BusAction::Write(vec![0x02, 0x00]));
    assert_eq!(acts[3], BusAction::DelayMicros(10000));
    assert_eq!(acts[4], BusAction::Write(vec![0x01, 0x00]));
    assert_eq!(acts[5], BusAction::DelayMicros(10000));
    // From there on, every write targets the output register only.
    for a in &acts[6..] {
        if let BusAction::Write(payload) = a {
            assert_eq!(payload.len(), 2);
            assert_eq!(payload[0], 0x01);
        }
    }
    // And the controller conversation matches the direct variant's.
    let expected: Vec<(bool, u8)> = vec![
        (false, 0x3),
        (false, 0x3),
        (false, 0x3),
        (false, 0x2),
        (false, 0x2),
        (false, 0x8),
        (false, 0x0),
        (false, 0xC),
        (false, 0x0),
        (false, 0x1),
        (false, 0x0),
        (false, 0x6),
    ];
    assert_eq!(latch_list(&acts), expected);
}

#[test]
fn one_row_panel_omits_the_two_line_bit() {
    let mut lcd = LcdI2c::new(Config::registered_tca9534(), 0x27, 16, 1);
    let acts = lcd.begin();
    let latched = latch_list(&acts);
    // Function set after the mode switch: 0x20, without the two-line bit.
    assert_eq!(latched[4], (false, 0x2));
    assert_eq!(latched[5], (false, 0x0));
}

#[test]
fn boot_waits_follow_the_datasheet_budget() {
    let mut lcd = LcdI2c::new(Config::registered_tca9534(), 0x27, 16, 2);
    let acts = lcd.begin();
    let delays: Vec<u64> = acts
        .iter()
        .filter_map(|a| match a {
            BusAction::DelayMicros(us) => Some(*us),
            _ => None,
        })
        .collect();
    // Expander settles, power-on wait, the three decreasing reset waits
    // around the enable pulses, the mode switch, and the register writes.
    let expected: Vec<u64> = vec![
        10000, 10000, 10000, // expander bring-up
        50000, // power-on
        1, 5000, // first legacy pulse
        1, 150, // second
        1, 37, // third
        1, 37, // 4-bit switch
        1, 37, 1, 37, // function set
        1, 37, 1, 37, // display control
        1, 37, 1, 2000, // clear, long settle
        1, 37, 1, 37, // entry mode
    ];
    assert_eq!(delays, expected);
}

#[test]
fn both_strategies_put_identical_frames_on_the_wire() {
    // The selector-driven and caller-preshifted nibble splits differ only
    // in staging; byte for byte the bus sees the same frames.
    let mut direct = LcdI2c::new(Config::direct_expander(), 0x27, 16, 2);
    let mut registered = LcdI2c::new(Config::registered_tca9534(), 0x27, 16, 2);
    let d = direct.write_byte(0x5C);
    let r = registered.write_byte(0x5C);
    let d_frames: Vec<u8> = d
        .iter()
        .filter_map(|a| match a {
            BusAction::Write(p) => Some(p[0]),
            _ => None,
        })
        .collect();
    let r_frames: Vec<u8> = r
        .iter()
        .filter_map(|a| match a {
            BusAction::Write(p) => Some(p[1]),
            _ => None,
        })
        .collect();
    assert_eq!(d_frames, r_frames);
    assert_eq!(d_frames, vec![0x55, 0x51, 0xC5, 0xC1]);
}
