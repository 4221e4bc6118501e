use lcd_i2c::{BusAction, Config, LcdI2c};

fn fresh_registered() -> LcdI2c {
    LcdI2c::new(Config::registered_tca9534(), 0x27, 16, 2)
}

/// The nibbles the controller actually latches: one `(rs, nibble)` entry
/// per frame written with Enable high, for the stock bit layout.
fn latches(acts: &[BusAction]) -> Vec<(bool, u8)> {
    let mut out = Vec::new();
    for a in acts {
        if let BusAction::Write(payload) = a {
            let frame = *payload.last().unwrap();
            if frame & 0x04 != 0 {
                out.push((frame & 0x01 != 0, (frame & 0xF0) >> 4));
            }
        }
    }
    out
}

/// The command or data bytes the controller assembles from latched
/// nibble pairs.
fn latched_bytes(acts: &[BusAction]) -> Vec<(bool, u8)> {
    let l = latches(acts);
    assert!(l.len() % 2 == 0, "expected full nibble pairs");
    l.chunks(2)
        .map(|p| {
            assert_eq!(p[0].0, p[1].0, "nibble pair with mixed register select");
            (p[0].0, (p[0].1 << 4) | p[1].1)
        })
        .collect()
}

#[test]
fn write_byte_exact_actions() {
    let mut lcd = fresh_registered();
    let acts = lcd.write_byte(0x41);
    let expected = vec![
        BusAction::Write(vec![0x01, 0x45]),
        BusAction::DelayMicros(1),
        BusAction::Write(vec![0x01, 0x41]),
        BusAction::DelayMicros(37),
        BusAction::Write(vec![0x01, 0x15]),
        BusAction::DelayMicros(1),
        BusAction::Write(vec![0x01, 0x11]),
        BusAction::DelayMicros(41),
    ];
    assert_eq!(acts, expected);
}

#[test]
fn clear_ends_with_long_settle() {
    let mut lcd = fresh_registered();
    let acts = lcd.clear();
    assert_eq!(latched_bytes(&acts), vec![(false, 0x01)]);
    // The long-running clear is always followed by the long settle before
    // anything else can be issued.
    assert_eq!(acts.last().unwrap(), &BusAction::DelayMicros(2000));
}

#[test]
fn home_ends_with_long_settle() {
    let mut lcd = fresh_registered();
    let acts = lcd.home();
    assert_eq!(latched_bytes(&acts), vec![(false, 0x02)]);
    assert_eq!(acts.last().unwrap(), &BusAction::DelayMicros(2000));
}

#[test]
fn short_commands_end_with_short_settle() {
    let mut lcd = fresh_registered();
    let acts = lcd.scroll_display_left();
    assert_eq!(latched_bytes(&acts), vec![(false, 0x18)]);
    assert_eq!(acts.last().unwrap(), &BusAction::DelayMicros(37));
    let acts = lcd.scroll_display_right();
    assert_eq!(latched_bytes(&acts), vec![(false, 0x1C)]);
}

#[test]
fn display_control_bytes() {
    let mut lcd = fresh_registered();
    assert_eq!(latched_bytes(&lcd.display()), vec![(false, 0x0C)]);
    assert_eq!(latched_bytes(&lcd.blink()), vec![(false, 0x0D)]);
    assert_eq!(latched_bytes(&lcd.no_blink()), vec![(false, 0x0C)]);
    assert_eq!(latched_bytes(&lcd.no_display()), vec![(false, 0x08)]);
}

#[test]
fn entry_mode_bytes() {
    let mut lcd = fresh_registered();
    assert_eq!(latched_bytes(&lcd.left_to_right()), vec![(false, 0x06)]);
    assert_eq!(latched_bytes(&lcd.autoscroll()), vec![(false, 0x07)]);
    assert_eq!(latched_bytes(&lcd.no_autoscroll()), vec![(false, 0x06)]);
    assert_eq!(latched_bytes(&lcd.right_to_left()), vec![(false, 0x04)]);
}

#[test]
fn cursor_twice_keeps_the_bit_set() {
    // Toggle idempotence: both issued display-control bytes carry the
    // cursor bit; the second call changes nothing.
    let mut lcd = fresh_registered();
    let first = latched_bytes(&lcd.cursor());
    let second = latched_bytes(&lcd.cursor());
    assert_eq!(first, vec![(false, 0x0A)]);
    assert_eq!(second, vec![(false, 0x0A)]);
}

#[test]
fn cursor_then_no_cursor_restores_flags() {
    let mut lcd = fresh_registered();
    let _ = lcd.display();
    let mut twin = fresh_registered();
    let _ = twin.display();
    let _ = lcd.cursor();
    let _ = lcd.no_cursor();
    // The restored register re-issues exactly the pre-cursor value.
    assert_eq!(latched_bytes(&lcd.blink()), latched_bytes(&twin.blink()));
}

#[test]
fn set_cursor_addresses_row_and_column() {
    let mut lcd = fresh_registered();
    assert_eq!(latched_bytes(&lcd.set_cursor(0, 0)), vec![(false, 0x80)]);
    assert_eq!(latched_bytes(&lcd.set_cursor(5, 0)), vec![(false, 0x85)]);
    assert_eq!(latched_bytes(&lcd.set_cursor(0, 1)), vec![(false, 0xC0)]);
    assert_eq!(latched_bytes(&lcd.set_cursor(3, 1)), vec![(false, 0xC3)]);
}

#[test]
fn set_cursor_clamps_out_of_range_row() {
    // A row at or past the configured count lands on the last row.
    let mut lcd = fresh_registered();
    assert_eq!(latched_bytes(&lcd.set_cursor(3, 7)), vec![(false, 0xC3)]);
    assert_eq!(latched_bytes(&lcd.set_cursor(0, 255)), vec![(false, 0xC0)]);
    let mut four = LcdI2c::new(Config::registered_tca9534(), 0x27, 20, 4);
    // Third row of a 20-column panel starts at 0x14; fourth at 0x54.
    assert_eq!(latched_bytes(&four.set_cursor(0, 2)), vec![(false, 0x94)]);
    assert_eq!(latched_bytes(&four.set_cursor(1, 9)), vec![(false, 0xD5)]);
}

#[test]
fn create_char_uploads_and_returns_to_ddram() {
    let mut lcd = fresh_registered();
    let glyph = [0x0E, 0x11, 0x11, 0x1F, 0x11, 0x11, 0x11, 0x00];
    let acts = lcd.create_char(2, &glyph);
    let bytes = latched_bytes(&acts);
    assert_eq!(bytes.len(), 10);
    // Glyph-memory address for slot 2, then the eight glyph rows as data.
    assert_eq!(bytes[0], (false, 0x50));
    for (i, row) in glyph.iter().enumerate() {
        assert_eq!(bytes[1 + i], (true, *row));
    }
    // The script ends by re-addressing display RAM row 0, column 0.
    assert_eq!(bytes[9], (false, 0x80));
}

#[test]
fn create_char_masks_slot_to_three_bits() {
    let mut lcd = fresh_registered();
    let glyph = [0u8; 8];
    let bytes = latched_bytes(&lcd.create_char(9, &glyph));
    assert_eq!(bytes[0], (false, 0x48));
}

#[test]
fn create_char_tail_equals_set_cursor_origin() {
    // The upload leaves the address pointer exactly as `set_cursor(0, 0)`
    // would: the trailing actions are that command's script, so a write
    // issued right after targets row 0, column 0.
    let mut lcd = fresh_registered();
    let glyph = [1u8, 2, 3, 4, 5, 6, 7, 8];
    let acts = lcd.create_char(0, &glyph);
    let mut twin = fresh_registered();
    let origin = twin.set_cursor(0, 0);
    assert!(acts.len() >= origin.len());
    assert_eq!(&acts[acts.len() - origin.len()..], &origin[..]);
    let follow_up = latched_bytes(&lcd.write_byte(b'A'));
    assert_eq!(follow_up, vec![(true, 0x41)]);
}

#[test]
fn backlight_writes_only_the_backlight_line() {
    let mut lcd = fresh_registered();
    assert_eq!(lcd.backlight(), vec![BusAction::Write(vec![0x01, 0x08])]);
    // The light persists across other operations: data frames now carry
    // the backlight bit.
    let acts = lcd.write_byte(0x41);
    assert_eq!(&acts[0], &BusAction::Write(vec![0x01, 0x4D]));
    assert_eq!(lcd.no_backlight(), vec![BusAction::Write(vec![0x01, 0x00])]);
}

#[test]
fn write_str_sends_each_byte_with_settle() {
    let mut lcd = fresh_registered();
    let acts = lcd.write_str("Hi");
    assert_eq!(latched_bytes(&acts), vec![(true, 0x48), (true, 0x69)]);
    // Each byte ends with the data settle.
    assert_eq!(acts[7], BusAction::DelayMicros(41));
    assert_eq!(acts[15], BusAction::DelayMicros(41));
    assert_eq!(acts.len(), 16);
}

#[test]
fn write_str_empty_sends_nothing() {
    let mut lcd = fresh_registered();
    assert_eq!(lcd.write_str(""), Vec::<BusAction>::new());
}

#[test]
fn stream_str_omits_every_wait() {
    // The lossy formatting sink: same frames, no settles at all.
    let mut lcd = fresh_registered();
    let acts = lcd.stream_str("A");
    let expected = vec![
        BusAction::Write(vec![0x01, 0x45]),
        BusAction::Write(vec![0x01, 0x41]),
        BusAction::Write(vec![0x01, 0x15]),
        BusAction::Write(vec![0x01, 0x11]),
    ];
    assert_eq!(acts, expected);
    assert_eq!(latched_bytes(&acts), vec![(true, 0x41)]);
}
