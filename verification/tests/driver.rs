use lcd_i2c::bus::{expander_frame, BusAction};
use lcd_i2c::lcd::{
    backlight, clear, display, init, left_to_right, no_backlight, no_display, print, print_str,
    right_to_left, scroll_left, scroll_right, send, set_cursor, write4bits, Lcd, EN,
    LCD_BACKLIGHT, LCD_NOBACKLIGHT, RS,
};

/// The register bytes of a recording, in order, with the delays removed.
fn writes(actions: &[BusAction]) -> Vec<u8> {
    let mut out: Vec<u8> = Vec::new();
    for action in actions {
        if let BusAction::WriteReg(b) = action {
            out.push(*b);
        }
    }
    out
}

/// The three-write traffic of one nibble transmission.
fn expected_nibble(data: u8) -> Vec<BusAction> {
    vec![
        BusAction::WriteReg(data),
        BusAction::WriteReg(data | EN),
        BusAction::DelayUs(1),
        BusAction::WriteReg(data & !EN),
        BusAction::DelayUs(50),
    ]
}

/// The six-write traffic of one framed command or character byte.
fn expected_frame(cmd: u8, mode: u8, bl: u8) -> Vec<BusAction> {
    let mut out = expected_nibble((cmd & 0xf0) | mode | bl);
    out.extend(expected_nibble(((cmd << 4) & 0xf0) | mode | bl));
    out
}

#[test]
fn expander_frame_has_pointer_byte() {
    assert_eq!(expander_frame(0xab), vec![0x00, 0xab]);
    assert_eq!(expander_frame(0x00), vec![0x00, 0x00]);
}

#[test]
fn nibble_emits_three_writes_with_shared_control_bits() {
    let mut bus: Vec<BusAction> = Vec::new();
    let data: u8 = 0x99; // RS and backlight set, enable low
    write4bits(&mut bus, data);
    assert_eq!(bus, expected_nibble(0x99));

    let w = writes(&bus);
    assert_eq!(w.len(), 3);
    // Enable line: low, high, low.
    assert_eq!(w[0] & EN, 0);
    assert_eq!(w[1] & EN, EN);
    assert_eq!(w[2] & EN, 0);
    // Register-select and backlight identical across the three writes.
    for b in &w {
        assert_eq!(b & RS, data & RS);
        assert_eq!(b & LCD_BACKLIGHT, data & LCD_BACKLIGHT);
    }
}

#[test]
fn frame_emits_high_nibble_before_low_and_round_trips() {
    let mut lcd = Lcd::new(0x27);
    lcd.backlight = LCD_BACKLIGHT;
    let mut bus: Vec<BusAction> = Vec::new();
    send(&lcd, &mut bus, 0xa7, RS);

    let w = writes(&bus);
    assert_eq!(w.len(), 6);
    // High nibble of 0xa7 rides in the first three writes, low in the last.
    assert_eq!(w[0] & 0xf0, 0xa0);
    assert_eq!(w[3] & 0xf0, 0x70);
    // Decoding the two latched bytes' upper halves reconstructs the byte.
    assert_eq!((w[2] & 0xf0) | ((w[5] & 0xf0) >> 4), 0xa7);
    // One shared register-select mode and backlight across the frame.
    for b in &w {
        assert_eq!(b & RS, RS);
        assert_eq!(b & LCD_BACKLIGHT, LCD_BACKLIGHT);
    }
}

#[test]
fn set_cursor_each_row_col_combination() {
    let offsets: [u8; 4] = [0x00, 0x40, 0x14, 0x54];
    for row in 0..4usize {
        for col in [0u8, 1, 7, 15, 19] {
            let mut lcd = Lcd::new(0x27);
            lcd.backlight = LCD_BACKLIGHT;
            let mut bus: Vec<BusAction> = Vec::new();
            set_cursor(&lcd, &mut bus, col, row);

            let w = writes(&bus);
            assert_eq!(w.len(), 6);
            let decoded = (w[0] & 0xf0) | ((w[3] & 0xf0) >> 4);
            assert_eq!(decoded, 0x80 | (col + offsets[row]));
            // A cursor move is a command: register-select low throughout.
            for b in &w {
                assert_eq!(b & RS, 0);
            }
        }
    }
}

#[test]
fn clear_frames_command_then_waits_two_ms() {
    let lcd = Lcd::new(0x27);
    let mut bus: Vec<BusAction> = Vec::new();
    clear(&lcd, &mut bus);

    let mut expected = expected_frame(0x01, 0, LCD_NOBACKLIGHT);
    expected.push(BusAction::DelayUs(2000));
    assert_eq!(bus, expected);

    // The mandatory clear-cycle settle comes last, and is at least 2 ms.
    match bus.last().unwrap() {
        BusAction::DelayUs(us) => assert!(*us >= 2000),
        _ => panic!("clear must end in a delay"),
    }
}

#[test]
fn backlight_toggle_is_one_raw_write() {
    let mut lcd = Lcd::new(0x27);
    lcd.display_control = 0x04;
    lcd.display_mode = 0x02;
    let mut bus: Vec<BusAction> = Vec::new();

    backlight(&mut lcd, &mut bus);
    // One raw register write, no command frame, no enable pulse, no delay.
    assert_eq!(bus, vec![BusAction::WriteReg(LCD_BACKLIGHT)]);
    assert_eq!(lcd.backlight, LCD_BACKLIGHT);

    bus.clear();
    no_backlight(&mut lcd, &mut bus);
    assert_eq!(bus, vec![BusAction::WriteReg(LCD_NOBACKLIGHT)]);
    assert_eq!(lcd.backlight, LCD_NOBACKLIGHT);

    // The shadow registers, and so the displayed content, are untouched.
    assert_eq!(lcd.display_control, 0x04);
    assert_eq!(lcd.display_mode, 0x02);
}

#[test]
fn display_toggle_rewrites_control_mask() {
    let mut lcd = Lcd::new(0x27);
    lcd.display_control = 0x04;
    let mut bus: Vec<BusAction> = Vec::new();

    no_display(&mut lcd, &mut bus);
    assert_eq!(lcd.display_control, 0x00);
    assert_eq!(bus, expected_frame(0x08, 0, LCD_NOBACKLIGHT));

    bus.clear();
    display(&mut lcd, &mut bus);
    assert_eq!(lcd.display_control, 0x04);
    assert_eq!(bus, expected_frame(0x0c, 0, LCD_NOBACKLIGHT));
}

#[test]
fn entry_mode_toggle_rewrites_mode_mask() {
    let mut lcd = Lcd::new(0x27);
    lcd.display_mode = 0x02;
    let mut bus: Vec<BusAction> = Vec::new();

    right_to_left(&mut lcd, &mut bus);
    assert_eq!(lcd.display_mode, 0x00);
    assert_eq!(bus, expected_frame(0x04, 0, LCD_NOBACKLIGHT));

    bus.clear();
    left_to_right(&mut lcd, &mut bus);
    assert_eq!(lcd.display_mode, 0x02);
    assert_eq!(bus, expected_frame(0x06, 0, LCD_NOBACKLIGHT));
}

#[test]
fn scroll_commands() {
    let lcd = Lcd::new(0x27);
    let mut bus: Vec<BusAction> = Vec::new();
    scroll_left(&lcd, &mut bus);
    assert_eq!(bus, expected_frame(0x18, 0, LCD_NOBACKLIGHT));

    bus.clear();
    scroll_right(&lcd, &mut bus);
    assert_eq!(bus, expected_frame(0x1c, 0, LCD_NOBACKLIGHT));
}

#[test]
fn print_truncates_code_point_to_one_byte() {
    let lcd = Lcd::new(0x27);
    let mut bus: Vec<BusAction> = Vec::new();
    // U+0100 truncates to 0x00.
    print(&lcd, &mut bus, '\u{100}');
    assert_eq!(bus, expected_frame(0x00, RS, LCD_NOBACKLIGHT));

    bus.clear();
    // U+00FC fits the byte unchanged.
    print(&lcd, &mut bus, '\u{fc}');
    assert_eq!(bus, expected_frame(0xfc, RS, LCD_NOBACKLIGHT));
}

#[test]
fn print_str_empty_emits_nothing() {
    let lcd = Lcd::new(0x27);
    let mut bus: Vec<BusAction> = Vec::new();
    print_str(&lcd, &mut bus, "");
    assert!(bus.is_empty());
}

#[test]
fn init_emits_exact_power_on_sequence() {
    let mut lcd = Lcd::new(0x27);
    let mut bus: Vec<BusAction> = Vec::new();
    init(&mut lcd, &mut bus);

    let bl = LCD_NOBACKLIGHT;
    let mut expected = vec![
        BusAction::DelayMs(50),
        BusAction::WriteReg(bl),
        BusAction::DelayMs(1000),
    ];
    for _ in 0..3 {
        expected.extend(expected_nibble(0x30 | bl));
        expected.push(BusAction::DelayUs(4500));
    }
    expected.extend(expected_nibble(0x20 | bl));
    expected.extend(expected_frame(0x28, 0, bl)); // function set: 4-bit, 2 lines, 5x8
    expected.extend(expected_frame(0x0c, 0, bl)); // display on, cursor off, blink off
    expected.extend(expected_frame(0x01, 0, bl)); // clear
    expected.push(BusAction::DelayUs(2000));
    expected.extend(expected_frame(0x06, 0, bl)); // entry left, no shift
    expected.extend(expected_frame(0x02, 0, bl)); // return home
    expected.push(BusAction::DelayUs(2000));
    assert_eq!(bus, expected);

    assert_eq!(lcd.display_control, 0x04);
    assert_eq!(lcd.display_mode, 0x02);
    assert_eq!(lcd.backlight, LCD_NOBACKLIGHT);
}

#[test]
fn init_then_print_hi_end_to_end() {
    let mut lcd = Lcd::new(0x27);
    let mut bus: Vec<BusAction> = Vec::new();

    init(&mut lcd, &mut bus);
    let init_writes = writes(&bus).len();
    assert_eq!(init_writes, 43);

    print_str(&lcd, &mut bus, "Hi");
    let w = writes(&bus);
    // Two characters, two nibble transmissions each, three writes per nibble.
    assert_eq!(w.len(), init_writes + 12);

    let tail = &w[init_writes..];
    // Every data write carries the register-select bit.
    for b in tail {
        assert_eq!(b & RS, RS);
    }
    // The latched bytes' upper halves spell 'H' (0x48) then 'i' (0x69).
    assert_eq!((tail[2] & 0xf0) | ((tail[5] & 0xf0) >> 4), 0x48);
    assert_eq!((tail[8] & 0xf0) | ((tail[11] & 0xf0) >> 4), 0x69);
}
