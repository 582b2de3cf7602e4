//! The driver proper: nibble transmitter, command/character framer, the
//! public display operations and the power-on initialization handshake.

use vstd::prelude::*;

use crate::bus::BusAction;
use crate::bus::delay_ms;
use crate::bus::delay_us;
use crate::bus::expander_write;

verus! {

// HD44780 command bytes and command option bits.
pub const LCD_CLEARDISPLAY: u8 = 0x01;
pub const LCD_RETURNHOME: u8 = 0x02;
pub const LCD_ENTRYMODESET: u8 = 0x04;
pub const LCD_DISPLAYCONTROL: u8 = 0x08;
pub const LCD_CURSORSHIFT: u8 = 0x10;
pub const LCD_FUNCTIONSET: u8 = 0x20;
pub const LCD_SETDDRAMADDR: u8 = 0x80;

pub const LCD_ENTRYLEFT: u8 = 0x02;
pub const LCD_ENTRYSHIFTDECREMENT: u8 = 0x00;
pub const LCD_DISPLAYON: u8 = 0x04;
pub const LCD_CURSOROFF: u8 = 0x00;
pub const LCD_BLINKOFF: u8 = 0x00;
pub const LCD_DISPLAYMOVE: u8 = 0x08;
pub const LCD_MOVELEFT: u8 = 0x00;
pub const LCD_MOVERIGHT: u8 = 0x04;
pub const LCD_4BITMODE: u8 = 0x00;
pub const LCD_2LINE: u8 = 0x08;
pub const LCD_5X8DOTS: u8 = 0x00;

// Expander byte layout: bit 0 selects the register (command vs. character
// data), bit 1 is read/write (always written 0), bit 2 is the enable line,
// bit 3 drives the backlight, bits 4..7 carry the data nibble.
pub const RS: u8 = 0x01;
pub const EN: u8 = 0x04;
pub const LCD_BACKLIGHT: u8 = 0x08;
pub const LCD_NOBACKLIGHT: u8 = 0x00;

/// Default 7-bit address of a PCF8574 expander with all address pins high.
pub const LCD_ADDRESS: u8 = 0x27;

/// Session state of one display: the control lines that must be merged into
/// every byte sent, and the two controller mode bitmasks that are kept as a
/// read-modify-write shadow of the controller's own registers.
#[derive(Clone, Copy, PartialEq, Eq, Structural, Debug)]
pub struct Lcd {
    /// 7-bit I2C address of the expander this display sits behind.
    pub addr: u8,
    /// Current backlight line value: `LCD_BACKLIGHT` or `LCD_NOBACKLIGHT`,
    /// OR'd into every expander byte.
    pub backlight: u8,
    /// Shadow of the controller's display-control register (display on/off,
    /// cursor on/off, blink on/off).
    pub display_control: u8,
    /// Shadow of the controller's entry-mode register (text direction,
    /// shift-on-write).
    pub display_mode: u8,
}

impl Lcd {
    /// Well-formedness of the session state: the backlight field holds only
    /// the backlight bit, and the two shadow registers hold only their own
    /// option bits.
    pub open spec fn wf(self) -> bool {
        &&& (self.backlight == LCD_BACKLIGHT || self.backlight == LCD_NOBACKLIGHT)
        &&& self.display_control & 0xf8 == 0
        &&& self.display_mode & 0xfc == 0
    }

    /// A fresh driver for the expander at `addr`: backlight off, both shadow
    /// registers cleared, as the controller holds them before initialization.
    pub fn new(addr: u8) -> (lcd: Lcd)
        ensures
            lcd == (Lcd {
                addr,
                backlight: LCD_NOBACKLIGHT,
                display_control: 0,
                display_mode: 0,
            }),
            lcd.wf(),
    {
        proof {
            assert(0u8 & 0xf8 == 0 && 0u8 & 0xfc == 0) by (bit_vector);
        }
        Lcd { addr, backlight: LCD_NOBACKLIGHT, display_control: 0, display_mode: 0 }
    }
}

/// The traffic of one nibble transmission: the byte with the enable line
/// low, the same byte with enable raised (the edge the controller watches),
/// a hold of at least the minimum pulse width, the byte with enable cleared
/// (the falling edge latches the nibble), then the controller's settle time.
pub open spec fn nibble_actions(data: u8) -> Seq<BusAction> {
    seq![
        BusAction::WriteReg(data),
        BusAction::WriteReg(data | EN),
        BusAction::DelayUs(1),
        BusAction::WriteReg(data & !EN),
        BusAction::DelayUs(50),
    ]
}

/// The expander byte that carries the high nibble of `cmd` with mode bits
/// `mode` (register select) and the backlight line `bl`.
pub open spec fn high_byte(cmd: u8, mode: u8, bl: u8) -> u8 {
    ((cmd & 0xf0) | mode) | bl
}

/// The expander byte that carries the low nibble of `cmd`, shifted into the
/// data lines (upper nibble of the byte), with the same control bits.
pub open spec fn low_byte(cmd: u8, mode: u8, bl: u8) -> u8 {
    (((cmd << 4) & 0xf0) | mode) | bl
}

/// The traffic of one framed 8-bit command or character: the high nibble's
/// transmission strictly before the low nibble's, both with the same
/// register-select and backlight bits.
pub open spec fn framed_actions(cmd: u8, mode: u8, bl: u8) -> Seq<BusAction> {
    nibble_actions(high_byte(cmd, mode, bl)) + nibble_actions(low_byte(cmd, mode, bl))
}

/// The enable pulse for a byte already sitting on the expander: raise the
/// enable line, hold past the minimum pulse width, drop it to latch, then
/// hold for the controller's settle time.
fn pulse_en(bus: &mut Vec<BusAction>, data: u8)
    ensures
        final(bus)@ == old(bus)@ + seq![
            BusAction::WriteReg(data | EN),
            BusAction::DelayUs(1),
            BusAction::WriteReg(data & !EN),
            BusAction::DelayUs(50),
        ],
{
    expander_write(bus, data | EN);
    delay_us(bus, 1);
    expander_write(bus, data & !EN);
    delay_us(bus, 50);
    proof {
        assert(bus@ =~= old(bus)@ + seq![
            BusAction::WriteReg(data | EN),
            BusAction::DelayUs(1),
            BusAction::WriteReg(data & !EN),
            BusAction::DelayUs(50),
        ]);
    }
}

/// Transmit one nibble byte (data nibble plus control bits, enable low) and
/// pulse the enable line so the controller latches it.
pub fn write4bits(bus: &mut Vec<BusAction>, data: u8)
    ensures
        final(bus)@ == old(bus)@ + nibble_actions(data),
{
    expander_write(bus, data);
    pulse_en(bus, data);
    proof {
        assert(bus@ =~= old(bus)@ + nibble_actions(data));
    }
}

/// Frame one 8-bit command or character byte: split it into its two nibbles
/// and transmit the high nibble first, then the low one, both merged with
/// the register-select bits in `mode` and the driver's backlight line.
pub fn send(lcd: &Lcd, bus: &mut Vec<BusAction>, cmd: u8, mode: u8)
    ensures
        final(bus)@ == old(bus)@ + framed_actions(cmd, mode, lcd.backlight),
{
    let highnib: u8 = cmd & 0xf0;
    let lownib: u8 = (cmd << 4) & 0xf0;
    write4bits(bus, (highnib | mode) | lcd.backlight);
    write4bits(bus, (lownib | mode) | lcd.backlight);
    proof {
        assert(bus@ =~= old(bus)@ + framed_actions(cmd, mode, lcd.backlight));
    }
}

/// The single byte the controller receives for a character: its code point
/// truncated to eight bits. Codes beyond the character ROM are not checked
/// and display whatever glyph the ROM holds there.
pub open spec fn char_byte(c: char) -> u8 {
    c as u8
}

/// Send one character to the data register (register-select high).
pub fn print(lcd: &Lcd, bus: &mut Vec<BusAction>, ch: char)
    ensures
        final(bus)@ == old(bus)@ + framed_actions(char_byte(ch), RS, lcd.backlight),
{
    let data: u8 = ch as u8;
    send(lcd, bus, data, RS);
}

/// The traffic of printing a text: one framed data byte per character, in
/// order.
pub open spec fn text_actions(text: Seq<char>, bl: u8) -> Seq<BusAction>
    decreases text.len(),
{
    if text.len() == 0 {
        Seq::<BusAction>::empty()
    } else {
        text_actions(text.drop_last(), bl) + framed_actions(char_byte(text.last()), RS, bl)
    }
}

/// Send a string character by character. No line wrapping: the caller
/// manages line boundaries.
pub fn print_str(lcd: &Lcd, bus: &mut Vec<BusAction>, text: &str)
    ensures
        final(bus)@ == old(bus)@ + text_actions(text@, lcd.backlight),
{
    let n: usize = text.unicode_len();
    for i in 0..n
        invariant
            n == text@.len(),
            bus@ == old(bus)@ + text_actions(text@.take(i as int), lcd.backlight),
    {
        let ch = text.get_char(i);
        print(lcd, bus, ch);
        proof {
            assert(text@.take(i + 1).drop_last() =~= text@.take(i as int));
            assert(text@.take(i + 1).last() == text@[i as int]);
            assert(bus@ =~= old(bus)@ + text_actions(text@.take(i + 1), lcd.backlight));
        }
    }
    proof {
        assert(text@.take(n as int) =~= text@);
    }
}

/// The DDRAM start address of `row`, per the controller's fixed row layout.
pub open spec fn row_offset(row: int) -> u8 {
    if row == 0 {
        0x00
    } else if row == 1 {
        0x40
    } else if row == 2 {
        0x14
    } else {
        0x54
    }
}

/// The set-DDRAM-address command that puts the cursor at `col` of `row`.
pub open spec fn ddram_command(col: u8, row: int) -> u8 {
    LCD_SETDDRAMADDR | (col + row_offset(row)) as u8
}

/// Move the cursor to column `col` of row `row`.
///
/// The controller offers four rows at fixed DDRAM offsets; a row beyond
/// them, or a column that pushes the address sum past a byte, has no defined
/// meaning on the controller and is excluded here.
pub fn set_cursor(lcd: &Lcd, bus: &mut Vec<BusAction>, col: u8, row: usize)
    requires
        row < 4,
        col + row_offset(row as int) <= u8::MAX,
    ensures
        final(bus)@ == old(bus)@ + framed_actions(
            ddram_command(col, row as int),
            0,
            lcd.backlight,
        ),
{
    let offset: u8 = if row == 0 {
        0x00
    } else if row == 1 {
        0x40
    } else if row == 2 {
        0x14
    } else {
        0x54
    };
    let cmd: u8 = LCD_SETDDRAMADDR | (col + offset);
    send(lcd, bus, cmd, 0x0);
}

/// Shift the whole display window one position to the left.
pub fn scroll_left(lcd: &Lcd, bus: &mut Vec<BusAction>)
    ensures
        final(bus)@ == old(bus)@ + framed_actions(
            LCD_CURSORSHIFT | LCD_DISPLAYMOVE | LCD_MOVELEFT,
            0,
            lcd.backlight,
        ),
{
    let cmd: u8 = LCD_CURSORSHIFT | LCD_DISPLAYMOVE | LCD_MOVELEFT;
    send(lcd, bus, cmd, 0x0);
}

/// Shift the whole display window one position to the right.
pub fn scroll_right(lcd: &Lcd, bus: &mut Vec<BusAction>)
    ensures
        final(bus)@ == old(bus)@ + framed_actions(
            LCD_CURSORSHIFT | LCD_DISPLAYMOVE | LCD_MOVERIGHT,
            0,
            lcd.backlight,
        ),
{
    let cmd: u8 = LCD_CURSORSHIFT | LCD_DISPLAYMOVE | LCD_MOVERIGHT;
    send(lcd, bus, cmd, 0x0);
}

/// The traffic of a clear: the clear-display frame, then the controller's
/// mandatory clear-cycle delay of at least two milliseconds.
pub open spec fn clear_actions(bl: u8) -> Seq<BusAction> {
    framed_actions(LCD_CLEARDISPLAY, 0, bl).push(BusAction::DelayUs(2000))
}

/// Clear the display. The controller needs its clear-cycle delay before it
/// can accept anything else, so the delay is part of the operation.
pub fn clear(lcd: &Lcd, bus: &mut Vec<BusAction>)
    ensures
        final(bus)@ == old(bus)@ + clear_actions(lcd.backlight),
{
    send(lcd, bus, LCD_CLEARDISPLAY, 0x0);
    delay_us(bus, 2000);
    proof {
        assert(bus@ =~= old(bus)@ + clear_actions(lcd.backlight));
    }
}

/// Turn the backlight line on. Only a raw register write goes out — no
/// command frame, no enable pulse — so the displayed content and the cursor
/// are untouched.
pub fn backlight(lcd: &mut Lcd, bus: &mut Vec<BusAction>)
    ensures
        final(lcd).backlight == LCD_BACKLIGHT,
        final(lcd).addr == old(lcd).addr,
        final(lcd).display_control == old(lcd).display_control,
        final(lcd).display_mode == old(lcd).display_mode,
        final(bus)@ == old(bus)@.push(BusAction::WriteReg(LCD_BACKLIGHT)),
        old(lcd).wf() ==> final(lcd).wf(),
{
    lcd.backlight = LCD_BACKLIGHT;
    expander_write(bus, lcd.backlight);
}

/// Turn the backlight line off. As with [`backlight`], only a raw register
/// write goes out.
pub fn no_backlight(lcd: &mut Lcd, bus: &mut Vec<BusAction>)
    ensures
        final(lcd).backlight == LCD_NOBACKLIGHT,
        final(lcd).addr == old(lcd).addr,
        final(lcd).display_control == old(lcd).display_control,
        final(lcd).display_mode == old(lcd).display_mode,
        final(bus)@ == old(bus)@.push(BusAction::WriteReg(LCD_NOBACKLIGHT)),
        old(lcd).wf() ==> final(lcd).wf(),
{
    lcd.backlight = LCD_NOBACKLIGHT;
    expander_write(bus, lcd.backlight);
}

/// Turn the display on: set the display-on bit in the shadow register and
/// frame the display-control command with the new mask. DDRAM contents are
/// untouched.
pub fn display(lcd: &mut Lcd, bus: &mut Vec<BusAction>)
    ensures
        final(lcd).display_control == old(lcd).display_control | LCD_DISPLAYON,
        final(lcd).addr == old(lcd).addr,
        final(lcd).backlight == old(lcd).backlight,
        final(lcd).display_mode == old(lcd).display_mode,
        final(bus)@ == old(bus)@ + framed_actions(
            LCD_DISPLAYCONTROL | (old(lcd).display_control | LCD_DISPLAYON),
            0,
            old(lcd).backlight,
        ),
        old(lcd).wf() ==> final(lcd).wf(),
{
    proof {
        let c = lcd.display_control;
        assert(c & 0xf8 == 0 ==> (c | LCD_DISPLAYON) & 0xf8 == 0) by (bit_vector);
    }
    lcd.display_control = lcd.display_control | LCD_DISPLAYON;
    let cmd: u8 = LCD_DISPLAYCONTROL | lcd.display_control;
    send(lcd, bus, cmd, 0x0);
}

/// Turn the display off: clear the display-on bit in the shadow register
/// and frame the display-control command. DDRAM contents are untouched.
pub fn no_display(lcd: &mut Lcd, bus: &mut Vec<BusAction>)
    ensures
        final(lcd).display_control == old(lcd).display_control & !LCD_DISPLAYON,
        final(lcd).addr == old(lcd).addr,
        final(lcd).backlight == old(lcd).backlight,
        final(lcd).display_mode == old(lcd).display_mode,
        final(bus)@ == old(bus)@ + framed_actions(
            LCD_DISPLAYCONTROL | (old(lcd).display_control & !LCD_DISPLAYON),
            0,
            old(lcd).backlight,
        ),
        old(lcd).wf() ==> final(lcd).wf(),
{
    proof {
        let c = lcd.display_control;
        assert(c & 0xf8 == 0 ==> (c & !LCD_DISPLAYON) & 0xf8 == 0) by (bit_vector);
    }
    lcd.display_control = lcd.display_control & !LCD_DISPLAYON;
    let cmd: u8 = LCD_DISPLAYCONTROL | lcd.display_control;
    send(lcd, bus, cmd, 0x0);
}

/// Make subsequent characters flow left to right: set the entry-left bit in
/// the entry-mode shadow and frame the entry-mode command.
pub fn left_to_right(lcd: &mut Lcd, bus: &mut Vec<BusAction>)
    ensures
        final(lcd).display_mode == old(lcd).display_mode | LCD_ENTRYLEFT,
        final(lcd).addr == old(lcd).addr,
        final(lcd).backlight == old(lcd).backlight,
        final(lcd).display_control == old(lcd).display_control,
        final(bus)@ == old(bus)@ + framed_actions(
            LCD_ENTRYMODESET | (old(lcd).display_mode | LCD_ENTRYLEFT),
            0,
            old(lcd).backlight,
        ),
        old(lcd).wf() ==> final(lcd).wf(),
{
    proof {
        let m = lcd.display_mode;
        assert(m & 0xfc == 0 ==> (m | LCD_ENTRYLEFT) & 0xfc == 0) by (bit_vector);
    }
    lcd.display_mode = lcd.display_mode | LCD_ENTRYLEFT;
    let cmd: u8 = LCD_ENTRYMODESET | lcd.display_mode;
    send(lcd, bus, cmd, 0x0);
}

/// Make subsequent characters flow right to left: clear the entry-left bit
/// in the entry-mode shadow and frame the entry-mode command.
pub fn right_to_left(lcd: &mut Lcd, bus: &mut Vec<BusAction>)
    ensures
        final(lcd).display_mode == old(lcd).display_mode & !LCD_ENTRYLEFT,
        final(lcd).addr == old(lcd).addr,
        final(lcd).backlight == old(lcd).backlight,
        final(lcd).display_control == old(lcd).display_control,
        final(bus)@ == old(bus)@ + framed_actions(
            LCD_ENTRYMODESET | (old(lcd).display_mode & !LCD_ENTRYLEFT),
            0,
            old(lcd).backlight,
        ),
        old(lcd).wf() ==> final(lcd).wf(),
{
    proof {
        let m = lcd.display_mode;
        assert(m & 0xfc == 0 ==> (m & !LCD_ENTRYLEFT) & 0xfc == 0) by (bit_vector);
    }
    lcd.display_mode = lcd.display_mode & !LCD_ENTRYLEFT;
    let cmd: u8 = LCD_ENTRYMODESET | lcd.display_mode;
    send(lcd, bus, cmd, 0x0);
}

/// The traffic of `n` rounds of the force-8-bit resync: the controller
/// powers up in 8-bit mode, and the function-set-8-bit nibble is repeated in
/// case it missed earlier edges, each round followed by its settle delay.
pub open spec fn resync_actions(n: int, bl: u8) -> Seq<BusAction>
    decreases n,
{
    if n <= 0 {
        Seq::<BusAction>::empty()
    } else {
        resync_actions(n - 1, bl) + nibble_actions(0x30 | bl) + seq![BusAction::DelayUs(4500)]
    }
}

/// The whole power-on handshake for a driver whose backlight line is `bl`:
/// the power-settle wait, a raw write that parks the expander lines, three
/// force-8-bit resync rounds, the switch to 4-bit mode, then the framed
/// baseline commands — function set, display control, clear, entry mode,
/// return home — with the return-home repositioning delay at the end.
pub open spec fn init_actions(bl: u8) -> Seq<BusAction> {
    seq![BusAction::DelayMs(50), BusAction::WriteReg(bl), BusAction::DelayMs(1000)]
        + resync_actions(3, bl)
        + nibble_actions(0x20 | bl)
        + framed_actions(LCD_FUNCTIONSET | (LCD_4BITMODE | LCD_2LINE | LCD_5X8DOTS), 0, bl)
        + framed_actions(LCD_DISPLAYCONTROL | (LCD_DISPLAYON | LCD_CURSOROFF | LCD_BLINKOFF), 0, bl)
        + clear_actions(bl)
        + framed_actions(LCD_ENTRYMODESET | (LCD_ENTRYLEFT | LCD_ENTRYSHIFTDECREMENT), 0, bl)
        + framed_actions(LCD_RETURNHOME, 0, bl)
        + seq![BusAction::DelayUs(2000)]
}

/// Run the power-on handshake that coaxes the controller out of its 8-bit
/// reset state into 4-bit mode and sets the documented baseline: display on
/// with cursor and blink off, screen cleared, text flowing left to right,
/// cursor at the origin. The backlight line keeps its current value.
pub fn init(lcd: &mut Lcd, bus: &mut Vec<BusAction>)
    ensures
        final(lcd).addr == old(lcd).addr,
        final(lcd).backlight == old(lcd).backlight,
        final(lcd).display_control == LCD_DISPLAYON | LCD_CURSOROFF | LCD_BLINKOFF,
        final(lcd).display_mode == LCD_ENTRYLEFT | LCD_ENTRYSHIFTDECREMENT,
        final(bus)@ == old(bus)@ + init_actions(old(lcd).backlight),
        old(lcd).wf() ==> final(lcd).wf(),
{
    proof {
        assert((LCD_DISPLAYON | LCD_CURSOROFF | LCD_BLINKOFF) & 0xf8 == 0
            && (LCD_ENTRYLEFT | LCD_ENTRYSHIFTDECREMENT) & 0xfc == 0) by (bit_vector);
    }
    delay_ms(bus, 50);
    expander_write(bus, lcd.backlight);
    delay_ms(bus, 1000);

    for i in 0..3usize
        invariant
            lcd == old(lcd),
            bus@ == old(bus)@ + seq![
                BusAction::DelayMs(50),
                BusAction::WriteReg(old(lcd).backlight),
                BusAction::DelayMs(1000),
            ] + resync_actions(i as int, old(lcd).backlight),
    {
        write4bits(bus, 0x30 | lcd.backlight);
        delay_us(bus, 4500);
        proof {
            assert(bus@ =~= old(bus)@ + seq![
                BusAction::DelayMs(50),
                BusAction::WriteReg(old(lcd).backlight),
                BusAction::DelayMs(1000),
            ] + resync_actions(i + 1, old(lcd).backlight));
        }
    }

    write4bits(bus, 0x20 | lcd.backlight);

    let display_function: u8 = LCD_4BITMODE | LCD_2LINE | LCD_5X8DOTS;
    send(lcd, bus, LCD_FUNCTIONSET | display_function, 0x0);

    lcd.display_control = LCD_DISPLAYON | LCD_CURSOROFF | LCD_BLINKOFF;
    display(lcd, bus);
    proof {
        assert(((LCD_DISPLAYON | LCD_CURSOROFF | LCD_BLINKOFF) | LCD_DISPLAYON)
            == LCD_DISPLAYON | LCD_CURSOROFF | LCD_BLINKOFF) by (bit_vector);
    }

    clear(lcd, bus);

    lcd.display_mode = LCD_ENTRYLEFT | LCD_ENTRYSHIFTDECREMENT;
    let cmd: u8 = LCD_ENTRYMODESET | lcd.display_mode;
    send(lcd, bus, cmd, 0x0);

    send(lcd, bus, LCD_RETURNHOME, 0x0);
    delay_us(bus, 2000);

    proof {
        assert(bus@ =~= old(bus)@ + init_actions(old(lcd).backlight));
    }
}

} // verus!

