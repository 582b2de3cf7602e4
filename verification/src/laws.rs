//! Protocol laws: what the emitted traffic of the nibble transmitter and
//! the command framer looks like once delays are stripped away, and that
//! the two-nibble framing is lossless.

use vstd::prelude::*;

use crate::bus::BusAction;
use crate::bus::writes_of;
use crate::lcd::EN;
use crate::lcd::LCD_BACKLIGHT;
use crate::lcd::RS;
use crate::lcd::framed_actions;
use crate::lcd::high_byte;
use crate::lcd::low_byte;
use crate::lcd::nibble_actions;

verus! {

/// Stripping delays distributes over concatenation of traffic.
pub proof fn lemma_writes_of_concat(a: Seq<BusAction>, b: Seq<BusAction>)
    ensures
        writes_of(a + b) == writes_of(a) + writes_of(b),
    decreases a.len(),
{
    if a.len() == 0 {
        assert(a + b =~= b);
        assert(writes_of(a) + writes_of(b) =~= writes_of(b));
    } else {
        lemma_writes_of_concat(a.drop_first(), b);
        assert((a + b).drop_first() =~= a.drop_first() + b);
        assert((a + b).first() == a.first());
        assert(writes_of(a + b) =~= writes_of(a) + writes_of(b));
    }
}

/// One nibble transmission carries exactly three register writes: the byte
/// as given, the byte with the enable line raised, the byte with the enable
/// line cleared.
pub proof fn lemma_nibble_writes(data: u8)
    ensures
        writes_of(nibble_actions(data)) == seq![data, data | EN, data & !EN],
{
    let s = nibble_actions(data);
    let s1 = s.drop_first();
    let s2 = s1.drop_first();
    let s3 = s2.drop_first();
    let s4 = s3.drop_first();
    let s5 = s4.drop_first();
    assert(s5.len() == 0);
    assert(writes_of(s4) == writes_of(s5));
    assert(writes_of(s3) =~= seq![data & !EN]);
    assert(writes_of(s2) == writes_of(s3));
    assert(writes_of(s1) =~= seq![data | EN] + writes_of(s2));
    assert(writes_of(s) =~= seq![data, data | EN, data & !EN]);
}

/// The pulse discipline of one nibble transmission, for a byte whose enable
/// bit starts low: exactly three register writes, the enable line low, then
/// high, then low again, and the register-select and backlight bits the
/// same in all three.
pub proof fn lemma_nibble_pulse_discipline(data: u8)
    requires
        data & EN == 0,
    ensures
        writes_of(nibble_actions(data)).len() == 3,
        writes_of(nibble_actions(data)) == seq![data, data | EN, data & !EN],
        data & EN == 0,
        (data | EN) & EN == EN,
        (data & !EN) & EN == 0,
        (data | EN) & RS == data & RS,
        (data & !EN) & RS == data & RS,
        (data | EN) & LCD_BACKLIGHT == data & LCD_BACKLIGHT,
        (data & !EN) & LCD_BACKLIGHT == data & LCD_BACKLIGHT,
{
    lemma_nibble_writes(data);
    assert((data | EN) & EN == EN) by (bit_vector);
    assert((data & !EN) & EN == 0) by (bit_vector);
    assert((data | EN) & RS == data & RS) by (bit_vector);
    assert((data & !EN) & RS == data & RS) by (bit_vector);
    assert((data | EN) & LCD_BACKLIGHT == data & LCD_BACKLIGHT) by (bit_vector);
    assert((data & !EN) & LCD_BACKLIGHT == data & LCD_BACKLIGHT) by (bit_vector);
}

/// A framed byte goes out as the high nibble's three writes strictly before
/// the low nibble's three, both nibbles carrying the same register-select
/// and backlight bits; and taking the upper four bits of the two latched
/// bytes reconstructs the framed byte — the framing loses nothing.
pub proof fn lemma_frame_round_trip(cmd: u8, mode: u8, bl: u8)
    requires
        mode & 0xf0 == 0,
        bl & 0xf0 == 0,
        mode & LCD_BACKLIGHT == 0,
        bl & RS == 0,
    ensures
        writes_of(framed_actions(cmd, mode, bl)) == seq![
            high_byte(cmd, mode, bl),
            high_byte(cmd, mode, bl) | EN,
            high_byte(cmd, mode, bl) & !EN,
            low_byte(cmd, mode, bl),
            low_byte(cmd, mode, bl) | EN,
            low_byte(cmd, mode, bl) & !EN,
        ],
        (high_byte(cmd, mode, bl) & 0xf0) | ((low_byte(cmd, mode, bl) & 0xf0) >> 4) == cmd,
        high_byte(cmd, mode, bl) & RS == mode & RS,
        low_byte(cmd, mode, bl) & RS == mode & RS,
        high_byte(cmd, mode, bl) & LCD_BACKLIGHT == bl & LCD_BACKLIGHT,
        low_byte(cmd, mode, bl) & LCD_BACKLIGHT == bl & LCD_BACKLIGHT,
{
    let h = high_byte(cmd, mode, bl);
    let l = low_byte(cmd, mode, bl);
    lemma_writes_of_concat(nibble_actions(h), nibble_actions(l));
    lemma_nibble_writes(h);
    lemma_nibble_writes(l);
    assert(writes_of(framed_actions(cmd, mode, bl)) =~= seq![
        h,
        h | EN,
        h & !EN,
        l,
        l | EN,
        l & !EN,
    ]);
    assert((high_byte(cmd, mode, bl) & 0xf0) | ((low_byte(cmd, mode, bl) & 0xf0) >> 4) == cmd)
        by (bit_vector)
        requires
            mode & 0xf0 == 0,
            bl & 0xf0 == 0,
    ;
    assert(high_byte(cmd, mode, bl) & RS == mode & RS) by (bit_vector)
        requires
            bl & RS == 0,
    ;
    assert(low_byte(cmd, mode, bl) & RS == mode & RS) by (bit_vector)
        requires
            bl & RS == 0,
    ;
    assert(high_byte(cmd, mode, bl) & LCD_BACKLIGHT == bl & LCD_BACKLIGHT) by (bit_vector)
        requires
            mode & LCD_BACKLIGHT == 0,
    ;
    assert(low_byte(cmd, mode, bl) & LCD_BACKLIGHT == bl & LCD_BACKLIGHT) by (bit_vector)
        requires
            mode & LCD_BACKLIGHT == 0,
    ;
}

} // verus!
