//! The bus layer: the unit of traffic toward the display, and the leaf
//! operation that places one byte in the expander's output register.

use vstd::prelude::*;

verus! {

/// One unit of traffic toward the display: a byte placed in the expander's
/// output register, or a mandated pause before the next register write.
#[derive(Clone, Copy, PartialEq, Eq, Structural, Debug)]
pub enum BusAction {
    /// Write this byte to the expander's output register.
    WriteReg(u8),
    /// Block for this many milliseconds.
    DelayMs(u32),
    /// Block for this many microseconds.
    DelayUs(u32),
}

/// The register bytes of a traffic sequence, in order, with delays removed.
pub open spec fn writes_of(s: Seq<BusAction>) -> Seq<u8>
    decreases s.len(),
{
    if s.len() == 0 {
        Seq::<u8>::empty()
    } else if s.first() is WriteReg {
        seq![s.first()->WriteReg_0] + writes_of(s.drop_first())
    } else {
        writes_of(s.drop_first())
    }
}

/// Record one raw write of the expander's output register.
pub fn expander_write(bus: &mut Vec<BusAction>, data: u8)
    ensures
        final(bus)@ == old(bus)@.push(BusAction::WriteReg(data)),
{
    bus.push(BusAction::WriteReg(data));
}

/// Record a blocking pause of `ms` milliseconds.
pub fn delay_ms(bus: &mut Vec<BusAction>, ms: u32)
    ensures
        final(bus)@ == old(bus)@.push(BusAction::DelayMs(ms)),
{
    bus.push(BusAction::DelayMs(ms));
}

/// Record a blocking pause of `us` microseconds.
pub fn delay_us(bus: &mut Vec<BusAction>, us: u32)
    ensures
        final(bus)@ == old(bus)@.push(BusAction::DelayUs(us)),
{
    bus.push(BusAction::DelayUs(us));
}

/// The two-byte I2C message that carries one register value: the expander's
/// addressing convention wants a zero register-pointer byte before the value.
pub fn expander_frame(data: u8) -> (msg: Vec<u8>)
    ensures
        msg@ == seq![0u8, data],
{
    let mut msg: Vec<u8> = Vec::new();
    msg.push(0u8);
    msg.push(data);
    proof {
        assert(msg@ =~= seq![0u8, data]);
    }
    msg
}

} // verus!
