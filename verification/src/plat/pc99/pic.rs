//! Simple legacy PIC handling.
//!
//! The extent of the kernel's interaction with the legacy programmable
//! interrupt controller is to remap its vectors somewhere sensible and then
//! turn it off. Verified code cannot write device registers, so each routine
//! returns the exact port writes the unverified shell must perform, in
//! order.

use vstd::prelude::*;

use crate::plat::PortAction;

verus! {

/// Base address of the master PIC.
pub const MASTER: u16 = 0x20;

/// Base address of the slave PIC.
pub const SLAVE: u16 = 0xa0;

/// Offset from the base port to the command port.
pub const COMMAND_OFFSET: u16 = 0;

/// Offset from the base port to the data port.
pub const DATA_OFFSET: u16 = 1;

/// Remap the PIC interrupts to vector 32. It does not much matter what this
/// is, as the interrupts get masked anyway.
pub const REMAP_OFFSET: u8 = 32;

/// A write to the PIC command register.
pub fn command(pic: u16, cmd: u8) -> (r: PortAction)
    requires
        pic + COMMAND_OFFSET <= u16::MAX,
    ensures
        r == PortAction::Out8((pic + COMMAND_OFFSET) as u16, cmd),
{
    PortAction::Out8(pic + COMMAND_OFFSET, cmd)
}

/// A write to the PIC data register.
pub fn data(pic: u16, value: u8) -> (r: PortAction)
    requires
        pic + DATA_OFFSET <= u16::MAX,
    ensures
        r == PortAction::Out8((pic + DATA_OFFSET) as u16, value),
{
    PortAction::Out8(pic + DATA_OFFSET, value)
}

/// The initialization sequence that remaps the two PICs' interrupts to
/// `base` (master) and `base + 8` (slave): start initialization on both,
/// program the vector offsets, the cascade wiring and the mode.
pub open spec fn spec_remap_actions(base: u8) -> Seq<PortAction> {
    seq![
        PortAction::Out8(MASTER, 0x11),
        PortAction::Out8(SLAVE, 0x11),
        PortAction::Out8((MASTER + DATA_OFFSET) as u16, base),
        PortAction::Out8((SLAVE + DATA_OFFSET) as u16, (base + 8) as u8),
        PortAction::Out8((MASTER + DATA_OFFSET) as u16, 0x4),
        PortAction::Out8((SLAVE + DATA_OFFSET) as u16, 0x2),
        PortAction::Out8((MASTER + DATA_OFFSET) as u16, 0x1),
        PortAction::Out8((SLAVE + DATA_OFFSET) as u16, 0x1),
        PortAction::Out8((MASTER + DATA_OFFSET) as u16, 0),
        PortAction::Out8((SLAVE + DATA_OFFSET) as u16, 0),
    ]
}

/// The port writes that remap the PIC interrupts to a given base.
pub fn remap(base: u8) -> (r: Vec<PortAction>)
    requires
        base + 8 <= u8::MAX,
    ensures
        r@ == spec_remap_actions(base),
{
    let mut acts: Vec<PortAction> = Vec::new();
    acts.push(command(MASTER, 0x11));
    acts.push(command(SLAVE, 0x11));
    acts.push(data(MASTER, base));
    acts.push(data(SLAVE, base + 8));
    acts.push(data(MASTER, 0x4));
    acts.push(data(SLAVE, 0x2));
    acts.push(data(MASTER, 0x1));
    acts.push(data(SLAVE, 0x1));
    acts.push(data(MASTER, 0));
    acts.push(data(SLAVE, 0));
    proof {
        assert(acts@ =~= spec_remap_actions(base));
    }
    acts
}

/// The full PIC shutdown sequence: remap the interrupts to somewhere
/// vaguely sensible, then mask every interrupt line on both PICs.
pub open spec fn spec_disable_actions() -> Seq<PortAction> {
    spec_remap_actions(REMAP_OFFSET) + seq![
        PortAction::Out8((MASTER + DATA_OFFSET) as u16, 0xff),
        PortAction::Out8((SLAVE + DATA_OFFSET) as u16, 0xff),
    ]
}

/// The port writes that disable the PIC.
pub fn disable() -> (r: Vec<PortAction>)
    ensures
        r@ == spec_disable_actions(),
{
    let mut acts = remap(REMAP_OFFSET);
    // now actually stop the PIC from generating interrupts
    acts.push(data(MASTER, 0xff));
    acts.push(data(SLAVE, 0xff));
    proof {
        assert(acts@ =~= spec_disable_actions());
    }
    acts
}

} // verus!
