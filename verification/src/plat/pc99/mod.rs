//! PC99 platform definition.

use vstd::prelude::*;

pub mod acpi;
pub mod pic;

use crate::config::BootConfig;
use crate::plat::{PlatInterface, PortAction};
use crate::types::BootError;
use crate::util::string::FromStrExt;
use crate::vspace::window::VSpaceWindow;
use vstd::string::StringSliceAdditionalSpecFns;

verus! {

/// Declare the concrete platform type for re-exporting by the parent
/// `plat` module.
pub type PlatInterfaceType = PC99Interface;

/// By default serial port 0x3f8 is used for debug output.
pub const DEFAULT_DEBUG_PORT: u16 = 0x3f8;

/// Run time state for the platform: the optional debug port as a
/// `(serial initialized, io port base)` pair.
#[derive(Clone, Copy, Debug)]
pub struct PC99Interface {
    /// Optional debug port: a `(serial initialized, io port base)` pair.
    pub debug_port: Option<(bool, u16)>,
}

/// A UART register port: the base port plus a small register offset,
/// wrapping like the machine's 16-bit port arithmetic.
pub open spec fn spec_port_at(base: u16, off: u16) -> u16 {
    ((base + off) % 0x10000) as u16
}

/// A UART register port: the base port plus a small register offset.
fn port_at(base: u16, off: u16) -> (r: u16)
    ensures
        r == spec_port_at(base, off),
{
    ((base as u32 + off as u32) % 0x10000) as u16
}

/// Helper that emits the wait for space on the FIFO of a standard uart.
fn serial_wait_ready(port: u16) -> (r: PortAction)
    ensures
        r == PortAction::WaitTxReady(port),
{
    PortAction::WaitTxReady(port)
}

/// The port operations that bring a standard UART up for debug output at
/// 115200 baud, 8 bit, no parity, 1 stop: disable interrupts, program the
/// divisor, set the line and modem control registers, then clear the
/// receive, line-status and modem-status registers.
pub open spec fn spec_serial_init_actions(port: u16) -> Seq<PortAction> {
    seq![
        PortAction::WaitTxReady(port),
        PortAction::Out8(spec_port_at(port, 1), 0),
        PortAction::Out8(spec_port_at(port, 3), 0x80),
        PortAction::Out8(port, 0x01),
        PortAction::Out8(spec_port_at(port, 1), 0x00),
        PortAction::Out8(spec_port_at(port, 3), 0x03),
        PortAction::Out8(spec_port_at(port, 4), 0x0b),
        PortAction::In8(port),
        PortAction::In8(spec_port_at(port, 5)),
        PortAction::In8(spec_port_at(port, 6)),
    ]
}

/// The port operations that send byte `c`: wait for FIFO space, write the
/// byte, and follow a line feed with a carriage return.
pub open spec fn spec_putchar_actions(port: u16, c: u8) -> Seq<PortAction> {
    if c == 10 {
        seq![
            PortAction::WaitTxReady(port),
            PortAction::Out8(port, c),
            PortAction::WaitTxReady(port),
            PortAction::Out8(port, 13),
        ]
    } else {
        seq![PortAction::WaitTxReady(port), PortAction::Out8(port, c)]
    }
}

/// Implementation of the generic platform interface for pc99.
impl PlatInterface for PC99Interface {
    /// Initializing the serial emits the UART bring-up sequence once, and
    /// marks the port initialized; with no port, or one already
    /// initialized, nothing happens.
    open spec fn spec_init_serial(pre: Self) -> (Self, Seq<PortAction>) {
        match pre.debug_port {
            Some((initialized, port)) => if !initialized {
                (
                    PC99Interface { debug_port: Some((true, port)) },
                    spec_serial_init_actions(port),
                )
            } else {
                (pre, Seq::empty())
            },
            None => (pre, Seq::empty()),
        }
    }

    /// A character goes out only once the serial is initialized; a line
    /// feed is followed by a carriage return.
    open spec fn spec_putchar(pre: Self, c: u8) -> (Self, Seq<PortAction>) {
        match pre.debug_port {
            Some((initialized, port)) => if initialized {
                (pre, spec_putchar_actions(port, c))
            } else {
                (pre, Seq::empty())
            },
            None => (pre, Seq::empty()),
        }
    }

    /// Early platform init disables the legacy interrupt controller.
    open spec fn spec_early_init(pre: Self) -> (Self, Result<Seq<PortAction>, BootError>) {
        (pre, Ok(pic::spec_disable_actions()))
    }

    /// No devices are discovered at this stage.
    open spec fn spec_early_device_discovery(pre: Self) -> (Self, Result<(), BootError>) {
        (pre, Ok(()))
    }

    fn init_serial(&mut self) -> (acts: Vec<PortAction>) {
        match self.debug_port {
            Some((false, port)) => {
                let mut acts: Vec<PortAction> = Vec::new();
                acts.push(serial_wait_ready(port));
                // disable interrupts
                acts.push(PortAction::Out8(port_at(port, 1), 0));
                // set divisor to 0x1:0x00 = 115200
                acts.push(PortAction::Out8(port_at(port, 3), 0x80));
                acts.push(PortAction::Out8(port, 0x01));
                acts.push(PortAction::Out8(port_at(port, 1), 0x00));
                // 8 bit no parity 1 stop
                acts.push(PortAction::Out8(port_at(port, 3), 0x03));
                // set DTR/RTS/OUT2
                acts.push(PortAction::Out8(port_at(port, 4), 0x0b));
                // clear receive
                acts.push(PortAction::In8(port));
                // clear line status
                acts.push(PortAction::In8(port_at(port, 5)));
                // clear modem status
                acts.push(PortAction::In8(port_at(port, 6)));
                self.debug_port = Some((true, port));
                proof {
                    assert(acts@ =~= spec_serial_init_actions(port));
                }
                acts
            },
            _ => Vec::new(),
        }
    }

    fn putchar(&mut self, c: u8) -> (acts: Vec<PortAction>) {
        match self.debug_port {
            Some((true, port)) => {
                let mut acts: Vec<PortAction> = Vec::new();
                acts.push(serial_wait_ready(port));
                acts.push(PortAction::Out8(port, c));
                if c == 10 {
                    acts.push(serial_wait_ready(port));
                    acts.push(PortAction::Out8(port, 13));
                }
                proof {
                    assert(acts@ =~= spec_putchar_actions(port, c));
                }
                acts
            },
            _ => Vec::new(),
        }
    }

    fn early_init(&mut self) -> (r: Result<Vec<PortAction>, BootError>) {
        // the legacy PIC must not fire interrupts once the kernel runs
        Ok(pic::disable())
    }

    fn early_device_discovery<W: VSpaceWindow>(&mut self, window: &W) -> (r: Result<
        (),
        BootError,
    >) {
        // no devices right now
        Ok(())
    }
}

/// The platform that a command line configures: a pc99 interface whose
/// debug port is the `--debug-port` option's value when one is present and
/// parses, and the default port otherwise; the serial starts
/// uninitialized.
pub open spec fn spec_platform_for(cmdline: Seq<u8>) -> PC99Interface {
    PC99Interface { debug_port: Some((false, spec_configured_port(cmdline))) }
}

/// The debug port a command line configures.
pub open spec fn spec_configured_port(cmdline: Seq<u8>) -> u16 {
    match crate::config::spec_find_option(
        crate::config::spec_split(cmdline, 32),
        0,
        "--debug-port".spec_bytes(),
    ) {
        Some(kv) => match (if crate::util::string::spec_has_hex_prefix(kv.1) {
            <u16 as FromStrExt>::spec_from_radix(kv.1.skip(2), 16)
        } else {
            <u16 as FromStrExt>::spec_from_radix(kv.1, 10)
        }) {
            Some(v) => v,
            None => DEFAULT_DEBUG_PORT,
        },
        None => DEFAULT_DEBUG_PORT,
    }
}

/// Construct and return the public platform interface, reading the debug
/// port override from the command line.
pub fn plat_get_platform(config: &BootConfig) -> (r: PC99Interface)
    ensures
        r == spec_platform_for(config.spec_cmdline()),
{
    let port = match config.cmdline_option_from_str::<u16>("--debug-port") {
        Some(p) => p,
        None => DEFAULT_DEBUG_PORT,
    };
    PC99Interface { debug_port: Some((false, port)) }
}

} // verus!
