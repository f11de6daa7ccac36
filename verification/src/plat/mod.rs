//! Platform abstraction.
//!
//! This module provides a platform abstraction and interface for the rest
//! of the kernel code: an architecture may not assume a specific platform,
//! but platforms may assume a specific architecture. As there can only be
//! one actual platform at a time, the concrete platform state is re-exported
//! as `PlatInterfaceType`.
//!
//! Device registers cannot be poked from verified code, so every platform
//! operation returns the exact sequence of [`PortAction`] port operations
//! the surrounding unverified shell must perform, in order.

use vstd::prelude::*;

pub mod pc99;

pub use self::pc99::plat_get_platform;
pub use self::pc99::PC99Interface;
pub use self::pc99::PlatInterfaceType;

use crate::config::BootConfig;
use crate::types::BootError;
use crate::vspace::window::VSpaceWindow;

verus! {

/// One I/O port operation for the unverified shell to perform: an 8-bit
/// write, an 8-bit read whose value is discarded, or polling a serial
/// line-status register until the transmitter is ready.
#[derive(Clone, Copy, Debug, PartialEq, Eq, Structural)]
pub enum PortAction {
    /// Write the byte to the port.
    Out8(u16, u8),
    /// Read a byte from the port and discard it.
    In8(u16),
    /// Poll the UART at this base port until its FIFO has space.
    WaitTxReady(u16),
}

/// Abstract platform interface.
///
/// Each operation is specified by a spec hook that maps the state before
/// the call to the state after it and the port operations to perform; an
/// implementation defines the hooks and the executable methods are held to
/// them exactly.
pub trait PlatInterface: Sized {
    /// State change and port operations of [`PlatInterface::init_serial`].
    spec fn spec_init_serial(pre: Self) -> (Self, Seq<PortAction>);

    /// State change and port operations of [`PlatInterface::putchar`].
    spec fn spec_putchar(pre: Self, c: u8) -> (Self, Seq<PortAction>);

    /// State change and outcome of [`PlatInterface::early_init`].
    spec fn spec_early_init(pre: Self) -> (Self, Result<Seq<PortAction>, BootError>);

    /// State change and outcome of
    /// [`PlatInterface::early_device_discovery`].
    spec fn spec_early_device_discovery(pre: Self) -> (Self, Result<(), BootError>);

    /// Initialize the debug serial interface for this platform.
    fn init_serial(&mut self) -> (acts: Vec<PortAction>)
        ensures
            (*final(self), acts@) == Self::spec_init_serial(*old(self)),
    ;

    /// Send a single byte down the debug serial interface. If
    /// `init_serial` has not yet been called this silently discards the
    /// character.
    fn putchar(&mut self, c: u8) -> (acts: Vec<PortAction>)
        ensures
            (*final(self), acts@) == Self::spec_putchar(*old(self), c),
    ;

    /// Perform early platform specific system initialization.
    fn early_init(&mut self) -> (r: Result<Vec<PortAction>, BootError>)
        ensures
            ({
                let s = Self::spec_early_init(*old(self));
                *final(self) == s.0 && (match r {
                    Ok(acts) => s.1 matches Ok(a) && acts@ == a,
                    Err(e) => s.1 == Result::<Seq<PortAction>, BootError>::Err(e),
                })
            }),
    ;

    /// Do any platform device discovery.
    fn early_device_discovery<W: VSpaceWindow>(&mut self, window: &W) -> (r: Result<
        (),
        BootError,
    >)
        ensures
            ({
                let s = Self::spec_early_device_discovery(*old(self));
                *final(self) == s.0 && r == s.1
            }),
    ;
}

/// State change and port operations of sending every byte of `s` in turn.
pub open spec fn spec_write_bytes<P: PlatInterface>(pre: P, s: Seq<u8>) -> (P, Seq<PortAction>)
    decreases s.len(),
{
    if s.len() == 0 {
        (pre, Seq::empty())
    } else {
        let first = P::spec_putchar(pre, s[0]);
        let rest = spec_write_bytes(first.0, s.skip(1));
        (rest.0, first.1 + rest.1)
    }
}

/// Send a whole byte string down the platform's debug interface, one
/// character at a time.
pub fn write_bytes<P: PlatInterface>(plat: &mut P, s: &[u8]) -> (acts: Vec<PortAction>)
    ensures
        (*final(plat), acts@) == spec_write_bytes(*old(plat), s@),
{
    let mut acts: Vec<PortAction> = Vec::new();
    let mut i: usize = 0;
    proof {
        assert(s@.skip(0) =~= s@);
        assert(acts@ + spec_write_bytes(*plat, s@).1 =~= spec_write_bytes(*plat, s@).1);
    }
    while i < s.len()
        invariant
            0 <= i <= s@.len(),
            ({
                let rest = spec_write_bytes(*plat, s@.skip(i as int));
                let full = spec_write_bytes(*old(plat), s@);
                full.0 == rest.0 && full.1 == acts@ + rest.1
            }),
        decreases s@.len() - i,
    {
        let c = *vstd::slice::slice_index_get(s, i);
        let mut step = plat.putchar(c);
        proof {
            assert(s@.skip(i as int).skip(1) =~= s@.skip(i + 1));
            assert(s@.skip(i as int)[0] == s@[i as int]);
        }
        acts.append(&mut step);
        i = i + 1;
        proof {
            let full = spec_write_bytes(*old(plat), s@);
            let rest = spec_write_bytes(*plat, s@.skip(i as int));
            assert(full.1 =~= acts@ + rest.1);
        }
    }
    proof {
        assert(s@.skip(s@.len() as int) =~= Seq::<u8>::empty());
        assert(spec_write_bytes(*old(plat), s@).1 =~= acts@);
    }
    acts
}

/// Returns the concrete platform implementation. This wrapper is used
/// instead of re-exporting `plat_get_platform` directly to ensure that the
/// concrete platform type adheres to the `PlatInterface` trait.
pub fn get_platform(config: &BootConfig) -> (r: PlatInterfaceType) where
    PlatInterfaceType: PlatInterface,

    ensures
        r == crate::plat::pc99::spec_platform_for(config.spec_cmdline()),
{
    plat_get_platform(config)
}

} // verus!
