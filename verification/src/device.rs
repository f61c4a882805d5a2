//! The numbers under which the device shows up on the bus, and the timing
//! of its tasks.

use vstd::prelude::*;

verus! {

/// Vendor id of application and bootloader.
pub const VENDOR_ID: u16 = 0x1209;

/// Product id of the application.
pub const PRODUCT_ID: u16 = 0x214D;

/// Product id of the bootloader.
pub const BOOTLOADER_PRODUCT_ID: u16 = 0x214C;

/// The manufacturer string.
pub const MANUFACTURER: &'static str = "jmgao";

/// The product string of the application.
pub const PRODUCT: &'static str = "Passing Link";

/// The product string of the bootloader.
pub const BOOTLOADER_PRODUCT: &'static str = "Passing Link Bootloader";

/// The serial number string.
pub const SERIAL_NUMBER: &'static str = "66C623A66B214BB226X76C236B214A214CC6C236B";

/// Device class: given per interface.
pub const DEVICE_CLASS: u8 = 0x00;

/// Device subclass.
pub const DEVICE_SUB_CLASS: u8 = 0x00;

/// The current that the device asks the bus for, in milliamperes.
pub const MAX_POWER_MA: usize = 500;

/// Largest packet on the control endpoint.
pub const MAX_PACKET_SIZE_0: u8 = 64;

/// Core clock cycles per microsecond.
pub const CYCLES_PER_US: u32 = 72;

/// Time between two polls of the inputs, in microseconds.
pub const POLL_INTERVAL_US: u32 = 900;

/// Time for which the boot line has to stay low before the bootloader hands
/// over to the application, in microseconds.
pub const BOOT_DEBOUNCE_US: u32 = 100_000;

/// Time between two ticks of the clock, in microseconds.
pub const TICK_US: u32 = 1_000_000;

/// The number of core clock cycles that `us` microseconds take.
pub open spec fn spec_cycles(us: u32) -> int {
    72 * us
}

/// The number of core clock cycles that `us` microseconds take; `None` when
/// it does not fit 32 bits.
pub fn cycles(us: u32) -> (r: Option<u32>)
    ensures
        r is Some <==> spec_cycles(us) <= u32::MAX,
        r matches Some(c) ==> c == spec_cycles(us),
{
    us.checked_mul(CYCLES_PER_US)
}

/// The clock behind the timestamps: whole seconds counted by a tick, and
/// the reading of a free-running 32-bit cycle counter at the last tick.
#[derive(Clone, Copy, Debug, PartialEq, Eq, Structural)]
pub struct Uptime {
    /// Number of seconds that have elapsed so far.
    seconds: u32,
    /// Cycle count at the last second.
    cycles: u32,
}

impl Uptime {
    /// The seconds counted so far.
    pub closed spec fn spec_elapsed_s(&self) -> u32 {
        self.seconds
    }

    /// The reading of the cycle counter at the last tick.
    pub closed spec fn last_tick(&self) -> u32 {
        self.cycles
    }

    /// The microseconds since the last tick when the cycle counter reads
    /// `now`: the cycles since then divided by 72, where a counter that has
    /// wrapped around counts one cycle short.
    pub open spec fn spec_elapsed_us(&self, now: u32) -> int {
        if now >= self.last_tick() {
            (now - self.last_tick()) / 72
        } else {
            (u32::MAX - self.last_tick() + now) / 72
        }
    }

    /// A clock that starts when the cycle counter reads `now`.
    pub fn new(now: u32) -> (clock: Uptime)
        ensures
            clock.spec_elapsed_s() == 0,
            clock.last_tick() == now,
    {
        Uptime { seconds: 0, cycles: now }
    }

    /// Counts one second and notes the reading of the cycle counter. After
    /// about 136 years the count of seconds starts again at zero.
    pub fn tick(&mut self, now: u32)
        ensures
            final(self).spec_elapsed_s() == if old(self).spec_elapsed_s() == u32::MAX {
                0
            } else {
                old(self).spec_elapsed_s() + 1
            },
            final(self).last_tick() == now,
    {
        self.seconds = self.seconds.wrapping_add(1);
        self.cycles = now;
    }

    /// The seconds counted so far.
    #[verifier::when_used_as_spec(spec_elapsed_s)]
    pub fn elapsed_s(&self) -> (r: u32)
        ensures
            r == self.spec_elapsed_s(),
    {
        self.seconds
    }

    /// The microseconds since the last tick when the cycle counter reads
    /// `now`.
    pub fn elapsed_us(&self, now: u32) -> (r: u32)
        ensures
            r == self.spec_elapsed_us(now),
    {
        let cycles = if now >= self.cycles {
            now - self.cycles
        } else {
            u32::MAX - self.cycles + now
        };
        cycles / CYCLES_PER_US
    }
}

} // verus!
