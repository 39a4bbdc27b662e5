//! What a process does about bus errors in the memory map of a block.
//!
//! A bus error means that the file behind the map was cut short or replaced while it was
//! locked. There is no way to go on safely from there, so the process says where it
//! happened and stops.

use vstd::prelude::*;

verus! {

/// What is written when a bus error happens, before the address at fault.
pub const SIGBUS_MESSAGE: &'static str =
    "\n[goosefs-sc] FATAL: SIGBUS on a short-circuit block mmap. The backing block file was truncated/replaced while locked (INV-D1 violated). Aborting to avoid returning torn/stale data. Consider io.mode=pread for untrusted filesystems. fault_addr=0x";

/// What is written when the handler cannot be installed.
pub const INSTALL_FAILED_MESSAGE: &'static str =
    "[goosefs-sc] WARN: sigaction(SIGBUS) registration failed; short-circuit mmap will rely on the kernel's default SIGBUS disposition (terminate). Data correctness is unaffected; only the targeted INV-D1 diagnostic message is lost.\n";

/// Whether the handler is installed.
#[derive(Clone, Copy, Debug, PartialEq, Eq, Structural)]
pub struct SigbusHandler {
    /// Whether it was asked for.
    pub installed: bool,
}

impl SigbusHandler {
    /// Not installed.
    pub fn new() -> (r: Self)
        ensures
            !r.installed,
    {
        SigbusHandler { installed: false }
    }

    /// Asks for the handler. The result tells whether it is to be registered now: it is
    /// the first time only.
    pub fn install(&mut self) -> (r: bool)
        ensures
            r == !old(self).installed,
            final(self).installed,
    {
        let first: bool = !self.installed;
        self.installed = true;
        first
    }
}

/// Asks for the handler where `enabled` says so. The result tells whether it is to be
/// registered now.
pub fn install_if_enabled(handler: &mut SigbusHandler, enabled: bool) -> (r: bool)
    ensures
        r == (enabled && !old(handler).installed),
        final(handler).installed == (enabled || old(handler).installed),
{
    if enabled {
        handler.install()
    } else {
        false
    }
}

/// The hexadecimal digit `d`.
pub open spec fn hex_digit(d: int) -> u8 {
    if d < 10 {
        (48 + d) as u8
    } else {
        (87 + d) as u8
    }
}

/// The hexadecimal numeral of `n`, without leading zeros.
pub open spec fn hex(n: nat) -> Seq<u8>
    decreases n,
{
    if n < 16 {
        seq![hex_digit(n as int)]
    } else {
        hex(n / 16).push(hex_digit((n % 16) as int))
    }
}

/// The digits of `n` that are left to be written; none for 0.
spec fn hex_rest(n: nat) -> Seq<u8> {
    if n == 0 {
        Seq::empty()
    } else {
        hex(n)
    }
}

/// How many different numbers have up to `i` digits.
spec fn numbers(i: nat) -> nat
    decreases i,
{
    if i == 0 {
        1
    } else {
        16 * numbers((i - 1) as nat)
    }
}

/// Writes the hexadecimal numeral of `addr` to the end of `buf`. The result is where it
/// starts.
pub fn write_hex(addr: usize, buf: &mut [u8; 16]) -> (start: usize)
    ensures
        start < 16,
        final(buf)@.len() == 16,
        final(buf)@.subrange(start as int, 16) == hex(addr as nat),
{
    let mut n: usize = addr;
    let mut i: usize = 16;
    if n == 0 {
        i = 15;
        buf[15] = 48;
        assert(buf@.subrange(15, 16) =~= hex(0));
        return i;
    }
    proof {
        reveal_with_fuel(numbers, 17);
        assert(numbers(16) == 0x1_0000_0000_0000_0000);
        assert(buf@.subrange(16, 16) =~= Seq::empty());
        assert(hex_rest(n as nat) + buf@.subrange(16, 16) =~= hex(addr as nat));
    }
    while n != 0
        invariant
            i <= 16,
            buf@.len() == 16,
            n < numbers(i as nat),
            addr != 0,
            n == 0 ==> i < 16,
            hex_rest(n as nat) + buf@.subrange(i as int, 16) == hex(addr as nat),
        decreases n,
    {
        proof {
            reveal_with_fuel(numbers, 2);
        }
        let ghost before = buf@;
        let ghost m = n as nat;
        i = i - 1;
        let d: u8 = (n % 16) as u8;
        buf[i] = if d < 10 {
            48 + d
        } else {
            87 + d
        };
        n = n / 16;
        proof {
            assert(buf@ == before.update(i as int, hex_digit((m % 16) as int)));
            assert(hex_rest(m) =~= hex_rest(n as nat).push(hex_digit((m % 16) as int)));
            assert(hex_rest(n as nat) + buf@.subrange(i as int, 16) =~= hex_rest(m)
                + before.subrange(i + 1, 16));
        }
    }
    assert(hex_rest(0) + buf@.subrange(i as int, 16) =~= buf@.subrange(i as int, 16));
    i
}

/// How often the handler is registered when it is asked for again and again, each time
/// with or without being enabled.
pub open spec fn registrations(installed: bool, asks: Seq<bool>) -> nat
    decreases asks.len(),
{
    if asks.len() == 0 {
        0
    } else {
        (if asks[0] && !installed {
            1nat
        } else {
            0nat
        }) + registrations(installed || asks[0], asks.drop_first())
    }
}

/// However often the handler is asked for, it is registered once, and never where it was
/// never enabled.
pub proof fn law_registered_once(installed: bool, asks: Seq<bool>)
    ensures
        registrations(installed, asks) <= 1,
        registrations(installed, asks) == 1 <==> !installed && asks.contains(true),
    decreases asks.len(),
{
    if asks.len() > 0 {
        let rest = asks.drop_first();
        law_registered_once(installed || asks[0], rest);
        if rest.contains(true) {
            let i = choose|i: int| 0 <= i < rest.len() && rest[i] == true;
            assert(asks[i + 1] == true);
        }
        if asks.contains(true) && !asks[0] {
            let i = choose|i: int| 0 <= i < asks.len() && asks[i] == true;
            assert(rest[i - 1] == true);
        }
    }
}

/// The bytes of a hexadecimal numeral are `0` to `9` and `a` to `f`. Its last one tells the
/// number of units, what stands before it is the numeral of the number of sixteens, and only
/// the numeral of zero starts with `0`.
pub proof fn law_hexadecimal(n: nat)
    ensures
        hex(n).len() > 0,
        48 <= hex(n).last() <= 57 ==> n % 16 == hex(n).last() - 48,
        97 <= hex(n).last() <= 102 ==> n % 16 == hex(n).last() - 97 + 10,
        48 <= hex(n).last() <= 57 || 97 <= hex(n).last() <= 102,
        n >= 16 ==> hex(n).drop_last() == hex(n / 16),
        n < 16 ==> hex(n).len() == 1,
        hex(n)[0] == 48 <==> n == 0,
    decreases n,
{
    if n >= 16 {
        law_hexadecimal(n / 16);
        assert(hex(n).drop_last() =~= hex(n / 16));
        assert(hex(n)[0] == hex(n / 16)[0]);
    }
}

/// Different numbers have different hexadecimal numerals.
pub proof fn law_hexadecimal_numerals_differ(a: nat, b: nat)
    requires
        hex(a) == hex(b),
    ensures
        a == b,
    decreases a,
{
    law_hexadecimal(a);
    law_hexadecimal(b);
    if a >= 16 {
        law_hexadecimal(a / 16);
        assert(hex(a).len() == hex(a / 16).len() + 1);
        law_hexadecimal_numerals_differ(a / 16, b / 16);
    } else if b >= 16 {
        law_hexadecimal(b / 16);
        assert(hex(b).len() == hex(b / 16).len() + 1);
    }
}

} // verus!
