use crate::addr::{hex_digit, hex_str, BtAddr};
use crate::error::{is_desc_error, BtError};
use vstd::prelude::*;
use vstd::string::*;

verus! {

/// Nanoseconds in one second.
pub const NANOS_PER_SEC: u64 = 1_000_000_000;

/// Nanoseconds in one inquiry unit of 1.28 s.
pub const NANOS_PER_INQUIRY_UNIT: u64 = 1_280_000_000;

/// The largest inquiry length that the adapter interface takes.
pub const MAX_INQUIRY_UNITS: u64 = 0x7FFF_FFFF;

/// The Bluetooth protocol of a socket.
#[derive(Clone, Copy, Debug, PartialEq, Eq, Structural)]
pub enum BtProtocol {
    /// Serial RFCOMM connection to a Bluetooth device.
    RFCOMM,
}

/// A device with its name and address.
#[derive(Debug, Clone, Eq)]
pub struct BtDevice {
    /// The name of the device.
    pub name: String,
    /// The address of the device.
    pub addr: BtAddr,
}

impl PartialEq for BtDevice {
    fn eq(&self, o: &BtDevice) -> (r: bool)
        ensures
            r == (self.name@ == o.name@ && self.addr.0@ == o.addr.0@),
    {
        self.name == o.name && self.addr == o.addr
    }
}

impl vstd::std_specs::cmp::PartialEqSpecImpl for BtDevice {
    open spec fn obeys_eq_spec() -> bool {
        true
    }

    open spec fn eq_spec(&self, o: &BtDevice) -> bool {
        self.name@ == o.name@ && self.addr.0@ == o.addr.0@
    }
}

impl BtDevice {
    /// A device with the given name and address.
    pub fn new(name: String, addr: BtAddr) -> (r: BtDevice)
        ensures
            r.name == name,
            r.addr == addr,
    {
        BtDevice { name, addr }
    }
}

/// The inquiry length, in units of 1.28 s, nearest to `secs` seconds and
/// `nanos` nanoseconds, kept between 1 and the largest length.
pub open spec fn inquiry_units(secs: int, nanos: int) -> int {
    let units = (secs * NANOS_PER_SEC + nanos + NANOS_PER_INQUIRY_UNIT / 2)
        / NANOS_PER_INQUIRY_UNIT as int;
    if units < 1 {
        1
    } else if units > MAX_INQUIRY_UNITS {
        MAX_INQUIRY_UNITS as int
    } else {
        units
    }
}

/// The decimal text of `n`, without leading zeros.
pub open spec fn decimal(n: nat) -> Seq<char>
    decreases n,
{
    if n < 10 {
        seq![hex_digit(n as int)]
    } else {
        decimal(n / 10) + seq![hex_digit((n % 10) as int)]
    }
}

/// The digits `ds`, least significant first, written most significant first.
pub open spec fn digits_text(ds: Seq<u8>) -> Seq<char> {
    Seq::new(ds.len(), |i: int| hex_digit(ds[ds.len() - 1 - i] as int))
}

/// The decimal text of `n`.
pub fn decimal_string(n: u64) -> (r: String)
    ensures
        r@ == decimal(n as nat),
{
    let mut m: u64 = n;
    let mut ds: Vec<u8> = Vec::new();
    while m >= 10
        invariant
            decimal(n as nat) == decimal(m as nat) + digits_text(ds@),
            forall|i: int| 0 <= i < ds@.len() ==> #[trigger] ds@[i] < 10,
        decreases m,
    {
        let ghost old_ds = ds@;
        let d = (m % 10) as u8;
        ds.push(d);
        assert(digits_text(ds@) =~= seq![hex_digit(d as int)] + digits_text(old_ds));
        assert(decimal(m as nat) == decimal((m / 10) as nat) + seq![hex_digit((m % 10) as int)]);
        m = m / 10;
    }
    let mut s = String::new();
    s.append(hex_str(m as u8));
    let mut k: usize = ds.len();
    while k > 0
        invariant
            k <= ds@.len(),
            forall|i: int| 0 <= i < ds@.len() ==> #[trigger] ds@[i] < 10,
            s@ == decimal(m as nat) + digits_text(ds@).subrange(0, ds@.len() - k),
            decimal(n as nat) == decimal(m as nat) + digits_text(ds@),
        decreases k,
    {
        s.append(hex_str(ds[k - 1]));
        k = k - 1;
        assert(s@ =~= decimal(m as nat) + digits_text(ds@).subrange(0, ds@.len() - k));
    }
    assert(digits_text(ds@).subrange(0, ds@.len() as int) =~= digits_text(ds@));
    s
}

/// The text of the error for a timeout of `secs` whole seconds.
pub open spec fn timeout_message(secs: nat) -> Seq<char> {
    "Timeout value too big "@ + decimal(secs) + " > "@ + decimal(u32::MAX as nat)
}

/// The inquiry length for a scan that lasts about `secs` seconds and `nanos`
/// nanoseconds. A whole-second part beyond the 32-bit range is refused, with
/// both numbers in the message.
pub fn inquiry_length(secs: u64, nanos: u32) -> (r: Result<i32, BtError>)
    requires
        nanos < NANOS_PER_SEC,
    ensures
        secs > u32::MAX ==> r is Err && is_desc_error(r->Err_0, timeout_message(secs as nat)),
        secs <= u32::MAX ==> r is Ok && r->Ok_0 as int == inquiry_units(secs as int, nanos as int),
{
    if secs > u32::MAX as u64 {
        let mut m = String::from_str("Timeout value too big ");
        m.append(decimal_string(secs).as_str());
        m.append(" > ");
        m.append(decimal_string(u32::MAX as u64).as_str());
        return Err(BtError::Desc(m));
    }
    assert(secs * NANOS_PER_SEC <= u32::MAX as u64 * NANOS_PER_SEC) by (nonlinear_arith)
        requires
            secs <= u32::MAX,
    ;
    let total = secs * NANOS_PER_SEC + nanos as u64 + NANOS_PER_INQUIRY_UNIT / 2;
    let units = total / NANOS_PER_INQUIRY_UNIT;
    if units < 1 {
        Ok(1)
    } else if units > MAX_INQUIRY_UNITS {
        Ok(MAX_INQUIRY_UNITS as i32)
    } else {
        Ok(units as i32)
    }
}

} // verus!
