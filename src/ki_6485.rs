use vstd::prelude::*;

use crate::protocol::{decimal, decimal_digits, CR};

verus! {

/// Fewest readings the picoammeter averages over.
pub const MIN_SAMPLES: i32 = 2;
/// Most readings the picoammeter averages over.
pub const MAX_SAMPLES: i32 = 20;

/// `samples` brought into `MIN_SAMPLES..=MAX_SAMPLES`.
pub open spec fn clamped(samples: int) -> int {
    if samples < MIN_SAMPLES {
        MIN_SAMPLES as int
    } else if samples > MAX_SAMPLES {
        MAX_SAMPLES as int
    } else {
        samples
    }
}

/// `AVER:COUN `, the prefix of the averaging-count command.
pub open spec fn averaging_prefix() -> Seq<u8> {
    seq![65, 86, 69, 82, 58, 67, 79, 85, 78, 32]
}

/// The averaging-count command for `samples` readings, clamped.
pub open spec fn averaging_bytes(samples: int) -> Seq<u8> {
    averaging_prefix() + decimal(clamped(samples) as nat) + seq![CR]
}

/// The command that sets how many readings are averaged, `AVER:COUN N\r`,
/// with `N` clamped to `MIN_SAMPLES..=MAX_SAMPLES`.
pub fn averaging_command(samples: i32) -> (r: Vec<u8>)
    ensures
        r@ == averaging_bytes(samples as int),
{
    let n: i32 = if samples < MIN_SAMPLES {
        MIN_SAMPLES
    } else if samples > MAX_SAMPLES {
        MAX_SAMPLES
    } else {
        samples
    };
    let mut r: Vec<u8> = vec![65, 86, 69, 82, 58, 67, 79, 85, 78, 32];
    assert(r@ =~= averaging_prefix());
    let mut digits: Vec<u8> = decimal_digits(n as u64);
    r.append(&mut digits);
    r.push(CR);
    assert(r@ =~= averaging_bytes(samples as int));
    r
}

/// A simulated picoammeter with no transport.
pub struct Ki6485Virtual {
    port_name: String,
}

impl Ki6485Virtual {
    pub closed spec fn port_name_spec(&self) -> Seq<char> {
        self.port_name@
    }

    /// A simulated picoammeter on `port_name`; the sample count has no
    /// effect on simulated readings.
    pub fn new(port_name: String, samples: i32) -> (r: Ki6485Virtual)
        ensures
            r.port_name_spec() == port_name@,
    {
        Ki6485Virtual { port_name }
    }

    pub fn port_name(&self) -> (r: String)
        ensures
            r@ == self.port_name_spec(),
    {
        self.port_name.clone()
    }

    pub fn short_name(&self) -> (r: String)
        ensures
            r@ == "KI 6485"@,
    {
        "KI 6485".to_string()
    }

    pub fn long_name(&self) -> (r: String)
        ensures
            r@ == "Keithley Instruments 6485 Picoammeter"@,
    {
        "Keithley Instruments 6485 Picoammeter".to_string()
    }
}

} // verus!
