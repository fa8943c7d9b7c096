//! The faults that the hints report to the host machine.

use vstd::prelude::*;

verus! {

/// Why a hint failed; every fault aborts the hint.
#[derive(Debug, Clone)]
pub enum HintFault {
    /// A check on the program's constants does not hold; the message names them.
    AssertionFailed(String),
    /// The field's modulus could not be read from its hexadecimal form.
    CouldntParsePrime,
    /// The divisor of an unsigned division is zero.
    ArithmeticFault,
}

} // verus!
