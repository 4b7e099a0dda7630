//! What can go wrong while a system is put together and calibrated.
use vstd::prelude::*;
use vstd::string::*;
use crate::text::{decimal, decimal_string};

verus! {

/// A failure at set-up time. None is retried: the inputs are fixed, so the
/// failure would come again.
#[derive(Debug, PartialEq, Eq, Structural)]
pub enum Error {
    /// No segment has the given number.
    Segment,
    /// The converter from modes to forces could not be made.
    Mode2Force,
    /// The optical model could not be built.
    OpticalModel,
    /// The sensor model gave no readout.
    SensorUnavailable,
    /// The decomposition behind the pseudo-inverse did not converge.
    InversionFailed,
    /// Two sizes that must agree do not.
    SizeMismatch { expected: usize, found: usize },
    /// A matrix would hold more entries than can be counted.
    Capacity,
}

impl Error {
    /// The text of the message.
    pub open spec fn spec_message(self) -> Seq<char> {
        match self {
            Error::Segment => "failed to create segment actors"@,
            Error::Mode2Force => "failed to create modes 2 forces actor"@,
            Error::OpticalModel => "failed to build optical model"@,
            Error::SensorUnavailable => "sensor model gave no readout"@,
            Error::InversionFailed => "failed to compute poke matrix pseudo-inverse"@,
            Error::SizeMismatch { expected, found } => "size mismatch: expected "@ + decimal(
                expected as nat,
            ) + ", found "@ + decimal(found as nat),
            Error::Capacity => "matrix too large"@,
        }
    }

    /// The message that the user sees.
    pub fn message(&self) -> (s: String)
        ensures
            s@ == self.spec_message(),
    {
        match self {
            Error::Segment => String::from_str("failed to create segment actors"),
            Error::Mode2Force => String::from_str("failed to create modes 2 forces actor"),
            Error::OpticalModel => String::from_str("failed to build optical model"),
            Error::SensorUnavailable => String::from_str("sensor model gave no readout"),
            Error::InversionFailed => String::from_str(
                "failed to compute poke matrix pseudo-inverse",
            ),
            Error::SizeMismatch { expected, found } => {
                let mut s = String::from_str("size mismatch: expected ");
                let e = decimal_string(*expected);
                s.append(e.as_str());
                s.append(", found ");
                let f = decimal_string(*found);
                s.append(f.as_str());
                s
            },
            Error::Capacity => String::from_str("matrix too large"),
        }
    }
}

} // verus!
