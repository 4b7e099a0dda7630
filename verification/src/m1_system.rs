//! The primary mirror: its seven segments and the shapes of their data.
use vstd::prelude::*;
use vstd::string::*;
use crate::error::Error;
use crate::fixed::Fixed;
use crate::matrix::{Matrix, MatrixModel};
use crate::text::{decimal, decimal_string};

verus! {

/// The number of actuators of the segment with the given number: 335 on the
/// six outer segments, 306 on the centre segment.
pub open spec fn actuators_of(sid: usize) -> usize {
    if sid == 7 {
        306
    } else {
        335
    }
}

/// The number of bending modes known for the segment with the given number:
/// 162 on the six outer segments, 151 on the centre segment.
pub open spec fn modes_of(sid: usize) -> usize {
    if sid == 7 {
        151
    } else {
        162
    }
}

/// One segment of the primary mirror: its number, from 1 to 7, and the number
/// of bending modes that are controlled.
#[derive(Clone, Copy, Debug, PartialEq, Eq, Structural)]
pub struct Segment {
    pub sid: usize,
    pub n_mode: usize,
}

impl Segment {
    pub open spec fn wf(self) -> bool {
        1 <= self.sid <= 7
    }

    /// Creates M1 segment #`sid` with `n_mode` *controlled* bending modes
    pub fn new(sid: usize, n_mode: usize) -> (r: Result<Self, Error>)
        ensures
            r == if 1 <= sid <= 7 {
                Ok::<Segment, Error>(Segment { sid, n_mode })
            } else {
                Err::<Segment, Error>(Error::Segment)
            },
    {
        if 1 <= sid && sid <= 7 {
            Ok(Segment { sid, n_mode })
        } else {
            Err(Error::Segment)
        }
    }

    /// The conversion from modes to forces that was loaded for the segment,
    /// or the failure where none was.
    pub fn mode2forces<F>(&self, loaded: Option<F>) -> (r: Result<F, Error>)
        ensures
            r == match loaded {
                Some(forces) => Ok::<F, Error>(forces),
                None => Err::<F, Error>(Error::Mode2Force),
            },
    {
        match loaded {
            Some(forces) => Ok(forces),
            None => Err(Error::Mode2Force),
        }
    }

    /// The number of actuators.
    pub fn n_actuator(&self) -> (n: usize)
        ensures
            n == actuators_of(self.sid),
    {
        if self.sid == 7 {
            306
        } else {
            335
        }
    }

    /// The number of bending modes that the conversion to forces knows.
    pub fn n_force_mode(&self) -> (n: usize)
        ensures
            n == modes_of(self.sid),
    {
        if self.sid == 7 {
            151
        } else {
            162
        }
    }

    /// The name of the file that holds the conversion from modes to forces.
    pub fn mode2forces_file(&self) -> (s: String)
        ensures
            s@ == "m1s"@ + decimal(self.sid as nat) + "mode2forces.bin"@,
    {
        let mut s = String::from_str("m1s");
        let n = decimal_string(self.sid);
        s.append(n.as_str());
        s.append("mode2forces.bin");
        s
    }

    /// The name of the conversion from modes to forces.
    pub fn tag(&self) -> (s: String)
        ensures
            s@ == "M1S"@ + decimal(self.sid as nat) + "_M2F"@,
    {
        let mut s = String::from_str("M1S");
        let n = decimal_string(self.sid);
        s.append(n.as_str());
        s.append("_M2F");
        s
    }
}

/// The segments of the primary mirror, in order.
pub struct M1System {
    n_step: usize,
    segments: Vec<Segment>,
}

impl M1System {
    /// The segments.
    pub closed spec fn spec_segments(&self) -> Seq<Segment> {
        self.segments@
    }

    /// The number of time steps.
    pub closed spec fn spec_n_step(&self) -> usize {
        self.n_step
    }

    /// Creates M1 system with `n_step` time step and `n_mode` *controlled* bending modes
    pub fn new(n_step: usize, n_mode: usize) -> (r: Result<Self, Error>)
        ensures
            r is Ok,
            r->Ok_0.spec_n_step() == n_step,
            r->Ok_0.spec_segments() == Seq::new(
                7,
                |k: int| Segment { sid: (k + 1) as usize, n_mode },
            ),
    {
        let mut segments: Vec<Segment> = Vec::new();
        let mut sid: usize = 1;
        while sid <= 7
            invariant
                1 <= sid <= 8,
                segments@ == Seq::new(
                    (sid - 1) as nat,
                    |k: int| Segment { sid: (k + 1) as usize, n_mode },
                ),
            decreases 8 - sid,
        {
            match Segment::new(sid, n_mode) {
                Ok(segment) => {
                    segments.push(segment);
                },
                Err(e) => {
                    return Err(e);
                },
            }
            sid += 1;
            assert(segments@ =~= Seq::new(
                (sid - 1) as nat,
                |k: int| Segment { sid: (k + 1) as usize, n_mode },
            ));
        }
        Ok(M1System { n_step, segments })
    }

    /// Returns the segments
    pub fn segments(&self) -> (r: &Vec<Segment>)
        ensures
            r@ == self.spec_segments(),
    {
        &self.segments
    }

    /// Returns the number of time steps
    pub fn n_step(&self) -> (n: usize)
        ensures
            n == self.spec_n_step(),
    {
        self.n_step
    }
}

/// The shape in which the conversion from figure to modes of a segment is
/// stored: 162 by 602 for the outer segments, 151 by 579 for the centre
/// segment.
pub open spec fn stored_shape(sid: u32) -> (nat, nat) {
    if sid < 7 {
        (162, 602)
    } else {
        (151, 579)
    }
}

/// The conversion from figure to modes of a segment, as a matrix of 162
/// rows: the stored one for the outer segments, and for the centre segment the
/// stored one with 11 rows of zeros after it.
pub open spec fn spec_fig_2_mode(sid: u32, data: Seq<Fixed>) -> MatrixModel {
    let stored = MatrixModel::from_column_major(stored_shape(sid).0, stored_shape(sid).1, data);
    if sid < 7 {
        stored
    } else {
        stored.with_rows(151, 11, Fixed::spec_zero())
    }
}

/// The name of the file that holds the stored conversion from figure to
/// modes of segment `sid`.
pub fn fig_2_mode_file(sid: u32) -> (s: String)
    ensures
        s@ == "m1s"@ + decimal(sid as nat) + "fig2mode.bin"@,
{
    let mut s = String::from_str("m1s");
    let n = decimal_string(sid as usize);
    s.append(n.as_str());
    s.append("fig2mode.bin");
    s
}

/// Shapes the stored conversion from figure to modes of segment `sid`. Data
/// of another length than the stored shape asks for is refused.
pub fn fig_2_mode(sid: u32, data: &[Fixed]) -> (r: Result<Matrix, Error>)
    ensures
        data@.len() == stored_shape(sid).0 * stored_shape(sid).1 ==> r is Ok && r->Ok_0.wf()
            && r->Ok_0@ == spec_fig_2_mode(sid, data@),
        data@.len() != stored_shape(sid).0 * stored_shape(sid).1 ==> r == Err::<Matrix, Error>(
            Error::SizeMismatch {
                expected: (stored_shape(sid).0 * stored_shape(sid).1) as usize,
                found: data@.len() as usize,
            },
        ),
{
    if sid < 7 {
        Matrix::from_column_slice(162, 602, data)
    } else {
        match Matrix::from_column_slice(151, 579, data) {
            Ok(stored) => {
                assert(stored@.rows == 151 && stored@.cols() == 579);
                assert((151 + 11) * 579 == 93_798);
                Ok(stored.insert_rows(151, 11, Fixed::zero()))
            },
            Err(e) => Err(e),
        }
    }
}

} // verus!
