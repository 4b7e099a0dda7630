//! The secondary mirror: from tip and tilt to rigid body motions.
use vstd::prelude::*;
use crate::fixed::Fixed;

verus! {

/// The rigid body motions of the segments whose tips and tilts are given, a
/// pair per segment: six motions per segment, the tip in the fourth place,
/// the tilt in the fifth, zeros elsewhere.
pub open spec fn spec_rxy_to_rbm(rxy: Seq<Fixed>) -> Seq<Fixed> {
    Seq::new(
        (rxy.len() / 2 * 6) as nat,
        |i: int|
            if i % 6 == 3 {
                rxy[i / 6 * 2]
            } else if i % 6 == 4 {
                rxy[i / 6 * 2 + 1]
            } else {
                Fixed::spec_zero()
            },
    )
}

/// Turns tips and tilts, a pair per segment, into rigid body motions.
pub fn rxy_to_rbm(rxy: &[Fixed]) -> (rbm: Vec<Fixed>)
    requires
        rxy@.len() % 2 == 0,
    ensures
        rbm@ == spec_rxy_to_rbm(rxy@),
{
    let len: usize = rxy.len();
    let n: usize = len / 2;
    let mut rbm: Vec<Fixed> = Vec::new();
    let mut c: usize = 0;
    while c < n
        invariant
            c <= n,
            n == rxy@.len() / 2,
            len == rxy@.len(),
            rxy@.len() % 2 == 0,
            rbm@.len() == c * 6,
            forall|i: int|
                0 <= i < rbm@.len() ==> #[trigger] rbm@[i] == spec_rxy_to_rbm(rxy@)[i],
        decreases n - c,
    {
        let ghost base = c * 6;
        let ghost before = rbm@;
        rbm.push(Fixed::zero());
        rbm.push(Fixed::zero());
        rbm.push(Fixed::zero());
        rbm.push(rxy[2 * c]);
        rbm.push(rxy[2 * c + 1]);
        rbm.push(Fixed::zero());
        assert forall|i: int| 0 <= i < rbm@.len() implies #[trigger] rbm@[i] == spec_rxy_to_rbm(
            rxy@,
        )[i] by {
            if i >= base {
                let r = i - base;
                assert(i % 6 == r && i / 6 == c) by (nonlinear_arith)
                    requires
                        i == c * 6 + r,
                        0 <= r < 6,
                        c >= 0,
                ;
            } else {
                assert(rbm@[i] == before[i]);
            }
        }
        c += 1;
    }
    assert(rbm@ =~= spec_rxy_to_rbm(rxy@));
    rbm
}

} // verus!
