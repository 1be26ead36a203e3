use vstd::prelude::*;

verus! {

/// A body's world pose as a flat array: translation `x, y, z` followed by the
/// rotation quaternion's components in the order `i, j, k, w`.
pub fn raw_pose<S: Copy>(translation: [S; 3], i: S, j: S, k: S, w: S) -> (r: [S; 7])
    ensures
        r@ == seq![translation@[0], translation@[1], translation@[2], i, j, k, w],
{
    let r = [translation[0], translation[1], translation[2], i, j, k, w];
    assert(r@ =~= seq![translation@[0], translation@[1], translation@[2], i, j, k, w]);
    r
}

/// The pose to report for a vehicle: the body's pose when the body could be
/// looked up, otherwise seven `zero`s.
pub fn pose_or_zero<S: Copy>(pose: Option<[S; 7]>, zero: S) -> (r: [S; 7])
    ensures
        r@ == match pose {
            Some(p) => p@,
            None => seq![zero, zero, zero, zero, zero, zero, zero],
        },
{
    match pose {
        Some(p) => p,
        None => {
            let r = [zero, zero, zero, zero, zero, zero, zero];
            assert(r@ =~= seq![zero, zero, zero, zero, zero, zero, zero]);
            r
        },
    }
}

/// A sensor sample: the specific force in the body frame in the first three
/// slots and `zero` in the three reserved ones; six `zero`s when the body
/// could not be looked up.
pub fn sensor_frame<S: Copy>(specific_force: Option<[S; 3]>, zero: S) -> (r: [S; 6])
    ensures
        r@ == match specific_force {
            Some(a) => seq![a@[0], a@[1], a@[2], zero, zero, zero],
            None => seq![zero, zero, zero, zero, zero, zero],
        },
{
    match specific_force {
        Some(a) => {
            let r = [a[0], a[1], a[2], zero, zero, zero];
            assert(r@ =~= seq![a@[0], a@[1], a@[2], zero, zero, zero]);
            r
        },
        None => {
            let r = [zero, zero, zero, zero, zero, zero];
            assert(r@ =~= seq![zero, zero, zero, zero, zero, zero]);
            r
        },
    }
}

} // verus!
