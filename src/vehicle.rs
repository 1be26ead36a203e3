use vstd::prelude::*;
use crate::drone::{Drone, DroneParams, params_from};

verus! {

/// The kinds of vehicle the simulation can build.
#[derive(Clone, Copy, Debug, PartialEq, Eq, Structural)]
pub enum VehicleType {
    Drone,
}

/// The vehicle kind requested by `name`. `"drone"` selects the quadrotor,
/// and so, for now, does any other name: an unknown name falls back to the
/// quadrotor instead of failing.
pub fn vehicle_type_for(name: &str) -> (r: VehicleType)
    ensures
        r == VehicleType::Drone,
{
    VehicleType::Drone
}

/// A fresh vehicle of the given kind, with constants from `data` when
/// `use_data` is set and `data` holds at least seven values, else from
/// `defaults`; no body, and every command and velocity component at `zero`.
pub fn create_vehicle<S: Copy>(
    vehicle_type: VehicleType,
    use_data: bool,
    data: &[S],
    defaults: DroneParams<S>,
    zero: S,
) -> (r: Drone<S>)
    ensures
        r.spec_params() == (if use_data && data@.len() >= 7 {
            params_from(data@)
        } else {
            defaults
        }),
        r.spec_handle().is_none(),
        r.commands() == seq![zero, zero, zero, zero],
        r.spec_linvel() == seq![zero, zero, zero],
{
    match vehicle_type {
        VehicleType::Drone => Drone::parameterize(use_data, data, defaults, zero),
    }
}

} // verus!
