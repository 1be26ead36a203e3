use vstd::prelude::*;
use rapier3d::dynamics::RigidBodyHandle;
use crate::propeller::{Propeller, prop_at};

verus! {

/// The physics backend's key for a rigid body in its body set. The drone
/// keeps it as a back-reference and never looks inside.
#[verifier::external_type_specification]
#[verifier::external_body]
pub struct ExRigidBodyHandle(RigidBodyHandle);

/// Geometric and performance constants of a quadrotor.
#[derive(Clone, Copy, Debug)]
pub struct DroneParams<S> {
    /// Radius of the cylindrical hub.
    pub body_radius: S,
    /// Height of the cylindrical hub.
    pub body_height: S,
    /// Radius of each cylindrical arm.
    pub arm_radius: S,
    /// Length of each arm.
    pub arm_length: S,
    /// Thrust of one rotor at full command.
    pub max_prop_thrust: S,
    /// Reaction torque of one rotor at full command.
    pub max_prop_torque: S,
    /// Largest inflow velocity through a rotor; kept with the other
    /// constants, not used by the force model.
    pub max_inflow_vel: S,
}

/// The parameters read from a flat list, in field order.
pub open spec fn params_from<S>(data: Seq<S>) -> DroneParams<S> {
    DroneParams {
        body_radius: data[0],
        body_height: data[1],
        arm_radius: data[2],
        arm_length: data[3],
        max_prop_thrust: data[4],
        max_prop_torque: data[5],
        max_inflow_vel: data[6],
    }
}

/// The actuator commands after a control update with `data`: the first four
/// values when at least four are given, else the commands held before.
pub open spec fn after_controls<S>(escs: Seq<S>, data: Seq<S>) -> Seq<S> {
    if data.len() >= 4 {
        data.subrange(0, 4)
    } else {
        escs
    }
}

/// A quadrotor: its constants, its four actuator (ESC) commands, the last
/// linear-velocity sample used for sensor readings, and the key of its rigid
/// body once built.
pub struct Drone<S> {
    params: DroneParams<S>,
    handle: Option<RigidBodyHandle>,
    escs: [S; 4],
    linvel: [S; 3],
}

impl<S: Copy> Drone<S> {
    /// The drone's constants.
    pub closed spec fn spec_params(&self) -> DroneParams<S> {
        self.params
    }

    /// The key of the drone's rigid body, once built.
    pub closed spec fn spec_handle(&self) -> Option<RigidBodyHandle> {
        self.handle
    }

    /// The four actuator commands, driving rotors `A`, `B`, `C`, `D` in turn.
    pub closed spec fn commands(&self) -> Seq<S> {
        self.escs@
    }

    /// The linear-velocity sample that sensor readings difference against.
    pub closed spec fn spec_linvel(&self) -> Seq<S> {
        self.linvel@
    }

    /// A drone with the given constants, no body yet, every command at
    /// `zero` and a velocity sample of `zero`s.
    pub fn new(params: DroneParams<S>, zero: S) -> (r: Drone<S>)
        ensures
            r.spec_params() == params,
            r.spec_handle().is_none(),
            r.commands() == seq![zero, zero, zero, zero],
            r.spec_linvel() == seq![zero, zero, zero],
    {
        Drone { params, handle: None, escs: [zero, zero, zero, zero], linvel: [zero, zero, zero] }
    }

    /// A drone whose constants are taken from `data` (body radius, body
    /// height, arm radius, arm length, max thrust, max torque, max inflow
    /// velocity) when `use_data` is set and `data` holds at least seven
    /// values; otherwise from `defaults`.
    pub fn parameterize(use_data: bool, data: &[S], defaults: DroneParams<S>, zero: S) -> (r:
        Drone<S>)
        ensures
            r.spec_params() == (if use_data && data@.len() >= 7 {
                params_from(data@)
            } else {
                defaults
            }),
            r.spec_handle().is_none(),
            r.commands() == seq![zero, zero, zero, zero],
            r.spec_linvel() == seq![zero, zero, zero],
    {
        if use_data && data.len() >= 7 {
            let params = DroneParams {
                body_radius: data[0],
                body_height: data[1],
                arm_radius: data[2],
                arm_length: data[3],
                max_prop_thrust: data[4],
                max_prop_torque: data[5],
                max_inflow_vel: data[6],
            };
            Drone::new(params, zero)
        } else {
            Drone::new(defaults, zero)
        }
    }

    /// The drone's constants.
    pub fn params(&self) -> (r: DroneParams<S>)
        ensures
            r == self.spec_params(),
    {
        self.params
    }

    /// The key of the drone's rigid body, if it has been built.
    pub fn handle(&self) -> (r: Option<RigidBodyHandle>)
        ensures
            r == self.spec_handle(),
    {
        self.handle
    }

    /// Records the key of the rigid body built for this drone.
    pub fn attach(&mut self, handle: RigidBodyHandle)
        ensures
            final(self).spec_handle() == Some(handle),
            final(self).spec_params() == old(self).spec_params(),
            final(self).commands() == old(self).commands(),
            final(self).spec_linvel() == old(self).spec_linvel(),
    {
        self.handle = Some(handle);
    }

    /// Takes new actuator commands. With at least four values the first four
    /// replace the commands; a shorter list is ignored and the commands stay
    /// as they were. Values are stored as given, without clamping.
    pub fn controls(&mut self, data: &[S])
        ensures
            final(self).commands() == after_controls(old(self).commands(), data@),
            final(self).spec_params() == old(self).spec_params(),
            final(self).spec_handle() == old(self).spec_handle(),
            final(self).spec_linvel() == old(self).spec_linvel(),
    {
        if data.len() >= 4 {
            self.escs = [data[0], data[1], data[2], data[3]];
            assert(self.escs@ =~= data@.subrange(0, 4));
        }
    }

    /// The four stored actuator commands.
    pub fn escs(&self) -> (r: [S; 4])
        ensures
            r@ == self.commands(),
    {
        self.escs
    }

    /// The linear-velocity sample that sensor readings difference against.
    pub fn linvel(&self) -> (r: [S; 3])
        ensures
            r@ == self.spec_linvel(),
    {
        self.linvel
    }

    /// What each rotor is driven with on this tick: rotor `A`, `B`, `C`, `D`
    /// in turn, each paired with its actuator command.
    pub fn propeller_commands(&self) -> (r: [(Propeller, S); 4])
        ensures
            forall|i: int| 0 <= i < 4 ==> r@[i] == (prop_at(i), self.commands()[i]),
    {
        [
            (Propeller::A, self.escs[0]),
            (Propeller::B, self.escs[1]),
            (Propeller::C, self.escs[2]),
            (Propeller::D, self.escs[3]),
        ]
    }
}

/// A full control update followed by reading the commands back gives exactly
/// the four values sent; a later update with fewer than four values leaves
/// them as they were.
pub proof fn lemma_controls_round_trip<S>(escs: Seq<S>, full: Seq<S>, short: Seq<S>)
    requires
        full.len() == 4,
        short.len() < 4,
    ensures
        after_controls(escs, full) == full,
        after_controls(after_controls(escs, full), short) == full,
{
    assert(full.subrange(0, 4) =~= full);
}

} // verus!
