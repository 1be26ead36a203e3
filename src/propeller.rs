use vstd::prelude::*;

verus! {

/// One of the four rotors of an X-configuration quadrotor.
///
/// Seen from above, with local +X to the right and local +Z forward, the
/// rotors sit at the ends of two diagonal arms: `A` front-right, `B`
/// front-left, `C` rear-left, `D` rear-right.  Diagonal pairs spin in the
/// same direction, so `A`/`C` and `B`/`D` counter-rotate.
#[derive(Clone, Copy, Debug, PartialEq, Eq, Structural)]
pub enum Propeller {
    A,
    B,
    C,
    D,
}

/// The rotor driven by actuator slot `i` (0 to 3).
pub open spec fn prop_at(i: int) -> Propeller {
    if i == 0 {
        Propeller::A
    } else if i == 1 {
        Propeller::B
    } else if i == 2 {
        Propeller::C
    } else {
        Propeller::D
    }
}

impl Propeller {
    /// Sign of the rotor's attachment offset along local X.
    pub open spec fn spec_x_sign(self) -> int {
        match self {
            Propeller::A | Propeller::D => 1,
            Propeller::B | Propeller::C => -1,
        }
    }

    /// Sign of the rotor's attachment offset along local Z.
    pub open spec fn spec_z_sign(self) -> int {
        match self {
            Propeller::A | Propeller::B => 1,
            Propeller::C | Propeller::D => -1,
        }
    }

    /// Sign of the rotor's reaction torque about local +Y.
    pub open spec fn spec_spin_sign(self) -> int {
        match self {
            Propeller::A | Propeller::C => 1,
            Propeller::B | Propeller::D => -1,
        }
    }

    /// Sign of the quarter-turn yaw that lays the rotor's arm along its
    /// diagonal: the arm cylinder is tipped onto its side, then turned by
    /// `arm_yaw_sign * pi / 4`.
    pub open spec fn spec_arm_yaw_sign(self) -> int {
        match self {
            Propeller::A | Propeller::C => -1,
            Propeller::B | Propeller::D => 1,
        }
    }

    /// The actuator slot that drives this rotor.
    pub open spec fn spec_slot(self) -> int {
        match self {
            Propeller::A => 0,
            Propeller::B => 1,
            Propeller::C => 2,
            Propeller::D => 3,
        }
    }

    /// The rotor's attachment point is `(x_sign * d, 0, z_sign * d)` in the
    /// body frame, `d` being the arm's diagonal offset.
    pub fn x_sign(self) -> (r: i8)
        ensures
            r as int == self.spec_x_sign(),
    {
        match self {
            Propeller::A | Propeller::D => 1,
            Propeller::B | Propeller::C => -1,
        }
    }

    /// See [`Propeller::x_sign`].
    pub fn z_sign(self) -> (r: i8)
        ensures
            r as int == self.spec_z_sign(),
    {
        match self {
            Propeller::A | Propeller::B => 1,
            Propeller::C | Propeller::D => -1,
        }
    }

    /// The rotor's reaction torque is `spin_sign * max_torque * esc` about
    /// the body's local +Y axis.
    pub fn spin_sign(self) -> (r: i8)
        ensures
            r as int == self.spec_spin_sign(),
    {
        match self {
            Propeller::A | Propeller::C => 1,
            Propeller::B | Propeller::D => -1,
        }
    }

    /// See [`Propeller::spec_arm_yaw_sign`].
    pub fn arm_yaw_sign(self) -> (r: i8)
        ensures
            r as int == self.spec_arm_yaw_sign(),
    {
        match self {
            Propeller::A | Propeller::C => -1,
            Propeller::B | Propeller::D => 1,
        }
    }

    /// Index of the actuator command that drives this rotor.
    pub fn slot(self) -> (r: usize)
        ensures
            r as int == self.spec_slot(),
            prop_at(r as int) == self,
    {
        match self {
            Propeller::A => 0,
            Propeller::B => 1,
            Propeller::C => 2,
            Propeller::D => 3,
        }
    }
}

/// Thrust of rotor `i` along local +Y, for commands `escs` and gain
/// `max_thrust`.
pub open spec fn rotor_thrust(escs: Seq<int>, max_thrust: int, i: int) -> int {
    escs[i] * max_thrust
}

/// Total thrust along local +Y of the four rotors.
pub open spec fn net_thrust(escs: Seq<int>, max_thrust: int) -> int {
    rotor_thrust(escs, max_thrust, 0) + rotor_thrust(escs, max_thrust, 1)
        + rotor_thrust(escs, max_thrust, 2) + rotor_thrust(escs, max_thrust, 3)
}

/// Moment about the centre of mass, in the body frame, of rotor `i`: the
/// lever moment `r x F` of its thrust `F = (0, f, 0)` applied at
/// `r = (sx * d, 0, sz * d)`, which is `(-sz * d * f, 0, sx * d * f)`, plus its
/// reaction torque `(0, spin * max_torque * esc, 0)`.
pub open spec fn rotor_moment(
    escs: Seq<int>,
    offset: int,
    max_thrust: int,
    max_torque: int,
    i: int,
) -> (int, int, int) {
    let p = prop_at(i);
    let f = rotor_thrust(escs, max_thrust, i);
    (
        -(p.spec_z_sign() * offset * f),
        p.spec_spin_sign() * max_torque * escs[i],
        p.spec_x_sign() * offset * f,
    )
}

/// Net moment of the four rotors about the centre of mass, in the body frame.
pub open spec fn net_moment(escs: Seq<int>, offset: int, max_thrust: int, max_torque: int) -> (
    int,
    int,
    int,
) {
    let m0 = rotor_moment(escs, offset, max_thrust, max_torque, 0);
    let m1 = rotor_moment(escs, offset, max_thrust, max_torque, 1);
    let m2 = rotor_moment(escs, offset, max_thrust, max_torque, 2);
    let m3 = rotor_moment(escs, offset, max_thrust, max_torque, 3);
    (m0.0 + m1.0 + m2.0 + m3.0, m0.1 + m1.1 + m2.1 + m3.1, m0.2 + m1.2 + m2.2 + m3.2)
}

/// With every actuator command at zero the rotors exert no force and no
/// moment, whatever the drone's geometry and gains: the drone falls freely.
pub proof fn lemma_idle_rotors_exert_nothing(
    escs: Seq<int>,
    offset: int,
    max_thrust: int,
    max_torque: int,
)
    requires
        escs.len() == 4,
        forall|i: int| 0 <= i < 4 ==> escs[i] == 0,
    ensures
        net_thrust(escs, max_thrust) == 0,
        net_moment(escs, offset, max_thrust, max_torque) == (0int, 0int, 0int),
{
    assert(escs[0] == 0 && escs[1] == 0 && escs[2] == 0 && escs[3] == 0);
    assert(0 * max_thrust == 0) by (nonlinear_arith);
}

/// With all four actuator commands equal to `e`, the counter-rotating pairs'
/// reaction torques cancel, the lever moments of the thrusts cancel, and the
/// total thrust is `4 * e * max_thrust` along local +Y.
pub proof fn lemma_equal_commands_balance(
    escs: Seq<int>,
    e: int,
    offset: int,
    max_thrust: int,
    max_torque: int,
)
    requires
        escs.len() == 4,
        forall|i: int| 0 <= i < 4 ==> escs[i] == e,
    ensures
        net_thrust(escs, max_thrust) == 4 * e * max_thrust,
        net_moment(escs, offset, max_thrust, max_torque) == (0int, 0int, 0int),
{
    assert(escs[0] == e && escs[1] == e && escs[2] == e && escs[3] == e);
    let f = e * max_thrust;
    let q = max_torque * e;
    assert(4 * e * max_thrust == f + f + f + f) by (nonlinear_arith)
        requires
            f == e * max_thrust,
    ;
    let a = offset * f;
    assert(1 * offset * f == a && -1 * offset * f == -a) by (nonlinear_arith)
        requires
            a == offset * f,
    ;
    assert(1 * max_torque * e == q && -1 * max_torque * e == -q) by (nonlinear_arith)
        requires
            q == max_torque * e,
    ;
    assert(rotor_moment(escs, offset, max_thrust, max_torque, 0) == (-a, q, a));
    assert(rotor_moment(escs, offset, max_thrust, max_torque, 1) == (-a, -q, -a));
    assert(rotor_moment(escs, offset, max_thrust, max_torque, 2) == (a, q, -a));
    assert(rotor_moment(escs, offset, max_thrust, max_torque, 3) == (a, -q, a));
}

} // verus!
