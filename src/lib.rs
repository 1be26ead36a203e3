//! Vehicle logic of a rigid-body drone simulation: the quadrotor's propeller
//! layout, its actuator commands and the telemetry frames it reports.
//!
//! Numeric quantities (lengths, duty cycles, velocities) are carried as a
//! generic scalar `S`; the physics backend that turns them into motion is
//! driven from the application around this library.

mod propeller;

pub use propeller::{
    Propeller,
    prop_at,
    net_thrust,
    net_moment,
    lemma_idle_rotors_exert_nothing,
    lemma_equal_commands_balance,
};

mod drone;

pub use drone::{
    Drone,
    DroneParams,
    params_from,
    after_controls,
    lemma_controls_round_trip,
};

mod pose;

pub use pose::{raw_pose, pose_or_zero, sensor_frame};

mod vehicle;

pub use vehicle::{VehicleType, vehicle_type_for, create_vehicle};
