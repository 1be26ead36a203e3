use rapier3d::prelude::{RigidBodyBuilder, RigidBodySet};
use sim_engine::{
    create_vehicle, pose_or_zero, raw_pose, sensor_frame, vehicle_type_for, Drone, DroneParams,
    Propeller, VehicleType,
};

fn default_params() -> DroneParams<f32> {
    DroneParams {
        body_radius: 0.08,
        body_height: 0.04,
        arm_radius: 0.02,
        arm_length: 0.1,
        max_prop_thrust: 0.005,
        max_prop_torque: 0.0005,
        max_inflow_vel: 40.0,
    }
}

fn diagonal_offset(p: &DroneParams<f32>) -> f32 {
    (p.body_radius + p.arm_length / 2.0) * std::f32::consts::SQRT_2 / 2.0
}

#[test]
fn attachment_offsets_follow_the_x_layout() {
    let d = diagonal_offset(&default_params());
    assert!((d - 0.091924).abs() < 1e-6);
    let a = Propeller::A;
    assert_eq!((a.x_sign(), a.z_sign()), (1, 1));
    assert_eq!((Propeller::B.x_sign(), Propeller::B.z_sign()), (-1, 1));
    assert_eq!((Propeller::C.x_sign(), Propeller::C.z_sign()), (-1, -1));
    assert_eq!((Propeller::D.x_sign(), Propeller::D.z_sign()), (1, -1));
    let ax = a.x_sign() as f32 * d;
    let az = a.z_sign() as f32 * d;
    assert!((ax - 0.091924).abs() < 1e-6);
    assert!((az - 0.091924).abs() < 1e-6);
}

#[test]
fn reaction_torques_alternate_and_cancel() {
    let props = [Propeller::A, Propeller::B, Propeller::C, Propeller::D];
    let signs: Vec<i8> = props.iter().map(|p| p.spin_sign()).collect();
    assert_eq!(signs, vec![1, -1, 1, -1]);
    let params = default_params();
    let esc = 0.7_f32;
    let yaw: f32 = props
        .iter()
        .map(|p| p.spin_sign() as f32 * params.max_prop_torque * esc)
        .sum();
    assert_eq!(yaw, 0.0);
    let thrust: f32 = props.iter().map(|_| esc * params.max_prop_thrust).sum();
    assert!((thrust - 4.0 * esc * params.max_prop_thrust).abs() < 1e-9);
}

#[test]
fn arm_yaw_follows_the_diagonals() {
    assert_eq!(Propeller::A.arm_yaw_sign(), -1);
    assert_eq!(Propeller::B.arm_yaw_sign(), 1);
    assert_eq!(Propeller::C.arm_yaw_sign(), -1);
    assert_eq!(Propeller::D.arm_yaw_sign(), 1);
}

#[test]
fn slots_match_rotor_order() {
    assert_eq!(Propeller::A.slot(), 0);
    assert_eq!(Propeller::B.slot(), 1);
    assert_eq!(Propeller::C.slot(), 2);
    assert_eq!(Propeller::D.slot(), 3);
}

#[test]
fn new_drone_is_idle() {
    let drone = Drone::new(default_params(), 0.0_f32);
    assert_eq!(drone.escs(), [0.0; 4]);
    assert_eq!(drone.linvel(), [0.0; 3]);
    assert!(drone.handle().is_none());
    assert_eq!(drone.params().max_inflow_vel, 40.0);
}

#[test]
fn controls_round_trip_and_short_input_is_ignored() {
    let mut drone = Drone::new(default_params(), 0.0_f32);
    drone.controls(&[0.1, 0.2, 0.3, 0.4]);
    let commands = drone.propeller_commands();
    assert_eq!(
        commands,
        [
            (Propeller::A, 0.1),
            (Propeller::B, 0.2),
            (Propeller::C, 0.3),
            (Propeller::D, 0.4)
        ]
    );
    assert_eq!(drone.escs(), [0.1, 0.2, 0.3, 0.4]);
    drone.controls(&[0.9, 0.8]);
    assert_eq!(drone.escs(), [0.1, 0.2, 0.3, 0.4]);
    drone.controls(&[]);
    assert_eq!(drone.escs(), [0.1, 0.2, 0.3, 0.4]);
}

#[test]
fn controls_take_first_four_unclamped() {
    let mut drone = Drone::new(default_params(), 0.0_f32);
    drone.controls(&[1.5, -0.5, 0.0, 2.0, 7.0]);
    assert_eq!(drone.escs(), [1.5, -0.5, 0.0, 2.0]);
}

#[test]
fn zero_commands_give_zero_thrust() {
    let drone = Drone::new(default_params(), 0.0_f32);
    let p = drone.params();
    for (prop, esc) in drone.propeller_commands() {
        assert_eq!(esc * p.max_prop_thrust, 0.0);
        assert_eq!(prop.spin_sign() as f32 * p.max_prop_torque * esc, 0.0);
    }
}

#[test]
fn parameterize_reads_seven_values() {
    let data = [1.0_f32, 2.0, 3.0, 4.0, 5.0, 6.0, 7.0];
    let drone = Drone::parameterize(true, &data, default_params(), 0.0);
    let p = drone.params();
    assert_eq!(
        [
            p.body_radius,
            p.body_height,
            p.arm_radius,
            p.arm_length,
            p.max_prop_thrust,
            p.max_prop_torque,
            p.max_inflow_vel
        ],
        data
    );
    assert!(drone.handle().is_none());
}

#[test]
fn parameterize_falls_back_to_defaults() {
    let short = [1.0_f32, 2.0, 3.0];
    let drone = Drone::parameterize(true, &short, default_params(), 0.0);
    assert_eq!(drone.params().body_radius, 0.08);
    let data = [1.0_f32, 2.0, 3.0, 4.0, 5.0, 6.0, 7.0];
    let unused = Drone::parameterize(false, &data, default_params(), 0.0);
    assert_eq!(unused.params().arm_length, 0.1);
}

#[test]
fn unknown_vehicle_name_falls_back_to_drone() {
    assert_eq!(vehicle_type_for("drone"), VehicleType::Drone);
    assert_eq!(vehicle_type_for("unknown-name"), vehicle_type_for("drone"));
    let a = create_vehicle(vehicle_type_for("unknown-name"), false, &[], default_params(), 0.0);
    let b = create_vehicle(vehicle_type_for("drone"), false, &[], default_params(), 0.0);
    assert_eq!(a.params().body_radius, b.params().body_radius);
    assert_eq!(a.escs(), b.escs());
}

#[test]
fn attach_records_the_body() {
    let mut bodies = RigidBodySet::new();
    let handle = bodies.insert(RigidBodyBuilder::new_dynamic().build());
    let mut drone = Drone::new(default_params(), 0.0_f32);
    drone.controls(&[0.5, 0.5, 0.5, 0.5]);
    drone.attach(handle);
    assert_eq!(drone.handle(), Some(handle));
    assert_eq!(drone.escs(), [0.5; 4]);
}

#[test]
fn fresh_body_pose_is_identity_at_origin() {
    let body = RigidBodyBuilder::new_dynamic().build();
    let t = body.translation();
    let q = body.rotation();
    let pose = raw_pose([t.x, t.y, t.z], q.i, q.j, q.k, q.w);
    assert_eq!(pose, [0.0, 0.0, 0.0, 0.0, 0.0, 0.0, 1.0]);
}

#[test]
fn pose_keeps_quaternion_order() {
    let pose = raw_pose([1.0_f32, 2.0, 3.0], 4.0, 5.0, 6.0, 7.0);
    assert_eq!(pose, [1.0, 2.0, 3.0, 4.0, 5.0, 6.0, 7.0]);
}

#[test]
fn missing_body_pose_is_zero() {
    assert_eq!(pose_or_zero(None, 0.0_f32), [0.0; 7]);
    let p = [1.0_f32, 2.0, 3.0, 0.0, 0.0, 0.0, 1.0];
    assert_eq!(pose_or_zero(Some(p), 0.0), p);
}

#[test]
fn sensor_at_rest_cancels_gravity() {
    let gravity = [0.0_f32, -9.81, 0.0];
    let dt = 1.0_f32 / 60.0;
    let v = [0.0_f32; 3];
    let previous = Drone::new(default_params(), 0.0_f32).linvel();
    let mut acc = [0.0_f32; 3];
    for i in 0..3 {
        acc[i] = (v[i] - previous[i]) / dt - gravity[i];
    }
    assert_eq!(sensor_frame(Some(acc), 0.0), [0.0, 9.81, 0.0, 0.0, 0.0, 0.0]);
}

#[test]
fn missing_body_sensor_is_zero() {
    assert_eq!(sensor_frame(None, 0.0_f32), [0.0; 6]);
    assert_eq!(
        sensor_frame(Some([1.0_f32, 2.0, 3.0]), 0.0),
        [1.0, 2.0, 3.0, 0.0, 0.0, 0.0]
    );
}
