use std::f64::consts::PI;

use double_pendulum::collection::DoublePendulumCollection;
use double_pendulum::pendulum::{Pendulum, PendulumConfiguration};
use double_pendulum::trajectory::{
    check_canonical_angle, check_divergence_factors, DoublePendulumConfiguration,
};

const GRAVITY: f64 = 100.0;
const TWO_PI: f64 = 2.0 * PI;

fn normalize_angle(angle: f64) -> f64 {
    let mut result = angle % TWO_PI;
    if result > PI {
        result -= TWO_PI;
    }
    if result < -PI {
        result += TWO_PI;
    }
    result
}

fn angular_accelerations(
    config: &DoublePendulumConfiguration,
    pendulum_a: &Pendulum,
    pendulum_b: &Pendulum,
) -> (f64, f64) {
    let mass_a = f64::from_bits(pendulum_a.mass());
    let mass_b = f64::from_bits(pendulum_b.mass());
    let len_a = f64::from_bits(pendulum_a.length());
    let len_b = f64::from_bits(pendulum_b.length());
    let angle_a = f64::from_bits(config.a_configuration().angle());
    let angle_b = f64::from_bits(config.b_configuration().angle());
    let ang_vel_a = f64::from_bits(config.a_configuration().angular_velocity());
    let ang_vel_b = f64::from_bits(config.b_configuration().angular_velocity());

    let double_mass_a = 2.0 * mass_a;
    let angle_diff = angle_a - angle_b;
    let angle_diff_cos = angle_diff.cos();
    let angle_diff_sin = angle_diff.sin();
    let double_angle_diff_sin = 2.0 * angle_diff_sin;
    let doubled_angles_diff_cos = (2.0 * angle_diff).cos();
    let ang_vel_a_sq = ang_vel_a * ang_vel_a;
    let ang_vel_b_sq = ang_vel_b * ang_vel_b;
    let mass_sum = mass_a + mass_b;

    let ang_acc_a = (-GRAVITY * (double_mass_a + mass_b) * angle_a.sin()
        - mass_b * GRAVITY * f64::sin(angle_a - 2.0 * angle_b)
        - double_angle_diff_sin
            * mass_b
            * (ang_vel_b_sq * len_b + ang_vel_a_sq * len_a * angle_diff_cos))
        / (len_a * (double_mass_a + mass_b - mass_b * doubled_angles_diff_cos));

    let ang_acc_b = double_angle_diff_sin
        * (ang_vel_a_sq * len_a * mass_sum
            + GRAVITY * mass_sum * angle_a.cos()
            + ang_vel_b_sq * len_b * mass_b * angle_diff_cos)
        / (len_b * (2.0 * mass_a + mass_b - mass_b * doubled_angles_diff_cos));

    (ang_acc_a, ang_acc_b)
}

fn step(
    config: &mut DoublePendulumConfiguration,
    pendulum_a: &Pendulum,
    pendulum_b: &Pendulum,
    dt: f64,
) {
    let (ang_acc_a, ang_acc_b) = angular_accelerations(config, pendulum_a, pendulum_b);
    let mut ang_vel_a = f64::from_bits(config.a_configuration().angular_velocity());
    let mut ang_vel_b = f64::from_bits(config.b_configuration().angular_velocity());
    let mut angle_a = f64::from_bits(config.a_configuration().angle());
    let mut angle_b = f64::from_bits(config.b_configuration().angle());

    ang_vel_a += ang_acc_a * dt;
    ang_vel_b += ang_acc_b * dt;
    angle_a += ang_vel_a * dt;
    angle_b += ang_vel_b * dt;
    angle_a = normalize_angle(angle_a);
    angle_b = normalize_angle(angle_b);

    *config = DoublePendulumConfiguration::new(
        PendulumConfiguration::new(angle_a.to_bits(), ang_vel_a.to_bits()),
        PendulumConfiguration::new(angle_b.to_bits(), ang_vel_b.to_bits()),
    );
}

#[test]
fn thousand_steps_stay_finite_and_normalized() {
    let pendulum_a = Pendulum::new(180.0f64.to_bits(), 10.0f64.to_bits()).unwrap();
    let pendulum_b = Pendulum::new(162.0f64.to_bits(), 1.0f64.to_bits()).unwrap();
    let initial = DoublePendulumConfiguration::new(
        PendulumConfiguration::new(PI.to_bits(), (PI / 2.0).to_bits()),
        PendulumConfiguration::new((PI - 3.0).to_bits(), (PI / 4.0).to_bits()),
    );
    let perturbed = DoublePendulumConfiguration::new(
        initial.a_configuration(),
        PendulumConfiguration::new(
            (f64::from_bits(initial.b_configuration().angle()) + 0.00000001).to_bits(),
            initial.b_configuration().angular_velocity(),
        ),
    );
    let mut collection =
        DoublePendulumCollection::new(pendulum_a, pendulum_b, vec![initial, perturbed]).unwrap();

    let dt = 0.0001;
    for _ in 0..1000 {
        for config in collection.pendulum_configurations_mut().iter_mut() {
            step(config, &pendulum_a, &pendulum_b, dt);
        }
    }

    assert_eq!(collection.pendulum_configurations().len(), 2);
    for config in collection.pendulum_configurations() {
        assert!(config.is_finite_state());
        assert!(config.angles_canonical());
        let angle_a = f64::from_bits(config.a_configuration().angle());
        let angle_b = f64::from_bits(config.b_configuration().angle());
        assert!(-PI <= angle_a && angle_a <= PI);
        assert!(-PI <= angle_b && angle_b <= PI);
    }

    // The per-arm normalized distances of the two nearby trajectories must
    // pass the divergence metric's invariant gate.
    let first = collection.pendulum_configurations()[0];
    let second = collection.pendulum_configurations()[1];
    let d_a = f64::abs(normalize_angle(
        f64::from_bits(first.a_configuration().angle())
            - f64::from_bits(second.a_configuration().angle()),
    )) / PI;
    let d_b = f64::abs(normalize_angle(
        f64::from_bits(first.b_configuration().angle())
            - f64::from_bits(second.b_configuration().angle()),
    )) / PI;
    assert_eq!(check_divergence_factors(d_a.to_bits(), d_b.to_bits()), Ok(()));
    let combined = d_a * d_b;
    assert!((0.0..=1.0).contains(&combined));
}

#[test]
fn divergence_of_identical_states_is_zero() {
    let state = DoublePendulumConfiguration::new(
        PendulumConfiguration::new(1.25f64.to_bits(), 0.5f64.to_bits()),
        PendulumConfiguration::new((-2.5f64).to_bits(), 0.25f64.to_bits()),
    );
    let d_a = f64::abs(normalize_angle(
        f64::from_bits(state.a_configuration().angle())
            - f64::from_bits(state.a_configuration().angle()),
    )) / PI;
    let d_b = f64::abs(normalize_angle(
        f64::from_bits(state.b_configuration().angle())
            - f64::from_bits(state.b_configuration().angle()),
    )) / PI;
    assert_eq!(check_divergence_factors(d_a.to_bits(), d_b.to_bits()), Ok(()));
    assert_eq!(d_a * d_b, 0.0);
}

#[test]
fn normalized_angles_pass_the_canonical_check() {
    let mut x = -1000.0f64;
    while x <= 1000.0 {
        let normalized = normalize_angle(x);
        assert!(check_canonical_angle(normalized.to_bits()), "{} -> {}", x, normalized);
        assert!(-PI <= normalized && normalized <= PI);
        x += 0.37;
    }
    for special in [TWO_PI, -TWO_PI, PI, -PI, 1.5 * PI, -PI + TWO_PI, 1.0e18, -1.0e18] {
        let normalized = normalize_angle(special);
        assert!(check_canonical_angle(normalized.to_bits()), "{} -> {}", special, normalized);
    }
}

#[test]
fn equilibrium_has_zero_accelerations() {
    let pendulum_a = Pendulum::new(180.0f64.to_bits(), 10.0f64.to_bits()).unwrap();
    let pendulum_b = Pendulum::new(162.0f64.to_bits(), 1.0f64.to_bits()).unwrap();
    let hanging = DoublePendulumConfiguration::new(
        PendulumConfiguration::new(0.0f64.to_bits(), 0.0f64.to_bits()),
        PendulumConfiguration::new(0.0f64.to_bits(), 0.0f64.to_bits()),
    );
    let (acc_a, acc_b) = angular_accelerations(&hanging, &pendulum_a, &pendulum_b);
    assert_eq!(acc_a, 0.0);
    assert_eq!(acc_b, 0.0);

    let other_a = Pendulum::new(2.0f64.to_bits(), 0.125f64.to_bits()).unwrap();
    let other_b = Pendulum::new(77.5f64.to_bits(), 31.0f64.to_bits()).unwrap();
    let (acc_a, acc_b) = angular_accelerations(&hanging, &other_a, &other_b);
    assert_eq!(acc_a, 0.0);
    assert_eq!(acc_b, 0.0);
}
