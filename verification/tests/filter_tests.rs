use kalman_rs::Mat5;
use kalman_rs::NumericalError;
use kalman_rs::Vec5;
use kalman_rs::calculate_kalman_gain;
use kalman_rs::mat_entries_bounded;
use kalman_rs::mat_zero;
use kalman_rs::chi_squared_increment;
use kalman_rs::filter_residuals;
use kalman_rs::residual_covariance_matrix;
use kalman_rs::update_chi_squared;
use kalman_rs::update_covariance;
use kalman_rs::update_state_vector;

fn ident() -> Mat5 {
    let mut e = Vec::new();
    for i in 0..5 {
        for j in 0..5 {
            e.push(if i == j { 1i64 } else { 0i64 });
        }
    }
    Mat5::from_vec(e)
}

fn zero() -> Mat5 {
    mat_zero()
}

#[test]
fn gain_of_identity_inputs_is_identity() {
    let c = ident();
    let h = ident();
    let v = zero();
    let k = calculate_kalman_gain(&c, &h, &v).unwrap();
    for i in 0..5 {
        for j in 0..5 {
            assert_eq!(k.get(i, j), if i == j { 1 } else { 0 });
        }
    }
}

#[test]
fn gain_fails_on_singular_innovation() {
    let c = ident();
    let h = zero();
    let v = zero();
    let r = calculate_kalman_gain(&c, &h, &v);
    assert!(matches!(r, Err(NumericalError::Singular)));
}

#[test]
fn update_state_with_zero_gain_keeps_state() {
    let x = Vec5::from_vec(vec![1, 2, 3, 4, 5]);
    let k = zero();
    let m = Vec5::from_vec(vec![9, 8, 7, 6, 5]);
    let h = ident();
    let r = update_state_vector(&x, &k, &m, &h);
    for i in 0..5 {
        assert_eq!(r.get(i), x.get(i));
    }
}

#[test]
fn update_state_identity_gain_moves_to_measurement() {
    let x = Vec5::from_vec(vec![1, 2, 3, 4, 5]);
    let k = ident();
    let m = Vec5::from_vec(vec![9, 8, 7, 6, 5]);
    let h = ident();
    let r = update_state_vector(&x, &k, &m, &h);
    for i in 0..5 {
        assert_eq!(r.get(i), m.get(i));
    }
}

#[test]
fn update_covariance_identity_gain_zeroes_covariance() {
    let k = ident();
    let h = ident();
    let c = ident();
    let r = update_covariance(&k, &h, &c);
    for i in 0..5 {
        for j in 0..5 {
            assert_eq!(r.get(i, j), 0);
        }
    }
}

#[test]
fn filter_residuals_identity_inputs_vanish() {
    let h = ident();
    let k = ident();
    let p = ident();
    let r = filter_residuals(&h, &k, &p);
    for i in 0..5 {
        for j in 0..5 {
            assert_eq!(r.get(i, j), 0);
        }
    }
}

#[test]
fn residual_covariance_of_identity_inputs() {
    let v = ident();
    let h = ident();
    let c = ident();
    let r = residual_covariance_matrix(&v, &h, &c);
    for i in 0..5 {
        for j in 0..5 {
            assert_eq!(r.get(i, j), 0);
        }
    }
}

#[test]
fn chi_squared_increment_identity_inputs() {
    let res = ident();
    let rc = ident();
    let r = chi_squared_increment(&res, &rc).unwrap();
    for i in 0..5 {
        for j in 0..5 {
            assert_eq!(r.get(i, j), if i == j { 1 } else { 0 });
        }
    }
}

#[test]
fn chi_squared_increment_fails_on_singular_covariance() {
    let res = ident();
    let rc = zero();
    assert!(matches!(chi_squared_increment(&res, &rc), Err(NumericalError::Singular)));
}

#[test]
fn gain_entry_bound_check_gates_the_update() {
    let c = ident();
    let h = ident();
    let v = zero();
    let k = calculate_kalman_gain(&c, &h, &v).unwrap();
    assert!(mat_entries_bounded(&k, 8388608));
    assert!(!mat_entries_bounded(&k, 0));
    let c_new = update_covariance(&k, &h, &c);
    for i in 0..5 {
        for j in 0..5 {
            assert_eq!(c_new.get(i, j), 0);
        }
    }
}

#[test]
fn chi_squared_accumulates_elementwise() {
    let mut e1 = Vec::new();
    let mut e2 = Vec::new();
    for k in 0..25 {
        e1.push(k as i64);
        e2.push(100 - k as i64);
    }
    let a = Mat5::from_vec(e1);
    let b = Mat5::from_vec(e2);
    let s = update_chi_squared(&a, &b);
    for i in 0..5 {
        for j in 0..5 {
            assert_eq!(s.get(i, j), 100);
        }
    }
}

#[test]
fn chi_squared_accumulation_commutes() {
    let mut e1 = Vec::new();
    let mut e2 = Vec::new();
    for k in 0..25 {
        e1.push(3 * k as i64 - 7);
        e2.push(11 - k as i64);
    }
    let a = Mat5::from_vec(e1);
    let b = Mat5::from_vec(e2);
    let ab = update_chi_squared(&a, &b);
    let ba = update_chi_squared(&b, &a);
    for i in 0..5 {
        for j in 0..5 {
            assert_eq!(ab.get(i, j), ba.get(i, j));
        }
    }
}
