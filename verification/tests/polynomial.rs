use plonk_circuit::domain::vanishing_polynomial;
use plonk_circuit::field::Scalar;
use plonk_circuit::interpolation::{lagrange_basis_over, PolynomialEvaluationPoints};
use plonk_circuit::polynomial::Polynomial;

fn s(value: u64) -> Scalar {
    Scalar::from_u64(value)
}

fn poly(coefficients: &[u64]) -> Polynomial {
    Polynomial(coefficients.iter().map(|c| s(*c)).collect())
}

#[test]
fn zero_polynomial_has_the_asked_size() {
    assert_eq!(Polynomial::zero(0), poly(&[]));
    assert_eq!(Polynomial::zero(3), poly(&[0, 0, 0]));
    assert_eq!(Polynomial::zero(3).len(), 3);
    assert_eq!(Polynomial::zero(3).eval(&s(17)), s(0));
}

#[test]
fn evaluation_by_horner() {
    // 1 + 2 X + 3 X^2
    let p = poly(&[1, 2, 3]);
    assert_eq!(p.eval(&s(0)), s(1));
    assert_eq!(p.eval(&s(1)), s(6));
    assert_eq!(p.eval(&s(2)), s(17));
    assert_eq!(p.eval(&s(10)), s(321));
    assert_eq!(poly(&[]).eval(&s(5)), s(0));
    assert_eq!(poly(&[9]).eval(&s(5)), s(9));
}

#[test]
fn sum_is_coefficient_wise() {
    let mut p = poly(&[1, 2, 3]);
    p.add_assign(&poly(&[10, 20]));
    assert_eq!(p, poly(&[11, 22, 3]));
    let mut q = poly(&[1]);
    q.add_assign(&poly(&[10, 20, 30]));
    assert_eq!(q, poly(&[11, 20, 30]));
    let mut r = poly(&[]);
    r.add_assign(&poly(&[4, 5]));
    assert_eq!(r, poly(&[4, 5]));
    let mut t = poly(&[4, 5]);
    t.add_assign(&poly(&[]));
    assert_eq!(t, poly(&[4, 5]));
}

#[test]
fn sum_evaluates_to_the_sum_of_values() {
    let p = poly(&[1, 2, 3]);
    let q = poly(&[7, 0, 0, 5]);
    let mut sum = poly(&[1, 2, 3]);
    sum.add_assign(&q);
    for x in [0u64, 1, 2, 31] {
        assert_eq!(sum.eval(&s(x)), p.eval(&s(x)).plus(&q.eval(&s(x))));
    }
}

#[test]
fn scaling_multiplies_every_coefficient() {
    assert_eq!(poly(&[1, 2, 3]).scale(&s(5)), poly(&[5, 10, 15]));
    assert_eq!(poly(&[1, 2, 3]).scale(&s(0)), poly(&[0, 0, 0]));
    assert_eq!(poly(&[]).scale(&s(5)), poly(&[]));
}

#[test]
fn shifting_multiplies_by_x() {
    assert_eq!(poly(&[1, 2, 3]).shifted(), poly(&[0, 1, 2, 3]));
    assert_eq!(poly(&[]).shifted(), poly(&[0]));
}

#[test]
fn product_of_polynomials() {
    // (1 + X) (1 + X) = 1 + 2 X + X^2
    assert_eq!(poly(&[1, 1]).multiply(&poly(&[1, 1])), poly(&[1, 2, 1]));
    // (1 + 2 X + 3 X^2) (4 + 5 X) = 4 + 13 X + 22 X^2 + 15 X^3
    assert_eq!(poly(&[1, 2, 3]).multiply(&poly(&[4, 5])), poly(&[4, 13, 22, 15]));
    assert_eq!(poly(&[4, 5]).multiply(&poly(&[1, 2, 3])), poly(&[4, 13, 22, 15]));
    assert_eq!(poly(&[3]).multiply(&poly(&[4, 5])), poly(&[12, 15]));
    assert_eq!(poly(&[]).multiply(&poly(&[4, 5])), poly(&[]));
}

#[test]
fn product_evaluates_to_the_product_of_values() {
    let p = poly(&[1, 2, 3]);
    let q = poly(&[7, 0, 0, 5]);
    let product = p.multiply(&q);
    for x in [0u64, 1, 2, 31] {
        assert_eq!(product.eval(&s(x)), p.eval(&s(x)).times(&q.eval(&s(x))));
    }
}

#[test]
fn lagrange_basis_is_one_at_its_point_and_zero_elsewhere() {
    let points = vec![s(1), s(2), s(4), s(8)];
    for index in 0..points.len() {
        let basis = lagrange_basis_over(&points, index).unwrap();
        assert_eq!(basis.len(), points.len());
        for (j, point) in points.iter().enumerate() {
            let expected = if j == index { s(1) } else { s(0) };
            assert_eq!(basis.eval(point), expected);
        }
    }
}

#[test]
fn lagrange_basis_over_two_points() {
    // over the points 0 and 1 the basis at 0 is 1 - X, the basis at 1 is X
    let points = vec![s(0), s(1)];
    let first = lagrange_basis_over(&points, 0).unwrap();
    assert_eq!(first, Polynomial(vec![s(1), s(1).negated()]));
    let second = lagrange_basis_over(&points, 1).unwrap();
    assert_eq!(second, poly(&[0, 1]));
}

#[test]
fn lagrange_basis_over_one_point_is_one() {
    assert_eq!(lagrange_basis_over(&vec![s(5)], 0), Some(poly(&[1])));
}

#[test]
fn lagrange_basis_fails_on_a_repeated_point() {
    let points = vec![s(1), s(2), s(1), s(3)];
    assert_eq!(lagrange_basis_over(&points, 0), None);
    assert_eq!(lagrange_basis_over(&points, 2), None);
    // the points 2 and 3 occur once each
    let basis = lagrange_basis_over(&points, 1).unwrap();
    assert_eq!(basis.eval(&s(2)), s(1));
    assert_eq!(basis.eval(&s(1)), s(0));
    assert_eq!(basis.eval(&s(3)), s(0));
}

#[test]
fn interpolation_goes_through_the_points() {
    let pairs = vec![(s(1), s(10)), (s(2), s(7)), (s(5), s(0)), (s(9), s(123456))];
    let p = PolynomialEvaluationPoints(pairs.clone()).interpolate().unwrap();
    assert_eq!(p.len(), 4);
    for (x, y) in pairs {
        assert_eq!(p.eval(&x), y);
    }
}

#[test]
fn interpolation_recovers_a_line() {
    // through (0, 3) and (1, 5): 3 + 2 X
    let p = PolynomialEvaluationPoints(vec![(s(0), s(3)), (s(1), s(5))]).interpolate().unwrap();
    assert_eq!(p, poly(&[3, 2]));
    // through (1, 1), (2, 4), (3, 9): X^2
    let square = PolynomialEvaluationPoints(vec![(s(1), s(1)), (s(2), s(4)), (s(3), s(9))])
        .interpolate()
        .unwrap();
    assert_eq!(square, poly(&[0, 0, 1]));
}

#[test]
fn interpolation_of_no_points_is_empty() {
    assert_eq!(PolynomialEvaluationPoints(vec![]).interpolate(), Some(poly(&[])));
}

#[test]
fn interpolation_fails_on_a_repeated_point() {
    let pairs = vec![(s(1), s(10)), (s(2), s(7)), (s(1), s(10))];
    assert_eq!(PolynomialEvaluationPoints(pairs).interpolate(), None);
    let tail = vec![(s(1), s(10)), (s(2), s(7)), (s(2), s(8))];
    assert_eq!(PolynomialEvaluationPoints(tail).interpolate(), None);
}

#[test]
fn vanishing_polynomial_is_x_to_the_size_minus_one() {
    assert_eq!(vanishing_polynomial(1), Polynomial(vec![s(1).negated(), s(1)]));
    assert_eq!(vanishing_polynomial(4), Polynomial(vec![s(1).negated(), s(0), s(0), s(0), s(1)]));
    assert_eq!(vanishing_polynomial(4).eval(&s(2)), s(15));
    assert_eq!(vanishing_polynomial(4).eval(&s(1)), s(0));
    assert_eq!(vanishing_polynomial(4).eval(&s(1).negated()), s(0));
    assert_ne!(vanishing_polynomial(3).eval(&s(1).negated()), s(0));
}
