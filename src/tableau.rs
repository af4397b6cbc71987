//! The coefficients of the embedded Runge-Kutta-Fehlberg 4(5) pair, held as
//! exact fractions.
//!
//! This is Fehlberg's original pair (not the Cash-Karp pair): six stages, a
//! fifth-order solution that is propagated, and a fourth-order one whose
//! difference from it is the error estimate. The proofs below check the
//! table against the conditions every such pair meets: each stage is
//! evaluated at its node, and each set of weights integrates polynomials
//! exactly up to its order minus one.

use vstd::prelude::*;

verus! {

/// An exact fraction `num / den`, `den > 0`.
#[derive(Clone, Copy, Debug, PartialEq, Eq, Structural)]
pub struct Ratio {
    pub num: i64,
    pub den: i64,
}

/// A fraction as a pair of unbounded integers.
pub open spec fn frac(num: int, den: int) -> (int, int) {
    (num, den)
}

pub open spec fn ratio_of(r: Ratio) -> (int, int) {
    frac(r.num as int, r.den as int)
}

pub open spec fn frac_add(x: (int, int), y: (int, int)) -> (int, int) {
    (x.0 * y.1 + y.0 * x.1, x.1 * y.1)
}

pub open spec fn frac_mul(x: (int, int), y: (int, int)) -> (int, int) {
    (x.0 * y.0, x.1 * y.1)
}

/// Two fractions with non-zero denominators name the same number.
pub open spec fn frac_eq(x: (int, int), y: (int, int)) -> bool {
    x.0 * y.1 == y.0 * x.1
}

pub open spec fn frac_pow(x: (int, int), k: nat) -> (int, int)
    decreases k,
{
    if k == 0 {
        frac(1, 1)
    } else {
        frac_mul(x, frac_pow(x, (k - 1) as nat))
    }
}

/// `Σ_{j<n} f(j)`.
pub open spec fn frac_sum(f: spec_fn(int) -> Ratio, n: nat) -> (int, int)
    decreases n,
{
    if n == 0 {
        frac(0, 1)
    } else {
        frac_add(frac_sum(f, (n - 1) as nat), ratio_of(f(n - 1)))
    }
}

/// `Σ_{j<n} w(j) c(j)^k`: what the weights `w` give for the monomial of
/// degree `k` sampled at the nodes `c`.
pub open spec fn frac_moment(
    w: spec_fn(int) -> Ratio,
    c: spec_fn(int) -> Ratio,
    k: nat,
    n: nat,
) -> (int, int)
    decreases n,
{
    if n == 0 {
        frac(0, 1)
    } else {
        frac_add(
            frac_moment(w, c, k, (n - 1) as nat),
            frac_mul(ratio_of(w(n - 1)), frac_pow(ratio_of(c(n - 1)), k)),
        )
    }
}

pub open spec fn q(num: i64, den: i64) -> Ratio {
    Ratio { num, den }
}

/// Number of stages of the Fehlberg pair.
pub const RKF45_STAGES: usize = 6;

/// Node `c_i` of the Runge-Kutta-Fehlberg 4(5) pair.
pub open spec fn fehlberg_node(i: int) -> Ratio {
    if i == 0 {
        q(0, 1)
    } else if i == 1 {
        q(1, 4)
    } else if i == 2 {
        q(3, 8)
    } else if i == 3 {
        q(12, 13)
    } else if i == 4 {
        q(1, 1)
    } else if i == 5 {
        q(1, 2)
    } else {
        q(0, 1)
    }
}

/// Entry `a_ij` (`j < i`) of the coupling matrix of the Fehlberg pair.
pub open spec fn fehlberg_coupling(i: int, j: int) -> Ratio {
    if i == 1 && j == 0 {
        q(1, 4)
    } else if i == 2 && j == 0 {
        q(3, 32)
    } else if i == 2 && j == 1 {
        q(9, 32)
    } else if i == 3 && j == 0 {
        q(1932, 2197)
    } else if i == 3 && j == 1 {
        q(-7200i64, 2197)
    } else if i == 3 && j == 2 {
        q(7296, 2197)
    } else if i == 4 && j == 0 {
        q(439, 216)
    } else if i == 4 && j == 1 {
        q(-8i64, 1)
    } else if i == 4 && j == 2 {
        q(3680, 513)
    } else if i == 4 && j == 3 {
        q(-845i64, 4104)
    } else if i == 5 && j == 0 {
        q(-8i64, 27)
    } else if i == 5 && j == 1 {
        q(2, 1)
    } else if i == 5 && j == 2 {
        q(-3544i64, 2565)
    } else if i == 5 && j == 3 {
        q(1859, 4104)
    } else if i == 5 && j == 4 {
        q(-11i64, 40)
    } else {
        q(0, 1)
    }
}

/// Weight of the fifth-order solution of the Fehlberg pair.
pub open spec fn fehlberg_weight5(i: int) -> Ratio {
    if i == 0 {
        q(16, 135)
    } else if i == 1 {
        q(0, 1)
    } else if i == 2 {
        q(6656, 12825)
    } else if i == 3 {
        q(28561, 56430)
    } else if i == 4 {
        q(-9i64, 50)
    } else if i == 5 {
        q(2, 55)
    } else {
        q(0, 1)
    }
}

/// Weight of the embedded fourth-order solution of the Fehlberg pair.
pub open spec fn fehlberg_weight4(i: int) -> Ratio {
    if i == 0 {
        q(25, 216)
    } else if i == 1 {
        q(0, 1)
    } else if i == 2 {
        q(1408, 2565)
    } else if i == 3 {
        q(2197, 4104)
    } else if i == 4 {
        q(-1i64, 5)
    } else if i == 5 {
        q(0, 1)
    } else {
        q(0, 1)
    }
}

/// The fifth-order weights of the Fehlberg pair.
pub fn rkf45_weights5() -> (r: [Ratio; 6])
    ensures
        forall|i: int| 0 <= i < 6 ==> r@[i] == fehlberg_weight5(i),
{
    [
        q_exec(16, 135),
        q_exec(0, 1),
        q_exec(6656, 12825),
        q_exec(28561, 56430),
        q_exec(-9, 50),
        q_exec(2, 55),
    ]
}

/// The fourth-order weights of the Fehlberg pair.
pub fn rkf45_weights4() -> (r: [Ratio; 6])
    ensures
        forall|i: int| 0 <= i < 6 ==> r@[i] == fehlberg_weight4(i),
{
    [
        q_exec(25, 216),
        q_exec(0, 1),
        q_exec(1408, 2565),
        q_exec(2197, 4104),
        q_exec(-1, 5),
        q_exec(0, 1),
    ]
}

/// Row `stage` of the coupling matrix of the Fehlberg pair: the multiples of
/// the earlier stage derivatives that form the input of stage `stage`.
pub fn rkf45_coupling(stage: usize) -> (r: Vec<Ratio>)
    requires
        stage < 6,
    ensures
        r@.len() == stage,
        forall|j: int| 0 <= j < stage ==> r@[j] == fehlberg_coupling(stage as int, j),
{
    if stage == 0 {
        vec![]
    } else if stage == 1 {
        vec![q_exec(1, 4)]
    } else if stage == 2 {
        vec![q_exec(3, 32), q_exec(9, 32)]
    } else if stage == 3 {
        vec![q_exec(1932, 2197), q_exec(-7200, 2197), q_exec(7296, 2197)]
    } else if stage == 4 {
        vec![q_exec(439, 216), q_exec(-8, 1), q_exec(3680, 513), q_exec(-845, 4104)]
    } else {
        vec![q_exec(-8, 27), q_exec(2, 1), q_exec(-3544, 2565), q_exec(1859, 4104), q_exec(-11, 40)]
    }
}

fn q_exec(num: i64, den: i64) -> (r: Ratio)
    ensures
        r == q(num, den),
{
    Ratio { num, den }
}

/// Each stage of the Fehlberg pair is evaluated at its node: the row sums of
/// the coupling matrix equal the nodes, `Σ_j a_ij = c_i`.
pub proof fn lemma_fehlberg_rows_match_nodes(i: int)
    requires
        0 <= i < 6,
    ensures
        frac_eq(frac_sum(|j: int| fehlberg_coupling(i, j), i as nat), ratio_of(fehlberg_node(i))),
{
    let a = |j: int| fehlberg_coupling(i, j);
    if i == 0 {
        assert(frac_sum(a, 0) == frac(0, 1));
    } else if i == 1 {
        assert(frac_sum(a, 0) == frac(0, 1));
        assert(ratio_of(a(0)) == frac(1, 4));
        assert(frac_sum(a, 1) == frac_add(frac(0, 1), frac(1, 4)));
        assert(frac_add(frac(0, 1), frac(1, 4)) == frac(1, 4)) by (nonlinear_arith);
        assert(frac_sum(a, 1) == frac(1, 4));
    } else if i == 2 {
        assert(frac_sum(a, 0) == frac(0, 1));
        assert(ratio_of(a(0)) == frac(3, 32));
        assert(frac_sum(a, 1) == frac_add(frac(0, 1), frac(3, 32)));
        assert(frac_add(frac(0, 1), frac(3, 32)) == frac(3, 32)) by (nonlinear_arith);
        assert(frac_sum(a, 1) == frac(3, 32));
        assert(ratio_of(a(1)) == frac(9, 32));
        assert(frac_sum(a, 2) == frac_add(frac(3, 32), frac(9, 32)));
        assert(frac_add(frac(3, 32), frac(9, 32)) == frac(384, 1024)) by (nonlinear_arith);
        assert(frac_sum(a, 2) == frac(384, 1024));
    } else if i == 3 {
        assert(frac_sum(a, 0) == frac(0, 1));
        assert(ratio_of(a(0)) == frac(1932, 2197));
        assert(frac_sum(a, 1) == frac_add(frac(0, 1), frac(1932, 2197)));
        assert(frac_add(frac(0, 1), frac(1932, 2197)) == frac(1932, 2197)) by (nonlinear_arith);
        assert(frac_sum(a, 1) == frac(1932, 2197));
        assert(ratio_of(a(1)) == frac(-7200, 2197));
        assert(frac_sum(a, 2) == frac_add(frac(1932, 2197), frac(-7200, 2197)));
        assert(frac_add(frac(1932, 2197), frac(-7200, 2197)) == frac(-11573796, 4826809)) by (nonlinear_arith);
        assert(frac_sum(a, 2) == frac(-11573796, 4826809));
        assert(ratio_of(a(2)) == frac(7296, 2197));
        assert(frac_sum(a, 3) == frac_add(frac(-11573796, 4826809), frac(7296, 2197)));
        assert(frac_add(frac(-11573796, 4826809), frac(7296, 2197)) == frac(9788768652, 10604499373)) by (nonlinear_arith);
        assert(frac_sum(a, 3) == frac(9788768652, 10604499373));
    } else if i == 4 {
        assert(frac_sum(a, 0) == frac(0, 1));
        assert(ratio_of(a(0)) == frac(439, 216));
        assert(frac_sum(a, 1) == frac_add(frac(0, 1), frac(439, 216)));
        assert(frac_add(frac(0, 1), frac(439, 216)) == frac(439, 216)) by (nonlinear_arith);
        assert(frac_sum(a, 1) == frac(439, 216));
        assert(ratio_of(a(1)) == frac(-8, 1));
        assert(frac_sum(a, 2) == frac_add(frac(439, 216), frac(-8, 1)));
        assert(frac_add(frac(439, 216), frac(-8, 1)) == frac(-1289, 216)) by (nonlinear_arith);
        assert(frac_sum(a, 2) == frac(-1289, 216));
        assert(ratio_of(a(2)) == frac(3680, 513));
        assert(frac_sum(a, 3) == frac_add(frac(-1289, 216), frac(3680, 513)));
        assert(frac_add(frac(-1289, 216), frac(3680, 513)) == frac(133623, 110808)) by (nonlinear_arith);
        assert(frac_sum(a, 3) == frac(133623, 110808));
        assert(ratio_of(a(3)) == frac(-845, 4104));
        assert(frac_sum(a, 4) == frac_add(frac(133623, 110808), frac(-845, 4104)));
        assert(frac_add(frac(133623, 110808), frac(-845, 4104)) == frac(454756032, 454756032)) by (nonlinear_arith);
        assert(frac_sum(a, 4) == frac(454756032, 454756032));
    } else if i == 5 {
        assert(frac_sum(a, 0) == frac(0, 1));
        assert(ratio_of(a(0)) == frac(-8, 27));
        assert(frac_sum(a, 1) == frac_add(frac(0, 1), frac(-8, 27)));
        assert(frac_add(frac(0, 1), frac(-8, 27)) == frac(-8, 27)) by (nonlinear_arith);
        assert(frac_sum(a, 1) == frac(-8, 27));
        assert(ratio_of(a(1)) == frac(2, 1));
        assert(frac_sum(a, 2) == frac_add(frac(-8, 27), frac(2, 1)));
        assert(frac_add(frac(-8, 27), frac(2, 1)) == frac(46, 27)) by (nonlinear_arith);
        assert(frac_sum(a, 2) == frac(46, 27));
        assert(ratio_of(a(2)) == frac(-3544, 2565));
        assert(frac_sum(a, 3) == frac_add(frac(46, 27), frac(-3544, 2565)));
        assert(frac_add(frac(46, 27), frac(-3544, 2565)) == frac(22302, 69255)) by (nonlinear_arith);
        assert(frac_sum(a, 3) == frac(22302, 69255));
        assert(ratio_of(a(3)) == frac(1859, 4104));
        assert(frac_sum(a, 4) == frac_add(frac(22302, 69255), frac(1859, 4104)));
        assert(frac_add(frac(22302, 69255), frac(1859, 4104)) == frac(220272453, 284222520)) by (nonlinear_arith);
        assert(frac_sum(a, 4) == frac(220272453, 284222520));
        assert(ratio_of(a(4)) == frac(-11, 40));
        assert(frac_sum(a, 5) == frac_add(frac(220272453, 284222520), frac(-11, 40)));
        assert(frac_add(frac(220272453, 284222520), frac(-11, 40)) == frac(5684450400, 11368900800)) by (nonlinear_arith);
        assert(frac_sum(a, 5) == frac(5684450400, 11368900800));
    }
}

/// The fifth-order weights integrate every polynomial of degree at most four
/// exactly on the nodes: `Σ_i b_i c_i^k = 1 / (k + 1)` for `k ≤ 4`.
pub proof fn lemma_fehlberg_weights5_order(k: nat)
    requires
        k <= 4,
    ensures
        frac_eq(
            frac_moment(|i: int| fehlberg_weight5(i), |i: int| fehlberg_node(i), k, 6),
            frac(1, k + 1 as int),
        ),
{
    let w = |i: int| fehlberg_weight5(i);
    let c = |i: int| fehlberg_node(i);
    if k == 0 {
        assert(frac_moment(w, c, 0, 0) == frac(0, 1));
        assert(ratio_of(w(0)) == frac(16, 135));
        assert(ratio_of(c(0)) == frac(0, 1));
        assert(frac_pow(frac(0, 1), 0) == frac(1, 1));
        assert(frac_moment(w, c, 0, 1) == frac_add(frac(0, 1), frac_mul(frac(16, 135), frac(1, 1))));
        assert(frac_add(frac(0, 1), frac_mul(frac(16, 135), frac(1, 1))) == frac(16, 135)) by (nonlinear_arith);
        assert(frac_moment(w, c, 0, 1) == frac(16, 135));
        assert(ratio_of(w(1)) == frac(0, 1));
        assert(ratio_of(c(1)) == frac(1, 4));
        assert(frac_pow(frac(1, 4), 0) == frac(1, 1));
        assert(frac_moment(w, c, 0, 2) == frac_add(frac(16, 135), frac_mul(frac(0, 1), frac(1, 1))));
        assert(frac_add(frac(16, 135), frac_mul(frac(0, 1), frac(1, 1))) == frac(16, 135)) by (nonlinear_arith);
        assert(frac_moment(w, c, 0, 2) == frac(16, 135));
        assert(ratio_of(w(2)) == frac(6656, 12825));
        assert(ratio_of(c(2)) == frac(3, 8));
        assert(frac_pow(frac(3, 8), 0) == frac(1, 1));
        assert(frac_moment(w, c, 0, 3) == frac_add(frac(16, 135), frac_mul(frac(6656, 12825), frac(1, 1))));
        assert(frac_add(frac(16, 135), frac_mul(frac(6656, 12825), frac(1, 1))) == frac(1103760, 1731375)) by (nonlinear_arith);
        assert(frac_moment(w, c, 0, 3) == frac(1103760, 1731375));
        assert(ratio_of(w(3)) == frac(28561, 56430));
        assert(ratio_of(c(3)) == frac(12, 13));
        assert(frac_pow(frac(12, 13), 0) == frac(1, 1));
        assert(frac_moment(w, c, 0, 4) == frac_add(frac(1103760, 1731375), frac_mul(frac(28561, 56430), frac(1, 1))));
        assert(frac_add(frac(1103760, 1731375), frac_mul(frac(28561, 56430), frac(1, 1))) == frac(111734978175, 97701491250)) by (nonlinear_arith);
        assert(frac_moment(w, c, 0, 4) == frac(111734978175, 97701491250));
        assert(ratio_of(w(4)) == frac(-9, 50));
        assert(ratio_of(c(4)) == frac(1, 1));
        assert(frac_pow(frac(1, 1), 0) == frac(1, 1));
        assert(frac_moment(w, c, 0, 5) == frac_add(frac(111734978175, 97701491250), frac_mul(frac(-9, 50), frac(1, 1))));
        assert(frac_add(frac(111734978175, 97701491250), frac_mul(frac(-9, 50), frac(1, 1))) == frac(4707435487500, 4885074562500)) by (nonlinear_arith);
        assert(frac_moment(w, c, 0, 5) == frac(4707435487500, 4885074562500));
        assert(ratio_of(w(5)) == frac(2, 55));
        assert(ratio_of(c(5)) == frac(1, 2));
        assert(frac_pow(frac(1, 2), 0) == frac(1, 1));
        assert(frac_moment(w, c, 0, 6) == frac_add(frac(4707435487500, 4885074562500), frac_mul(frac(2, 55), frac(1, 1))));
        assert(frac_add(frac(4707435487500, 4885074562500), frac_mul(frac(2, 55), frac(1, 1))) == frac(268679100937500, 268679100937500)) by (nonlinear_arith);
        assert(frac_moment(w, c, 0, 6) == frac(268679100937500, 268679100937500));
        assert(frac_eq(frac(268679100937500, 268679100937500), frac(1, 1))) by (nonlinear_arith);
    } else if k == 1 {
        assert(frac_moment(w, c, 1, 0) == frac(0, 1));
        assert(ratio_of(w(0)) == frac(16, 135));
        assert(ratio_of(c(0)) == frac(0, 1));
        assert(frac_pow(frac(0, 1), 0) == frac(1, 1));
        assert(frac_pow(frac(0, 1), 1) == frac_mul(frac(0, 1), frac_pow(frac(0, 1), 0)));
        assert(frac_mul(frac(0, 1), frac(1, 1)) == frac(0, 1)) by (nonlinear_arith);
        assert(frac_pow(frac(0, 1), 1) == frac(0, 1));
        assert(frac_moment(w, c, 1, 1) == frac_add(frac(0, 1), frac_mul(frac(16, 135), frac(0, 1))));
        assert(frac_add(frac(0, 1), frac_mul(frac(16, 135), frac(0, 1))) == frac(0, 135)) by (nonlinear_arith);
        assert(frac_moment(w, c, 1, 1) == frac(0, 135));
        assert(ratio_of(w(1)) == frac(0, 1));
        assert(ratio_of(c(1)) == frac(1, 4));
        assert(frac_pow(frac(1, 4), 0) == frac(1, 1));
        assert(frac_pow(frac(1, 4), 1) == frac_mul(frac(1, 4), frac_pow(frac(1, 4), 0)));
        assert(frac_mul(frac(1, 4), frac(1, 1)) == frac(1, 4)) by (nonlinear_arith);
        assert(frac_pow(frac(1, 4), 1) == frac(1, 4));
        assert(frac_moment(w, c, 1, 2) == frac_add(frac(0, 135), frac_mul(frac(0, 1), frac(1, 4))));
        assert(frac_add(frac(0, 135), frac_mul(frac(0, 1), frac(1, 4))) == frac(0, 540)) by (nonlinear_arith);
        assert(frac_moment(w, c, 1, 2) == frac(0, 540));
        assert(ratio_of(w(2)) == frac(6656, 12825));
        assert(ratio_of(c(2)) == frac(3, 8));
        assert(frac_pow(frac(3, 8), 0) == frac(1, 1));
        assert(frac_pow(frac(3, 8), 1) == frac_mul(frac(3, 8), frac_pow(frac(3, 8), 0)));
        assert(frac_mul(frac(3, 8), frac(1, 1)) == frac(3, 8)) by (nonlinear_arith);
        assert(frac_pow(frac(3, 8), 1) == frac(3, 8));
        assert(frac_moment(w, c, 1, 3) == frac_add(frac(0, 540), frac_mul(frac(6656, 12825), frac(3, 8))));
        assert(frac_add(frac(0, 540), frac_mul(frac(6656, 12825), frac(3, 8))) == frac(10782720, 55404000)) by (nonlinear_arith);
        assert(frac_moment(w, c, 1, 3) == frac(10782720, 55404000));
        assert(ratio_of(w(3)) == frac(28561, 56430));
        assert(ratio_of(c(3)) == frac(12, 13));
        assert(frac_pow(frac(12, 13), 0) == frac(1, 1));
        assert(frac_pow(frac(12, 13), 1) == frac_mul(frac(12, 13), frac_pow(frac(12, 13), 0)));
        assert(frac_mul(frac(12, 13), frac(1, 1)) == frac(12, 13)) by (nonlinear_arith);
        assert(frac_pow(frac(12, 13), 1) == frac(12, 13));
        assert(frac_moment(w, c, 1, 4) == frac_add(frac(10782720, 55404000), frac_mul(frac(28561, 56430), frac(12, 13))));
        assert(frac_add(frac(10782720, 55404000), frac_mul(frac(28561, 56430), frac(12, 13))) == frac(26898819292800, 40643820360000)) by (nonlinear_arith);
        assert(frac_moment(w, c, 1, 4) == frac(26898819292800, 40643820360000));
        assert(ratio_of(w(4)) == frac(-9, 50));
        assert(ratio_of(c(4)) == frac(1, 1));
        assert(frac_pow(frac(1, 1), 0) == frac(1, 1));
        assert(frac_pow(frac(1, 1), 1) == frac_mul(frac(1, 1), frac_pow(frac(1, 1), 0)));
        assert(frac_mul(frac(1, 1), frac(1, 1)) == frac(1, 1)) by (nonlinear_arith);
        assert(frac_pow(frac(1, 1), 1) == frac(1, 1));
        assert(frac_moment(w, c, 1, 5) == frac_add(frac(26898819292800, 40643820360000), frac_mul(frac(-9, 50), frac(1, 1))));
        assert(frac_add(frac(26898819292800, 40643820360000), frac_mul(frac(-9, 50), frac(1, 1))) == frac(979146581400000, 2032191018000000)) by (nonlinear_arith);
        assert(frac_moment(w, c, 1, 5) == frac(979146581400000, 2032191018000000));
        assert(ratio_of(w(5)) == frac(2, 55));
        assert(ratio_of(c(5)) == frac(1, 2));
        assert(frac_pow(frac(1, 2), 0) == frac(1, 1));
        assert(frac_pow(frac(1, 2), 1) == frac_mul(frac(1, 2), frac_pow(frac(1, 2), 0)));
        assert(frac_mul(frac(1, 2), frac(1, 1)) == frac(1, 2)) by (nonlinear_arith);
        assert(frac_pow(frac(1, 2), 1) == frac(1, 2));
        assert(frac_moment(w, c, 1, 6) == frac_add(frac(979146581400000, 2032191018000000), frac_mul(frac(2, 55), frac(1, 2))));
        assert(frac_add(frac(979146581400000, 2032191018000000), frac_mul(frac(2, 55), frac(1, 2))) == frac(111770505990000000, 223541011980000000)) by (nonlinear_arith);
        assert(frac_moment(w, c, 1, 6) == frac(111770505990000000, 223541011980000000));
        assert(frac_eq(frac(111770505990000000, 223541011980000000), frac(1, 2))) by (nonlinear_arith);
    } else if k == 2 {
        assert(frac_moment(w, c, 2, 0) == frac(0, 1));
        assert(ratio_of(w(0)) == frac(16, 135));
        assert(ratio_of(c(0)) == frac(0, 1));
        assert(frac_pow(frac(0, 1), 0) == frac(1, 1));
        assert(frac_pow(frac(0, 1), 1) == frac_mul(frac(0, 1), frac_pow(frac(0, 1), 0)));
        assert(frac_mul(frac(0, 1), frac(1, 1)) == frac(0, 1)) by (nonlinear_arith);
        assert(frac_pow(frac(0, 1), 1) == frac(0, 1));
        assert(frac_pow(frac(0, 1), 2) == frac_mul(frac(0, 1), frac_pow(frac(0, 1), 1)));
        assert(frac_mul(frac(0, 1), frac(0, 1)) == frac(0, 1)) by (nonlinear_arith);
        assert(frac_pow(frac(0, 1), 2) == frac(0, 1));
        assert(frac_moment(w, c, 2, 1) == frac_add(frac(0, 1), frac_mul(frac(16, 135), frac(0, 1))));
        assert(frac_add(frac(0, 1), frac_mul(frac(16, 135), frac(0, 1))) == frac(0, 135)) by (nonlinear_arith);
        assert(frac_moment(w, c, 2, 1) == frac(0, 135));
        assert(ratio_of(w(1)) == frac(0, 1));
        assert(ratio_of(c(1)) == frac(1, 4));
        assert(frac_pow(frac(1, 4), 0) == frac(1, 1));
        assert(frac_pow(frac(1, 4), 1) == frac_mul(frac(1, 4), frac_pow(frac(1, 4), 0)));
        assert(frac_mul(frac(1, 4), frac(1, 1)) == frac(1, 4)) by (nonlinear_arith);
        assert(frac_pow(frac(1, 4), 1) == frac(1, 4));
        assert(frac_pow(frac(1, 4), 2) == frac_mul(frac(1, 4), frac_pow(frac(1, 4), 1)));
        assert(frac_mul(frac(1, 4), frac(1, 4)) == frac(1, 16)) by (nonlinear_arith);
        assert(frac_pow(frac(1, 4), 2) == frac(1, 16));
        assert(frac_moment(w, c, 2, 2) == frac_add(frac(0, 135), frac_mul(frac(0, 1), frac(1, 16))));
        assert(frac_add(frac(0, 135), frac_mul(frac(0, 1), frac(1, 16))) == frac(0, 2160)) by (nonlinear_arith);
        assert(frac_moment(w, c, 2, 2) == frac(0, 2160));
        assert(ratio_of(w(2)) == frac(6656, 12825));
        assert(ratio_of(c(2)) == frac(3, 8));
        assert(frac_pow(frac(3, 8), 0) == frac(1, 1));
        assert(frac_pow(frac(3, 8), 1) == frac_mul(frac(3, 8), frac_pow(frac(3, 8), 0)));
        assert(frac_mul(frac(3, 8), frac(1, 1)) == frac(3, 8)) by (nonlinear_arith);
        assert(frac_pow(frac(3, 8), 1) == frac(3, 8));
        assert(frac_pow(frac(3, 8), 2) == frac_mul(frac(3, 8), frac_pow(frac(3, 8), 1)));
        assert(frac_mul(frac(3, 8), frac(3, 8)) == frac(9, 64)) by (nonlinear_arith);
        assert(frac_pow(frac(3, 8), 2) == frac(9, 64));
        assert(frac_moment(w, c, 2, 3) == frac_add(frac(0, 2160), frac_mul(frac(6656, 12825), frac(9, 64))));
        assert(frac_add(frac(0, 2160), frac_mul(frac(6656, 12825), frac(9, 64))) == frac(129392640, 1772928000)) by (nonlinear_arith);
        assert(frac_moment(w, c, 2, 3) == frac(129392640, 1772928000));
        assert(ratio_of(w(3)) == frac(28561, 56430));
        assert(ratio_of(c(3)) == frac(12, 13));
        assert(frac_pow(frac(12, 13), 0) == frac(1, 1));
        assert(frac_pow(frac(12, 13), 1) == frac_mul(frac(12, 13), frac_pow(frac(12, 13), 0)));
        assert(frac_mul(frac(12, 13), frac(1, 1)) == frac(12, 13)) by (nonlinear_arith);
        assert(frac_pow(frac(12, 13), 1) == frac(12, 13));
        assert(frac_pow(frac(12, 13), 2) == frac_mul(frac(12, 13), frac_pow(frac(12, 13), 1)));
        assert(frac_mul(frac(12, 13), frac(12, 13)) == frac(144, 169)) by (nonlinear_arith);
        assert(frac_pow(frac(12, 13), 2) == frac(144, 169));
        assert(frac_moment(w, c, 2, 4) == frac_add(frac(129392640, 1772928000), frac_mul(frac(28561, 56430), frac(144, 169))));
        assert(frac_add(frac(129392640, 1772928000), frac_mul(frac(28561, 56430), frac(144, 169))) == frac(8525644819660800, 16907829269760000)) by (nonlinear_arith);
        assert(frac_moment(w, c, 2, 4) == frac(8525644819660800, 16907829269760000));
        assert(ratio_of(w(4)) == frac(-9, 50));
        assert(ratio_of(c(4)) == frac(1, 1));
        assert(frac_pow(frac(1, 1), 0) == frac(1, 1));
        assert(frac_pow(frac(1, 1), 1) == frac_mul(frac(1, 1), frac_pow(frac(1, 1), 0)));
        assert(frac_mul(frac(1, 1), frac(1, 1)) == frac(1, 1)) by (nonlinear_arith);
        assert(frac_pow(frac(1, 1), 1) == frac(1, 1));
        assert(frac_pow(frac(1, 1), 2) == frac_mul(frac(1, 1), frac_pow(frac(1, 1), 1)));
        assert(frac_mul(frac(1, 1), frac(1, 1)) == frac(1, 1)) by (nonlinear_arith);
        assert(frac_pow(frac(1, 1), 2) == frac(1, 1));
        assert(frac_moment(w, c, 2, 5) == frac_add(frac(8525644819660800, 16907829269760000), frac_mul(frac(-9, 50), frac(1, 1))));
        assert(frac_add(frac(8525644819660800, 16907829269760000), frac_mul(frac(-9, 50), frac(1, 1))) == frac(274111777555200000, 845391463488000000)) by (nonlinear_arith);
        assert(frac_moment(w, c, 2, 5) == frac(274111777555200000, 845391463488000000));
        assert(ratio_of(w(5)) == frac(2, 55));
        assert(ratio_of(c(5)) == frac(1, 2));
        assert(frac_pow(frac(1, 2), 0) == frac(1, 1));
        assert(frac_pow(frac(1, 2), 1) == frac_mul(frac(1, 2), frac_pow(frac(1, 2), 0)));
        assert(frac_mul(frac(1, 2), frac(1, 1)) == frac(1, 2)) by (nonlinear_arith);
        assert(frac_pow(frac(1, 2), 1) == frac(1, 2));
        assert(frac_pow(frac(1, 2), 2) == frac_mul(frac(1, 2), frac_pow(frac(1, 2), 1)));
        assert(frac_mul(frac(1, 2), frac(1, 2)) == frac(1, 4)) by (nonlinear_arith);
        assert(frac_pow(frac(1, 2), 2) == frac(1, 4));
        assert(frac_moment(w, c, 2, 6) == frac_add(frac(274111777555200000, 845391463488000000), frac_mul(frac(2, 55), frac(1, 4))));
        assert(frac_add(frac(274111777555200000, 845391463488000000), frac_mul(frac(2, 55), frac(1, 4))) == frac(61995373989120000000, 185986121967360000000)) by (nonlinear_arith);
        assert(frac_moment(w, c, 2, 6) == frac(61995373989120000000, 185986121967360000000));
        assert(frac_eq(frac(61995373989120000000, 185986121967360000000), frac(1, 3))) by (nonlinear_arith);
    } else if k == 3 {
        assert(frac_moment(w, c, 3, 0) == frac(0, 1));
        assert(ratio_of(w(0)) == frac(16, 135));
        assert(ratio_of(c(0)) == frac(0, 1));
        assert(frac_pow(frac(0, 1), 0) == frac(1, 1));
        assert(frac_pow(frac(0, 1), 1) == frac_mul(frac(0, 1), frac_pow(frac(0, 1), 0)));
        assert(frac_mul(frac(0, 1), frac(1, 1)) == frac(0, 1)) by (nonlinear_arith);
        assert(frac_pow(frac(0, 1), 1) == frac(0, 1));
        assert(frac_pow(frac(0, 1), 2) == frac_mul(frac(0, 1), frac_pow(frac(0, 1), 1)));
        assert(frac_mul(frac(0, 1), frac(0, 1)) == frac(0, 1)) by (nonlinear_arith);
        assert(frac_pow(frac(0, 1), 2) == frac(0, 1));
        assert(frac_pow(frac(0, 1), 3) == frac_mul(frac(0, 1), frac_pow(frac(0, 1), 2)));
        assert(frac_mul(frac(0, 1), frac(0, 1)) == frac(0, 1)) by (nonlinear_arith);
        assert(frac_pow(frac(0, 1), 3) == frac(0, 1));
        assert(frac_moment(w, c, 3, 1) == frac_add(frac(0, 1), frac_mul(frac(16, 135), frac(0, 1))));
        assert(frac_add(frac(0, 1), frac_mul(frac(16, 135), frac(0, 1))) == frac(0, 135)) by (nonlinear_arith);
        assert(frac_moment(w, c, 3, 1) == frac(0, 135));
        assert(ratio_of(w(1)) == frac(0, 1));
        assert(ratio_of(c(1)) == frac(1, 4));
        assert(frac_pow(frac(1, 4), 0) == frac(1, 1));
        assert(frac_pow(frac(1, 4), 1) == frac_mul(frac(1, 4), frac_pow(frac(1, 4), 0)));
        assert(frac_mul(frac(1, 4), frac(1, 1)) == frac(1, 4)) by (nonlinear_arith);
        assert(frac_pow(frac(1, 4), 1) == frac(1, 4));
        assert(frac_pow(frac(1, 4), 2) == frac_mul(frac(1, 4), frac_pow(frac(1, 4), 1)));
        assert(frac_mul(frac(1, 4), frac(1, 4)) == frac(1, 16)) by (nonlinear_arith);
        assert(frac_pow(frac(1, 4), 2) == frac(1, 16));
        assert(frac_pow(frac(1, 4), 3) == frac_mul(frac(1, 4), frac_pow(frac(1, 4), 2)));
        assert(frac_mul(frac(1, 4), frac(1, 16)) == frac(1, 64)) by (nonlinear_arith);
        assert(frac_pow(frac(1, 4), 3) == frac(1, 64));
        assert(frac_moment(w, c, 3, 2) == frac_add(frac(0, 135), frac_mul(frac(0, 1), frac(1, 64))));
        assert(frac_add(frac(0, 135), frac_mul(frac(0, 1), frac(1, 64))) == frac(0, 8640)) by (nonlinear_arith);
        assert(frac_moment(w, c, 3, 2) == frac(0, 8640));
        assert(ratio_of(w(2)) == frac(6656, 12825));
        assert(ratio_of(c(2)) == frac(3, 8));
        assert(frac_pow(frac(3, 8), 0) == frac(1, 1));
        assert(frac_pow(frac(3, 8), 1) == frac_mul(frac(3, 8), frac_pow(frac(3, 8), 0)));
        assert(frac_mul(frac(3, 8), frac(1, 1)) == frac(3, 8)) by (nonlinear_arith);
        assert(frac_pow(frac(3, 8), 1) == frac(3, 8));
        assert(frac_pow(frac(3, 8), 2) == frac_mul(frac(3, 8), frac_pow(frac(3, 8), 1)));
        assert(frac_mul(frac(3, 8), frac(3, 8)) == frac(9, 64)) by (nonlinear_arith);
        assert(frac_pow(frac(3, 8), 2) == frac(9, 64));
        assert(frac_pow(frac(3, 8), 3) == frac_mul(frac(3, 8), frac_pow(frac(3, 8), 2)));
        assert(frac_mul(frac(3, 8), frac(9, 64)) == frac(27, 512)) by (nonlinear_arith);
        assert(frac_pow(frac(3, 8), 3) == frac(27, 512));
        assert(frac_moment(w, c, 3, 3) == frac_add(frac(0, 8640), frac_mul(frac(6656, 12825), frac(27, 512))));
        assert(frac_add(frac(0, 8640), frac_mul(frac(6656, 12825), frac(27, 512))) == frac(1552711680, 56733696000)) by (nonlinear_arith);
        assert(frac_moment(w, c, 3, 3) == frac(1552711680, 56733696000));
        assert(ratio_of(w(3)) == frac(28561, 56430));
        assert(ratio_of(c(3)) == frac(12, 13));
        assert(frac_pow(frac(12, 13), 0) == frac(1, 1));
        assert(frac_pow(frac(12, 13), 1) == frac_mul(frac(12, 13), frac_pow(frac(12, 13), 0)));
        assert(frac_mul(frac(12, 13), frac(1, 1)) == frac(12, 13)) by (nonlinear_arith);
        assert(frac_pow(frac(12, 13), 1) == frac(12, 13));
        assert(frac_pow(frac(12, 13), 2) == frac_mul(frac(12, 13), frac_pow(frac(12, 13), 1)));
        assert(frac_mul(frac(12, 13), frac(12, 13)) == frac(144, 169)) by (nonlinear_arith);
        assert(frac_pow(frac(12, 13), 2) == frac(144, 169));
        assert(frac_pow(frac(12, 13), 3) == frac_mul(frac(12, 13), frac_pow(frac(12, 13), 2)));
        assert(frac_mul(frac(12, 13), frac(144, 169)) == frac(1728, 2197)) by (nonlinear_arith);
        assert(frac_pow(frac(12, 13), 3) == frac(1728, 2197));
        assert(frac_moment(w, c, 3, 4) == frac_add(frac(1552711680, 56733696000), frac_mul(frac(28561, 56430), frac(1728, 2197))));
        assert(frac_add(frac(1552711680, 56733696000), frac_mul(frac(28561, 56430), frac(1728, 2197))) == frac(2992501331700940800, 7033656976220160000)) by (nonlinear_arith);
        assert(frac_moment(w, c, 3, 4) == frac(2992501331700940800, 7033656976220160000));
        assert(ratio_of(w(4)) == frac(-9, 50));
        assert(ratio_of(c(4)) == frac(1, 1));
        assert(frac_pow(frac(1, 1), 0) == frac(1, 1));
        assert(frac_pow(frac(1, 1), 1) == frac_mul(frac(1, 1), frac_pow(frac(1, 1), 0)));
        assert(frac_mul(frac(1, 1), frac(1, 1)) == frac(1, 1)) by (nonlinear_arith);
        assert(frac_pow(frac(1, 1), 1) == frac(1, 1));
        assert(frac_pow(frac(1, 1), 2) == frac_mul(frac(1, 1), frac_pow(frac(1, 1), 1)));
        assert(frac_mul(frac(1, 1), frac(1, 1)) == frac(1, 1)) by (nonlinear_arith);
        assert(frac_pow(frac(1, 1), 2) == frac(1, 1));
        assert(frac_pow(frac(1, 1), 3) == frac_mul(frac(1, 1), frac_pow(frac(1, 1), 2)));
        assert(frac_mul(frac(1, 1), frac(1, 1)) == frac(1, 1)) by (nonlinear_arith);
        assert(frac_pow(frac(1, 1), 3) == frac(1, 1));
        assert(frac_moment(w, c, 3, 5) == frac_add(frac(2992501331700940800, 7033656976220160000), frac_mul(frac(-9, 50), frac(1, 1))));
        assert(frac_add(frac(2992501331700940800, 7033656976220160000), frac_mul(frac(-9, 50), frac(1, 1))) == frac(86322153799065600000, 351682848811008000000)) by (nonlinear_arith);
        assert(frac_moment(w, c, 3, 5) == frac(86322153799065600000, 351682848811008000000));
        assert(ratio_of(w(5)) == frac(2, 55));
        assert(ratio_of(c(5)) == frac(1, 2));
        assert(frac_pow(frac(1, 2), 0) == frac(1, 1));
        assert(frac_pow(frac(1, 2), 1) == frac_mul(frac(1, 2), frac_pow(frac(1, 2), 0)));
        assert(frac_mul(frac(1, 2), frac(1, 1)) == frac(1, 2)) by (nonlinear_arith);
        assert(frac_pow(frac(1, 2), 1) == frac(1, 2));
        assert(frac_pow(frac(1, 2), 2) == frac_mul(frac(1, 2), frac_pow(frac(1, 2), 1)));
        assert(frac_mul(frac(1, 2), frac(1, 2)) == frac(1, 4)) by (nonlinear_arith);
        assert(frac_pow(frac(1, 2), 2) == frac(1, 4));
        assert(frac_pow(frac(1, 2), 3) == frac_mul(frac(1, 2), frac_pow(frac(1, 2), 2)));
        assert(frac_mul(frac(1, 2), frac(1, 4)) == frac(1, 8)) by (nonlinear_arith);
        assert(frac_pow(frac(1, 2), 3) == frac(1, 8));
        assert(frac_moment(w, c, 3, 6) == frac_add(frac(86322153799065600000, 351682848811008000000), frac_mul(frac(2, 55), frac(1, 8))));
        assert(frac_add(frac(86322153799065600000, 351682848811008000000), frac_mul(frac(2, 55), frac(1, 8))) == frac(38685113369210880000000, 154740453476843520000000)) by (nonlinear_arith);
        assert(frac_moment(w, c, 3, 6) == frac(38685113369210880000000, 154740453476843520000000));
        assert(frac_eq(frac(38685113369210880000000, 154740453476843520000000), frac(1, 4))) by (nonlinear_arith);
    } else if k == 4 {
        assert(frac_moment(w, c, 4, 0) == frac(0, 1));
        assert(ratio_of(w(0)) == frac(16, 135));
        assert(ratio_of(c(0)) == frac(0, 1));
        assert(frac_pow(frac(0, 1), 0) == frac(1, 1));
        assert(frac_pow(frac(0, 1), 1) == frac_mul(frac(0, 1), frac_pow(frac(0, 1), 0)));
        assert(frac_mul(frac(0, 1), frac(1, 1)) == frac(0, 1)) by (nonlinear_arith);
        assert(frac_pow(frac(0, 1), 1) == frac(0, 1));
        assert(frac_pow(frac(0, 1), 2) == frac_mul(frac(0, 1), frac_pow(frac(0, 1), 1)));
        assert(frac_mul(frac(0, 1), frac(0, 1)) == frac(0, 1)) by (nonlinear_arith);
        assert(frac_pow(frac(0, 1), 2) == frac(0, 1));
        assert(frac_pow(frac(0, 1), 3) == frac_mul(frac(0, 1), frac_pow(frac(0, 1), 2)));
        assert(frac_mul(frac(0, 1), frac(0, 1)) == frac(0, 1)) by (nonlinear_arith);
        assert(frac_pow(frac(0, 1), 3) == frac(0, 1));
        assert(frac_pow(frac(0, 1), 4) == frac_mul(frac(0, 1), frac_pow(frac(0, 1), 3)));
        assert(frac_mul(frac(0, 1), frac(0, 1)) == frac(0, 1)) by (nonlinear_arith);
        assert(frac_pow(frac(0, 1), 4) == frac(0, 1));
        assert(frac_moment(w, c, 4, 1) == frac_add(frac(0, 1), frac_mul(frac(16, 135), frac(0, 1))));
        assert(frac_add(frac(0, 1), frac_mul(frac(16, 135), frac(0, 1))) == frac(0, 135)) by (nonlinear_arith);
        assert(frac_moment(w, c, 4, 1) == frac(0, 135));
        assert(ratio_of(w(1)) == frac(0, 1));
        assert(ratio_of(c(1)) == frac(1, 4));
        assert(frac_pow(frac(1, 4), 0) == frac(1, 1));
        assert(frac_pow(frac(1, 4), 1) == frac_mul(frac(1, 4), frac_pow(frac(1, 4), 0)));
        assert(frac_mul(frac(1, 4), frac(1, 1)) == frac(1, 4)) by (nonlinear_arith);
        assert(frac_pow(frac(1, 4), 1) == frac(1, 4));
        assert(frac_pow(frac(1, 4), 2) == frac_mul(frac(1, 4), frac_pow(frac(1, 4), 1)));
        assert(frac_mul(frac(1, 4), frac(1, 4)) == frac(1, 16)) by (nonlinear_arith);
        assert(frac_pow(frac(1, 4), 2) == frac(1, 16));
        assert(frac_pow(frac(1, 4), 3) == frac_mul(frac(1, 4), frac_pow(frac(1, 4), 2)));
        assert(frac_mul(frac(1, 4), frac(1, 16)) == frac(1, 64)) by (nonlinear_arith);
        assert(frac_pow(frac(1, 4), 3) == frac(1, 64));
        assert(frac_pow(frac(1, 4), 4) == frac_mul(frac(1, 4), frac_pow(frac(1, 4), 3)));
        assert(frac_mul(frac(1, 4), frac(1, 64)) == frac(1, 256)) by (nonlinear_arith);
        assert(frac_pow(frac(1, 4), 4) == frac(1, 256));
        assert(frac_moment(w, c, 4, 2) == frac_add(frac(0, 135), frac_mul(frac(0, 1), frac(1, 256))));
        assert(frac_add(frac(0, 135), frac_mul(frac(0, 1), frac(1, 256))) == frac(0, 34560)) by (nonlinear_arith);
        assert(frac_moment(w, c, 4, 2) == frac(0, 34560));
        assert(ratio_of(w(2)) == frac(6656, 12825));
        assert(ratio_of(c(2)) == frac(3, 8));
        assert(frac_pow(frac(3, 8), 0) == frac(1, 1));
        assert(frac_pow(frac(3, 8), 1) == frac_mul(frac(3, 8), frac_pow(frac(3, 8), 0)));
        assert(frac_mul(frac(3, 8), frac(1, 1)) == frac(3, 8)) by (nonlinear_arith);
        assert(frac_pow(frac(3, 8), 1) == frac(3, 8));
        assert(frac_pow(frac(3, 8), 2) == frac_mul(frac(3, 8), frac_pow(frac(3, 8), 1)));
        assert(frac_mul(frac(3, 8), frac(3, 8)) == frac(9, 64)) by (nonlinear_arith);
        assert(frac_pow(frac(3, 8), 2) == frac(9, 64));
        assert(frac_pow(frac(3, 8), 3) == frac_mul(frac(3, 8), frac_pow(frac(3, 8), 2)));
        assert(frac_mul(frac(3, 8), frac(9, 64)) == frac(27, 512)) by (nonlinear_arith);
        assert(frac_pow(frac(3, 8), 3) == frac(27, 512));
        assert(frac_pow(frac(3, 8), 4) == frac_mul(frac(3, 8), frac_pow(frac(3, 8), 3)));
        assert(frac_mul(frac(3, 8), frac(27, 512)) == frac(81, 4096)) by (nonlinear_arith);
        assert(frac_pow(frac(3, 8), 4) == frac(81, 4096));
        assert(frac_moment(w, c, 4, 3) == frac_add(frac(0, 34560), frac_mul(frac(6656, 12825), frac(81, 4096))));
        assert(frac_add(frac(0, 34560), frac_mul(frac(6656, 12825), frac(81, 4096))) == frac(18632540160, 1815478272000)) by (nonlinear_arith);
        assert(frac_moment(w, c, 4, 3) == frac(18632540160, 1815478272000));
        assert(ratio_of(w(3)) == frac(28561, 56430));
        assert(ratio_of(c(3)) == frac(12, 13));
        assert(frac_pow(frac(12, 13), 0) == frac(1, 1));
        assert(frac_pow(frac(12, 13), 1) == frac_mul(frac(12, 13), frac_pow(frac(12, 13), 0)));
        assert(frac_mul(frac(12, 13), frac(1, 1)) == frac(12, 13)) by (nonlinear_arith);
        assert(frac_pow(frac(12, 13), 1) == frac(12, 13));
        assert(frac_pow(frac(12, 13), 2) == frac_mul(frac(12, 13), frac_pow(frac(12, 13), 1)));
        assert(frac_mul(frac(12, 13), frac(12, 13)) == frac(144, 169)) by (nonlinear_arith);
        assert(frac_pow(frac(12, 13), 2) == frac(144, 169));
        assert(frac_pow(frac(12, 13), 3) == frac_mul(frac(12, 13), frac_pow(frac(12, 13), 2)));
        assert(frac_mul(frac(12, 13), frac(144, 169)) == frac(1728, 2197)) by (nonlinear_arith);
        assert(frac_pow(frac(12, 13), 3) == frac(1728, 2197));
        assert(frac_pow(frac(12, 13), 4) == frac_mul(frac(12, 13), frac_pow(frac(12, 13), 3)));
        assert(frac_mul(frac(12, 13), frac(1728, 2197)) == frac(20736, 28561)) by (nonlinear_arith);
        assert(frac_pow(frac(12, 13), 4) == frac(20736, 28561));
        assert(frac_moment(w, c, 4, 4) == frac_add(frac(18632540160, 1815478272000), frac_mul(frac(28561, 56430), frac(20736, 28561))));
        assert(frac_add(frac(18632540160, 1815478272000), frac_mul(frac(28561, 56430), frac(20736, 28561))) == frac(1105230491841547468800, 2926001302107586560000)) by (nonlinear_arith);
        assert(frac_moment(w, c, 4, 4) == frac(1105230491841547468800, 2926001302107586560000));
        assert(ratio_of(w(4)) == frac(-9, 50));
        assert(ratio_of(c(4)) == frac(1, 1));
        assert(frac_pow(frac(1, 1), 0) == frac(1, 1));
        assert(frac_pow(frac(1, 1), 1) == frac_mul(frac(1, 1), frac_pow(frac(1, 1), 0)));
        assert(frac_mul(frac(1, 1), frac(1, 1)) == frac(1, 1)) by (nonlinear_arith);
        assert(frac_pow(frac(1, 1), 1) == frac(1, 1));
        assert(frac_pow(frac(1, 1), 2) == frac_mul(frac(1, 1), frac_pow(frac(1, 1), 1)));
        assert(frac_mul(frac(1, 1), frac(1, 1)) == frac(1, 1)) by (nonlinear_arith);
        assert(frac_pow(frac(1, 1), 2) == frac(1, 1));
        assert(frac_pow(frac(1, 1), 3) == frac_mul(frac(1, 1), frac_pow(frac(1, 1), 2)));
        assert(frac_mul(frac(1, 1), frac(1, 1)) == frac(1, 1)) by (nonlinear_arith);
        assert(frac_pow(frac(1, 1), 3) == frac(1, 1));
        assert(frac_pow(frac(1, 1), 4) == frac_mul(frac(1, 1), frac_pow(frac(1, 1), 3)));
        assert(frac_mul(frac(1, 1), frac(1, 1)) == frac(1, 1)) by (nonlinear_arith);
        assert(frac_pow(frac(1, 1), 4) == frac(1, 1));
        assert(frac_moment(w, c, 4, 5) == frac_add(frac(1105230491841547468800, 2926001302107586560000), frac_mul(frac(-9, 50), frac(1, 1))));
        assert(frac_add(frac(1105230491841547468800, 2926001302107586560000), frac_mul(frac(-9, 50), frac(1, 1))) == frac(28927512873109094400000, 146300065105379328000000)) by (nonlinear_arith);
        assert(frac_moment(w, c, 4, 5) == frac(28927512873109094400000, 146300065105379328000000));
        assert(ratio_of(w(5)) == frac(2, 55));
        assert(ratio_of(c(5)) == frac(1, 2));
        assert(frac_pow(frac(1, 2), 0) == frac(1, 1));
        assert(frac_pow(frac(1, 2), 1) == frac_mul(frac(1, 2), frac_pow(frac(1, 2), 0)));
        assert(frac_mul(frac(1, 2), frac(1, 1)) == frac(1, 2)) by (nonlinear_arith);
        assert(frac_pow(frac(1, 2), 1) == frac(1, 2));
        assert(frac_pow(frac(1, 2), 2) == frac_mul(frac(1, 2), frac_pow(frac(1, 2), 1)));
        assert(frac_mul(frac(1, 2), frac(1, 2)) == frac(1, 4)) by (nonlinear_arith);
        assert(frac_pow(frac(1, 2), 2) == frac(1, 4));
        assert(frac_pow(frac(1, 2), 3) == frac_mul(frac(1, 2), frac_pow(frac(1, 2), 2)));
        assert(frac_mul(frac(1, 2), frac(1, 4)) == frac(1, 8)) by (nonlinear_arith);
        assert(frac_pow(frac(1, 2), 3) == frac(1, 8));
        assert(frac_pow(frac(1, 2), 4) == frac_mul(frac(1, 2), frac_pow(frac(1, 2), 3)));
        assert(frac_mul(frac(1, 2), frac(1, 8)) == frac(1, 16)) by (nonlinear_arith);
        assert(frac_pow(frac(1, 2), 4) == frac(1, 16));
        assert(frac_moment(w, c, 4, 6) == frac_add(frac(28927512873109094400000, 146300065105379328000000), frac_mul(frac(2, 55), frac(1, 16))));
        assert(frac_add(frac(28927512873109094400000, 146300065105379328000000), frac_mul(frac(2, 55), frac(1, 16))) == frac(25748811458546761728000000, 128744057292733808640000000)) by (nonlinear_arith);
        assert(frac_moment(w, c, 4, 6) == frac(25748811458546761728000000, 128744057292733808640000000));
        assert(frac_eq(frac(25748811458546761728000000, 128744057292733808640000000), frac(1, 5))) by (nonlinear_arith);
    }
}

/// The fourth-order weights integrate every polynomial of degree at most three
/// exactly on the nodes: `Σ_i b*_i c_i^k = 1 / (k + 1)` for `k ≤ 3`.
pub proof fn lemma_fehlberg_weights4_order(k: nat)
    requires
        k <= 3,
    ensures
        frac_eq(
            frac_moment(|i: int| fehlberg_weight4(i), |i: int| fehlberg_node(i), k, 6),
            frac(1, k + 1 as int),
        ),
{
    let w = |i: int| fehlberg_weight4(i);
    let c = |i: int| fehlberg_node(i);
    if k == 0 {
        assert(frac_moment(w, c, 0, 0) == frac(0, 1));
        assert(ratio_of(w(0)) == frac(25, 216));
        assert(ratio_of(c(0)) == frac(0, 1));
        assert(frac_pow(frac(0, 1), 0) == frac(1, 1));
        assert(frac_moment(w, c, 0, 1) == frac_add(frac(0, 1), frac_mul(frac(25, 216), frac(1, 1))));
        assert(frac_add(frac(0, 1), frac_mul(frac(25, 216), frac(1, 1))) == frac(25, 216)) by (nonlinear_arith);
        assert(frac_moment(w, c, 0, 1) == frac(25, 216));
        assert(ratio_of(w(1)) == frac(0, 1));
        assert(ratio_of(c(1)) == frac(1, 4));
        assert(frac_pow(frac(1, 4), 0) == frac(1, 1));
        assert(frac_moment(w, c, 0, 2) == frac_add(frac(25, 216), frac_mul(frac(0, 1), frac(1, 1))));
        assert(frac_add(frac(25, 216), frac_mul(frac(0, 1), frac(1, 1))) == frac(25, 216)) by (nonlinear_arith);
        assert(frac_moment(w, c, 0, 2) == frac(25, 216));
        assert(ratio_of(w(2)) == frac(1408, 2565));
        assert(ratio_of(c(2)) == frac(3, 8));
        assert(frac_pow(frac(3, 8), 0) == frac(1, 1));
        assert(frac_moment(w, c, 0, 3) == frac_add(frac(25, 216), frac_mul(frac(1408, 2565), frac(1, 1))));
        assert(frac_add(frac(25, 216), frac_mul(frac(1408, 2565), frac(1, 1))) == frac(368253, 554040)) by (nonlinear_arith);
        assert(frac_moment(w, c, 0, 3) == frac(368253, 554040));
        assert(ratio_of(w(3)) == frac(2197, 4104));
        assert(ratio_of(c(3)) == frac(12, 13));
        assert(frac_pow(frac(12, 13), 0) == frac(1, 1));
        assert(frac_moment(w, c, 0, 4) == frac_add(frac(368253, 554040), frac_mul(frac(2197, 4104), frac(1, 1))));
        assert(frac_add(frac(368253, 554040), frac_mul(frac(2197, 4104), frac(1, 1))) == frac(2728536192, 2273780160)) by (nonlinear_arith);
        assert(frac_moment(w, c, 0, 4) == frac(2728536192, 2273780160));
        assert(ratio_of(w(4)) == frac(-1, 5));
        assert(ratio_of(c(4)) == frac(1, 1));
        assert(frac_pow(frac(1, 1), 0) == frac(1, 1));
        assert(frac_moment(w, c, 0, 5) == frac_add(frac(2728536192, 2273780160), frac_mul(frac(-1, 5), frac(1, 1))));
        assert(frac_add(frac(2728536192, 2273780160), frac_mul(frac(-1, 5), frac(1, 1))) == frac(11368900800, 11368900800)) by (nonlinear_arith);
        assert(frac_moment(w, c, 0, 5) == frac(11368900800, 11368900800));
        assert(ratio_of(w(5)) == frac(0, 1));
        assert(ratio_of(c(5)) == frac(1, 2));
        assert(frac_pow(frac(1, 2), 0) == frac(1, 1));
        assert(frac_moment(w, c, 0, 6) == frac_add(frac(11368900800, 11368900800), frac_mul(frac(0, 1), frac(1, 1))));
        assert(frac_add(frac(11368900800, 11368900800), frac_mul(frac(0, 1), frac(1, 1))) == frac(11368900800, 11368900800)) by (nonlinear_arith);
        assert(frac_moment(w, c, 0, 6) == frac(11368900800, 11368900800));
        assert(frac_eq(frac(11368900800, 11368900800), frac(1, 1))) by (nonlinear_arith);
    } else if k == 1 {
        assert(frac_moment(w, c, 1, 0) == frac(0, 1));
        assert(ratio_of(w(0)) == frac(25, 216));
        assert(ratio_of(c(0)) == frac(0, 1));
        assert(frac_pow(frac(0, 1), 0) == frac(1, 1));
        assert(frac_pow(frac(0, 1), 1) == frac_mul(frac(0, 1), frac_pow(frac(0, 1), 0)));
        assert(frac_mul(frac(0, 1), frac(1, 1)) == frac(0, 1)) by (nonlinear_arith);
        assert(frac_pow(frac(0, 1), 1) == frac(0, 1));
        assert(frac_moment(w, c, 1, 1) == frac_add(frac(0, 1), frac_mul(frac(25, 216), frac(0, 1))));
        assert(frac_add(frac(0, 1), frac_mul(frac(25, 216), frac(0, 1))) == frac(0, 216)) by (nonlinear_arith);
        assert(frac_moment(w, c, 1, 1) == frac(0, 216));
        assert(ratio_of(w(1)) == frac(0, 1));
        assert(ratio_of(c(1)) == frac(1, 4));
        assert(frac_pow(frac(1, 4), 0) == frac(1, 1));
        assert(frac_pow(frac(1, 4), 1) == frac_mul(frac(1, 4), frac_pow(frac(1, 4), 0)));
        assert(frac_mul(frac(1, 4), frac(1, 1)) == frac(1, 4)) by (nonlinear_arith);
        assert(frac_pow(frac(1, 4), 1) == frac(1, 4));
        assert(frac_moment(w, c, 1, 2) == frac_add(frac(0, 216), frac_mul(frac(0, 1), frac(1, 4))));
        assert(frac_add(frac(0, 216), frac_mul(frac(0, 1), frac(1, 4))) == frac(0, 864)) by (nonlinear_arith);
        assert(frac_moment(w, c, 1, 2) == frac(0, 864));
        assert(ratio_of(w(2)) == frac(1408, 2565));
        assert(ratio_of(c(2)) == frac(3, 8));
        assert(frac_pow(frac(3, 8), 0) == frac(1, 1));
        assert(frac_pow(frac(3, 8), 1) == frac_mul(frac(3, 8), frac_pow(frac(3, 8), 0)));
        assert(frac_mul(frac(3, 8), frac(1, 1)) == frac(3, 8)) by (nonlinear_arith);
        assert(frac_pow(frac(3, 8), 1) == frac(3, 8));
        assert(frac_moment(w, c, 1, 3) == frac_add(frac(0, 864), frac_mul(frac(1408, 2565), frac(3, 8))));
        assert(frac_add(frac(0, 864), frac_mul(frac(1408, 2565), frac(3, 8))) == frac(3649536, 17729280)) by (nonlinear_arith);
        assert(frac_moment(w, c, 1, 3) == frac(3649536, 17729280));
        assert(ratio_of(w(3)) == frac(2197, 4104));
        assert(ratio_of(c(3)) == frac(12, 13));
        assert(frac_pow(frac(12, 13), 0) == frac(1, 1));
        assert(frac_pow(frac(12, 13), 1) == frac_mul(frac(12, 13), frac_pow(frac(12, 13), 0)));
        assert(frac_mul(frac(12, 13), frac(1, 1)) == frac(12, 13)) by (nonlinear_arith);
        assert(frac_pow(frac(12, 13), 1) == frac(12, 13));
        assert(frac_moment(w, c, 1, 4) == frac_add(frac(3649536, 17729280), frac_mul(frac(2197, 4104), frac(12, 13))));
        assert(frac_add(frac(3649536, 17729280), frac_mul(frac(2197, 4104), frac(12, 13))) == frac(662124782592, 945892546560)) by (nonlinear_arith);
        assert(frac_moment(w, c, 1, 4) == frac(662124782592, 945892546560));
        assert(ratio_of(w(4)) == frac(-1, 5));
        assert(ratio_of(c(4)) == frac(1, 1));
        assert(frac_pow(frac(1, 1), 0) == frac(1, 1));
        assert(frac_pow(frac(1, 1), 1) == frac_mul(frac(1, 1), frac_pow(frac(1, 1), 0)));
        assert(frac_mul(frac(1, 1), frac(1, 1)) == frac(1, 1)) by (nonlinear_arith);
        assert(frac_pow(frac(1, 1), 1) == frac(1, 1));
        assert(frac_moment(w, c, 1, 5) == frac_add(frac(662124782592, 945892546560), frac_mul(frac(-1, 5), frac(1, 1))));
        assert(frac_add(frac(662124782592, 945892546560), frac_mul(frac(-1, 5), frac(1, 1))) == frac(2364731366400, 4729462732800)) by (nonlinear_arith);
        assert(frac_moment(w, c, 1, 5) == frac(2364731366400, 4729462732800));
        assert(ratio_of(w(5)) == frac(0, 1));
        assert(ratio_of(c(5)) == frac(1, 2));
        assert(frac_pow(frac(1, 2), 0) == frac(1, 1));
        assert(frac_pow(frac(1, 2), 1) == frac_mul(frac(1, 2), frac_pow(frac(1, 2), 0)));
        assert(frac_mul(frac(1, 2), frac(1, 1)) == frac(1, 2)) by (nonlinear_arith);
        assert(frac_pow(frac(1, 2), 1) == frac(1, 2));
        assert(frac_moment(w, c, 1, 6) == frac_add(frac(2364731366400, 4729462732800), frac_mul(frac(0, 1), frac(1, 2))));
        assert(frac_add(frac(2364731366400, 4729462732800), frac_mul(frac(0, 1), frac(1, 2))) == frac(4729462732800, 9458925465600)) by (nonlinear_arith);
        assert(frac_moment(w, c, 1, 6) == frac(4729462732800, 9458925465600));
        assert(frac_eq(frac(4729462732800, 9458925465600), frac(1, 2))) by (nonlinear_arith);
    } else if k == 2 {
        assert(frac_moment(w, c, 2, 0) == frac(0, 1));
        assert(ratio_of(w(0)) == frac(25, 216));
        assert(ratio_of(c(0)) == frac(0, 1));
        assert(frac_pow(frac(0, 1), 0) == frac(1, 1));
        assert(frac_pow(frac(0, 1), 1) == frac_mul(frac(0, 1), frac_pow(frac(0, 1), 0)));
        assert(frac_mul(frac(0, 1), frac(1, 1)) == frac(0, 1)) by (nonlinear_arith);
        assert(frac_pow(frac(0, 1), 1) == frac(0, 1));
        assert(frac_pow(frac(0, 1), 2) == frac_mul(frac(0, 1), frac_pow(frac(0, 1), 1)));
        assert(frac_mul(frac(0, 1), frac(0, 1)) == frac(0, 1)) by (nonlinear_arith);
        assert(frac_pow(frac(0, 1), 2) == frac(0, 1));
        assert(frac_moment(w, c, 2, 1) == frac_add(frac(0, 1), frac_mul(frac(25, 216), frac(0, 1))));
        assert(frac_add(frac(0, 1), frac_mul(frac(25, 216), frac(0, 1))) == frac(0, 216)) by (nonlinear_arith);
        assert(frac_moment(w, c, 2, 1) == frac(0, 216));
        assert(ratio_of(w(1)) == frac(0, 1));
        assert(ratio_of(c(1)) == frac(1, 4));
        assert(frac_pow(frac(1, 4), 0) == frac(1, 1));
        assert(frac_pow(frac(1, 4), 1) == frac_mul(frac(1, 4), frac_pow(frac(1, 4), 0)));
        assert(frac_mul(frac(1, 4), frac(1, 1)) == frac(1, 4)) by (nonlinear_arith);
        assert(frac_pow(frac(1, 4), 1) == frac(1, 4));
        assert(frac_pow(frac(1, 4), 2) == frac_mul(frac(1, 4), frac_pow(frac(1, 4), 1)));
        assert(frac_mul(frac(1, 4), frac(1, 4)) == frac(1, 16)) by (nonlinear_arith);
        assert(frac_pow(frac(1, 4), 2) == frac(1, 16));
        assert(frac_moment(w, c, 2, 2) == frac_add(frac(0, 216), frac_mul(frac(0, 1), frac(1, 16))));
        assert(frac_add(frac(0, 216), frac_mul(frac(0, 1), frac(1, 16))) == frac(0, 3456)) by (nonlinear_arith);
        assert(frac_moment(w, c, 2, 2) == frac(0, 3456));
        assert(ratio_of(w(2)) == frac(1408, 2565));
        assert(ratio_of(c(2)) == frac(3, 8));
        assert(frac_pow(frac(3, 8), 0) == frac(1, 1));
        assert(frac_pow(frac(3, 8), 1) == frac_mul(frac(3, 8), frac_pow(frac(3, 8), 0)));
        assert(frac_mul(frac(3, 8), frac(1, 1)) == frac(3, 8)) by (nonlinear_arith);
        assert(frac_pow(frac(3, 8), 1) == frac(3, 8));
        assert(frac_pow(frac(3, 8), 2) == frac_mul(frac(3, 8), frac_pow(frac(3, 8), 1)));
        assert(frac_mul(frac(3, 8), frac(3, 8)) == frac(9, 64)) by (nonlinear_arith);
        assert(frac_pow(frac(3, 8), 2) == frac(9, 64));
        assert(frac_moment(w, c, 2, 3) == frac_add(frac(0, 3456), frac_mul(frac(1408, 2565), frac(9, 64))));
        assert(frac_add(frac(0, 3456), frac_mul(frac(1408, 2565), frac(9, 64))) == frac(43794432, 567336960)) by (nonlinear_arith);
        assert(frac_moment(w, c, 2, 3) == frac(43794432, 567336960));
        assert(ratio_of(w(3)) == frac(2197, 4104));
        assert(ratio_of(c(3)) == frac(12, 13));
        assert(frac_pow(frac(12, 13), 0) == frac(1, 1));
        assert(frac_pow(frac(12, 13), 1) == frac_mul(frac(12, 13), frac_pow(frac(12, 13), 0)));
        assert(frac_mul(frac(12, 13), frac(1, 1)) == frac(12, 13)) by (nonlinear_arith);
        assert(frac_pow(frac(12, 13), 1) == frac(12, 13));
        assert(frac_pow(frac(12, 13), 2) == frac_mul(frac(12, 13), frac_pow(frac(12, 13), 1)));
        assert(frac_mul(frac(12, 13), frac(12, 13)) == frac(144, 169)) by (nonlinear_arith);
        assert(frac_pow(frac(12, 13), 2) == frac(144, 169));
        assert(frac_moment(w, c, 2, 4) == frac_add(frac(43794432, 567336960), frac_mul(frac(2197, 4104), frac(144, 169))));
        assert(frac_add(frac(43794432, 567336960), frac_mul(frac(2197, 4104), frac(144, 169))) == frac(209862026330112, 393491299368960)) by (nonlinear_arith);
        assert(frac_moment(w, c, 2, 4) == frac(209862026330112, 393491299368960));
        assert(ratio_of(w(4)) == frac(-1, 5));
        assert(ratio_of(c(4)) == frac(1, 1));
        assert(frac_pow(frac(1, 1), 0) == frac(1, 1));
        assert(frac_pow(frac(1, 1), 1) == frac_mul(frac(1, 1), frac_pow(frac(1, 1), 0)));
        assert(frac_mul(frac(1, 1), frac(1, 1)) == frac(1, 1)) by (nonlinear_arith);
        assert(frac_pow(frac(1, 1), 1) == frac(1, 1));
        assert(frac_pow(frac(1, 1), 2) == frac_mul(frac(1, 1), frac_pow(frac(1, 1), 1)));
        assert(frac_mul(frac(1, 1), frac(1, 1)) == frac(1, 1)) by (nonlinear_arith);
        assert(frac_pow(frac(1, 1), 2) == frac(1, 1));
        assert(frac_moment(w, c, 2, 5) == frac_add(frac(209862026330112, 393491299368960), frac_mul(frac(-1, 5), frac(1, 1))));
        assert(frac_add(frac(209862026330112, 393491299368960), frac_mul(frac(-1, 5), frac(1, 1))) == frac(655818832281600, 1967456496844800)) by (nonlinear_arith);
        assert(frac_moment(w, c, 2, 5) == frac(655818832281600, 1967456496844800));
        assert(ratio_of(w(5)) == frac(0, 1));
        assert(ratio_of(c(5)) == frac(1, 2));
        assert(frac_pow(frac(1, 2), 0) == frac(1, 1));
        assert(frac_pow(frac(1, 2), 1) == frac_mul(frac(1, 2), frac_pow(frac(1, 2), 0)));
        assert(frac_mul(frac(1, 2), frac(1, 1)) == frac(1, 2)) by (nonlinear_arith);
        assert(frac_pow(frac(1, 2), 1) == frac(1, 2));
        assert(frac_pow(frac(1, 2), 2) == frac_mul(frac(1, 2), frac_pow(frac(1, 2), 1)));
        assert(frac_mul(frac(1, 2), frac(1, 2)) == frac(1, 4)) by (nonlinear_arith);
        assert(frac_pow(frac(1, 2), 2) == frac(1, 4));
        assert(frac_moment(w, c, 2, 6) == frac_add(frac(655818832281600, 1967456496844800), frac_mul(frac(0, 1), frac(1, 4))));
        assert(frac_add(frac(655818832281600, 1967456496844800), frac_mul(frac(0, 1), frac(1, 4))) == frac(2623275329126400, 7869825987379200)) by (nonlinear_arith);
        assert(frac_moment(w, c, 2, 6) == frac(2623275329126400, 7869825987379200));
        assert(frac_eq(frac(2623275329126400, 7869825987379200), frac(1, 3))) by (nonlinear_arith);
    } else if k == 3 {
        assert(frac_moment(w, c, 3, 0) == frac(0, 1));
        assert(ratio_of(w(0)) == frac(25, 216));
        assert(ratio_of(c(0)) == frac(0, 1));
        assert(frac_pow(frac(0, 1), 0) == frac(1, 1));
        assert(frac_pow(frac(0, 1), 1) == frac_mul(frac(0, 1), frac_pow(frac(0, 1), 0)));
        assert(frac_mul(frac(0, 1), frac(1, 1)) == frac(0, 1)) by (nonlinear_arith);
        assert(frac_pow(frac(0, 1), 1) == frac(0, 1));
        assert(frac_pow(frac(0, 1), 2) == frac_mul(frac(0, 1), frac_pow(frac(0, 1), 1)));
        assert(frac_mul(frac(0, 1), frac(0, 1)) == frac(0, 1)) by (nonlinear_arith);
        assert(frac_pow(frac(0, 1), 2) == frac(0, 1));
        assert(frac_pow(frac(0, 1), 3) == frac_mul(frac(0, 1), frac_pow(frac(0, 1), 2)));
        assert(frac_mul(frac(0, 1), frac(0, 1)) == frac(0, 1)) by (nonlinear_arith);
        assert(frac_pow(frac(0, 1), 3) == frac(0, 1));
        assert(frac_moment(w, c, 3, 1) == frac_add(frac(0, 1), frac_mul(frac(25, 216), frac(0, 1))));
        assert(frac_add(frac(0, 1), frac_mul(frac(25, 216), frac(0, 1))) == frac(0, 216)) by (nonlinear_arith);
        assert(frac_moment(w, c, 3, 1) == frac(0, 216));
        assert(ratio_of(w(1)) == frac(0, 1));
        assert(ratio_of(c(1)) == frac(1, 4));
        assert(frac_pow(frac(1, 4), 0) == frac(1, 1));
        assert(frac_pow(frac(1, 4), 1) == frac_mul(frac(1, 4), frac_pow(frac(1, 4), 0)));
        assert(frac_mul(frac(1, 4), frac(1, 1)) == frac(1, 4)) by (nonlinear_arith);
        assert(frac_pow(frac(1, 4), 1) == frac(1, 4));
        assert(frac_pow(frac(1, 4), 2) == frac_mul(frac(1, 4), frac_pow(frac(1, 4), 1)));
        assert(frac_mul(frac(1, 4), frac(1, 4)) == frac(1, 16)) by (nonlinear_arith);
        assert(frac_pow(frac(1, 4), 2) == frac(1, 16));
        assert(frac_pow(frac(1, 4), 3) == frac_mul(frac(1, 4), frac_pow(frac(1, 4), 2)));
        assert(frac_mul(frac(1, 4), frac(1, 16)) == frac(1, 64)) by (nonlinear_arith);
        assert(frac_pow(frac(1, 4), 3) == frac(1, 64));
        assert(frac_moment(w, c, 3, 2) == frac_add(frac(0, 216), frac_mul(frac(0, 1), frac(1, 64))));
        assert(frac_add(frac(0, 216), frac_mul(frac(0, 1), frac(1, 64))) == frac(0, 13824)) by (nonlinear_arith);
        assert(frac_moment(w, c, 3, 2) == frac(0, 13824));
        assert(ratio_of(w(2)) == frac(1408, 2565));
        assert(ratio_of(c(2)) == frac(3, 8));
        assert(frac_pow(frac(3, 8), 0) == frac(1, 1));
        assert(frac_pow(frac(3, 8), 1) == frac_mul(frac(3, 8), frac_pow(frac(3, 8), 0)));
        assert(frac_mul(frac(3, 8), frac(1, 1)) == frac(3, 8)) by (nonlinear_arith);
        assert(frac_pow(frac(3, 8), 1) == frac(3, 8));
        assert(frac_pow(frac(3, 8), 2) == frac_mul(frac(3, 8), frac_pow(frac(3, 8), 1)));
        assert(frac_mul(frac(3, 8), frac(3, 8)) == frac(9, 64)) by (nonlinear_arith);
        assert(frac_pow(frac(3, 8), 2) == frac(9, 64));
        assert(frac_pow(frac(3, 8), 3) == frac_mul(frac(3, 8), frac_pow(frac(3, 8), 2)));
        assert(frac_mul(frac(3, 8), frac(9, 64)) == frac(27, 512)) by (nonlinear_arith);
        assert(frac_pow(frac(3, 8), 3) == frac(27, 512));
        assert(frac_moment(w, c, 3, 3) == frac_add(frac(0, 13824), frac_mul(frac(1408, 2565), frac(27, 512))));
        assert(frac_add(frac(0, 13824), frac_mul(frac(1408, 2565), frac(27, 512))) == frac(525533184, 18154782720)) by (nonlinear_arith);
        assert(frac_moment(w, c, 3, 3) == frac(525533184, 18154782720));
        assert(ratio_of(w(3)) == frac(2197, 4104));
        assert(ratio_of(c(3)) == frac(12, 13));
        assert(frac_pow(frac(12, 13), 0) == frac(1, 1));
        assert(frac_pow(frac(12, 13), 1) == frac_mul(frac(12, 13), frac_pow(frac(12, 13), 0)));
        assert(frac_mul(frac(12, 13), frac(1, 1)) == frac(12, 13)) by (nonlinear_arith);
        assert(frac_pow(frac(12, 13), 1) == frac(12, 13));
        assert(frac_pow(frac(12, 13), 2) == frac_mul(frac(12, 13), frac_pow(frac(12, 13), 1)));
        assert(frac_mul(frac(12, 13), frac(12, 13)) == frac(144, 169)) by (nonlinear_arith);
        assert(frac_pow(frac(12, 13), 2) == frac(144, 169));
        assert(frac_pow(frac(12, 13), 3) == frac_mul(frac(12, 13), frac_pow(frac(12, 13), 2)));
        assert(frac_mul(frac(12, 13), frac(144, 169)) == frac(1728, 2197)) by (nonlinear_arith);
        assert(frac_pow(frac(12, 13), 3) == frac(1728, 2197));
        assert(frac_moment(w, c, 3, 4) == frac_add(frac(525533184, 18154782720), frac_mul(frac(2197, 4104), frac(1728, 2197))));
        assert(frac_add(frac(525533184, 18154782720), frac_mul(frac(2197, 4104), frac(1728, 2197))) == frac(73661571241869312, 163692380537487360)) by (nonlinear_arith);
        assert(frac_moment(w, c, 3, 4) == frac(73661571241869312, 163692380537487360));
        assert(ratio_of(w(4)) == frac(-1, 5));
        assert(ratio_of(c(4)) == frac(1, 1));
        assert(frac_pow(frac(1, 1), 0) == frac(1, 1));
        assert(frac_pow(frac(1, 1), 1) == frac_mul(frac(1, 1), frac_pow(frac(1, 1), 0)));
        assert(frac_mul(frac(1, 1), frac(1, 1)) == frac(1, 1)) by (nonlinear_arith);
        assert(frac_pow(frac(1, 1), 1) == frac(1, 1));
        assert(frac_pow(frac(1, 1), 2) == frac_mul(frac(1, 1), frac_pow(frac(1, 1), 1)));
        assert(frac_mul(frac(1, 1), frac(1, 1)) == frac(1, 1)) by (nonlinear_arith);
        assert(frac_pow(frac(1, 1), 2) == frac(1, 1));
        assert(frac_pow(frac(1, 1), 3) == frac_mul(frac(1, 1), frac_pow(frac(1, 1), 2)));
        assert(frac_mul(frac(1, 1), frac(1, 1)) == frac(1, 1)) by (nonlinear_arith);
        assert(frac_pow(frac(1, 1), 3) == frac(1, 1));
        assert(frac_moment(w, c, 3, 5) == frac_add(frac(73661571241869312, 163692380537487360), frac_mul(frac(-1, 5), frac(1, 1))));
        assert(frac_add(frac(73661571241869312, 163692380537487360), frac_mul(frac(-1, 5), frac(1, 1))) == frac(204615475671859200, 818461902687436800)) by (nonlinear_arith);
        assert(frac_moment(w, c, 3, 5) == frac(204615475671859200, 818461902687436800));
        assert(ratio_of(w(5)) == frac(0, 1));
        assert(ratio_of(c(5)) == frac(1, 2));
        assert(frac_pow(frac(1, 2), 0) == frac(1, 1));
        assert(frac_pow(frac(1, 2), 1) == frac_mul(frac(1, 2), frac_pow(frac(1, 2), 0)));
        assert(frac_mul(frac(1, 2), frac(1, 1)) == frac(1, 2)) by (nonlinear_arith);
        assert(frac_pow(frac(1, 2), 1) == frac(1, 2));
        assert(frac_pow(frac(1, 2), 2) == frac_mul(frac(1, 2), frac_pow(frac(1, 2), 1)));
        assert(frac_mul(frac(1, 2), frac(1, 2)) == frac(1, 4)) by (nonlinear_arith);
        assert(frac_pow(frac(1, 2), 2) == frac(1, 4));
        assert(frac_pow(frac(1, 2), 3) == frac_mul(frac(1, 2), frac_pow(frac(1, 2), 2)));
        assert(frac_mul(frac(1, 2), frac(1, 4)) == frac(1, 8)) by (nonlinear_arith);
        assert(frac_pow(frac(1, 2), 3) == frac(1, 8));
        assert(frac_moment(w, c, 3, 6) == frac_add(frac(204615475671859200, 818461902687436800), frac_mul(frac(0, 1), frac(1, 8))));
        assert(frac_add(frac(204615475671859200, 818461902687436800), frac_mul(frac(0, 1), frac(1, 8))) == frac(1636923805374873600, 6547695221499494400)) by (nonlinear_arith);
        assert(frac_moment(w, c, 3, 6) == frac(1636923805374873600, 6547695221499494400));
        assert(frac_eq(frac(1636923805374873600, 6547695221499494400), frac(1, 4))) by (nonlinear_arith);
    }
}

} // verus!
