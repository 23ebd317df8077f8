use argmin::{
    ArgminTrustRegion, CauchyPoint, CostFunction, Error, Executor, Gradient, Hessian, IterState,
    IterationDelta, OpWrapper, Operator, Scalar, Solver, TerminationReason, VectorSpace,
};

#[derive(Clone, Copy, Debug, PartialEq)]
struct Real(f64);

impl Scalar for Real {
    fn zero() -> Self {
        Real(0.0)
    }

    fn one() -> Self {
        Real(1.0)
    }

    fn nan() -> Self {
        Real(f64::NAN)
    }

    fn at_most(&self, other: &Self) -> bool {
        self.0 <= other.0
    }

    fn min(&self, other: &Self) -> Self {
        Real(self.0.min(other.0))
    }

    fn neg(&self) -> Self {
        Real(-self.0)
    }

    fn times(&self, other: &Self) -> Self {
        Real(self.0 * other.0)
    }

    fn over(&self, other: &Self) -> Self {
        Real(self.0 / other.0)
    }

    fn powi(&self, exponent: i32) -> Self {
        Real(self.0.powi(exponent))
    }
}

#[derive(Clone, Copy, Debug, Default, PartialEq)]
struct Point([f64; 2]);

#[derive(Clone, Copy, Debug, Default, PartialEq)]
struct Form([[f64; 2]; 2]);

impl Point {
    fn dot(&self, other: &Point) -> f64 {
        self.0[0] * other.0[0] + self.0[1] * other.0[1]
    }

    fn plus(&self, other: &Point) -> Point {
        Point([self.0[0] + other.0[0], self.0[1] + other.0[1]])
    }
}

impl Form {
    fn apply(&self, p: &Point) -> Point {
        Point([
            self.0[0][0] * p.0[0] + self.0[0][1] * p.0[1],
            self.0[1][0] * p.0[0] + self.0[1][1] * p.0[1],
        ])
    }
}

impl VectorSpace<Real, Form> for Point {
    fn norm(&self) -> Real {
        Real(self.dot(self).sqrt())
    }

    fn weighted_dot(&self, weight: &Form, other: &Self) -> Real {
        Real(self.dot(&weight.apply(other)))
    }

    fn scale(&self, factor: &Real) -> Self {
        Point([self.0[0] * factor.0, self.0[1] * factor.0])
    }
}

fn key(cost: f64) -> i64 {
    let bits = cost.to_bits() as i64;
    if bits < 0 {
        bits ^ i64::MAX
    } else {
        bits
    }
}

fn cost_of(key: i64) -> f64 {
    let bits = if key < 0 { key ^ i64::MAX } else { key };
    f64::from_bits(bits as u64)
}

// x'Ax / 2 - b'x, with its minimum where Ax = b.
struct Bowl {
    a: Form,
    b: Point,
}

impl Operator for Bowl {
    type Param = Point;
    type Hessian = Form;
    type Error = String;
}

impl CostFunction for Bowl {
    fn cost(&self, p: &Point) -> Result<i64, String> {
        Ok(key(0.5 * p.dot(&self.a.apply(p)) - self.b.dot(p)))
    }
}

impl Gradient for Bowl {
    fn gradient(&self, p: &Point) -> Result<Point, String> {
        let ap = self.a.apply(p);
        Ok(Point([ap.0[0] - self.b.0[0], ap.0[1] - self.b.0[1]]))
    }
}

impl Hessian for Bowl {
    fn hessian(&self, _p: &Point) -> Result<Form, String> {
        Ok(self.a)
    }
}

// The trust-region method: it hands each subproblem to the solver it holds,
// takes the step if the cost falls as the model says, and widens or narrows
// the region by how well the model did. It stops at a gradient of length
// zero before the subproblem is set up.
struct TrustRegion<R> {
    subproblem: R,
    radius: f64,
    max_radius: f64,
    tolerance: f64,
}

impl<R> Solver<Bowl> for TrustRegion<R>
where
    R: Solver<Bowl> + ArgminTrustRegion<Real, Point, Form>,
{
    fn next_iter(
        &mut self,
        op: &mut OpWrapper<Bowl>,
        state: &IterState<Bowl>,
    ) -> Result<IterationDelta<Bowl>, Error<String>> {
        let x = *state.get_param().unwrap();
        let cost = cost_of(op.cost(&x).map_err(Error::Operator)?);
        let grad = op.gradient(&x).map_err(Error::Operator)?;
        if grad.norm().0 == 0.0 {
            return Ok(IterationDelta::new()
                .cost(key(cost))
                .grad(grad)
                .termination_reason(TerminationReason::Converged));
        }
        let hessian = op.hessian(&x).map_err(Error::Operator)?;
        self.subproblem.set_radius(Real(self.radius));
        self.subproblem.set_grad(grad);
        self.subproblem.set_hessian(hessian);
        let step = self.subproblem.next_iter(op, state)?.param.unwrap();
        let length = step.norm().0;
        let to = x.plus(&step);
        let there = cost_of(op.cost(&to).map_err(Error::Operator)?);
        let predicted = -(grad.dot(&step) + 0.5 * step.dot(&hessian.apply(&step)));
        let rho = (cost - there) / predicted;
        if rho < 0.25 {
            self.radius = 0.25 * length;
        } else if rho > 0.75 && length >= self.radius * (1.0 - 1e-12) {
            self.radius = (2.0 * self.radius).min(self.max_radius);
        }
        if rho > 0.125 {
            let grad = op.gradient(&to).map_err(Error::Operator)?;
            Ok(IterationDelta::new().param(to).cost(key(there)).grad(grad))
        } else {
            Ok(IterationDelta::new().cost(key(cost)).grad(grad))
        }
    }

    fn terminate(&self, state: &IterState<Bowl>) -> TerminationReason {
        match state.get_grad() {
            Some(grad) if grad.norm().0 < self.tolerance => TerminationReason::Converged,
            _ => TerminationReason::NotTerminated,
        }
    }
}

fn method() -> TrustRegion<CauchyPoint<Real, Point, Form>> {
    TrustRegion { subproblem: CauchyPoint::new(), radius: 1.0, max_radius: 100.0, tolerance: 1e-6 }
}

fn bowl() -> Bowl {
    // the minimum is at (1, -2), where the cost is -4.5
    Bowl { a: Form([[1.0, 0.0], [0.0, 2.0]]), b: Point([1.0, -4.0]) }
}

#[test]
fn trust_region_with_cauchy_point_finds_the_minimum() {
    let done = Executor::new(bowl(), method())
        .configure(|state| state.param(Point([4.0, 3.0])).max_iters(200))
        .run()
        .ok()
        .unwrap();
    assert_eq!(done.state.get_termination_reason(), TerminationReason::Converged);
    assert!(done.state.get_iter() < 200);
    let at = done.state.get_best_param().unwrap();
    assert!((at.0[0] - 1.0).abs() < 1e-5);
    assert!((at.0[1] + 2.0).abs() < 1e-5);
    assert!((cost_of(done.state.get_best_cost().unwrap()) + 4.5).abs() < 1e-9);
    assert_eq!(done.operator.hessian_func_count(), done.state.get_iter());
}

#[test]
fn every_step_stays_within_the_radius() {
    let mut subproblem: CauchyPoint<Real, Point, Form> = CauchyPoint::new();
    let mut op = OpWrapper::new(bowl());
    let state: IterState<Bowl> = IterState::new();
    for radius in [0.001, 0.5, 1.0, 3.0, 1e6] {
        for grad in [Point([3.0, 10.0]), Point([-1.0, 0.0]), Point([1e-3, -1e-3])] {
            for form in [Form([[1.0, 0.0], [0.0, 2.0]]), Form([[-1.0, 0.0], [0.0, -2.0]])] {
                subproblem.set_radius(Real(radius));
                subproblem.set_grad(grad);
                subproblem.set_hessian(form);
                let step = subproblem.next_iter(&mut op, &state).unwrap().param.unwrap();
                assert!(step.norm().0 <= radius * (1.0 + 1e-12));
                // the step points down the gradient
                assert!(step.dot(&grad) < 0.0);
                // on the boundary where the curvature is not positive
                if form.0[0][0] < 0.0 {
                    assert!((step.norm().0 - radius).abs() <= radius * 1e-12);
                }
            }
        }
    }
}

#[test]
fn trust_region_stops_at_a_stationary_point() {
    let done = Executor::new(bowl(), method())
        .configure(|state| state.param(Point([1.0, -2.0])).max_iters(200))
        .run()
        .ok()
        .unwrap();
    assert_eq!(done.state.get_termination_reason(), TerminationReason::Converged);
    assert_eq!(done.state.get_iter(), 1);
    assert_eq!(done.state.get_param(), Some(&Point([1.0, -2.0])));
    assert_eq!(done.operator.hessian_func_count(), 0);
}
