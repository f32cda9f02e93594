use vstd::prelude::*;
use crate::reading::{Reading, less_than};
use crate::text::{contains, has_substring, lower_of, lowercase};

verus! {

/// Errors of the constraint path. Evaluation itself never fails; these kinds
/// are reserved for structured reporting.
#[derive(Debug)]
pub enum ConstraintError {
    ValidationError(String),
    PhysicsViolation(String),
    FinancialViolation(String),
    MetricViolation(String),
}

impl ConstraintError {
    /// The display text: a fixed prefix for the kind, then the detail.
    pub fn message(&self) -> (r: String)
        ensures
            r@ == match self {
                ConstraintError::ValidationError(s) => "Validation error: "@ + s@,
                ConstraintError::PhysicsViolation(s) => "Physics constraint violated: "@ + s@,
                ConstraintError::FinancialViolation(s) => "Financial constraint violated: "@ + s@,
                ConstraintError::MetricViolation(s) => "Metric constraint violated: "@ + s@,
            },
    {
        match self {
            ConstraintError::ValidationError(s) => String::from_str("Validation error: ").concat(
                s.as_str(),
            ),
            ConstraintError::PhysicsViolation(s) => String::from_str(
                "Physics constraint violated: ",
            ).concat(s.as_str()),
            ConstraintError::FinancialViolation(s) => String::from_str(
                "Financial constraint violated: ",
            ).concat(s.as_str()),
            ConstraintError::MetricViolation(s) => String::from_str(
                "Metric constraint violated: ",
            ).concat(s.as_str()),
        }
    }
}

/// Bit pattern of 10.0.
pub const LEVERAGE_RATIO_MAX_BITS: u32 = 0x4120_0000;

/// Bit pattern of -10000.0.
pub const VAR_LOSS_THRESHOLD_BITS: u32 = 0xc61c_4000;

/// Bit pattern of 0.0.
pub const ZERO_BITS: u32 = 0;

/// The hard limits that every observation is held to.
#[derive(Clone, Copy, Debug)]
pub struct ConstraintLimits {
    pub leverage_ratio: Reading,
    pub var_loss_threshold: Reading,
    pub temperature_min: Reading,
    pub pressure_min: Reading,
}

impl ConstraintLimits {
    /// Leverage ratio at most 10.0, loss not below -10000.0, temperature and
    /// pressure not below 0.0.
    pub open spec fn is_default(&self) -> bool {
        &&& self.leverage_ratio.bits == LEVERAGE_RATIO_MAX_BITS
        &&& self.var_loss_threshold.bits == VAR_LOSS_THRESHOLD_BITS
        &&& self.temperature_min.bits == ZERO_BITS
        &&& self.pressure_min.bits == ZERO_BITS
    }
}

impl Default for ConstraintLimits {
    fn default() -> (r: ConstraintLimits)
        ensures
            r.is_default(),
    {
        ConstraintLimits {
            leverage_ratio: Reading::from_bits(LEVERAGE_RATIO_MAX_BITS),
            var_loss_threshold: Reading::from_bits(VAR_LOSS_THRESHOLD_BITS),
            temperature_min: Reading::from_bits(ZERO_BITS),
            pressure_min: Reading::from_bits(ZERO_BITS),
        }
    }
}

/// One named metric of an observation.
#[derive(Clone, Debug)]
pub struct Metric {
    pub name: String,
    pub value: Reading,
}

/// An observation to be checked. Metric names are meant to be unique; the
/// checks do not depend on the order of the metrics beyond the order of the
/// violations they produce.
#[derive(Clone, Debug)]
pub struct ValidationRequest {
    pub physics_energy_in: Option<Reading>,
    pub physics_energy_out: Option<Reading>,
    pub financial_proposed_loss: Option<Reading>,
    pub metrics: Vec<Metric>,
}

impl ValidationRequest {
    /// No two metrics share a name.
    pub open spec fn names_unique(&self) -> bool {
        forall|i: int, j: int|
            0 <= i < j < self.metrics@.len() ==> #[trigger] self.metrics@[i].name@
                != #[trigger] self.metrics@[j].name@
    }

    /// Some metric has this name.
    pub open spec fn has_metric(&self, name: Seq<char>) -> bool {
        exists|i: int| 0 <= i < self.metrics@.len() && #[trigger] self.metrics@[i].name@ == name
    }

    /// An observation with no values and no metrics.
    pub fn new() -> (r: ValidationRequest)
        ensures
            r.physics_energy_in is None,
            r.physics_energy_out is None,
            r.financial_proposed_loss is None,
            r.metrics@.len() == 0,
            r.names_unique(),
    {
        ValidationRequest {
            physics_energy_in: None,
            physics_energy_out: None,
            financial_proposed_loss: None,
            metrics: Vec::new(),
        }
    }

    /// The position of the metric with this name, if any.
    pub fn find_metric(&self, name: &String) -> (r: Option<usize>)
        ensures
            r matches Some(i) ==> i < self.metrics@.len() && self.metrics@[i as int].name@ == name@,
            r is None ==> !self.has_metric(name@),
    {
        let mut i: usize = 0;
        while i < self.metrics.len()
            invariant
                i <= self.metrics@.len(),
                forall|j: int| 0 <= j < i ==> (#[trigger] self.metrics@[j]).name@ != name@,
            decreases self.metrics@.len() - i,
        {
            if self.metrics[i].name == *name {
                return Some(i);
            }
            i = i + 1;
        }
        None
    }

    /// Sets the value of the metric with this name, adding the metric at the
    /// end when no metric has the name. Returns the value replaced.
    pub fn insert_metric(&mut self, name: String, value: Reading) -> (r: Option<Reading>)
        requires
            old(self).names_unique(),
        ensures
            final(self).names_unique(),
            final(self).physics_energy_in == old(self).physics_energy_in,
            final(self).physics_energy_out == old(self).physics_energy_out,
            final(self).financial_proposed_loss == old(self).financial_proposed_loss,
            final(self).has_metric(name@),
            match r {
                Some(prev) => exists|i: int|
                    0 <= i < old(self).metrics@.len() && #[trigger] old(self).metrics@[i].name@
                        == name@ && old(self).metrics@[i].value == prev && final(self).metrics@
                        == old(self).metrics@.update(i, (Metric { name, value })),
                None => !old(self).has_metric(name@) && final(self).metrics@ == old(
                    self,
                ).metrics@.push((Metric { name, value })),
            },
    {
        let ghost wanted = name@;
        match self.find_metric(&name) {
            Some(i) => {
                let prev = self.metrics[i].value;
                self.metrics.set(i, Metric { name, value });
                assert(self.metrics@[i as int].name@ == wanted);
                Some(prev)
            },
            None => {
                let ghost before = self.metrics@;
                self.metrics.push(Metric { name, value });
                assert(self.metrics@[before.len() as int].name@ == wanted);
                None
            },
        }
    }
}

/// A broken rule.
#[derive(Clone, Copy, Debug, PartialEq, Eq, Structural)]
pub enum Violation {
    EnergyNotConserved,
    NegativeEnergyInput,
    VarLossExceeded,
    TemperatureBelowAbsoluteZero,
    NegativePressure,
    LeverageExceeded,
}

/// The text reported for each violation.
pub open spec fn message_of(v: Violation) -> Seq<char> {
    match v {
        Violation::EnergyNotConserved => "Conservation of Energy violated"@,
        Violation::NegativeEnergyInput => "Energy input cannot be negative"@,
        Violation::VarLossExceeded => "VaR loss threshold exceeded"@,
        Violation::TemperatureBelowAbsoluteZero => "Temperature below absolute zero"@,
        Violation::NegativePressure => "Negative pressure is invalid for this model"@,
        Violation::LeverageExceeded => "Leverage ratio exceeds hard limit"@,
    }
}

impl Violation {
    /// The text reported for this violation.
    pub fn message(&self) -> (r: String)
        ensures
            r@ == message_of(*self),
    {
        match self {
            Violation::EnergyNotConserved => String::from_str("Conservation of Energy violated"),
            Violation::NegativeEnergyInput => String::from_str("Energy input cannot be negative"),
            Violation::VarLossExceeded => String::from_str("VaR loss threshold exceeded"),
            Violation::TemperatureBelowAbsoluteZero => String::from_str(
                "Temperature below absolute zero",
            ),
            Violation::NegativePressure => String::from_str(
                "Negative pressure is invalid for this model",
            ),
            Violation::LeverageExceeded => String::from_str("Leverage ratio exceeds hard limit"),
        }
    }
}

/// Physics: with both energies given, output above input breaks conservation,
/// and a negative input is invalid; both may fire.
pub open spec fn physics_violations(energy_in: Option<Reading>, energy_out: Option<Reading>) -> Seq<
    Violation,
> {
    match (energy_in, energy_out) {
        (Some(i), Some(o)) => {
            let first = if less_than(i.bits, o.bits) {
                seq![Violation::EnergyNotConserved]
            } else {
                Seq::empty()
            };
            let second = if less_than(i.bits, ZERO_BITS) {
                seq![Violation::NegativeEnergyInput]
            } else {
                Seq::empty()
            };
            first + second
        },
        _ => Seq::empty(),
    }
}

/// Financial: a proposed loss below the loss threshold.
pub open spec fn financial_violations(loss: Option<Reading>) -> Seq<Violation> {
    match loss {
        Some(l) => if less_than(l.bits, VAR_LOSS_THRESHOLD_BITS) {
            seq![Violation::VarLossExceeded]
        } else {
            Seq::empty()
        },
        None => Seq::empty(),
    }
}

pub open spec fn names_temperature(n: Seq<char>) -> bool {
    has_substring(n, "temperature"@) || has_substring(n, "temp"@) || has_substring(n, "kelvin"@)
}

pub open spec fn names_pressure(n: Seq<char>) -> bool {
    has_substring(n, "pressure"@) || has_substring(n, "pascal"@) || has_substring(n, "pa"@)
}

pub open spec fn names_leverage(n: Seq<char>) -> bool {
    has_substring(n, "leverage"@) || has_substring(n, "debt_to_equity"@)
}

pub open spec fn names_var(n: Seq<char>) -> bool {
    has_substring(n, "var"@) || has_substring(n, "value_at_risk"@)
}

/// The violations of one metric whose name is already lower case: each keyword
/// group that the name hits checks the value against its limit, in the order
/// temperature, pressure, leverage, VaR.
pub open spec fn metric_violations(lowered: Seq<char>, value: u32) -> Seq<Violation> {
    let t = if names_temperature(lowered) && less_than(value, ZERO_BITS) {
        seq![Violation::TemperatureBelowAbsoluteZero]
    } else {
        Seq::empty()
    };
    let p = if names_pressure(lowered) && less_than(value, ZERO_BITS) {
        seq![Violation::NegativePressure]
    } else {
        Seq::empty()
    };
    let l = if names_leverage(lowered) && less_than(LEVERAGE_RATIO_MAX_BITS, value) {
        seq![Violation::LeverageExceeded]
    } else {
        Seq::empty()
    };
    let v = if names_var(lowered) && less_than(value, VAR_LOSS_THRESHOLD_BITS) {
        seq![Violation::VarLossExceeded]
    } else {
        Seq::empty()
    };
    t + p + l + v
}

/// The violations of a list of metrics, one metric after the other.
pub open spec fn metrics_violations(metrics: Seq<Metric>) -> Seq<Violation>
    decreases metrics.len(),
{
    if metrics.len() == 0 {
        Seq::empty()
    } else {
        let last = metrics.last();
        metrics_violations(metrics.drop_last()) + metric_violations(
            lower_of(last.name@),
            last.value.bits,
        )
    }
}

/// All violations of an observation: physics, then financial, then metrics.
pub open spec fn violations_of(req: ValidationRequest) -> Seq<Violation> {
    physics_violations(req.physics_energy_in, req.physics_energy_out) + financial_violations(
        req.financial_proposed_loss,
    ) + metrics_violations(req.metrics@)
}

/// The texts of a list of violations, in order.
pub open spec fn messages_of(vs: Seq<Violation>) -> Seq<Seq<char>> {
    vs.map_values(|v: Violation| message_of(v))
}

fn push_if(out: &mut Vec<Violation>, cond: bool, v: Violation)
    ensures
        final(out)@ == old(out)@ + if cond {
            seq![v]
        } else {
            Seq::empty()
        },
{
    if cond {
        out.push(v);
    }
    proof {
        if !cond {
            assert(final(out)@ =~= old(out)@ + Seq::empty());
        }
    }
}

/// The violations of one metric, given its name already in lower case.
pub fn check_metric(lowered: &str, value: Reading) -> (r: Vec<Violation>)
    ensures
        r@ == metric_violations(lowered@, value.bits),
{
    let limits = ConstraintLimits::default();
    let mut out: Vec<Violation> = Vec::new();
    let temperature = contains(lowered, "temperature") || contains(lowered, "temp") || contains(
        lowered,
        "kelvin",
    );
    push_if(
        &mut out,
        temperature && value.lt(&limits.temperature_min),
        Violation::TemperatureBelowAbsoluteZero,
    );
    let pressure = contains(lowered, "pressure") || contains(lowered, "pascal") || contains(
        lowered,
        "pa",
    );
    push_if(&mut out, pressure && value.lt(&limits.pressure_min), Violation::NegativePressure);
    let leverage = contains(lowered, "leverage") || contains(lowered, "debt_to_equity");
    push_if(&mut out, leverage && value.gt(&limits.leverage_ratio), Violation::LeverageExceeded);
    let var = contains(lowered, "var") || contains(lowered, "value_at_risk");
    push_if(&mut out, var && value.lt(&limits.var_loss_threshold), Violation::VarLossExceeded);
    assert(out@ =~= metric_violations(lowered@, value.bits));
    out
}

/// Checks an observation against the hard limits. Never fails for a
/// well-typed observation: an empty list means that no rule fired.
pub fn evaluate(request: &ValidationRequest) -> (r: Vec<Violation>)
    ensures
        r@ == violations_of(*request),
{
    let limits = ConstraintLimits::default();
    let mut out: Vec<Violation> = Vec::new();
    match (request.physics_energy_in, request.physics_energy_out) {
        (Some(energy_in), Some(energy_out)) => {
            push_if(&mut out, energy_out.gt(&energy_in), Violation::EnergyNotConserved);
            push_if(&mut out, energy_in.lt(&limits.temperature_min), Violation::NegativeEnergyInput);
        },
        _ => {},
    }
    match request.financial_proposed_loss {
        Some(loss) => {
            push_if(&mut out, loss.lt(&limits.var_loss_threshold), Violation::VarLossExceeded);
        },
        None => {},
    }
    assert(out@ =~= physics_violations(request.physics_energy_in, request.physics_energy_out)
        + financial_violations(request.financial_proposed_loss));
    let ghost base = out@;
    let n = request.metrics.len();
    let mut i: usize = 0;
    while i < n
        invariant
            n == request.metrics@.len(),
            i <= n,
            out@ == base + metrics_violations(request.metrics@.subrange(0, i as int)),
        decreases n - i,
    {
        let metric = &request.metrics[i];
        let lowered = lowercase(metric.name.as_str());
        let found = check_metric(lowered.as_str(), metric.value);
        let ghost before = out@;
        let mut k: usize = 0;
        while k < found.len()
            invariant
                k <= found@.len(),
                out@ == before + found@.subrange(0, k as int),
            decreases found@.len() - k,
        {
            out.push(found[k]);
            assert(found@.subrange(0, k + 1) =~= found@.subrange(0, k as int).push(found@[k as int]));
            k = k + 1;
        }
        assert(found@.subrange(0, found@.len() as int) =~= found@);
        assert(request.metrics@.subrange(0, i + 1).drop_last() =~= request.metrics@.subrange(
            0,
            i as int,
        ));
        i = i + 1;
    }
    assert(request.metrics@.subrange(0, n as int) =~= request.metrics@);
    out
}

/// Checks an observation and reports each violation by its text, in the
/// order of [`evaluate`]. Always `Ok`.
pub fn check_logic(request: &ValidationRequest) -> (r: Result<Vec<String>, ConstraintError>)
    ensures
        r is Ok,
        r matches Ok(texts) && texts@.map_values(|s: String| s@) == messages_of(
            violations_of(*request),
        ),
{
    let found = evaluate(request);
    let mut texts: Vec<String> = Vec::new();
    let mut i: usize = 0;
    while i < found.len()
        invariant
            i <= found@.len(),
            found@ == violations_of(*request),
            texts@.len() == i,
            forall|j: int| 0 <= j < i ==> (#[trigger] texts@[j])@ == message_of(found@[j]),
        decreases found@.len() - i,
    {
        texts.push(found[i].message());
        i = i + 1;
    }
    assert(texts@.map_values(|s: String| s@) =~= messages_of(violations_of(*request)));
    Ok(texts)
}

/// Two observations hold the same content: the same optional values, and
/// metrics with the same names and values in the same order.
pub open spec fn same_content(a: ValidationRequest, b: ValidationRequest) -> bool {
    &&& a.physics_energy_in == b.physics_energy_in
    &&& a.physics_energy_out == b.physics_energy_out
    &&& a.financial_proposed_loss == b.financial_proposed_loss
    &&& a.metrics@.len() == b.metrics@.len()
    &&& forall|i: int|
        0 <= i < a.metrics@.len() ==> (#[trigger] a.metrics@[i]).name@ == b.metrics@[i].name@
            && a.metrics@[i].value == b.metrics@[i].value
}

/// Whenever both energies are given and the output exceeds the input, the
/// violations include the breach of conservation of energy.
pub proof fn conservation_breach_reported(request: ValidationRequest)
    requires
        request.physics_energy_in is Some,
        request.physics_energy_out is Some,
        less_than(
            request.physics_energy_in->Some_0.bits,
            request.physics_energy_out->Some_0.bits,
        ),
    ensures
        violations_of(request).contains(Violation::EnergyNotConserved),
{
    let p = physics_violations(request.physics_energy_in, request.physics_energy_out);
    assert(p[0] == Violation::EnergyNotConserved);
    assert(violations_of(request)[0] == Violation::EnergyNotConserved);
}

proof fn metrics_depend_on_content(a: Seq<Metric>, b: Seq<Metric>)
    requires
        a.len() == b.len(),
        forall|i: int|
            0 <= i < a.len() ==> (#[trigger] a[i]).name@ == b[i].name@ && a[i].value == b[i].value,
    ensures
        metrics_violations(a) == metrics_violations(b),
    decreases a.len(),
{
    if a.len() > 0 {
        assert forall|i: int| 0 <= i < a.drop_last().len() implies (#[trigger] a.drop_last()[i]).name@
            == b.drop_last()[i].name@ && a.drop_last()[i].value == b.drop_last()[i].value by {
            assert(a.drop_last()[i] == a[i]);
            assert(b.drop_last()[i] == b[i]);
        }
        metrics_depend_on_content(a.drop_last(), b.drop_last());
        assert(a.last().name@ == b.last().name@ && a.last().value == b.last().value);
    }
}

/// Evaluation has no hidden state: observations with the same content get
/// the same violations, so evaluating one observation twice gives one answer.
pub proof fn evaluation_repeatable(a: ValidationRequest, b: ValidationRequest)
    requires
        same_content(a, b),
    ensures
        violations_of(a) == violations_of(b),
        messages_of(violations_of(a)) == messages_of(violations_of(b)),
{
    metrics_depend_on_content(a.metrics@, b.metrics@);
}

} // verus!
