//! The calculation session: its stage, its counters, the basis in which the
//! caller states compositions, and the order of solver calls each
//! calculation makes.
//!
//! Compositions themselves are real vectors and never pass through here: a
//! plan names the solver calls, and the driver fills in the values.

use vstd::prelude::*;
use chemformula::Transform;

use crate::error::{describe, ChemAppError};

verus! {

#[verifier::external_type_specification]
#[verifier::external_body]
pub struct ExTransform(Transform);

/// Lower end of the temperature interval of an isothermal calculation.
pub const ISOTHERMAL_LOW_LIMIT: u32 = 10;

/// Upper end of the temperature interval of an isothermal calculation.
pub const ISOTHERMAL_HIGH_LIMIT: u32 = 6000;

/// True where chemformula builds a transform from the first list of formulas
/// to the second: every formula of both lists parses.
pub uninterp spec fn transform_builds(initial: Seq<Seq<char>>, target: Seq<Seq<char>>) -> bool;

/// The characters of each text of a list.
pub open spec fn texts(v: Seq<String>) -> Seq<Seq<char>> {
    v.map_values(|s: String| s@)
}

/// Relies on chemformula::Transform::new: it parses the formulas of both
/// lists and succeeds exactly where all of them parse; its error is rendered
/// as text. Nothing is solved at construction, so it does not panic.
#[verifier::external_body]
fn build_transform(initial: &Vec<String>, target: &Vec<String>) -> (r: Result<Transform, String>)
    ensures
        r.is_ok() == transform_builds(texts(initial@), texts(target@)),
{
    Transform::new(initial, target, false).map_err(|e| e.to_string())
}

/// The stages of a session.
#[derive(Debug, Clone, Copy, PartialEq, Eq)]
pub enum Stage {
    /// No database is loaded.
    Uninitialized,
    /// A database is loaded; compositions are stated in its own components.
    DatabaseLoaded,
    /// The caller has chosen the basis of compositions.
    BasisSet,
    /// The last calculation succeeded: results can be read.
    Equilibrated,
}

/// One call that a calculation makes to the solver.
#[derive(Debug, Clone, Copy, PartialEq, Eq)]
pub enum SolverCall {
    /// Remove every condition set before.
    ClearConditions,
    /// Fix the temperature of the system at the requested value.
    FixTemperature,
    /// Fix the incoming amount of this system component (1-based) at its
    /// entry of the composition in the internal basis.
    FixComponentAmount(usize),
    /// Fix the amount of this phase at zero: the calculation seeks the
    /// temperature at which it appears.
    TargetPhase(usize),
    /// Set the limits of the temperature search, as a bracket negotiation
    /// decides their order.
    SetBracket,
    /// Compute the equilibrium, with temperatures searched between
    /// `ISOTHERMAL_LOW_LIMIT` and `ISOTHERMAL_HIGH_LIMIT`.
    Equilibrate,
    /// Compute the target-temperature equilibrium within the requested interval.
    EquilibrateTarget,
}

/// One amount condition per internal component, in order.
pub open spec fn amount_calls(ncomponents: nat) -> Seq<SolverCall> {
    Seq::new(ncomponents, |k: int| SolverCall::FixComponentAmount((k + 1) as usize))
}

/// The calls of an isothermal calculation over `ncomponents` components.
pub open spec fn isothermal_calls(ncomponents: nat) -> Seq<SolverCall> {
    seq![SolverCall::ClearConditions, SolverCall::FixTemperature] + amount_calls(ncomponents)
        + seq![SolverCall::Equilibrate]
}

/// The calls of a target-temperature calculation for phase `target`.
pub open spec fn target_calls(ncomponents: nat, target: usize) -> Seq<SolverCall> {
    seq![SolverCall::ClearConditions] + amount_calls(ncomponents) + seq![
        SolverCall::TargetPhase(target),
        SolverCall::SetBracket,
        SolverCall::EquilibrateTarget,
    ]
}

/// The solver's status code for a target calculation that found no solution
/// within the permitted interval.
pub const NO_SOLUTION_IN_INTERVAL: usize = 711;

/// The error a target calculation reports for a failed solver call: the
/// solver finding no solution within the interval is a convergence error
/// carrying the code's description; any other error stays as it is.
pub fn target_calculation_error(e: ChemAppError) -> (r: ChemAppError)
    ensures
        e == ChemAppError::NativeError(NO_SOLUTION_IN_INTERVAL) ==> (r matches ChemAppError::ConvergenceError(m)
            && m@ == describe(e)),
        e != ChemAppError::NativeError(NO_SOLUTION_IN_INTERVAL) ==> r == e,
{
    match e {
        ChemAppError::NativeError(code) => {
            if code == NO_SOLUTION_IN_INTERVAL {
                let message = e.description();
                ChemAppError::ConvergenceError(message)
            } else {
                e
            }
        },
        _ => e,
    }
}

fn push_amount_calls(calls: &mut Vec<SolverCall>, ncomponents: usize)
    ensures
        final(calls)@ == old(calls)@ + amount_calls(ncomponents as nat),
{
    let ghost start = calls@;
    let mut k: usize = 0;
    while k < ncomponents
        invariant
            k <= ncomponents,
            calls@ =~= start + amount_calls(k as nat),
        decreases ncomponents - k,
    {
        calls.push(SolverCall::FixComponentAmount(k + 1));
        k = k + 1;
    }
}

/// A calculation session over one loaded database.
pub struct Session {
    stage: Stage,
    number_isothermal: usize,
    number_target_t: usize,
    components: Vec<String>,
    basis: Vec<String>,
    transform: Option<Transform>,
}

impl Session {
    /// The stage the session is in.
    pub closed spec fn stage_of(&self) -> Stage {
        self.stage
    }

    /// Isothermal calculations that succeeded.
    pub closed spec fn isothermal_count(&self) -> nat {
        self.number_isothermal as nat
    }

    /// Target calculations that succeeded.
    pub closed spec fn target_count(&self) -> nat {
        self.number_target_t as nat
    }

    /// Names of the solver's system components: the internal basis.
    pub closed spec fn component_names(&self) -> Seq<Seq<char>> {
        texts(self.components@)
    }

    /// Formulas of the basis in which the caller states compositions.
    pub closed spec fn basis_formulas(&self) -> Seq<Seq<char>> {
        texts(self.basis@)
    }

    /// A transform is held exactly when a database is loaded, and it was
    /// built from the components to the basis.
    pub closed spec fn wf(&self) -> bool {
        &&& (self.stage == Stage::Uninitialized) == self.transform.is_none()
        &&& self.stage != Stage::Uninitialized ==> transform_builds(
            texts(self.components@),
            texts(self.basis@),
        )
    }

    /// A session with no database.
    pub fn new() -> (r: Session)
        ensures
            r.wf(),
            r.stage_of() == Stage::Uninitialized,
            r.isothermal_count() == 0,
            r.target_count() == 0,
            r.component_names().len() == 0,
            r.basis_formulas().len() == 0,
    {
        Session {
            stage: Stage::Uninitialized,
            number_isothermal: 0,
            number_target_t: 0,
            components: Vec::new(),
            basis: Vec::new(),
            transform: None,
        }
    }

    /// Takes the component names of a newly loaded database and states
    /// compositions in them: the basis transform is the identity on them.
    /// Fails, and changes nothing, where a name is not a formula.
    pub fn load_components(&mut self, components: Vec<String>) -> (r: Result<(), ChemAppError>)
        requires
            old(self).wf(),
        ensures
            final(self).wf(),
            r.is_ok() == transform_builds(texts(components@), texts(components@)),
            r is Ok ==> {
                &&& final(self).stage_of() == Stage::DatabaseLoaded
                &&& final(self).component_names() == texts(components@)
                &&& final(self).basis_formulas() == texts(components@)
                &&& final(self).isothermal_count() == 0
                &&& final(self).target_count() == 0
            },
            r matches Err(e) ==> e is FormatError && *final(self) == *old(self),
    {
        match build_transform(&components, &components) {
            Ok(transform) => {
                let basis = clone_names(&components);
                self.stage = Stage::DatabaseLoaded;
                self.number_isothermal = 0;
                self.number_target_t = 0;
                self.components = components;
                self.basis = basis;
                self.transform = Some(transform);
                Ok(())
            },
            Err(message) => Err(ChemAppError::FormatError(message)),
        }
    }

    /// States compositions in the formulas of `basis` from now on. Fails
    /// where no database is loaded (the solver's code for a missing data
    /// file), or, changing nothing, where the transform from the components
    /// to the basis cannot be built.
    pub fn set_basis(&mut self, basis: Vec<String>) -> (r: Result<(), ChemAppError>)
        requires
            old(self).wf(),
        ensures
            final(self).wf(),
            old(self).stage_of() == Stage::Uninitialized ==> r == Err::<(), ChemAppError>(ChemAppError::NativeError(104)) && *final(self) == *old(self),
            old(self).stage_of() != Stage::Uninitialized ==> r.is_ok() == transform_builds(old(self).component_names(), texts(basis@)),
            r is Ok ==> {
                &&& final(self).stage_of() == Stage::BasisSet
                &&& final(self).component_names() == old(self).component_names()
                &&& final(self).basis_formulas() == texts(basis@)
                &&& final(self).isothermal_count() == old(self).isothermal_count()
                &&& final(self).target_count() == old(self).target_count()
            },
            r is Err ==> *final(self) == *old(self),
    {
        if matches!(self.stage, Stage::Uninitialized) {
            return Err(ChemAppError::NativeError(104));
        }
        match build_transform(&self.components, &basis) {
            Ok(transform) => {
                self.stage = Stage::BasisSet;
                self.basis = basis;
                self.transform = Some(transform);
                Ok(())
            },
            Err(message) => Err(ChemAppError::FormatError(message)),
        }
    }

    /// The stage the session is in.
    pub fn stage(&self) -> (r: Stage)
        ensures
            r == self.stage_of(),
    {
        self.stage
    }

    /// Whether results of a calculation can be read.
    pub fn is_equilibrated(&self) -> (r: bool)
        ensures
            r == (self.stage_of() == Stage::Equilibrated),
    {
        matches!(self.stage, Stage::Equilibrated)
    }

    /// Isothermal calculations that succeeded.
    pub fn number_isothermal(&self) -> (r: usize)
        ensures
            r == self.isothermal_count(),
    {
        self.number_isothermal
    }

    /// Target calculations that succeeded.
    pub fn number_target_t(&self) -> (r: usize)
        ensures
            r == self.target_count(),
    {
        self.number_target_t
    }

    /// Number of system components: the length of a composition in the
    /// internal basis.
    pub fn component_count(&self) -> (r: usize)
        ensures
            r == self.component_names().len(),
    {
        self.components.len()
    }

    /// Names of the system components.
    pub fn components(&self) -> (r: &Vec<String>)
        ensures
            texts(r@) == self.component_names(),
    {
        &self.components
    }

    /// Formulas of the basis of compositions.
    pub fn basis(&self) -> (r: &Vec<String>)
        ensures
            texts(r@) == self.basis_formulas(),
    {
        &self.basis
    }

    /// The transform between the internal basis and the basis of
    /// compositions; none before a database is loaded.
    pub fn transform(&self) -> (r: Option<&Transform>)
        requires
            self.wf(),
        ensures
            r.is_some() == (self.stage_of() != Stage::Uninitialized),
    {
        match &self.transform {
            Some(t) => Some(t),
            None => None,
        }
    }

    /// The solver calls of an isothermal calculation: clear the conditions,
    /// fix the temperature and each component's amount, then compute.
    pub fn isothermal_plan(&self) -> (r: Vec<SolverCall>)
        ensures
            r@ == isothermal_calls(self.component_names().len()),
    {
        let mut calls: Vec<SolverCall> = Vec::new();
        calls.push(SolverCall::ClearConditions);
        calls.push(SolverCall::FixTemperature);
        push_amount_calls(&mut calls, self.components.len());
        calls.push(SolverCall::Equilibrate);
        proof {
            assert(calls@ =~= isothermal_calls(self.component_names().len()));
        }
        calls
    }

    /// The solver calls of a target-temperature calculation: clear the
    /// conditions, fix each component's amount, make `target` the phase
    /// whose amount is zero, set the limits, then compute.
    pub fn target_plan(&self, target: usize) -> (r: Vec<SolverCall>)
        ensures
            r@ == target_calls(self.component_names().len(), target),
    {
        let mut calls: Vec<SolverCall> = Vec::new();
        calls.push(SolverCall::ClearConditions);
        push_amount_calls(&mut calls, self.components.len());
        calls.push(SolverCall::TargetPhase(target));
        calls.push(SolverCall::SetBracket);
        calls.push(SolverCall::EquilibrateTarget);
        proof {
            assert(calls@ =~= target_calls(self.component_names().len(), target));
        }
        calls
    }

    /// Records a successful isothermal calculation.
    pub fn record_isothermal(&mut self)
        requires
            old(self).wf(),
            old(self).stage_of() != Stage::Uninitialized,
            old(self).isothermal_count() < usize::MAX,
        ensures
            final(self).wf(),
            final(self).stage_of() == Stage::Equilibrated,
            final(self).isothermal_count() == old(self).isothermal_count() + 1,
            final(self).target_count() == old(self).target_count(),
            final(self).component_names() == old(self).component_names(),
            final(self).basis_formulas() == old(self).basis_formulas(),
    {
        self.stage = Stage::Equilibrated;
        self.number_isothermal = self.number_isothermal + 1;
    }

    /// Records a successful target calculation.
    pub fn record_target(&mut self)
        requires
            old(self).wf(),
            old(self).stage_of() != Stage::Uninitialized,
            old(self).target_count() < usize::MAX,
        ensures
            final(self).wf(),
            final(self).stage_of() == Stage::Equilibrated,
            final(self).target_count() == old(self).target_count() + 1,
            final(self).isothermal_count() == old(self).isothermal_count(),
            final(self).component_names() == old(self).component_names(),
            final(self).basis_formulas() == old(self).basis_formulas(),
    {
        self.stage = Stage::Equilibrated;
        self.number_target_t = self.number_target_t + 1;
    }

    /// Records a failed calculation: the solver's earlier results are gone,
    /// and an equilibrated session falls back to its basis.
    pub fn record_failure(&mut self)
        requires
            old(self).wf(),
        ensures
            final(self).wf(),
            final(self).stage_of() == if old(self).stage_of() == Stage::Equilibrated {
                Stage::BasisSet
            } else {
                old(self).stage_of()
            },
            final(self).isothermal_count() == old(self).isothermal_count(),
            final(self).target_count() == old(self).target_count(),
            final(self).component_names() == old(self).component_names(),
            final(self).basis_formulas() == old(self).basis_formulas(),
    {
        if matches!(self.stage, Stage::Equilibrated) {
            self.stage = Stage::BasisSet;
        }
    }
}

fn clone_names(names: &Vec<String>) -> (r: Vec<String>)
    ensures
        texts(r@) == texts(names@),
{
    let mut out: Vec<String> = Vec::new();
    let mut i: usize = 0;
    while i < names.len()
        invariant
            i <= names@.len(),
            texts(out@) =~= texts(names@.take(i as int)),
        decreases names@.len() - i,
    {
        let s = String::from_str(names[i].as_str());
        let ghost before = out@;
        out.push(s);
        proof {
            assert(names@.take(i as int + 1) =~= names@.take(i as int).push(names@[i as int]));
            assert(texts(out@) =~= texts(before).push(s@));
            assert(texts(names@.take(i as int + 1)) =~= texts(names@.take(i as int)).push(names@[i as int]@));
        }
        i = i + 1;
    }
    proof {
        assert(names@.take(names@.len() as int) =~= names@);
    }
    out
}

} // verus!
