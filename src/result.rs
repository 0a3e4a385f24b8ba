use vstd::prelude::*;
use crate::diagnostic::{ValidationError, ValidationWarning};

verus! {

/// The outcome of one validation run: the errors and the warnings it found, in
/// the order in which they were found. The run passed when there are no errors;
/// warnings never make it fail.
#[derive(Debug)]
pub struct ValidationResult {
    validation_errors: Vec<ValidationError>,
    validation_warnings: Vec<ValidationWarning>,
}

impl View for ValidationResult {
    type V = (Seq<ValidationError>, Seq<ValidationWarning>);

    closed spec fn view(&self) -> (Seq<ValidationError>, Seq<ValidationWarning>) {
        (self.validation_errors@, self.validation_warnings@)
    }
}

impl ValidationResult {
    /// Whether the run passed: it found no error.
    pub open spec fn passed(&self) -> bool {
        self@.0.len() == 0
    }

    pub fn new(errors: Vec<ValidationError>, warnings: Vec<ValidationWarning>) -> (r:
        ValidationResult)
        ensures
            r@ == (errors@, warnings@),
    {
        ValidationResult { validation_errors: errors, validation_warnings: warnings }
    }

    /// True when validation found no error; there may still be warnings.
    pub fn validation_passed(&self) -> (r: bool)
        ensures
            r == self.passed(),
            r == (self@.0.len() == 0),
    {
        self.validation_errors.len() == 0
    }

    /// The errors found, in order.
    pub fn validation_errors(&self) -> (r: &[ValidationError])
        ensures
            r@ == self@.0,
    {
        self.validation_errors.as_slice()
    }

    /// The warnings found, in order.
    pub fn validation_warnings(&self) -> (r: &[ValidationWarning])
        ensures
            r@ == self@.1,
    {
        self.validation_warnings.as_slice()
    }

    /// Takes the result apart into its errors and its warnings, in order.
    pub fn into_errors_and_warnings(self) -> (r: (Vec<ValidationError>, Vec<ValidationWarning>))
        ensures
            (r.0@, r.1@) == self@,
    {
        (self.validation_errors, self.validation_warnings)
    }
}

/// A run passes exactly when it found no error.
pub proof fn lemma_passed_iff_no_errors(r: &ValidationResult)
    ensures
        r.passed() <==> r@.0.len() == 0,
{
}

/// Warnings never decide whether a run passes: two results with the same errors
/// agree on it, and a result without errors passes whatever its warnings.
pub proof fn lemma_warnings_never_affect_passing(a: &ValidationResult, b: &ValidationResult)
    ensures
        a@.0 == b@.0 ==> a.passed() == b.passed(),
        a@.0.len() == 0 ==> a.passed(),
{
}

/// Taking a result apart loses nothing and keeps the order: the errors and
/// warnings it yields are those the result was built from, and a result built
/// again from them takes apart into the same pair.
pub proof fn lemma_decomposition_round_trip(
    built: &ValidationResult,
    errors: Seq<ValidationError>,
    warnings: Seq<ValidationWarning>,
    rebuilt: &ValidationResult,
)
    requires
        built@ == (errors, warnings),
        rebuilt@ == built@,
    ensures
        rebuilt@.0 == errors,
        rebuilt@.1 == warnings,
        rebuilt@.0.len() == errors.len(),
        rebuilt@.1.len() == warnings.len(),
        forall|i: int| 0 <= i < errors.len() ==> rebuilt@.0[i] == errors[i],
        forall|i: int| 0 <= i < warnings.len() ==> rebuilt@.1[i] == warnings[i],
{
}

} // verus!
