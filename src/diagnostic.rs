use vstd::prelude::*;
use crate::kinds::{ValidationErrorKind, ValidationWarningKind};
use crate::location::{SourceInfo, SourceLocation, escape_debug_of};

verus! {

/// A fatal problem found in a policy: what it is and where it was found.
#[derive(Debug, Clone, PartialEq, Eq)]
pub struct ValidationError {
    location: SourceLocation,
    error_kind: ValidationErrorKind,
}

impl ValidationError {
    pub closed spec fn spec_location(&self) -> SourceLocation {
        self.location
    }

    pub closed spec fn spec_error_kind(&self) -> ValidationErrorKind {
        self.error_kind
    }

    pub fn with_policy_id(
        id: String,
        source_info: Option<SourceInfo>,
        error_kind: ValidationErrorKind,
    ) -> (r: ValidationError)
        ensures
            r.spec_location().spec_policy_id() == id@,
            r.spec_location().spec_source_info() == source_info,
            r.spec_error_kind() == error_kind,
    {
        ValidationError { error_kind, location: SourceLocation::new(id, source_info) }
    }

    /// Takes this error apart into its location and its kind.
    pub fn into_location_and_error_kind(self) -> (r: (SourceLocation, ValidationErrorKind))
        ensures
            r.0 == self.spec_location(),
            r.1 == self.spec_error_kind(),
    {
        (self.location, self.error_kind)
    }

    pub fn error_kind(&self) -> (r: &ValidationErrorKind)
        ensures
            *r == self.spec_error_kind(),
    {
        &self.error_kind
    }

    pub fn location(&self) -> (r: &SourceLocation)
        ensures
            *r == self.spec_location(),
    {
        &self.location
    }
}

/// An advisory problem found in a policy: what it is and where it was found.
#[derive(Debug, Clone, PartialEq, Eq)]
pub struct ValidationWarning {
    location: SourceLocation,
    kind: ValidationWarningKind,
}

/// The sentence that reports a warning of `kind` on the policy shown as
/// `shown_policy_id`.
pub open spec fn warning_sentence(shown_policy_id: Seq<char>, kind: ValidationWarningKind) -> Seq<
    char,
> {
    "validation warning on policy `"@ + shown_policy_id + "`: "@ + kind.message()
}

/// Renders the sentence that reports a warning of `kind` on the policy whose
/// identifier reads `shown_policy_id` in messages.
pub fn render_warning(shown_policy_id: &str, kind: &ValidationWarningKind) -> (r: String)
    ensures
        r@ == warning_sentence(shown_policy_id@, *kind),
{
    let mut s = String::from_str("validation warning on policy `");
    s.append(shown_policy_id);
    s.append("`: ");
    let message = kind.to_string();
    s.append(message.as_str());
    s
}

impl ValidationWarning {
    pub closed spec fn spec_location(&self) -> SourceLocation {
        self.location
    }

    pub closed spec fn spec_kind(&self) -> ValidationWarningKind {
        self.kind
    }

    pub fn with_policy_id(
        id: String,
        source_info: Option<SourceInfo>,
        kind: ValidationWarningKind,
    ) -> (r: ValidationWarning)
        ensures
            r.spec_location().spec_policy_id() == id@,
            r.spec_location().spec_source_info() == source_info,
            r.spec_kind() == kind,
    {
        ValidationWarning { location: SourceLocation::new(id, source_info), kind }
    }

    pub fn location(&self) -> (r: &SourceLocation)
        ensures
            *r == self.spec_location(),
    {
        &self.location
    }

    pub fn kind(&self) -> (r: &ValidationWarningKind)
        ensures
            *r == self.spec_kind(),
    {
        &self.kind
    }

    /// Takes this warning apart into its location and its kind.
    pub fn to_kind_and_location(self) -> (r: (SourceLocation, ValidationWarningKind))
        ensures
            r.0 == self.spec_location(),
            r.1 == self.spec_kind(),
    {
        (self.location, self.kind)
    }

    /// The sentence that reports this warning, naming its policy.
    pub fn to_string(&self) -> (r: String)
        ensures
            r@ == warning_sentence(
                escape_debug_of(self.spec_location().spec_policy_id()),
                self.spec_kind(),
            ),
    {
        let shown = self.location.policy_id_text();
        render_warning(shown.as_str(), &self.kind)
    }
}

} // verus!
