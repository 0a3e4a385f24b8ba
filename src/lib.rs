//! The outcome model of policy validation: the diagnostics that a validation
//! run produces, where they were found, how they read, and whether the run
//! passed.
pub mod location;
pub mod kinds;
pub mod diagnostic;
pub mod result;

pub use diagnostic::{render_warning, ValidationError, ValidationWarning};
pub use kinds::{
    InvalidActionApplication, TypeErrorKind, TypeWarningKind, UnrecognizedActionId,
    UnrecognizedEntityType, UnspecifiedEntity, ValidationErrorKind, ValidationWarningKind,
};
pub use location::{SourceInfo, SourceLocation};
pub use result::ValidationResult;
