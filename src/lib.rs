//! Validation of structured values against declared per-field constraints.
//!
//! A validation pass walks a value depth-first and collects every violation
//! it finds, each with the path of the offending value, instead of stopping
//! at the first one.
//!
//! Validators implement [`Validator`]; each states in its contract exactly
//! which errors it reports for a value. Scalar types, optional values and
//! vectors have default validators through [`Validatable`]. Records and
//! unions are described by a [`TypeDecl`], whose fields carry their declared
//! constraints; [`derive_validatable`] turns such a declaration into a
//! [`TypeValidator`] for [`Value`]s of that type, or reports the first
//! mistake in the declaration. [`conforms`] tells whether a value has the
//! shape of its declared type; a derived validator does not check values of
//! another shape, so callers reject those first.
pub mod text;
pub mod path;
pub mod error;
pub mod validator;
pub mod defaults;
pub mod constraints;
pub mod pattern;
pub mod schema;
pub mod tree;
pub mod tags;
pub mod derivation;
pub mod conformance;
pub mod laws;

pub use path::ValidationPath;
pub use error::{ValidationError, ValidationErrorCategory};
pub use validator::{validate_with, AlwaysValidValidator, OptionValidator, Validatable, Validator, VecValidator};
pub use constraints::{
    ExclusiveMaximumValidator, ExclusiveMinimumValidator, MaxItemsValidator, MaxLengthValidator,
    MaximumValidator, MinItemsValidator, MinLengthValidator, MinimumValidator, MultipleOfValidator,
    Numeric,
};
pub use pattern::PatternValidator;
pub use schema::{Constraint, FieldDecl, FieldType, IntKind, Literal, TypeDecl, Value, VariantDecl};
pub use tree::TypeValidator;
pub use derivation::{derive_validatable, DerivationError, DerivationErrorKind};
pub use conformance::conforms;
