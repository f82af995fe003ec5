//! Validation errors: what was violated, where, and by which value.
use vstd::prelude::*;
use crate::path::{render, ValidationPath};

verus! {

/// Category for validation errors that can be used to differentiate between
/// different errors independent of the error message.
#[derive(Debug, Clone, PartialEq, Eq)]
pub enum ValidationErrorCategory {
    ExclusiveMaximum,
    ExclusiveMinimum,
    Maximum,
    Minimum,
    MaxItems,
    MinItems,
    MaxLength,
    MinLength,
    MultipleOf,
    Pattern,
    /// A category defined by a custom validator.
    Other {
        /// Tag that can be used to identify the error category.
        tag: String,
        /// The sentence shown after the path in the error message.
        message: String,
    },
}

/// Struct describing an error during validation.
#[derive(Debug, Clone, PartialEq, Eq)]
pub struct ValidationError {
    /// Category of the error.
    pub category: ValidationErrorCategory,
    /// Path to the value that caused the error.
    pub path: String,
    /// The actual value.
    pub actual: String,
    /// The expected value. The meaning of this value depends on the category.
    pub expected: String,
}

/// What a [`ValidationError`] holds, with its texts as character sequences.
pub struct ErrorModel {
    pub category: ValidationErrorCategory,
    pub path: Seq<char>,
    pub actual: Seq<char>,
    pub expected: Seq<char>,
}

impl View for ValidationError {
    type V = ErrorModel;

    open spec fn view(&self) -> ErrorModel {
        ErrorModel {
            category: self.category,
            path: self.path@,
            actual: self.actual@,
            expected: self.expected@,
        }
    }
}

/// The models of a list of errors, in order.
pub open spec fn models(errors: Seq<ValidationError>) -> Seq<ErrorModel> {
    errors.map_values(|e: ValidationError| e@)
}

/// The error of the given category at `path`, with the given actual and
/// expected texts.
pub open spec fn error_model(
    category: ValidationErrorCategory,
    path: Seq<char>,
    actual: Seq<char>,
    expected: Seq<char>,
) -> ErrorModel {
    ErrorModel { category, path, actual, expected }
}

/// The sentence of an error message, between the path and the values.
pub open spec fn message_text(e: ErrorModel) -> Seq<char> {
    match e.category {
        ValidationErrorCategory::ExclusiveMaximum => e.path + ": Must be less than "@ + e.expected
            + " but is "@ + e.actual,
        ValidationErrorCategory::ExclusiveMinimum => e.path + ": Must be greater than "@
            + e.expected + " but is "@ + e.actual,
        ValidationErrorCategory::Maximum => e.path + ": Must be less than or equal to "@
            + e.expected + " but is "@ + e.actual,
        ValidationErrorCategory::Minimum => e.path + ": Must be greater than or equal to "@
            + e.expected + " but is "@ + e.actual,
        ValidationErrorCategory::MaxItems => e.path + ": Must have at most "@ + e.expected
            + " items but has "@ + e.actual,
        ValidationErrorCategory::MinItems => e.path + ": Must have at least "@ + e.expected
            + " items but has "@ + e.actual,
        ValidationErrorCategory::MaxLength => e.path + ": Must have at most "@ + e.expected
            + " characters but has "@ + e.actual,
        ValidationErrorCategory::MinLength => e.path + ": Must have at least "@ + e.expected
            + " characters but has "@ + e.actual,
        ValidationErrorCategory::MultipleOf => e.path + ": Must be a multiple of "@ + e.expected
            + " but is "@ + e.actual,
        ValidationErrorCategory::Pattern => e.path + ": Must match the regular expression "@
            + e.expected + " but is "@ + e.actual,
        ValidationErrorCategory::Other { tag, message } => e.path + ": "@ + message@,
    }
}

/// Reporting nothing leaves a list of errors as it was.
pub proof fn lemma_nothing_reported(errors: Seq<ErrorModel>)
    ensures
        errors + Seq::<ErrorModel>::empty() == errors,
{
    assert(errors + Seq::<ErrorModel>::empty() =~= errors);
}

/// Adds the error of the given category at `path`, with the given actual and
/// expected texts, after the errors already in `errors`.
pub(crate) fn report(
    errors: &mut Vec<ValidationError>,
    category: ValidationErrorCategory,
    path: &ValidationPath,
    actual: String,
    expected: String,
)
    ensures
        models(final(errors)@) == models(old(errors)@).push(
            error_model(category, render(path@), actual@, expected@),
        ),
{
    let error = ValidationError { category, path: path.to_string(), actual, expected };
    errors.push(error);
    assert(models(errors@) =~= models(old(errors)@).push(error@));
}

impl ValidationError {
    /// The human-readable message of this error.
    pub fn to_string(&self) -> (r: String)
        ensures
            r@ == message_text(self@),
    {
        let mut s = self.path.clone();
        match &self.category {
            ValidationErrorCategory::ExclusiveMaximum => {
                s.append(": Must be less than ");
                s.append(self.expected.as_str());
                s.append(" but is ");
                s.append(self.actual.as_str());
            },
            ValidationErrorCategory::ExclusiveMinimum => {
                s.append(": Must be greater than ");
                s.append(self.expected.as_str());
                s.append(" but is ");
                s.append(self.actual.as_str());
            },
            ValidationErrorCategory::Maximum => {
                s.append(": Must be less than or equal to ");
                s.append(self.expected.as_str());
                s.append(" but is ");
                s.append(self.actual.as_str());
            },
            ValidationErrorCategory::Minimum => {
                s.append(": Must be greater than or equal to ");
                s.append(self.expected.as_str());
                s.append(" but is ");
                s.append(self.actual.as_str());
            },
            ValidationErrorCategory::MaxItems => {
                s.append(": Must have at most ");
                s.append(self.expected.as_str());
                s.append(" items but has ");
                s.append(self.actual.as_str());
            },
            ValidationErrorCategory::MinItems => {
                s.append(": Must have at least ");
                s.append(self.expected.as_str());
                s.append(" items but has ");
                s.append(self.actual.as_str());
            },
            ValidationErrorCategory::MaxLength => {
                s.append(": Must have at most ");
                s.append(self.expected.as_str());
                s.append(" characters but has ");
                s.append(self.actual.as_str());
            },
            ValidationErrorCategory::MinLength => {
                s.append(": Must have at least ");
                s.append(self.expected.as_str());
                s.append(" characters but has ");
                s.append(self.actual.as_str());
            },
            ValidationErrorCategory::MultipleOf => {
                s.append(": Must be a multiple of ");
                s.append(self.expected.as_str());
                s.append(" but is ");
                s.append(self.actual.as_str());
            },
            ValidationErrorCategory::Pattern => {
                s.append(": Must match the regular expression ");
                s.append(self.expected.as_str());
                s.append(" but is ");
                s.append(self.actual.as_str());
            },
            ValidationErrorCategory::Other { tag, message } => {
                s.append(": ");
                s.append(message.as_str());
            },
        }
        assert(s@ =~= message_text(self@));
        s
    }
}

} // verus!
