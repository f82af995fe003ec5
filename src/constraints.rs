//! Validators for the numeric, length and item-count constraints.
use vstd::prelude::*;
use core::marker::PhantomData;
use crate::error::{
    error_model, models, report, ErrorModel, ValidationError, ValidationErrorCategory,
};
use crate::path::{render, Segment, ValidationPath};
use crate::text::{decimal, int_text, int_to_text, usize_to_text};
use crate::validator::Validator;
use vstd::math::abs;
use vstd::utf8::encode_utf8;

verus! {

/// An integer type whose values the numeric constraints compare and show.
pub trait Numeric: Copy {
    /// The value as a mathematical integer.
    spec fn int_value(&self) -> int;

    /// The value, widened without loss.
    fn to_i128(&self) -> (r: i128)
        ensures
            r as int == self.int_value(),
    ;
}

impl Numeric for i8 {
    open spec fn int_value(&self) -> int {
        *self as int
    }

    fn to_i128(&self) -> (r: i128) {
        *self as i128
    }
}

impl Numeric for i16 {
    open spec fn int_value(&self) -> int {
        *self as int
    }

    fn to_i128(&self) -> (r: i128) {
        *self as i128
    }
}

impl Numeric for i32 {
    open spec fn int_value(&self) -> int {
        *self as int
    }

    fn to_i128(&self) -> (r: i128) {
        *self as i128
    }
}

impl Numeric for i64 {
    open spec fn int_value(&self) -> int {
        *self as int
    }

    fn to_i128(&self) -> (r: i128) {
        *self as i128
    }
}

impl Numeric for i128 {
    open spec fn int_value(&self) -> int {
        *self as int
    }

    fn to_i128(&self) -> (r: i128) {
        *self
    }
}

impl Numeric for isize {
    open spec fn int_value(&self) -> int {
        *self as int
    }

    fn to_i128(&self) -> (r: i128) {
        *self as i128
    }
}

impl Numeric for u8 {
    open spec fn int_value(&self) -> int {
        *self as int
    }

    fn to_i128(&self) -> (r: i128) {
        *self as i128
    }
}

impl Numeric for u16 {
    open spec fn int_value(&self) -> int {
        *self as int
    }

    fn to_i128(&self) -> (r: i128) {
        *self as i128
    }
}

impl Numeric for u32 {
    open spec fn int_value(&self) -> int {
        *self as int
    }

    fn to_i128(&self) -> (r: i128) {
        *self as i128
    }
}

impl Numeric for u64 {
    open spec fn int_value(&self) -> int {
        *self as int
    }

    fn to_i128(&self) -> (r: i128) {
        *self as i128
    }
}

impl Numeric for usize {
    open spec fn int_value(&self) -> int {
        *self as int
    }

    fn to_i128(&self) -> (r: i128) {
        *self as i128
    }
}

/// The single error of `category` at `path`, or none when `violated` is false.
pub open spec fn single_error(
    violated: bool,
    category: ValidationErrorCategory,
    path: Seq<Segment>,
    actual: Seq<char>,
    expected: Seq<char>,
) -> Seq<ErrorModel> {
    if violated {
        seq![error_model(category, render(path), actual, expected)]
    } else {
        Seq::empty()
    }
}

/// Validator for the 'exclusive_maximum' schema check: a value must be below
/// the bound.
pub struct ExclusiveMaximumValidator<T: Numeric> {
    exclusive_maximum: T,
}

impl<T: Numeric> ExclusiveMaximumValidator<T> {
    pub fn new(exclusive_maximum: T) -> (r: Self)
        ensures
            r == Self::with_bound(exclusive_maximum),
            r.bound() == exclusive_maximum,
    {
        ExclusiveMaximumValidator { exclusive_maximum }
    }

    /// The validator with the given bound.
    pub closed spec fn with_bound(exclusive_maximum: T) -> Self {
        ExclusiveMaximumValidator { exclusive_maximum }
    }

    pub proof fn lemma_with_bound(exclusive_maximum: T)
        ensures
            #[trigger] Self::with_bound(exclusive_maximum).bound() == exclusive_maximum,
    {
    }

    /// The bound that values must stay below.
    pub closed spec fn bound(&self) -> T {
        self.exclusive_maximum
    }
}

impl<T: Numeric> Validator<T> for ExclusiveMaximumValidator<T> {
    open spec fn reported(&self, path: Seq<Segment>, value: T) -> Seq<ErrorModel> {
        single_error(
            value.int_value() >= self.bound().int_value(),
            ValidationErrorCategory::ExclusiveMaximum,
            path,
            int_text(value.int_value()),
            int_text(self.bound().int_value()),
        )
    }

    fn validate(&self, path: &ValidationPath, value: &T, errors: &mut Vec<ValidationError>) {
        let v = value.to_i128();
        let bound = self.exclusive_maximum.to_i128();
        if v >= bound {
            report(
                errors,
                ValidationErrorCategory::ExclusiveMaximum,
                path,
                int_to_text(v),
                int_to_text(bound),
            );
        } else {
            assert(models(errors@) + Seq::<ErrorModel>::empty() =~= models(errors@));
        }
    }
}

/// Validator for the 'exclusive_minimum' schema check: a value must be above
/// the bound.
pub struct ExclusiveMinimumValidator<T: Numeric> {
    exclusive_minimum: T,
}

impl<T: Numeric> ExclusiveMinimumValidator<T> {
    pub fn new(exclusive_minimum: T) -> (r: Self)
        ensures
            r == Self::with_bound(exclusive_minimum),
            r.bound() == exclusive_minimum,
    {
        ExclusiveMinimumValidator { exclusive_minimum }
    }

    /// The validator with the given bound.
    pub closed spec fn with_bound(exclusive_minimum: T) -> Self {
        ExclusiveMinimumValidator { exclusive_minimum }
    }

    pub proof fn lemma_with_bound(exclusive_minimum: T)
        ensures
            #[trigger] Self::with_bound(exclusive_minimum).bound() == exclusive_minimum,
    {
    }

    /// The bound that values must stay above.
    pub closed spec fn bound(&self) -> T {
        self.exclusive_minimum
    }
}

impl<T: Numeric> Validator<T> for ExclusiveMinimumValidator<T> {
    open spec fn reported(&self, path: Seq<Segment>, value: T) -> Seq<ErrorModel> {
        single_error(
            value.int_value() <= self.bound().int_value(),
            ValidationErrorCategory::ExclusiveMinimum,
            path,
            int_text(value.int_value()),
            int_text(self.bound().int_value()),
        )
    }

    fn validate(&self, path: &ValidationPath, value: &T, errors: &mut Vec<ValidationError>) {
        let v = value.to_i128();
        let bound = self.exclusive_minimum.to_i128();
        if v <= bound {
            report(
                errors,
                ValidationErrorCategory::ExclusiveMinimum,
                path,
                int_to_text(v),
                int_to_text(bound),
            );
        } else {
            assert(models(errors@) + Seq::<ErrorModel>::empty() =~= models(errors@));
        }
    }
}

/// Validator for the 'maximum' schema check: a value may equal the bound but
/// not exceed it.
pub struct MaximumValidator<T: Numeric> {
    maximum: T,
}

impl<T: Numeric> MaximumValidator<T> {
    pub fn new(maximum: T) -> (r: Self)
        ensures
            r == Self::with_bound(maximum),
            r.bound() == maximum,
    {
        MaximumValidator { maximum }
    }

    /// The validator with the given bound.
    pub closed spec fn with_bound(maximum: T) -> Self {
        MaximumValidator { maximum }
    }

    pub proof fn lemma_with_bound(maximum: T)
        ensures
            #[trigger] Self::with_bound(maximum).bound() == maximum,
    {
    }

    /// The largest value accepted.
    pub closed spec fn bound(&self) -> T {
        self.maximum
    }
}

impl<T: Numeric> Validator<T> for MaximumValidator<T> {
    open spec fn reported(&self, path: Seq<Segment>, value: T) -> Seq<ErrorModel> {
        single_error(
            value.int_value() > self.bound().int_value(),
            ValidationErrorCategory::Maximum,
            path,
            int_text(value.int_value()),
            int_text(self.bound().int_value()),
        )
    }

    fn validate(&self, path: &ValidationPath, value: &T, errors: &mut Vec<ValidationError>) {
        let v = value.to_i128();
        let bound = self.maximum.to_i128();
        if v > bound {
            report(errors, ValidationErrorCategory::Maximum, path, int_to_text(v), int_to_text(bound));
        } else {
            assert(models(errors@) + Seq::<ErrorModel>::empty() =~= models(errors@));
        }
    }
}

/// Validator for the 'minimum' schema check: a value may equal the bound but
/// not fall below it.
pub struct MinimumValidator<T: Numeric> {
    minimum: T,
}

impl<T: Numeric> MinimumValidator<T> {
    pub fn new(minimum: T) -> (r: Self)
        ensures
            r == Self::with_bound(minimum),
            r.bound() == minimum,
    {
        MinimumValidator { minimum }
    }

    /// The validator with the given bound.
    pub closed spec fn with_bound(minimum: T) -> Self {
        MinimumValidator { minimum }
    }

    pub proof fn lemma_with_bound(minimum: T)
        ensures
            #[trigger] Self::with_bound(minimum).bound() == minimum,
    {
    }

    /// The smallest value accepted.
    pub closed spec fn bound(&self) -> T {
        self.minimum
    }
}

impl<T: Numeric> Validator<T> for MinimumValidator<T> {
    open spec fn reported(&self, path: Seq<Segment>, value: T) -> Seq<ErrorModel> {
        single_error(
            value.int_value() < self.bound().int_value(),
            ValidationErrorCategory::Minimum,
            path,
            int_text(value.int_value()),
            int_text(self.bound().int_value()),
        )
    }

    fn validate(&self, path: &ValidationPath, value: &T, errors: &mut Vec<ValidationError>) {
        let v = value.to_i128();
        let bound = self.minimum.to_i128();
        if v < bound {
            report(errors, ValidationErrorCategory::Minimum, path, int_to_text(v), int_to_text(bound));
        } else {
            assert(models(errors@) + Seq::<ErrorModel>::empty() =~= models(errors@));
        }
    }
}

/// Whether `value` is a multiple of `divisor`: the magnitude of `divisor`
/// divides the magnitude of `value`.
pub open spec fn is_multiple_of(value: int, divisor: int) -> bool {
    abs(value) % abs(divisor) == 0
}

/// The magnitude of `v`.
fn magnitude(v: i128) -> (r: u128)
    ensures
        r as int == abs(v as int),
{
    if v < 0 {
        ((-(v + 1)) as u128) + 1
    } else {
        v as u128
    }
}

/// Validator for the 'multiple_of' schema check: a value must be a multiple
/// of the divisor, which is never zero.
pub struct MultipleOfValidator<T: Numeric> {
    multiple_of: T,
    phantom: PhantomData<T>,
}

impl<T: Numeric> MultipleOfValidator<T> {
    pub fn new(multiple_of: T) -> (r: Self)
        requires
            multiple_of.int_value() != 0,
        ensures
            r.divisor() == multiple_of,
    {
        MultipleOfValidator { multiple_of, phantom: PhantomData }
    }

    /// The number that values must be a multiple of.
    pub closed spec fn divisor(&self) -> T {
        self.multiple_of
    }

    #[verifier::type_invariant]
    spec fn divisor_nonzero(&self) -> bool {
        self.multiple_of.int_value() != 0
    }
}

impl<T: Numeric> Validator<T> for MultipleOfValidator<T> {
    open spec fn reported(&self, path: Seq<Segment>, value: T) -> Seq<ErrorModel> {
        single_error(
            !is_multiple_of(value.int_value(), self.divisor().int_value()),
            ValidationErrorCategory::MultipleOf,
            path,
            int_text(value.int_value()),
            int_text(self.divisor().int_value()),
        )
    }

    fn validate(&self, path: &ValidationPath, value: &T, errors: &mut Vec<ValidationError>) {
        proof {
            use_type_invariant(self);
        }
        let v = value.to_i128();
        let d = self.multiple_of.to_i128();
        if magnitude(v) % magnitude(d) != 0 {
            report(errors, ValidationErrorCategory::MultipleOf, path, int_to_text(v), int_to_text(d));
        } else {
            assert(models(errors@) + Seq::<ErrorModel>::empty() =~= models(errors@));
        }
    }
}

/// The length of a text in bytes: that of its UTF-8 encoding.
pub open spec fn byte_length(text: Seq<char>) -> nat {
    encode_utf8(text).len()
}

/// Validator for the 'max_length' schema check. The length of a text is the
/// number of bytes of its UTF-8 encoding.
pub struct MaxLengthValidator {
    max_length: usize,
}

impl MaxLengthValidator {
    pub fn new(max_length: usize) -> (r: Self)
        ensures
            r.bound() == max_length,
    {
        MaxLengthValidator { max_length }
    }

    /// The largest length accepted.
    pub closed spec fn bound(&self) -> usize {
        self.max_length
    }
}

impl Validator<String> for MaxLengthValidator {
    open spec fn reported(&self, path: Seq<Segment>, value: String) -> Seq<ErrorModel> {
        single_error(
            byte_length(value@) > self.bound(),
            ValidationErrorCategory::MaxLength,
            path,
            decimal(byte_length(value@)),
            decimal(self.bound() as nat),
        )
    }

    fn validate(&self, path: &ValidationPath, value: &String, errors: &mut Vec<ValidationError>) {
        let length = value.as_str().as_bytes().len();
        if length > self.max_length {
            report(
                errors,
                ValidationErrorCategory::MaxLength,
                path,
                usize_to_text(length),
                usize_to_text(self.max_length),
            );
        } else {
            assert(models(errors@) + Seq::<ErrorModel>::empty() =~= models(errors@));
        }
    }
}

/// Validator for the 'min_length' schema check. The length of a text is the
/// number of bytes of its UTF-8 encoding.
pub struct MinLengthValidator {
    min_length: usize,
}

impl MinLengthValidator {
    pub fn new(min_length: usize) -> (r: Self)
        ensures
            r.bound() == min_length,
    {
        MinLengthValidator { min_length }
    }

    /// The smallest length accepted.
    pub closed spec fn bound(&self) -> usize {
        self.min_length
    }
}

impl Validator<String> for MinLengthValidator {
    open spec fn reported(&self, path: Seq<Segment>, value: String) -> Seq<ErrorModel> {
        single_error(
            byte_length(value@) < self.bound(),
            ValidationErrorCategory::MinLength,
            path,
            decimal(byte_length(value@)),
            decimal(self.bound() as nat),
        )
    }

    fn validate(&self, path: &ValidationPath, value: &String, errors: &mut Vec<ValidationError>) {
        let length = value.as_str().as_bytes().len();
        if length < self.min_length {
            report(
                errors,
                ValidationErrorCategory::MinLength,
                path,
                usize_to_text(length),
                usize_to_text(self.min_length),
            );
        } else {
            assert(models(errors@) + Seq::<ErrorModel>::empty() =~= models(errors@));
        }
    }
}

/// Validator for the 'max_items' schema check.
pub struct MaxItemsValidator<T> {
    max_items: usize,
    phantom: PhantomData<T>,
}

impl<T> MaxItemsValidator<T> {
    pub fn new(max_items: usize) -> (r: Self)
        ensures
            r.bound() == max_items,
    {
        MaxItemsValidator { max_items, phantom: PhantomData }
    }

    /// The largest number of items accepted.
    pub closed spec fn bound(&self) -> usize {
        self.max_items
    }
}

impl<T> Validator<Vec<T>> for MaxItemsValidator<T> {
    open spec fn reported(&self, path: Seq<Segment>, value: Vec<T>) -> Seq<ErrorModel> {
        single_error(
            value@.len() > self.bound(),
            ValidationErrorCategory::MaxItems,
            path,
            decimal(value@.len()),
            decimal(self.bound() as nat),
        )
    }

    fn validate(&self, path: &ValidationPath, value: &Vec<T>, errors: &mut Vec<ValidationError>) {
        if value.len() > self.max_items {
            report(
                errors,
                ValidationErrorCategory::MaxItems,
                path,
                usize_to_text(value.len()),
                usize_to_text(self.max_items),
            );
        } else {
            assert(models(errors@) + Seq::<ErrorModel>::empty() =~= models(errors@));
        }
    }
}

/// Validator for the 'min_items' schema check.
pub struct MinItemsValidator<T> {
    min_items: usize,
    phantom: PhantomData<T>,
}

impl<T> MinItemsValidator<T> {
    pub fn new(min_items: usize) -> (r: Self)
        ensures
            r.bound() == min_items,
    {
        MinItemsValidator { min_items, phantom: PhantomData }
    }

    /// The smallest number of items accepted.
    pub closed spec fn bound(&self) -> usize {
        self.min_items
    }
}

impl<T> Validator<Vec<T>> for MinItemsValidator<T> {
    open spec fn reported(&self, path: Seq<Segment>, value: Vec<T>) -> Seq<ErrorModel> {
        single_error(
            value@.len() < self.bound(),
            ValidationErrorCategory::MinItems,
            path,
            decimal(value@.len()),
            decimal(self.bound() as nat),
        )
    }

    fn validate(&self, path: &ValidationPath, value: &Vec<T>, errors: &mut Vec<ValidationError>) {
        if value.len() < self.min_items {
            report(
                errors,
                ValidationErrorCategory::MinItems,
                path,
                usize_to_text(value.len()),
                usize_to_text(self.min_items),
            );
        } else {
            assert(models(errors@) + Seq::<ErrorModel>::empty() =~= models(errors@));
        }
    }
}

} // verus!
