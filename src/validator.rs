//! Validators, default validators per type, and the entry points of a pass.
use vstd::prelude::*;
use core::marker::PhantomData;
use crate::error::{models, ErrorModel, ValidationError};
use crate::path::{Segment, ValidationPath};

verus! {

/// A validator for type T.
pub trait Validator<T> {
    /// The errors, in order, that this validator reports for `value` at the
    /// path with the steps `path`.
    spec fn reported(&self, path: Seq<Segment>, value: T) -> Seq<ErrorModel>;

    /// Validate the passed value stored at the passed path. Errors are added
    /// to the errors vector, after those already in it.
    fn validate(&self, path: &ValidationPath, value: &T, errors: &mut Vec<ValidationError>)
        ensures
            models(final(errors)@) == models(old(errors)@) + self.reported(path@, *value),
    ;
}

/// How a pass over a value ends: `Ok` when no error was reported, else all
/// the reported errors in order.
pub open spec fn outcome(r: Result<(), Vec<ValidationError>>, reported: Seq<ErrorModel>) -> bool {
    match r {
        Ok(_) => reported.len() == 0,
        Err(e) => reported.len() > 0 && models(e@) == reported,
    }
}

/// Validates `value` with `validator`, starting at the root path: `Ok` when
/// nothing is reported, else all the errors in the order reported.
pub fn validate_with<T, V: Validator<T>>(value: &T, validator: &V) -> (r: Result<
    (),
    Vec<ValidationError>,
>)
    ensures
        outcome(r, validator.reported(Seq::empty(), *value)),
{
    let mut errors: Vec<ValidationError> = Vec::new();
    let root = ValidationPath::Root;
    validator.validate(&root, value, &mut errors);
    assert(models(errors@) =~= validator.reported(Seq::empty(), *value));
    if errors.len() == 0 {
        Ok(())
    } else {
        Err(errors)
    }
}

/// A type with a default validator.
pub trait Validatable: Sized {
    /// Default validator for values of this type.
    type DefaultValidator: Validator<Self>;

    /// The default validator.
    spec fn default_validator_spec() -> Self::DefaultValidator;

    /// Builds the default validator.
    fn default_validator() -> (v: Self::DefaultValidator)
        ensures
            v == Self::default_validator_spec(),
    ;

    /// Validate this value using the default validator.
    fn validate(&self) -> (r: Result<(), Vec<ValidationError>>)
        ensures
            outcome(r, Self::default_validator_spec().reported(Seq::empty(), *self)),
    {
        self.validate_with(&Self::default_validator())
    }

    /// Validate this instance with the given validator.
    fn validate_with<V: Validator<Self>>(&self, validator: &V) -> (r: Result<
        (),
        Vec<ValidationError>,
    >)
        ensures
            outcome(r, validator.reported(Seq::empty(), *self)),
    {
        validate_with(self, validator)
    }

    /// Similar to validate() except that errors are added to the passed vector.
    fn validate_ex(&self, path: &ValidationPath, errors: &mut Vec<ValidationError>)
        ensures
            models(final(errors)@) == models(old(errors)@)
                + Self::default_validator_spec().reported(path@, *self),
    {
        Self::default_validator().validate(path, self, errors);
    }
}

/// A validator that is never returning errors.
pub struct AlwaysValidValidator {}

impl<T> Validator<T> for AlwaysValidValidator {
    open spec fn reported(&self, path: Seq<Segment>, value: T) -> Seq<ErrorModel> {
        Seq::empty()
    }

    fn validate(&self, path: &ValidationPath, value: &T, errors: &mut Vec<ValidationError>) {
        assert(models(errors@) + Seq::<ErrorModel>::empty() =~= models(errors@));
    }
}

/// A validator for Option: the inner validator checks a present value, at
/// the same path; an absent value is not checked.
pub struct OptionValidator<T, V> where V: Validator<T> {
    inner: V,
    phantom: PhantomData<T>,
}

impl<T, V> OptionValidator<T, V> where V: Validator<T> {
    pub fn new(inner: V) -> (r: Self)
        ensures
            r == Self::with_inner(inner),
            r.inner() == inner,
    {
        OptionValidator { inner, phantom: PhantomData }
    }

    /// The validator that applies `inner`.
    pub closed spec fn with_inner(inner: V) -> Self {
        OptionValidator { inner, phantom: PhantomData }
    }

    /// The validator applied to a present value.
    pub closed spec fn inner(&self) -> V {
        self.inner
    }

    /// The validator built with `inner` applies `inner`.
    pub proof fn lemma_inner(inner: V)
        ensures
            #[trigger] Self::with_inner(inner).inner() == inner,
    {
    }
}

impl<T, V> Validator<Option<T>> for OptionValidator<T, V> where V: Validator<T> {
    open spec fn reported(&self, path: Seq<Segment>, value: Option<T>) -> Seq<ErrorModel> {
        match value {
            Some(v) => self.inner().reported(path, v),
            None => Seq::empty(),
        }
    }

    fn validate(
        &self,
        path: &ValidationPath,
        value: &Option<T>,
        errors: &mut Vec<ValidationError>,
    ) {
        match value {
            Some(v) => self.inner.validate(path, v, errors),
            None => {
                assert(models(errors@) + Seq::<ErrorModel>::empty() =~= models(errors@));
            },
        }
    }
}

/// The errors that `inner` reports for the items of `items`, item by item in
/// order, each at its index below `path`.
pub open spec fn items_reported<T, V: Validator<T>>(
    inner: V,
    path: Seq<Segment>,
    items: Seq<T>,
) -> Seq<ErrorModel>
    decreases items.len(),
{
    if items.len() == 0 {
        Seq::empty()
    } else {
        let last = (items.len() - 1) as nat;
        items_reported(inner, path, items.drop_last()) + inner.reported(
            path.push(Segment::Item(last)),
            items.last(),
        )
    }
}

/// A validator for vectors that validates each item, at a path that ends in
/// its index.
pub struct VecValidator<T, V> where V: Validator<T> {
    inner: V,
    phantom: PhantomData<T>,
}

impl<T, V> VecValidator<T, V> where V: Validator<T> {
    pub fn new(inner: V) -> (r: Self)
        ensures
            r == Self::with_inner(inner),
            r.inner() == inner,
    {
        VecValidator { inner, phantom: PhantomData }
    }

    /// The validator that applies `inner`.
    pub closed spec fn with_inner(inner: V) -> Self {
        VecValidator { inner, phantom: PhantomData }
    }

    /// The validator applied to each item.
    pub closed spec fn inner(&self) -> V {
        self.inner
    }

    /// The validator built with `inner` applies `inner`.
    pub proof fn lemma_inner(inner: V)
        ensures
            #[trigger] Self::with_inner(inner).inner() == inner,
    {
    }
}

impl<T, V> Validator<Vec<T>> for VecValidator<T, V> where V: Validator<T> {
    open spec fn reported(&self, path: Seq<Segment>, value: Vec<T>) -> Seq<ErrorModel> {
        items_reported(self.inner(), path, value@)
    }

    fn validate(&self, path: &ValidationPath, value: &Vec<T>, errors: &mut Vec<ValidationError>) {
        let mut index: usize = 0;
        while index < value.len()
            invariant
                index <= value@.len(),
                models(errors@) == models(old(errors)@) + items_reported(
                    self.inner,
                    path@,
                    value@.take(index as int),
                ),
            decreases value@.len() - index,
        {
            let item_path = ValidationPath::Item { parent: path, index };
            self.inner.validate(&item_path, &value[index], errors);
            proof {
                let next = value@.take(index + 1);
                assert(next.drop_last() =~= value@.take(index as int));
                assert(item_path@ == path@.push(Segment::Item(index as nat)));
            }
            index = index + 1;
        }
        assert(value@.take(index as int) =~= value@);
    }
}

} // verus!
