//! Default validators: scalar values are always valid; optional values and
//! vectors check their contents with the default validator of what they hold.
use vstd::prelude::*;
use crate::validator::{AlwaysValidValidator, OptionValidator, Validatable, VecValidator};

verus! {

impl Validatable for bool {
    type DefaultValidator = AlwaysValidValidator;

    open spec fn default_validator_spec() -> AlwaysValidValidator {
        AlwaysValidValidator {}
    }

    fn default_validator() -> (v: AlwaysValidValidator) {
        AlwaysValidValidator {}
    }
}

impl Validatable for i8 {
    type DefaultValidator = AlwaysValidValidator;

    open spec fn default_validator_spec() -> AlwaysValidValidator {
        AlwaysValidValidator {}
    }

    fn default_validator() -> (v: AlwaysValidValidator) {
        AlwaysValidValidator {}
    }
}

impl Validatable for i16 {
    type DefaultValidator = AlwaysValidValidator;

    open spec fn default_validator_spec() -> AlwaysValidValidator {
        AlwaysValidValidator {}
    }

    fn default_validator() -> (v: AlwaysValidValidator) {
        AlwaysValidValidator {}
    }
}

impl Validatable for i32 {
    type DefaultValidator = AlwaysValidValidator;

    open spec fn default_validator_spec() -> AlwaysValidValidator {
        AlwaysValidValidator {}
    }

    fn default_validator() -> (v: AlwaysValidValidator) {
        AlwaysValidValidator {}
    }
}

impl Validatable for i64 {
    type DefaultValidator = AlwaysValidValidator;

    open spec fn default_validator_spec() -> AlwaysValidValidator {
        AlwaysValidValidator {}
    }

    fn default_validator() -> (v: AlwaysValidValidator) {
        AlwaysValidValidator {}
    }
}

impl Validatable for isize {
    type DefaultValidator = AlwaysValidValidator;

    open spec fn default_validator_spec() -> AlwaysValidValidator {
        AlwaysValidValidator {}
    }

    fn default_validator() -> (v: AlwaysValidValidator) {
        AlwaysValidValidator {}
    }
}

impl Validatable for u8 {
    type DefaultValidator = AlwaysValidValidator;

    open spec fn default_validator_spec() -> AlwaysValidValidator {
        AlwaysValidValidator {}
    }

    fn default_validator() -> (v: AlwaysValidValidator) {
        AlwaysValidValidator {}
    }
}

impl Validatable for u16 {
    type DefaultValidator = AlwaysValidValidator;

    open spec fn default_validator_spec() -> AlwaysValidValidator {
        AlwaysValidValidator {}
    }

    fn default_validator() -> (v: AlwaysValidValidator) {
        AlwaysValidValidator {}
    }
}

impl Validatable for u32 {
    type DefaultValidator = AlwaysValidValidator;

    open spec fn default_validator_spec() -> AlwaysValidValidator {
        AlwaysValidValidator {}
    }

    fn default_validator() -> (v: AlwaysValidValidator) {
        AlwaysValidValidator {}
    }
}

impl Validatable for u64 {
    type DefaultValidator = AlwaysValidValidator;

    open spec fn default_validator_spec() -> AlwaysValidValidator {
        AlwaysValidValidator {}
    }

    fn default_validator() -> (v: AlwaysValidValidator) {
        AlwaysValidValidator {}
    }
}

impl Validatable for usize {
    type DefaultValidator = AlwaysValidValidator;

    open spec fn default_validator_spec() -> AlwaysValidValidator {
        AlwaysValidValidator {}
    }

    fn default_validator() -> (v: AlwaysValidValidator) {
        AlwaysValidValidator {}
    }
}

impl Validatable for char {
    type DefaultValidator = AlwaysValidValidator;

    open spec fn default_validator_spec() -> AlwaysValidValidator {
        AlwaysValidValidator {}
    }

    fn default_validator() -> (v: AlwaysValidValidator) {
        AlwaysValidValidator {}
    }
}

impl Validatable for String {
    type DefaultValidator = AlwaysValidValidator;

    open spec fn default_validator_spec() -> AlwaysValidValidator {
        AlwaysValidValidator {}
    }

    fn default_validator() -> (v: AlwaysValidValidator) {
        AlwaysValidValidator {}
    }
}

impl<T: Validatable> Validatable for Option<T> {
    type DefaultValidator = OptionValidator<T, T::DefaultValidator>;

    open spec fn default_validator_spec() -> OptionValidator<T, T::DefaultValidator> {
        OptionValidator::with_inner(T::default_validator_spec())
    }

    fn default_validator() -> (v: OptionValidator<T, T::DefaultValidator>) {
        OptionValidator::new(T::default_validator())
    }
}

impl<T: Validatable> Validatable for Vec<T> {
    type DefaultValidator = VecValidator<T, T::DefaultValidator>;

    open spec fn default_validator_spec() -> VecValidator<T, T::DefaultValidator> {
        VecValidator::with_inner(T::default_validator_spec())
    }

    fn default_validator() -> (v: VecValidator<T, T::DefaultValidator>) {
        VecValidator::new(T::default_validator())
    }
}

} // verus!
