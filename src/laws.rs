//! Properties of validation that hold for every validator and value.
use vstd::prelude::*;
use crate::constraints::{ExclusiveMaximumValidator, ExclusiveMinimumValidator, MaximumValidator, MinimumValidator};
use crate::error::{models, ValidationError};
use crate::path::Segment;
use crate::schema::Value;
use crate::tree::{field_reported, fields_reported, FieldNode, TypeValidator};
use crate::validator::{outcome, Validator};

verus! {

/// Validation is repeatable: two passes of one validator over one value end
/// alike, with the same errors in the same order.
pub proof fn lemma_validation_repeatable<T, V: Validator<T>>(
    validator: V,
    value: T,
    first: Result<(), Vec<ValidationError>>,
    second: Result<(), Vec<ValidationError>>,
)
    requires
        outcome(first, validator.reported(Seq::empty(), value)),
        outcome(second, validator.reported(Seq::empty(), value)),
    ensures
        first is Ok == second is Ok,
        first is Err ==> models(first->Err_0@) == models(second->Err_0@),
{
}

/// The positions, in field order, of the fields that report an error for
/// their value.
pub open spec fn violating_fields(fields: Seq<FieldNode>, path: Seq<Segment>, values: Seq<Value>) -> Seq<
    int,
>
    decreases fields.len(),
{
    if fields.len() == 0 {
        Seq::empty()
    } else {
        let last = fields.len() - 1;
        let earlier = violating_fields(fields.subrange(0, last), path, values);
        if last < values.len() && field_reported(fields[last], path, values[last]).len() > 0 {
            earlier.push(last)
        } else {
            earlier
        }
    }
}

/// Validation does not stop early: when each field of a record violates at
/// most one constraint, the record reports exactly one error per violating
/// field, in field order, and none when no field violates one.
pub proof fn lemma_every_violation_reported(
    validator: TypeValidator,
    path: Seq<Segment>,
    values: Vec<Value>,
)
    requires
        validator.root is Record,
        values@.len() == validator.root->Record_0@.len(),
        forall|i: int|
            0 <= i < values@.len() ==> (#[trigger] field_reported(
                validator.root->Record_0@[i],
                path,
                values@[i],
            )).len() <= 1,
    ensures
        ({
            let fields = validator.root->Record_0@;
            let reported = validator.reported(path, Value::Record(values));
            let violating = violating_fields(fields, path, values@);
            &&& reported.len() == violating.len()
            &&& forall|j: int|
                0 <= j < violating.len() ==> 0 <= violating[j] < fields.len() && reported[j]
                    == field_reported(fields[violating[j]], path, values@[violating[j]])[0]
            &&& forall|j: int, k: int| 0 <= j < k < violating.len() ==> violating[j] < violating[k]
            &&& forall|i: int|
                0 <= i < fields.len() && field_reported(fields[i], path, values@[i]).len() == 1
                    ==> violating.contains(i)
        }),
{
    let fields = validator.root->Record_0@;
    lemma_violations(fields, path, values@);
    assert(validator.reported(path, Value::Record(values)) == fields_reported(fields, path, values@));
}

proof fn lemma_violations(fields: Seq<FieldNode>, path: Seq<Segment>, values: Seq<Value>)
    requires
        fields.len() <= values.len(),
        forall|i: int|
            0 <= i < fields.len() ==> (#[trigger] field_reported(fields[i], path, values[i])).len()
                <= 1,
    ensures
        fields_reported(fields, path, values).len() == violating_fields(fields, path, values).len(),
        forall|j: int|
            0 <= j < violating_fields(fields, path, values).len() ==> 0 <= #[trigger] violating_fields(
                fields,
                path,
                values,
            )[j] < fields.len(),
        forall|j: int|
            0 <= j < violating_fields(fields, path, values).len() ==> #[trigger] fields_reported(
                fields,
                path,
                values,
            )[j] == field_reported(
                fields[violating_fields(fields, path, values)[j]],
                path,
                values[violating_fields(fields, path, values)[j]],
            )[0],
        forall|j: int, k: int|
            0 <= j < k < violating_fields(fields, path, values).len() ==> violating_fields(
                fields,
                path,
                values,
            )[j] < violating_fields(fields, path, values)[k],
        forall|i: int|
            0 <= i < fields.len() && (#[trigger] field_reported(fields[i], path, values[i])).len()
                == 1 ==> violating_fields(fields, path, values).contains(i),
    decreases fields.len(),
{
    if fields.len() > 0 {
        let last = fields.len() - 1;
        let earlier = fields.subrange(0, last);
        assert forall|i: int| 0 <= i < earlier.len() implies (#[trigger] field_reported(
            earlier[i],
            path,
            values[i],
        )).len() <= 1 by {
            assert(field_reported(fields[i], path, values[i]).len() <= 1);
        }
        lemma_violations(earlier, path, values);
        let prior = violating_fields(earlier, path, values);
        let before = fields_reported(earlier, path, values);
        let own = field_reported(fields[last], path, values[last]);
        let violating = violating_fields(fields, path, values);
        let reported = fields_reported(fields, path, values);
        assert(own.len() <= 1);
        assert(reported == before + own);
        assert forall|j: int| 0 <= j < prior.len() implies violating[j] == prior[j] && reported[j]
            == field_reported(fields[prior[j]], path, values[prior[j]])[0] by {
            assert(0 <= prior[j] < last);
            assert(earlier[prior[j]] == fields[prior[j]]);
            assert(before[j] == field_reported(earlier[prior[j]], path, values[prior[j]])[0]);
        }
        if own.len() == 1 {
            assert(violating == prior.push(last));
            assert(reported[prior.len() as int] == own[0]);
        } else {
            assert(violating == prior);
            assert(reported =~= before);
        }
        assert forall|i: int|
            0 <= i < fields.len() && (#[trigger] field_reported(fields[i], path, values[i])).len()
                == 1 implies violating.contains(i) by {
            if i < last {
                assert(earlier[i] == fields[i]);
                assert(field_reported(earlier[i], path, values[i]).len() == 1);
                assert(prior.contains(i));
                let w = choose|w: int| 0 <= w < prior.len() && prior[w] == i;
                assert(violating[w] == i);
            } else {
                assert(violating[prior.len() as int] == i);
            }
        }
    }
}

/// The bound of an inclusive constraint is accepted, the next value past it
/// is not; the bound of an exclusive constraint is rejected, the next value
/// inside it is accepted.
pub proof fn lemma_bounds_inclusive_and_exclusive(bound: i128, path: Seq<Segment>)
    requires
        i128::MIN < bound < i128::MAX,
    ensures
        MinimumValidator::<i128>::with_bound(bound).reported(path, bound).len() == 0,
        MinimumValidator::<i128>::with_bound(bound).reported(path, (bound - 1) as i128).len() == 1,
        MaximumValidator::<i128>::with_bound(bound).reported(path, bound).len() == 0,
        MaximumValidator::<i128>::with_bound(bound).reported(path, (bound + 1) as i128).len() == 1,
        ExclusiveMinimumValidator::<i128>::with_bound(bound).reported(path, bound).len() == 1,
        ExclusiveMinimumValidator::<i128>::with_bound(bound).reported(
            path,
            (bound + 1) as i128,
        ).len() == 0,
        ExclusiveMaximumValidator::<i128>::with_bound(bound).reported(path, bound).len() == 1,
        ExclusiveMaximumValidator::<i128>::with_bound(bound).reported(
            path,
            (bound - 1) as i128,
        ).len() == 0,
{
    MinimumValidator::<i128>::lemma_with_bound(bound);
    MaximumValidator::<i128>::lemma_with_bound(bound);
    ExclusiveMinimumValidator::<i128>::lemma_with_bound(bound);
    ExclusiveMaximumValidator::<i128>::lemma_with_bound(bound);
}

/// An absent value of an optional field is not checked: neither its type's
/// checks nor its constraints report anything.
pub proof fn lemma_absent_optional_skipped(field: FieldNode, path: Seq<Segment>)
    requires
        field.optional,
        field.node is Optional,
    ensures
        field_reported(field, path, Value::Optional(None)).len() == 0,
{
}

} // verus!
