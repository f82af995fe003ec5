//! Whether a value has the shape of a declared type: the checks of a derived
//! validator look only at values of the shape they expect, so callers can
//! reject other values first.
use vstd::prelude::*;
use crate::derivation::kind_range;
use crate::tags::{find_tag, tag_index};
use crate::schema::{kind_max, kind_min, FieldDecl, FieldType, TypeDecl, Value};

verus! {

/// Whether `value` is a value of the declared type `t`: a record with one
/// value per field, or a variant whose tag is declared, with one value per
/// field of that variant; each field's value of the field's type.
pub open spec fn type_conforms(t: TypeDecl, value: Value) -> bool
    decreases t, 0nat,
{
    match t {
        TypeDecl::Record(fields) => match value {
            Value::Record(values) => fields_conform(fields@, values@),
            _ => false,
        },
        TypeDecl::Union(variants) => match value {
            Value::Variant(tag, values) => {
                let k = tag_index(variants@, tag@);
                0 <= k < variants@.len() && fields_conform(variants@[k].fields@, values@)
            },
            _ => false,
        },
    }
}

/// Whether `value` is a value of the field type `ty`; an integer must lie in
/// the range of its declared integer type.
pub open spec fn value_conforms(ty: FieldType, value: Value) -> bool
    decreases ty, 0nat,
{
    match ty {
        FieldType::Bool => value is Bool,
        FieldType::Char => value is Char,
        FieldType::Integer(kind) => match value {
            Value::Int(x) => kind_min(kind) <= x <= kind_max(kind),
            _ => false,
        },
        FieldType::Text => value is Text,
        FieldType::Optional(inner) => match value {
            Value::Optional(None) => true,
            Value::Optional(Some(present)) => value_conforms(*inner, *present),
            _ => false,
        },
        FieldType::List(inner) => match value {
            Value::List(items) => items_conform(*inner, items@),
            _ => false,
        },
        FieldType::Nested(decl) => type_conforms(*decl, value),
    }
}

/// Whether every item is a value of the field type `ty`.
pub open spec fn items_conform(ty: FieldType, items: Seq<Value>) -> bool
    decreases ty, items.len(),
{
    if items.len() == 0 {
        true
    } else {
        items_conform(ty, items.drop_last()) && value_conforms(ty, items.last())
    }
}

/// Whether there is one value per field, each of its field's type.
pub open spec fn fields_conform(fields: Seq<FieldDecl>, values: Seq<Value>) -> bool
    decreases fields, 0nat,
{
    if fields.len() != values.len() {
        false
    } else if fields.len() == 0 {
        true
    } else {
        let last = fields.len() - 1;
        fields_conform(fields.subrange(0, last), values.subrange(0, last)) && field_conforms(
            fields[last],
            values[last],
        )
    }
}

/// Whether `value` is a value of the type of the field `decl`.
pub open spec fn field_conforms(decl: FieldDecl, value: Value) -> bool
    decreases decl, 1nat,
{
    value_conforms(decl.ty, value)
}

/// Whether `value` is a value of the declared type `decl`. A derived
/// validator checks the constraints of values that pass this test; values
/// that do not are not values of the type and should be rejected first.
pub fn conforms(decl: &TypeDecl, value: &Value) -> (r: bool)
    ensures
        r == type_conforms(*decl, *value),
    decreases *decl, 0nat,
{
    match decl {
        TypeDecl::Record(fields) => match value {
            Value::Record(values) => fields_conform_to(fields, values),
            _ => false,
        },
        TypeDecl::Union(variants) => match value {
            Value::Variant(tag, values) => match find_tag(variants, tag) {
                Some(k) => {
                    proof {
                        let v = variants@[k as int];
                        assert(decreases_to!(*variants => variants@));
                        assert(decreases_to!(variants@ => v));
                        assert(decreases_to!(v => v.fields));
                        assert(decreases_to!(v.fields => v.fields@));
                    }
                    fields_conform_to(&variants[k].fields, values)
                },
                None => false,
            },
            _ => false,
        },
    }
}

/// Whether `value` is a value of the field type `ty`.
fn value_conforms_to(ty: &FieldType, value: &Value) -> (r: bool)
    ensures
        r == value_conforms(*ty, *value),
    decreases *ty, 0nat,
{
    match ty {
        FieldType::Bool => match value {
            Value::Bool(_) => true,
            _ => false,
        },
        FieldType::Char => match value {
            Value::Char(_) => true,
            _ => false,
        },
        FieldType::Integer(kind) => match value {
            Value::Int(x) => {
                let (low, high) = kind_range(*kind);
                low <= *x && *x <= high
            },
            _ => false,
        },
        FieldType::Text => match value {
            Value::Text(_) => true,
            _ => false,
        },
        FieldType::Optional(inner) => match value {
            Value::Optional(None) => true,
            Value::Optional(Some(present)) => value_conforms_to(inner, present),
            _ => false,
        },
        FieldType::List(inner) => match value {
            Value::List(items) => items_conform_to(inner, items),
            _ => false,
        },
        FieldType::Nested(decl) => conforms(decl, value),
    }
}

/// Whether every item is a value of the field type `ty`.
fn items_conform_to(ty: &FieldType, items: &Vec<Value>) -> (r: bool)
    ensures
        r == items_conform(*ty, items@),
    decreases *ty, 1nat,
{
    let mut all = true;
    let mut i: usize = 0;
    while i < items.len()
        invariant
            i <= items@.len(),
            all == items_conform(*ty, items@.take(i as int)),
        decreases items@.len() - i,
    {
        proof {
            assert(items@.take(i + 1).drop_last() =~= items@.take(i as int));
        }
        all = all && value_conforms_to(ty, &items[i]);
        i = i + 1;
    }
    assert(items@.take(i as int) =~= items@);
    all
}

/// Whether there is one value per field, each of its field's type.
fn fields_conform_to(fields: &Vec<FieldDecl>, values: &Vec<Value>) -> (r: bool)
    ensures
        r == fields_conform(fields@, values@),
    decreases fields@, 1nat,
{
    if fields.len() != values.len() {
        return false;
    }
    let mut all = true;
    let mut i: usize = 0;
    while i < fields.len()
        invariant
            i <= fields@.len(),
            fields@.len() == values@.len(),
            all == fields_conform(fields@.subrange(0, i as int), values@.subrange(0, i as int)),
        decreases fields@.len() - i,
    {
        proof {
            let next = fields@.subrange(0, i + 1);
            assert(next.subrange(0, i as int) =~= fields@.subrange(0, i as int));
            assert(values@.subrange(0, i + 1).subrange(0, i as int) =~= values@.subrange(
                0,
                i as int,
            ));
            assert(next[i as int] == fields@[i as int]);
            let f = fields@[i as int];
            assert(decreases_to!(fields@ => f));
            assert(decreases_to!(f => f.ty));
        }
        let ok = value_conforms_to(&fields[i].ty, &values[i]);
        proof {
            let next = fields@.subrange(0, i + 1);
            let next_values = values@.subrange(0, i + 1);
            assert(next_values[i as int] == values@[i as int]);
            assert(field_conforms(next[i as int], next_values[i as int]) == ok);
            assert(fields_conform(next, next_values) == (all && ok));
        }
        all = all && ok;
        i = i + 1;
    }
    assert(fields@.subrange(0, i as int) =~= fields@);
    assert(values@.subrange(0, i as int) =~= values@);
    all
}

} // verus!
