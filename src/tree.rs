//! Validator trees: the validation procedure that derivation builds for a
//! declared type, and what it reports for a value.
use vstd::prelude::*;
use crate::constraints::{
    ExclusiveMaximumValidator, ExclusiveMinimumValidator, MaxItemsValidator, MaxLengthValidator,
    MaximumValidator, MinItemsValidator, MinLengthValidator, MinimumValidator, MultipleOfValidator,
};
use crate::error::{lemma_nothing_reported, models, ErrorModel, ValidationError};
use crate::path::{Segment, ValidationPath};
use crate::pattern::PatternValidator;
use crate::schema::Value;
use crate::validator::Validator;
use crate::tags::{find_tag, tag_index};

verus! {

/// A constraint of a field, resolved to its validator.
pub enum Check {
    ExclusiveMaximum(ExclusiveMaximumValidator<i128>),
    ExclusiveMinimum(ExclusiveMinimumValidator<i128>),
    Maximum(MaximumValidator<i128>),
    Minimum(MinimumValidator<i128>),
    MultipleOf(MultipleOfValidator<i128>),
    MaxLength(MaxLengthValidator),
    MinLength(MinLengthValidator),
    MaxItems(MaxItemsValidator<Value>),
    MinItems(MinItemsValidator<Value>),
    Pattern(PatternValidator),
}

/// The validation procedure for values of one type.
pub enum Node {
    /// A scalar: always valid.
    Leaf,
    /// An optional value: a present value is checked by the inner node.
    Optional(Box<Node>),
    /// A list: each item is checked by the inner node.
    List(Box<Node>),
    /// A record: each field is checked in order.
    Record(Vec<FieldNode>),
    /// A union: the fields of the variant that the value's tag names are
    /// checked in order.
    Union(Vec<VariantNode>),
}

/// The checks of one field.
pub struct FieldNode {
    /// The name of the field in error paths.
    pub name: String,
    /// The checks of the field's own type.
    pub node: Node,
    /// The field's declared constraints, in order.
    pub checks: Vec<Check>,
    /// Whether the field is optional, so that its constraints apply to a
    /// present value only.
    pub optional: bool,
}

/// The fields of one variant of a union.
pub struct VariantNode {
    pub name: String,
    pub fields: Vec<FieldNode>,
}

/// What a check reports for a value; a value of a kind the check does not
/// apply to is not checked.
pub open spec fn check_reported(check: Check, path: Seq<Segment>, value: Value) -> Seq<ErrorModel> {
    match check {
        Check::ExclusiveMaximum(c) => match value {
            Value::Int(x) => c.reported(path, x),
            _ => Seq::empty(),
        },
        Check::ExclusiveMinimum(c) => match value {
            Value::Int(x) => c.reported(path, x),
            _ => Seq::empty(),
        },
        Check::Maximum(c) => match value {
            Value::Int(x) => c.reported(path, x),
            _ => Seq::empty(),
        },
        Check::Minimum(c) => match value {
            Value::Int(x) => c.reported(path, x),
            _ => Seq::empty(),
        },
        Check::MultipleOf(c) => match value {
            Value::Int(x) => c.reported(path, x),
            _ => Seq::empty(),
        },
        Check::MaxLength(c) => match value {
            Value::Text(s) => c.reported(path, s),
            _ => Seq::empty(),
        },
        Check::MinLength(c) => match value {
            Value::Text(s) => c.reported(path, s),
            _ => Seq::empty(),
        },
        Check::MaxItems(c) => match value {
            Value::List(items) => c.reported(path, items),
            _ => Seq::empty(),
        },
        Check::MinItems(c) => match value {
            Value::List(items) => c.reported(path, items),
            _ => Seq::empty(),
        },
        Check::Pattern(c) => match value {
            Value::Text(s) => c.reported(path, s),
            _ => Seq::empty(),
        },
    }
}

/// What a list of checks reports for a value, check by check in order.
pub open spec fn checks_reported(checks: Seq<Check>, path: Seq<Segment>, value: Value) -> Seq<
    ErrorModel,
>
    decreases checks.len(),
{
    if checks.len() == 0 {
        Seq::empty()
    } else {
        checks_reported(checks.drop_last(), path, value) + check_reported(
            checks.last(),
            path,
            value,
        )
    }
}

/// The value that a field's constraints apply to: the value itself, or for
/// an optional field the present value, if any.
pub open spec fn constrained_value(value: Value, optional: bool) -> Option<Value> {
    if optional {
        match value {
            Value::Optional(Some(inner)) => Some(*inner),
            _ => None,
        }
    } else {
        Some(value)
    }
}

/// What a node reports for a value. A value of another shape than the node
/// checks is not checked.
pub open spec fn node_reported(node: Node, path: Seq<Segment>, value: Value) -> Seq<ErrorModel>
    decreases node, 0nat,
{
    match node {
        Node::Leaf => Seq::empty(),
        Node::Optional(inner) => match value {
            Value::Optional(Some(present)) => node_reported(*inner, path, *present),
            _ => Seq::empty(),
        },
        Node::List(inner) => match value {
            Value::List(items) => items_reported_by(*inner, path, items@),
            _ => Seq::empty(),
        },
        Node::Record(fields) => match value {
            Value::Record(values) => fields_reported(fields@, path, values@),
            _ => Seq::empty(),
        },
        Node::Union(variants) => match value {
            Value::Variant(tag, values) => {
                let k = tag_index(variants@, tag@);
                if 0 <= k < variants@.len() {
                    fields_reported(variants@[k].fields@, path, values@)
                } else {
                    Seq::empty()
                }
            },
            _ => Seq::empty(),
        },
    }
}

/// What a node reports for the items of a list, item by item in order, each
/// at its index below `path`.
pub open spec fn items_reported_by(node: Node, path: Seq<Segment>, items: Seq<Value>) -> Seq<
    ErrorModel,
>
    decreases node, items.len(),
{
    if items.len() == 0 {
        Seq::empty()
    } else {
        let last = (items.len() - 1) as nat;
        items_reported_by(node, path, items.drop_last()) + node_reported(
            node,
            path.push(Segment::Item(last)),
            items.last(),
        )
    }
}

/// What one field reports for its value: first the checks of its type, then
/// its constraints, all at the path of the field.
pub open spec fn field_reported(field: FieldNode, path: Seq<Segment>, value: Value) -> Seq<
    ErrorModel,
>
    decreases field, 1nat,
{
    let child = path.push(Segment::Field(field.name@));
    node_reported(field.node, child, value) + match constrained_value(value, field.optional) {
        Some(v) => checks_reported(field.checks@, child, v),
        None => Seq::empty(),
    }
}

/// What the fields report for the values given, field by field in order. A
/// field without a value is not checked.
pub open spec fn fields_reported(fields: Seq<FieldNode>, path: Seq<Segment>, values: Seq<Value>) -> Seq<
    ErrorModel,
>
    decreases fields, 0nat,
{
    if fields.len() == 0 {
        Seq::empty()
    } else {
        let last = fields.len() - 1;
        let earlier = fields_reported(fields.subrange(0, last), path, values);
        if last < values.len() {
            earlier + field_reported(fields[last], path, values[last])
        } else {
            earlier
        }
    }
}

impl Check {
    /// Runs this check on `value`, adding what it reports to `errors`.
    pub fn validate_value(&self, path: &ValidationPath, value: &Value, errors: &mut Vec<ValidationError>)
        ensures
            models(final(errors)@) == models(old(errors)@) + check_reported(*self, path@, *value),
    {
        proof {
            lemma_nothing_reported(models(errors@));
        }
        match self {
            Check::ExclusiveMaximum(c) => match value {
                Value::Int(x) => c.validate(path, x, errors),
                _ => {},
            },
            Check::ExclusiveMinimum(c) => match value {
                Value::Int(x) => c.validate(path, x, errors),
                _ => {},
            },
            Check::Maximum(c) => match value {
                Value::Int(x) => c.validate(path, x, errors),
                _ => {},
            },
            Check::Minimum(c) => match value {
                Value::Int(x) => c.validate(path, x, errors),
                _ => {},
            },
            Check::MultipleOf(c) => match value {
                Value::Int(x) => c.validate(path, x, errors),
                _ => {},
            },
            Check::MaxLength(c) => match value {
                Value::Text(x) => c.validate(path, x, errors),
                _ => {},
            },
            Check::MinLength(c) => match value {
                Value::Text(x) => c.validate(path, x, errors),
                _ => {},
            },
            Check::MaxItems(c) => match value {
                Value::List(x) => c.validate(path, x, errors),
                _ => {},
            },
            Check::MinItems(c) => match value {
                Value::List(x) => c.validate(path, x, errors),
                _ => {},
            },
            Check::Pattern(c) => match value {
                Value::Text(x) => c.validate(path, x, errors),
                _ => {},
            },
        }
    }
}

/// Runs the checks on `value` in order, adding what they report to `errors`.
fn validate_checks(
    checks: &Vec<Check>,
    path: &ValidationPath,
    value: &Value,
    errors: &mut Vec<ValidationError>,
)
    ensures
        models(final(errors)@) == models(old(errors)@) + checks_reported(checks@, path@, *value),
{
    let mut i: usize = 0;
    while i < checks.len()
        invariant
            i <= checks@.len(),
            models(errors@) == models(old(errors)@) + checks_reported(
                checks@.subrange(0, i as int),
                path@,
                *value,
            ),
        decreases checks@.len() - i,
    {
        checks[i].validate_value(path, value, errors);
        proof {
            assert(checks@.subrange(0, i + 1).drop_last() =~= checks@.subrange(0, i as int));
        }
        i = i + 1;
    }
    assert(checks@.subrange(0, i as int) =~= checks@);
}

impl Node {
    /// Runs this node on `value`, adding what it reports to `errors`.
    pub fn validate_value(&self, path: &ValidationPath, value: &Value, errors: &mut Vec<ValidationError>)
        ensures
            models(final(errors)@) == models(old(errors)@) + node_reported(*self, path@, *value),
        decreases *self, 0nat,
    {
        proof {
            lemma_nothing_reported(models(errors@));
        }
        match self {
            Node::Leaf => {},
            Node::Optional(inner) => match value {
                Value::Optional(Some(present)) => inner.validate_value(path, present, errors),
                _ => {},
            },
            Node::List(inner) => match value {
                Value::List(items) => validate_items(inner, path, items, errors),
                _ => {},
            },
            Node::Record(fields) => match value {
                Value::Record(values) => validate_fields(fields, path, values, errors),
                _ => {},
            },
            Node::Union(variants) => match value {
                Value::Variant(tag, values) => match find_tag(variants, tag) {
                    Some(k) => {
                        proof {
                            let v = variants@[k as int];
                            assert(decreases_to!(*variants => variants@));
                            assert(decreases_to!(variants@ => v));
                            assert(decreases_to!(v => v.fields));
                            assert(decreases_to!(v.fields => v.fields@));
                        }
                        validate_fields(&variants[k].fields, path, values, errors)
                    },
                    None => {},
                },
                _ => {},
            },
        }
    }
}

/// Runs `node` on each item in order, at a path that ends in its index.
fn validate_items(
    node: &Node,
    path: &ValidationPath,
    items: &Vec<Value>,
    errors: &mut Vec<ValidationError>,
)
    ensures
        models(final(errors)@) == models(old(errors)@) + items_reported_by(*node, path@, items@),
    decreases *node, 1nat,
{
    let mut index: usize = 0;
    while index < items.len()
        invariant
            index <= items@.len(),
            models(errors@) == models(old(errors)@) + items_reported_by(
                *node,
                path@,
                items@.take(index as int),
            ),
        decreases items@.len() - index,
    {
        let item_path = ValidationPath::Item { parent: path, index };
        node.validate_value(&item_path, &items[index], errors);
        proof {
            assert(items@.take(index + 1).drop_last() =~= items@.take(index as int));
        }
        index = index + 1;
    }
    assert(items@.take(index as int) =~= items@);
}

/// Runs one field on its value: first the node of its type, then its
/// constraints.
fn validate_field(
    field: &FieldNode,
    path: &ValidationPath,
    value: &Value,
    errors: &mut Vec<ValidationError>,
)
    ensures
        models(final(errors)@) == models(old(errors)@) + field_reported(*field, path@, *value),
    decreases *field, 1nat,
{
    let child = ValidationPath::Field { parent: path, name: field.name.as_str() };
    field.node.validate_value(&child, value, errors);
    if field.optional {
        match value {
            Value::Optional(Some(present)) => validate_checks(&field.checks, &child, present, errors),
            _ => {
                proof {
                    lemma_nothing_reported(models(errors@));
                }
            },
        }
    } else {
        validate_checks(&field.checks, &child, value, errors);
    }
    assert(models(errors@) =~= models(old(errors)@) + field_reported(*field, path@, *value));
}

/// Runs the fields on the values given, in order; a field without a value
/// is not run.
fn validate_fields(
    fields: &Vec<FieldNode>,
    path: &ValidationPath,
    values: &Vec<Value>,
    errors: &mut Vec<ValidationError>,
)
    ensures
        models(final(errors)@) == models(old(errors)@) + fields_reported(fields@, path@, values@),
    decreases fields@, 1nat,
{
    let mut i: usize = 0;
    while i < fields.len()
        invariant
            i <= fields@.len(),
            models(errors@) == models(old(errors)@) + fields_reported(
                fields@.subrange(0, i as int),
                path@,
                values@,
            ),
        decreases fields@.len() - i,
    {
        let ghost before = models(errors@);
        if i < values.len() {
            validate_field(&fields[i], path, &values[i], errors);
        }
        proof {
            let next = fields@.subrange(0, i + 1);
            assert(next.subrange(0, i as int) =~= fields@.subrange(0, i as int));
            assert(next[i as int] == fields@[i as int]);
            if i >= values.len() {
                lemma_nothing_reported(before);
            }
        }
        i = i + 1;
    }
    assert(fields@.subrange(0, i as int) =~= fields@);
}

/// The validator derived for a declared type.
pub struct TypeValidator {
    pub root: Node,
}

impl Validator<Value> for TypeValidator {
    open spec fn reported(&self, path: Seq<Segment>, value: Value) -> Seq<ErrorModel> {
        node_reported(self.root, path, value)
    }

    fn validate(&self, path: &ValidationPath, value: &Value, errors: &mut Vec<ValidationError>) {
        self.root.validate_value(path, value, errors);
    }
}

} // verus!
