//! Derivation: from a declared type to its validator tree, or to the first
//! mistake in its declaration.
use vstd::prelude::*;
use crate::constraints::{
    ExclusiveMaximumValidator, ExclusiveMinimumValidator, MaxItemsValidator, MaxLengthValidator,
    MaximumValidator, MinItemsValidator, MinLengthValidator, MinimumValidator, MultipleOfValidator,
};
use crate::pattern::{pattern_compiles, PatternValidator};
use crate::schema::{kind_max, kind_min, Constraint, FieldDecl, FieldType, IntKind, Literal, TypeDecl, VariantDecl};
use crate::text::{decimal, push_char, push_decimal};
use crate::tree::{Check, FieldNode, Node, TypeValidator, VariantNode};

verus! {

/// What is wrong with a declaration.
#[derive(Debug, Clone, Copy, PartialEq, Eq)]
pub enum DerivationErrorKind {
    /// The constraint does not apply to the type of the field.
    Unsupported,
    /// The constraint's value is not of the kind the constraint takes.
    WrongLiteral,
    /// The constraint's value does not fit the field's type, is negative
    /// for a length or an item count, or is zero for `multiple_of`.
    OutOfRange,
    /// The pattern is not a regular expression that compiles.
    InvalidPattern,
    /// Two variants of a union share a tag, so the later one is unreachable.
    DuplicateVariant,
}

/// A mistake in a declaration, found while deriving its validator.
#[derive(Debug, Clone, PartialEq, Eq)]
pub struct DerivationError {
    pub kind: DerivationErrorKind,
    /// The name of the field as error paths of its own type show it, or the
    /// tag of the variant.
    pub field: String,
    /// The name of the constraint; empty for a variant.
    pub constraint: String,
}

/// What a [`DerivationError`] holds, with its texts as character sequences.
pub struct FaultModel {
    pub kind: DerivationErrorKind,
    pub field: Seq<char>,
    pub constraint: Seq<char>,
}

impl View for DerivationError {
    type V = FaultModel;

    open spec fn view(&self) -> FaultModel {
        FaultModel { kind: self.kind, field: self.field@, constraint: self.constraint@ }
    }
}

/// The names of the constraints on integers.
pub open spec fn is_integer_constraint(name: Seq<char>) -> bool {
    name == "exclusive_maximum"@ || name == "exclusive_minimum"@ || name == "maximum"@ || name
        == "minimum"@ || name == "multiple_of"@
}

/// The names of the constraints on the length of a text.
pub open spec fn is_length_constraint(name: Seq<char>) -> bool {
    name == "max_length"@ || name == "min_length"@
}

/// The names of the constraints on the number of items of a list.
pub open spec fn is_items_constraint(name: Seq<char>) -> bool {
    name == "max_items"@ || name == "min_items"@
}

/// Whether a constraint name is one of those with a validator; others are
/// ignored.
pub open spec fn is_recognized(name: Seq<char>) -> bool {
    is_integer_constraint(name) || is_length_constraint(name) || is_items_constraint(name) || name
        == "pattern"@
}

/// The type that a field's constraints apply to: for an optional field the
/// type of a present value, else the field's type.
pub open spec fn constrained_type(ty: FieldType) -> FieldType {
    match ty {
        FieldType::Optional(inner) => *inner,
        _ => ty,
    }
}

/// What is wrong with a constraint on values of type `target`, if anything.
pub open spec fn constraint_fault(c: Constraint, target: FieldType) -> Option<DerivationErrorKind> {
    let name = c.name@;
    if is_integer_constraint(name) {
        match target {
            FieldType::Integer(kind) => match c.value {
                Literal::Int(x) => if kind_min(kind) <= x <= kind_max(kind) && !(name
                    == "multiple_of"@ && x == 0) {
                    None
                } else {
                    Some(DerivationErrorKind::OutOfRange)
                },
                _ => Some(DerivationErrorKind::WrongLiteral),
            },
            _ => Some(DerivationErrorKind::Unsupported),
        }
    } else if is_length_constraint(name) || is_items_constraint(name) {
        let applies = if is_length_constraint(name) {
            target is Text
        } else {
            target is List
        };
        if !applies {
            Some(DerivationErrorKind::Unsupported)
        } else {
            match c.value {
                Literal::Int(x) => if 0 <= x <= usize::MAX {
                    None
                } else {
                    Some(DerivationErrorKind::OutOfRange)
                },
                _ => Some(DerivationErrorKind::WrongLiteral),
            }
        }
    } else if name == "pattern"@ {
        if !(target is Text) {
            Some(DerivationErrorKind::Unsupported)
        } else {
            match c.value {
                Literal::Text(s) => if pattern_compiles(s@) {
                    None
                } else {
                    Some(DerivationErrorKind::InvalidPattern)
                },
                _ => Some(DerivationErrorKind::WrongLiteral),
            }
        }
    } else {
        None
    }
}

/// The first fault among constraints, in order, of the field named `label`.
pub open spec fn constraints_fault(cs: Seq<Constraint>, target: FieldType, label: Seq<char>) -> Option<
    FaultModel,
>
    decreases cs.len(),
{
    if cs.len() == 0 {
        None
    } else {
        match constraints_fault(cs.drop_last(), target, label) {
            Some(f) => Some(f),
            None => match constraint_fault(cs.last(), target) {
                Some(kind) => Some(FaultModel { kind, field: label, constraint: cs.last().name@ }),
                None => None,
            },
        }
    }
}

/// The name of a field in error paths: its declared name, or for a
/// positional field its index; in a union prefixed by the variant's tag and
/// a dot, positional names then starting with `_`.
pub open spec fn field_label(decl: FieldDecl, index: nat, variant: Option<Seq<char>>) -> Seq<char> {
    match variant {
        None => match decl.name {
            Some(n) => n@,
            None => decimal(index),
        },
        Some(tag) => tag + seq!['.'] + match decl.name {
            Some(n) => n@,
            None => seq!['_'] + decimal(index),
        },
    }
}

/// The first fault in a declared type: field by field, or variant by
/// variant, in order.
pub open spec fn type_fault(t: TypeDecl) -> Option<FaultModel>
    decreases t, 0nat,
{
    match t {
        TypeDecl::Record(fields) => fields_fault(fields@, None),
        TypeDecl::Union(variants) => variants_fault(variants@),
    }
}

/// The first fault in the types nested in a field type.
pub open spec fn field_type_fault(ty: FieldType) -> Option<FaultModel>
    decreases ty, 0nat,
{
    match ty {
        FieldType::Optional(inner) => field_type_fault(*inner),
        FieldType::List(inner) => field_type_fault(*inner),
        FieldType::Nested(decl) => type_fault(*decl),
        _ => None,
    }
}

/// The first fault of a field: in its type first, then in its constraints.
pub open spec fn field_fault(decl: FieldDecl, index: nat, variant: Option<Seq<char>>) -> Option<
    FaultModel,
>
    decreases decl, 1nat,
{
    match field_type_fault(decl.ty) {
        Some(f) => Some(f),
        None => constraints_fault(
            decl.constraints@,
            constrained_type(decl.ty),
            field_label(decl, index, variant),
        ),
    }
}

/// The first fault among fields, in order.
pub open spec fn fields_fault(fields: Seq<FieldDecl>, variant: Option<Seq<char>>) -> Option<
    FaultModel,
>
    decreases fields, 0nat,
{
    if fields.len() == 0 {
        None
    } else {
        let last = fields.len() - 1;
        match fields_fault(fields.subrange(0, last), variant) {
            Some(f) => Some(f),
            None => field_fault(fields[last], last as nat, variant),
        }
    }
}

/// The first fault among variants, in order: a tag that an earlier variant
/// has, or else a fault in the variant's fields.
pub open spec fn variants_fault(variants: Seq<VariantDecl>) -> Option<FaultModel>
    decreases variants, 0nat,
{
    if variants.len() == 0 {
        None
    } else {
        let last = variants.len() - 1;
        let v = variants[last];
        match variants_fault(variants.subrange(0, last)) {
            Some(f) => Some(f),
            None => if exists|j: int| 0 <= j < last && #[trigger] variants[j].name@ == v.name@ {
                Some(
                    FaultModel {
                        kind: DerivationErrorKind::DuplicateVariant,
                        field: v.name@,
                        constraint: Seq::empty(),
                    },
                )
            } else {
                fields_fault(v.fields@, Some(v.name@))
            },
        }
    }
}

/// Whether `check` is the validator of the recognized constraint `c`.
pub open spec fn check_for(c: Constraint, check: Check) -> bool {
    let name = c.name@;
    match check {
        Check::ExclusiveMaximum(v) => name == "exclusive_maximum"@ && c.value == Literal::Int(
            v.bound(),
        ),
        Check::ExclusiveMinimum(v) => name == "exclusive_minimum"@ && c.value == Literal::Int(
            v.bound(),
        ),
        Check::Maximum(v) => name == "maximum"@ && c.value == Literal::Int(v.bound()),
        Check::Minimum(v) => name == "minimum"@ && c.value == Literal::Int(v.bound()),
        Check::MultipleOf(v) => name == "multiple_of"@ && c.value == Literal::Int(v.divisor()),
        Check::MaxLength(v) => name == "max_length"@ && c.value is Int && c.value->Int_0 as int
            == v.bound() as int,
        Check::MinLength(v) => name == "min_length"@ && c.value is Int && c.value->Int_0 as int
            == v.bound() as int,
        Check::MaxItems(v) => name == "max_items"@ && c.value is Int && c.value->Int_0 as int
            == v.bound() as int,
        Check::MinItems(v) => name == "min_items"@ && c.value is Int && c.value->Int_0 as int
            == v.bound() as int,
        Check::Pattern(v) => name == "pattern"@ && c.value is Text && v.source()
            == c.value->Text_0@,
    }
}

/// Whether `checks` are the validators of the recognized constraints among
/// `cs`, in the same order.
pub open spec fn checks_for(cs: Seq<Constraint>, checks: Seq<Check>) -> bool
    decreases cs.len(),
{
    if cs.len() == 0 {
        checks.len() == 0
    } else if !is_recognized(cs.last().name@) {
        checks_for(cs.drop_last(), checks)
    } else {
        checks.len() > 0 && check_for(cs.last(), checks.last()) && checks_for(
            cs.drop_last(),
            checks.drop_last(),
        )
    }
}

/// Whether `node` is the validation procedure of the declared type `t`.
pub open spec fn node_for_type(t: TypeDecl, node: Node) -> bool
    decreases t, 0nat,
{
    match t {
        TypeDecl::Record(fields) => node is Record && fields_for(fields@, node->Record_0@, None),
        TypeDecl::Union(variants) => node is Union && variants_for(variants@, node->Union_0@),
    }
}

/// Whether `node` is the validation procedure of values of the field type
/// `ty`.
pub open spec fn node_for_field_type(ty: FieldType, node: Node) -> bool
    decreases ty, 0nat,
{
    match ty {
        FieldType::Optional(inner) => node is Optional && node_for_field_type(
            *inner,
            *node->Optional_0,
        ),
        FieldType::List(inner) => node is List && node_for_field_type(*inner, *node->List_0),
        FieldType::Nested(decl) => node_for_type(*decl, node),
        _ => node is Leaf,
    }
}

/// Whether `node` holds the checks of the declared field at `index`.
pub open spec fn field_for(
    decl: FieldDecl,
    index: int,
    variant: Option<Seq<char>>,
    node: FieldNode,
) -> bool
    decreases decl, 1nat,
{
    &&& node.name@ == field_label(decl, index as nat, variant)
    &&& node.optional == (decl.ty is Optional)
    &&& node_for_field_type(decl.ty, node.node)
    &&& checks_for(decl.constraints@, node.checks@)
}

/// Whether `nodes` hold the checks of the declared fields, one for one.
pub open spec fn fields_for(
    fields: Seq<FieldDecl>,
    nodes: Seq<FieldNode>,
    variant: Option<Seq<char>>,
) -> bool
    decreases fields, 0nat,
{
    if fields.len() == 0 {
        nodes.len() == 0
    } else {
        let last = fields.len() - 1;
        &&& nodes.len() == fields.len()
        &&& fields_for(fields.subrange(0, last), nodes.subrange(0, last), variant)
        &&& field_for(fields[last], last, variant, nodes[last])
    }
}

/// Whether `nodes` hold the checks of the declared variants, one for one.
pub open spec fn variants_for(variants: Seq<VariantDecl>, nodes: Seq<VariantNode>) -> bool
    decreases variants, 0nat,
{
    if variants.len() == 0 {
        nodes.len() == 0
    } else {
        let last = variants.len() - 1;
        &&& nodes.len() == variants.len()
        &&& variants_for(variants.subrange(0, last), nodes.subrange(0, last))
        &&& nodes[last].name@ == variants[last].name@
        &&& fields_for(variants[last].fields@, nodes[last].fields@, Some(variants[last].name@))
    }
}

/// Whether `name` is the text `word`.
fn same_name(name: &String, word: &str) -> (r: bool)
    ensures
        r == (name@ == word@),
{
    *name == word.to_owned()
}

/// The smallest and the largest value of an integer type.
pub(crate) fn kind_range(kind: IntKind) -> (r: (i128, i128))
    ensures
        r.0 == kind_min(kind),
        r.1 == kind_max(kind),
{
    match kind {
        IntKind::I8 => (i8::MIN as i128, i8::MAX as i128),
        IntKind::I16 => (i16::MIN as i128, i16::MAX as i128),
        IntKind::I32 => (i32::MIN as i128, i32::MAX as i128),
        IntKind::I64 => (i64::MIN as i128, i64::MAX as i128),
        IntKind::Isize => (isize::MIN as i128, isize::MAX as i128),
        IntKind::U8 => (0, u8::MAX as i128),
        IntKind::U16 => (0, u16::MAX as i128),
        IntKind::U32 => (0, u32::MAX as i128),
        IntKind::U64 => (0, u64::MAX as i128),
        IntKind::Usize => (0, usize::MAX as i128),
    }
}

/// Resolves a constraint on values of type `target` to its validator: none
/// for a name without one, or what is wrong with the constraint.
fn resolve(c: &Constraint, target: &FieldType) -> (r: Result<Option<Check>, DerivationErrorKind>)
    ensures
        match r {
            Ok(Some(check)) => constraint_fault(*c, *target) is None && is_recognized(c.name@)
                && check_for(*c, check),
            Ok(None) => constraint_fault(*c, *target) is None && !is_recognized(c.name@),
            Err(kind) => constraint_fault(*c, *target) == Some(kind),
        },
{
    let name = &c.name;
    if same_name(name, "exclusive_maximum") || same_name(name, "exclusive_minimum") || same_name(
        name,
        "maximum",
    ) || same_name(name, "minimum") || same_name(name, "multiple_of") {
        let kind = match target {
            FieldType::Integer(kind) => *kind,
            _ => {
                return Err(DerivationErrorKind::Unsupported);
            },
        };
        let x = match &c.value {
            Literal::Int(x) => *x,
            _ => {
                return Err(DerivationErrorKind::WrongLiteral);
            },
        };
        let (low, high) = kind_range(kind);
        if x < low || x > high || (same_name(name, "multiple_of") && x == 0) {
            return Err(DerivationErrorKind::OutOfRange);
        }
        if same_name(name, "exclusive_maximum") {
            Ok(Some(Check::ExclusiveMaximum(ExclusiveMaximumValidator::new(x))))
        } else if same_name(name, "exclusive_minimum") {
            Ok(Some(Check::ExclusiveMinimum(ExclusiveMinimumValidator::new(x))))
        } else if same_name(name, "maximum") {
            Ok(Some(Check::Maximum(MaximumValidator::new(x))))
        } else if same_name(name, "minimum") {
            Ok(Some(Check::Minimum(MinimumValidator::new(x))))
        } else {
            Ok(Some(Check::MultipleOf(MultipleOfValidator::new(x))))
        }
    } else if same_name(name, "max_length") || same_name(name, "min_length") || same_name(
        name,
        "max_items",
    ) || same_name(name, "min_items") {
        let is_length = same_name(name, "max_length") || same_name(name, "min_length");
        let applies = if is_length {
            match target {
                FieldType::Text => true,
                _ => false,
            }
        } else {
            match target {
                FieldType::List(_) => true,
                _ => false,
            }
        };
        if !applies {
            return Err(DerivationErrorKind::Unsupported);
        }
        let x = match &c.value {
            Literal::Int(x) => *x,
            _ => {
                return Err(DerivationErrorKind::WrongLiteral);
            },
        };
        if x < 0 || x > usize::MAX as i128 {
            return Err(DerivationErrorKind::OutOfRange);
        }
        let bound = x as usize;
        if same_name(name, "max_length") {
            Ok(Some(Check::MaxLength(MaxLengthValidator::new(bound))))
        } else if same_name(name, "min_length") {
            Ok(Some(Check::MinLength(MinLengthValidator::new(bound))))
        } else if same_name(name, "max_items") {
            Ok(Some(Check::MaxItems(MaxItemsValidator::new(bound))))
        } else {
            Ok(Some(Check::MinItems(MinItemsValidator::new(bound))))
        }
    } else if same_name(name, "pattern") {
        match target {
            FieldType::Text => {},
            _ => {
                return Err(DerivationErrorKind::Unsupported);
            },
        }
        match &c.value {
            Literal::Text(source) => match PatternValidator::new(source.as_str()) {
                Ok(validator) => Ok(Some(Check::Pattern(validator))),
                Err(_) => Err(DerivationErrorKind::InvalidPattern),
            },
            _ => Err(DerivationErrorKind::WrongLiteral),
        }
    } else {
        Ok(None)
    }
}

proof fn lemma_constraints_fault_prefix(
    cs: Seq<Constraint>,
    target: FieldType,
    label: Seq<char>,
    k: int,
)
    requires
        0 <= k <= cs.len(),
        constraints_fault(cs.take(k), target, label) is Some,
    ensures
        constraints_fault(cs, target, label) == constraints_fault(cs.take(k), target, label),
    decreases cs.len() - k,
{
    if k < cs.len() {
        assert(cs.take(k + 1).drop_last() =~= cs.take(k));
        lemma_constraints_fault_prefix(cs, target, label, k + 1);
    } else {
        assert(cs.take(k) =~= cs);
    }
}

proof fn lemma_fields_fault_prefix(fields: Seq<FieldDecl>, variant: Option<Seq<char>>, k: int)
    requires
        0 <= k <= fields.len(),
        fields_fault(fields.subrange(0, k), variant) is Some,
    ensures
        fields_fault(fields, variant) == fields_fault(fields.subrange(0, k), variant),
    decreases fields.len() - k,
{
    if k < fields.len() {
        assert(fields.subrange(0, k + 1).subrange(0, k) =~= fields.subrange(0, k));
        lemma_fields_fault_prefix(fields, variant, k + 1);
    } else {
        assert(fields.subrange(0, k) =~= fields);
    }
}

proof fn lemma_variants_fault_prefix(variants: Seq<VariantDecl>, k: int)
    requires
        0 <= k <= variants.len(),
        variants_fault(variants.subrange(0, k)) is Some,
    ensures
        variants_fault(variants) == variants_fault(variants.subrange(0, k)),
    decreases variants.len() - k,
{
    if k < variants.len() {
        assert(variants.subrange(0, k + 1).subrange(0, k) =~= variants.subrange(0, k));
        lemma_variants_fault_prefix(variants, k + 1);
    } else {
        assert(variants.subrange(0, k) =~= variants);
    }
}

/// Resolves the constraints of the field named `label`, in order, stopping
/// at the first that is wrong.
fn derive_checks(cs: &Vec<Constraint>, target: &FieldType, label: &String) -> (r: Result<
    Vec<Check>,
    DerivationError,
>)
    ensures
        match r {
            Ok(checks) => constraints_fault(cs@, *target, label@) is None && checks_for(
                cs@,
                checks@,
            ),
            Err(e) => constraints_fault(cs@, *target, label@) == Some(e@),
        },
{
    let mut checks: Vec<Check> = Vec::new();
    let mut i: usize = 0;
    while i < cs.len()
        invariant
            i <= cs@.len(),
            constraints_fault(cs@.take(i as int), *target, label@) is None,
            checks_for(cs@.take(i as int), checks@),
        decreases cs@.len() - i,
    {
        let ghost prefix = cs@.take(i + 1);
        assert(prefix.drop_last() =~= cs@.take(i as int));
        match resolve(&cs[i], target) {
            Ok(Some(check)) => {
                let ghost before = checks@;
                checks.push(check);
                assert(checks@.drop_last() =~= before);
            },
            Ok(None) => {},
            Err(kind) => {
                let e = DerivationError {
                    kind,
                    field: label.clone(),
                    constraint: cs[i].name.clone(),
                };
                proof {
                    lemma_constraints_fault_prefix(cs@, *target, label@, i + 1);
                }
                return Err(e);
            },
        }
        i = i + 1;
    }
    assert(cs@.take(i as int) =~= cs@);
    Ok(checks)
}

/// The tag of the variant that fields belong to, if any.
pub open spec fn tag_of(variant: Option<&String>) -> Option<Seq<char>> {
    match variant {
        Some(tag) => Some(tag@),
        None => None,
    }
}

/// The name of a field in error paths.
fn label_of(decl: &FieldDecl, index: usize, variant: Option<&String>) -> (r: String)
    ensures
        r@ == field_label(*decl, index as nat, tag_of(variant)),
{
    let mut label = String::new();
    match variant {
        Some(tag) => {
            label.append(tag.as_str());
            push_char(&mut label, '.');
            match &decl.name {
                Some(name) => label.append(name.as_str()),
                None => {
                    push_char(&mut label, '_');
                    push_decimal(&mut label, index as u128);
                },
            }
        },
        None => match &decl.name {
            Some(name) => label.append(name.as_str()),
            None => push_decimal(&mut label, index as u128),
        },
    }
    assert(label@ =~= field_label(*decl, index as nat, tag_of(variant)));
    label
}

/// Derives the validation procedure of a declared type.
fn derive_type(t: &TypeDecl) -> (r: Result<Node, DerivationError>)
    ensures
        match r {
            Ok(node) => type_fault(*t) is None && node_for_type(*t, node),
            Err(e) => type_fault(*t) == Some(e@),
        },
    decreases *t, 0nat,
{
    match t {
        TypeDecl::Record(fields) => {
            let nodes = derive_fields(fields, None)?;
            Ok(Node::Record(nodes))
        },
        TypeDecl::Union(variants) => {
            let nodes = derive_variants(variants)?;
            Ok(Node::Union(nodes))
        },
    }
}

/// Derives the validation procedure of values of a field type.
fn derive_field_type(ty: &FieldType) -> (r: Result<Node, DerivationError>)
    ensures
        match r {
            Ok(node) => field_type_fault(*ty) is None && node_for_field_type(*ty, node),
            Err(e) => field_type_fault(*ty) == Some(e@),
        },
    decreases *ty, 0nat,
{
    match ty {
        FieldType::Optional(inner) => {
            let node = derive_field_type(inner)?;
            Ok(Node::Optional(Box::new(node)))
        },
        FieldType::List(inner) => {
            let node = derive_field_type(inner)?;
            Ok(Node::List(Box::new(node)))
        },
        FieldType::Nested(decl) => derive_type(decl),
        _ => Ok(Node::Leaf),
    }
}

/// Derives the checks of the field at `index`: those of its type, then
/// those of its constraints.
fn derive_field(decl: &FieldDecl, index: usize, variant: Option<&String>) -> (r: Result<
    FieldNode,
    DerivationError,
>)
    ensures
        match r {
            Ok(node) => field_fault(*decl, index as nat, tag_of(variant)) is None && field_for(
                *decl,
                index as int,
                tag_of(variant),
                node,
            ),
            Err(e) => field_fault(*decl, index as nat, tag_of(variant)) == Some(e@),
        },
    decreases *decl, 1nat,
{
    let node = derive_field_type(&decl.ty)?;
    let label = label_of(decl, index, variant);
    let (target, optional) = match &decl.ty {
        FieldType::Optional(inner) => (&**inner, true),
        other => (other, false),
    };
    assert(*target == constrained_type(decl.ty));
    let checks = derive_checks(&decl.constraints, target, &label)?;
    Ok(FieldNode { name: label, node, checks, optional })
}

/// Derives the checks of fields, in order, stopping at the first mistake.
fn derive_fields(fields: &Vec<FieldDecl>, variant: Option<&String>) -> (r: Result<
    Vec<FieldNode>,
    DerivationError,
>)
    ensures
        match r {
            Ok(nodes) => fields_fault(fields@, tag_of(variant)) is None && fields_for(
                fields@,
                nodes@,
                tag_of(variant),
            ),
            Err(e) => fields_fault(fields@, tag_of(variant)) == Some(e@),
        },
    decreases fields@, 1nat,
{
    let mut nodes: Vec<FieldNode> = Vec::new();
    let mut i: usize = 0;
    while i < fields.len()
        invariant
            i <= fields@.len(),
            fields_fault(fields@.subrange(0, i as int), tag_of(variant)) is None,
            fields_for(fields@.subrange(0, i as int), nodes@, tag_of(variant)),
        decreases fields@.len() - i,
    {
        let ghost next = fields@.subrange(0, i + 1);
        assert(next.subrange(0, i as int) =~= fields@.subrange(0, i as int));
        assert(next[i as int] == fields@[i as int]);
        let node = match derive_field(&fields[i], i, variant) {
            Ok(node) => node,
            Err(e) => {
                proof {
                    lemma_fields_fault_prefix(fields@, tag_of(variant), i + 1);
                }
                return Err(e);
            },
        };
        let ghost before = nodes@;
        nodes.push(node);
        assert(nodes@.subrange(0, i as int) =~= before);
        i = i + 1;
    }
    assert(fields@.subrange(0, i as int) =~= fields@);
    Ok(nodes)
}

/// Derives the checks of the variants of a union, in order, stopping at the
/// first mistake.
fn derive_variants(variants: &Vec<VariantDecl>) -> (r: Result<Vec<VariantNode>, DerivationError>)
    ensures
        match r {
            Ok(nodes) => variants_fault(variants@) is None && variants_for(variants@, nodes@),
            Err(e) => variants_fault(variants@) == Some(e@),
        },
    decreases variants@, 1nat,
{
    let mut nodes: Vec<VariantNode> = Vec::new();
    let mut i: usize = 0;
    while i < variants.len()
        invariant
            i <= variants@.len(),
            variants_fault(variants@.subrange(0, i as int)) is None,
            variants_for(variants@.subrange(0, i as int), nodes@),
        decreases variants@.len() - i,
    {
        let ghost next = variants@.subrange(0, i + 1);
        assert(next.subrange(0, i as int) =~= variants@.subrange(0, i as int));
        let variant = &variants[i];
        let mut j: usize = 0;
        while j < i
            invariant
                j <= i < variants@.len(),
                next == variants@.subrange(0, i + 1),
                variants_fault(variants@.subrange(0, i as int)) is None,
                next.subrange(0, i as int) =~= variants@.subrange(0, i as int),
                forall|k: int| 0 <= k < j ==> variants@[k].name@ != variants@[i as int].name@,
            decreases i - j,
        {
            if variants[j].name == variants[i].name {
                let e = DerivationError {
                    kind: DerivationErrorKind::DuplicateVariant,
                    field: variants[i].name.clone(),
                    constraint: String::new(),
                };
                proof {
                    assert(next[j as int] == variants@[j as int]);
                    assert(next[i as int] == variants@[i as int]);
                    assert(variants_fault(next) == Some(e@));
                    lemma_variants_fault_prefix(variants@, i + 1);
                }
                return Err(e);
            }
            j = j + 1;
        }
        assert(!exists|k: int| 0 <= k < i && #[trigger] next[k].name@ == next[i as int].name@) by {
            assert forall|k: int| 0 <= k < i implies next[k].name@ != next[i as int].name@ by {
                assert(next[k] == variants@[k]);
            }
        }
        assert(next[i as int] == *variant);
        proof {
            assert(decreases_to!(variants@ => variant));
            assert(decreases_to!(variant => variant.fields));
            assert(decreases_to!(variant.fields => variant.fields@));
        }
        let fields = match derive_fields(&variant.fields, Some(&variant.name)) {
            Ok(fields) => fields,
            Err(e) => {
                proof {
                    assert(variants_fault(next) == Some(e@));
                    lemma_variants_fault_prefix(variants@, i + 1);
                }
                return Err(e);
            },
        };
        let ghost before = nodes@;
        nodes.push(VariantNode { name: variant.name.clone(), fields });
        assert(nodes@.subrange(0, i as int) =~= before);
        i = i + 1;
    }
    assert(variants@.subrange(0, i as int) =~= variants@);
    Ok(nodes)
}

/// Derives the validator of a declared type: for each field, the validator
/// of its own type, then those of its recognized constraints, in order.
/// Fails with the first mistake in the declaration, in declaration order.
pub fn derive_validatable(decl: &TypeDecl) -> (r: Result<TypeValidator, DerivationError>)
    ensures
        match r {
            Ok(v) => type_fault(*decl) is None && node_for_type(*decl, v.root),
            Err(e) => type_fault(*decl) == Some(e@),
        },
{
    let root = derive_type(decl)?;
    Ok(TypeValidator { root })
}

} // verus!
