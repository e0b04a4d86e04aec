//! The constraint abstract syntax tree: a typed tree mirroring the subtype
//! constraint grammar, together with the builders that assemble nodes from
//! already-parsed grammar fragments.
//!
//! Construction is total: each builder produces the corresponding node with
//! no validation beyond shape. Malformed semantic combinations (for example a
//! range whose minimum exceeds its maximum) are representable and are not
//! rejected here; validation belongs to a later pass.

use vstd::prelude::*;
use crate::asn1::{ASN1Type, ASN1Value, InformationObjectFields, ObjectSet};
use crate::settings::PropertySettings;

verus! {

/// The grammar fragment marking a component as optional.
#[derive(Debug, PartialEq, Eq, Structural)]
pub struct OptionalMarker();

impl From<&str> for OptionalMarker {
    fn from(_value: &str) -> (r: Self) {
        OptionalMarker()
    }
}

impl vstd::std_specs::convert::FromSpecImpl<&str> for OptionalMarker {
    open spec fn obeys_from_spec() -> bool {
        true
    }

    open spec fn from_spec(_value: &str) -> Self {
        OptionalMarker()
    }
}

/// The grammar fragment separating the two endpoints of a value range.
#[derive(Debug)]
pub struct RangeSeperator();

/// The grammar fragment marking a constrained set as extensible.
#[derive(Debug, Clone, PartialEq, Eq, Structural)]
pub struct ExtensionMarker();

/// A constraint attached to a schema type: the principal node of the tree.
#[derive(Debug, PartialEq)]
pub enum Constraint {
    /// An element set specification narrowing the permitted values.
    Subtype(ElementSetSpecs),
    /// A table constraint linking a field to a governing object set.
    Table(TableConstraint),
    /// A parameterized-type argument list.
    Parameter(Vec<Parameter>),
    /// A contents constraint on a bit string or octet string.
    Content(ContentConstraint),
}

/// A contents constraint: what an octet or bit string carries, and under
/// which encoding procedures.
#[derive(Debug, Clone, PartialEq)]
pub enum ContentConstraint {
    /// The string is the encoding of a value of the named type.
    Containing(ASN1Type),
    /// The named procedures produce and interpret the string's contents.
    EncodedBy(ASN1Value),
    /// The string is the encoding of a value of the named type under the
    /// named encoding rules.
    ContainingEncodedBy { containing: ASN1Type, encoded_by: ASN1Value },
}

/// One argument of a parameterized type.
#[derive(Debug, Clone, PartialEq)]
pub enum Parameter {
    ValueParameter(ASN1Value),
    TypeParameter(ASN1Type),
    InformationObjectParameter(InformationObjectFields),
    ObjectSetParameter(ObjectSet),
}

/// A set operator composing constraint elements.
#[derive(Debug, Clone, Copy, PartialEq, Eq, Structural)]
pub enum SetOperator {
    Intersection,
    Union,
    Except,
}

/// A flat multi-term constraint expression: a base constraint followed by an
/// ordered list of operator/constraint terms. This representation exists
/// beside the nested [`SetOperation`] form; neither is collapsed into the
/// other.
#[derive(Debug, PartialEq)]
pub struct CompositeConstraint {
    pub base_constraint: Box<Constraint>,
    pub operation: Vec<(SetOperator, Box<Constraint>)>,
    pub extensible: bool,
}

impl CompositeConstraint {
    /// Assemble a composite constraint from a base constraint, its
    /// operator/constraint terms, and an optional extension marker.
    pub fn from(value: (Constraint, Vec<(SetOperator, Constraint)>, Option<ExtensionMarker>)) -> (r:
        Self)
        ensures
            *r.base_constraint == value.0,
            r.operation@.len() == value.1@.len(),
            forall|i: int|
                0 <= i < value.1@.len() ==> (#[trigger] r.operation@[i]).0 == value.1@[i].0
                    && *r.operation@[i].1 == value.1@[i].1,
            r.extensible == (value.2 is Some),
    {
        let (base, terms, marker) = value;
        let ghost orig = terms@;
        let mut rest = terms;
        let mut operation: Vec<(SetOperator, Box<Constraint>)> = Vec::new();
        while rest.len() > 0
            invariant
                operation@.len() + rest@.len() == orig.len(),
                rest@ == orig.skip(operation@.len() as int),
                forall|i: int|
                    0 <= i < operation@.len() ==> (#[trigger] operation@[i]).0 == orig[i].0
                        && *operation@[i].1 == orig[i].1,
            decreases rest@.len(),
        {
            let (op, c) = rest.remove(0);
            proof {
                assert(orig.skip(operation@.len() as int)[0] == orig[operation@.len() as int]);
                assert(rest@ =~= orig.skip(operation@.len() as int + 1));
            }
            operation.push((op, Box::new(c)));
        }
        CompositeConstraint {
            base_constraint: Box::new(base),
            operation,
            extensible: marker.is_some(),
        }
    }
}

/// Whether a named component must be absent, must be present, or is left
/// open.
#[derive(Debug, Clone, Copy, PartialEq, Eq, Structural)]
pub enum ComponentPresence {
    Absent,
    Present,
    Unspecified,
}

/// A per-component constraint set: possibly partial, with one entry per
/// constrained component.
#[derive(Debug, PartialEq)]
pub struct InnerTypeConstraint {
    pub is_partial: bool,
    pub constraints: Vec<NamedConstraint>,
}

/// One component's constraints inside a per-component constraint set.
#[derive(Debug, PartialEq)]
pub struct NamedConstraint {
    pub identifier: String,
    pub constraints: Vec<Constraint>,
    pub presence: ComponentPresence,
}

/// A simplified range or single-value constraint: the target of the literal
/// and range builders.
#[derive(Debug, Clone, PartialEq)]
pub struct ValueConstraint {
    pub min_value: Option<ASN1Value>,
    pub max_value: Option<ASN1Value>,
    pub extensible: bool,
}

impl From<ASN1Value> for ValueConstraint {
    fn from(value: ASN1Value) -> (r: Self) {
        ValueConstraint {
            min_value: Some(value.clone()),
            max_value: Some(value),
            extensible: false,
        }
    }
}

impl vstd::std_specs::convert::FromSpecImpl<ASN1Value> for ValueConstraint {
    open spec fn obeys_from_spec() -> bool {
        true
    }

    open spec fn from_spec(value: ASN1Value) -> Self {
        ValueConstraint { min_value: Some(value), max_value: Some(value), extensible: false }
    }
}

impl From<(ASN1Value, RangeSeperator, ASN1Value)> for ValueConstraint {
    fn from(value: (ASN1Value, RangeSeperator, ASN1Value)) -> (r: Self) {
        ValueConstraint {
            min_value: Some(value.0),
            max_value: Some(value.2),
            extensible: false,
        }
    }
}

impl vstd::std_specs::convert::FromSpecImpl<(ASN1Value, RangeSeperator, ASN1Value)> for ValueConstraint {
    open spec fn obeys_from_spec() -> bool {
        true
    }

    open spec fn from_spec(value: (ASN1Value, RangeSeperator, ASN1Value)) -> Self {
        ValueConstraint { min_value: Some(value.0), max_value: Some(value.2), extensible: false }
    }
}

impl From<(ASN1Value, ExtensionMarker)> for ValueConstraint {
    fn from(value: (ASN1Value, ExtensionMarker)) -> (r: Self) {
        ValueConstraint {
            min_value: Some(value.0.clone()),
            max_value: Some(value.0),
            extensible: true,
        }
    }
}

impl vstd::std_specs::convert::FromSpecImpl<(ASN1Value, ExtensionMarker)> for ValueConstraint {
    open spec fn obeys_from_spec() -> bool {
        true
    }

    open spec fn from_spec(value: (ASN1Value, ExtensionMarker)) -> Self {
        ValueConstraint { min_value: Some(value.0), max_value: Some(value.0), extensible: true }
    }
}

impl From<(ASN1Value, RangeSeperator, ASN1Value, ExtensionMarker)> for ValueConstraint {
    fn from(value: (ASN1Value, RangeSeperator, ASN1Value, ExtensionMarker)) -> (r: Self) {
        ValueConstraint {
            min_value: Some(value.0),
            max_value: Some(value.2),
            extensible: true,
        }
    }
}

impl vstd::std_specs::convert::FromSpecImpl<(ASN1Value, RangeSeperator, ASN1Value, ExtensionMarker)> for ValueConstraint {
    open spec fn obeys_from_spec() -> bool {
        true
    }

    open spec fn from_spec(value: (ASN1Value, RangeSeperator, ASN1Value, ExtensionMarker)) -> Self {
        ValueConstraint { min_value: Some(value.0), max_value: Some(value.2), extensible: true }
    }
}

/// A table constraint: a governing object set together with the relational
/// constraints linking fields to it.
#[derive(Debug, Clone, PartialEq)]
pub struct TableConstraint {
    pub object_set: ObjectSet,
    pub linked_fields: Vec<RelationalConstraint>,
}

impl TableConstraint {
    /// Assemble a table constraint from an object set and an optional list
    /// of relational constraints; an absent list means no linked fields.
    pub fn from(value: (ObjectSet, Option<Vec<RelationalConstraint>>)) -> (r: Self)
        ensures
            r.object_set == value.0,
            match value.1 {
                Some(fields) => r.linked_fields == fields,
                None => r.linked_fields@.len() == 0,
            },
    {
        let (object_set, fields) = value;
        let linked_fields = match fields {
            Some(f) => f,
            None => Vec::new(),
        };
        TableConstraint { object_set, linked_fields }
    }
}

/// A reference from a table constraint to a named field at a given nesting
/// level. Level zero names the outermost governing object set of the
/// declaration; higher levels count inward from the innermost set.
#[derive(Debug, Clone, PartialEq)]
pub struct RelationalConstraint {
    pub field_name: String,
    pub level: usize,
}

impl RelationalConstraint {
    /// Assemble a relational constraint from a nesting level and a field
    /// name.
    pub fn from(value: (usize, &str)) -> (r: Self)
        ensures
            r.field_name@ == value.1@,
            r.level == value.0,
    {
        RelationalConstraint { field_name: value.1.to_owned(), level: value.0 }
    }
}

/// A pattern constraint: a regular-expression-like restriction on a string
/// type's values.
#[derive(Debug, Clone, PartialEq)]
pub struct PatternConstraint {
    pub pattern: String,
}

impl PatternConstraint {
    /// Wrap a pattern's surface text.
    pub fn from(value: &str) -> (r: Self)
        ensures
            r.pattern@ == value@,
    {
        PatternConstraint { pattern: value.to_owned() }
    }
}

/// A user-defined constraint: an opaque definition carried through for an
/// external validator.
#[derive(Debug, Clone, PartialEq)]
pub struct UserDefinedConstraint {
    pub definition: String,
}

impl UserDefinedConstraint {
    /// Wrap a user-defined constraint's surface text.
    pub fn from(value: &str) -> (r: Self)
        ensures
            r.definition@ == value@,
    {
        UserDefinedConstraint { definition: value.to_owned() }
    }
}

/// One elementary constraint form.
#[derive(Debug, PartialEq)]
pub enum SubtypeElements {
    /// A single permitted value, possibly extensible.
    SingleValue { value: ASN1Value, extensible: bool },
    /// Containment in the named subtype, possibly extensible.
    ContainedSubtype { subtype: ASN1Type, extensible: bool },
    /// A range of permitted values; an absent endpoint leaves that side
    /// unbounded.
    ValueRange { min: Option<ASN1Value>, max: Option<ASN1Value>, extensible: bool },
    /// A restriction of the permitted character set.
    PermittedAlphabet(Box<ElementOrSetOperation>),
    /// A restriction of the permitted sizes.
    SizeConstraint(Box<ElementOrSetOperation>),
    /// A restriction to the named type's values.
    TypeConstraint(ASN1Type),
    /// Constraints applied to the single component of a collection type.
    SingleTypeConstraint(Vec<Constraint>),
    /// Per-component constraints of a structured type.
    MultipleTypeConstraints(InnerTypeConstraint),
    /// A pattern restriction on a string type.
    PatternConstraint(PatternConstraint),
    /// An opaque user-defined restriction.
    UserDefinedConstraint(UserDefinedConstraint),
    /// Date/time property settings.
    PropertySettings(PropertySettings),
}

impl SubtypeElements {
    /// Reinterpret a subtype constraint as a size constraint: the element set
    /// it wraps becomes the set of permitted sizes.
    pub fn from_constraint(value: Constraint) -> (r: Self)
        requires
            value is Subtype,
        ensures
            match value {
                Constraint::Subtype(specs) => r == SubtypeElements::SizeConstraint(
                    Box::new(specs.set),
                ),
                _ => false,
            },
    {
        match value {
            Constraint::Subtype(specs) => SubtypeElements::SizeConstraint(Box::new(specs.set)),
            _ => vstd::pervasive::unreached(),
        }
    }
}

impl From<(ASN1Value, Option<ExtensionMarker>)> for SubtypeElements {
    fn from(value: (ASN1Value, Option<ExtensionMarker>)) -> (r: Self) {
        SubtypeElements::SingleValue { value: value.0, extensible: value.1.is_some() }
    }
}

impl vstd::std_specs::convert::FromSpecImpl<(ASN1Value, Option<ExtensionMarker>)> for SubtypeElements {
    open spec fn obeys_from_spec() -> bool {
        true
    }

    open spec fn from_spec(value: (ASN1Value, Option<ExtensionMarker>)) -> Self {
        SubtypeElements::SingleValue { value: value.0, extensible: value.1 is Some }
    }
}

impl From<(Option<ExtensionMarker>, Vec<NamedConstraint>)> for SubtypeElements {
    fn from(value: (Option<ExtensionMarker>, Vec<NamedConstraint>)) -> (r: Self) {
        SubtypeElements::MultipleTypeConstraints(
            InnerTypeConstraint { is_partial: value.0.is_some(), constraints: value.1 },
        )
    }
}

impl vstd::std_specs::convert::FromSpecImpl<(Option<ExtensionMarker>, Vec<NamedConstraint>)> for SubtypeElements {
    open spec fn obeys_from_spec() -> bool {
        true
    }

    open spec fn from_spec(value: (Option<ExtensionMarker>, Vec<NamedConstraint>)) -> Self {
        SubtypeElements::MultipleTypeConstraints(
            InnerTypeConstraint { is_partial: value.0 is Some, constraints: value.1 },
        )
    }
}

/// The top-level constraint expression attached to a type: an element or set
/// operation, possibly extensible.
#[derive(Debug, PartialEq)]
pub struct ElementSetSpecs {
    pub set: ElementOrSetOperation,
    pub extensible: bool,
}

impl From<(ElementOrSetOperation, Option<ExtensionMarker>)> for ElementSetSpecs {
    fn from(value: (ElementOrSetOperation, Option<ExtensionMarker>)) -> (r: Self) {
        ElementSetSpecs { set: value.0, extensible: value.1.is_some() }
    }
}

impl vstd::std_specs::convert::FromSpecImpl<(ElementOrSetOperation, Option<ExtensionMarker>)> for ElementSetSpecs {
    open spec fn obeys_from_spec() -> bool {
        true
    }

    open spec fn from_spec(value: (ElementOrSetOperation, Option<ExtensionMarker>)) -> Self {
        ElementSetSpecs { set: value.0, extensible: value.1 is Some }
    }
}

/// A constraint element, either plain or composed with further elements
/// through a set operator.
#[derive(Debug, PartialEq)]
pub enum ElementOrSetOperation {
    Element(SubtypeElements),
    SetOperation(SetOperation),
}

/// A nested set operation: a plain base element, an operator, and an operand
/// that may itself be a further set operation. Multi-term chains nest only
/// through the operand; the base is always a plain element.
#[derive(Debug, PartialEq)]
pub struct SetOperation {
    pub base: SubtypeElements,
    pub operator: SetOperator,
    pub operant: Box<ElementOrSetOperation>,
}

impl SetOperation {
    /// Assemble a set operation from a base element, an operator, and an
    /// operand.
    pub fn from(value: (SubtypeElements, SetOperator, ElementOrSetOperation)) -> (r: Self)
        ensures
            r.base == value.0,
            r.operator == value.1,
            *r.operant == value.2,
    {
        SetOperation { base: value.0, operator: value.1, operant: Box::new(value.2) }
    }
}

} // verus!
