//! The constraint resolver: pure functions deriving the minimal-width native
//! integer representation and the minimal-precision real representation
//! implied by a constraint tree.
//!
//! Resolution never under-ranges: a narrow representation is chosen only when
//! concrete literal bounds prove that every legal value fits. Any internal
//! unpacking failure degrades to the safe `Unbounded` classification and is
//! never propagated to the caller.

use vstd::prelude::*;
use crate::asn1::ASN1Value;
use crate::constraints::{Constraint, ElementOrSetOperation, NamedConstraint, SubtypeElements};
use crate::errors::{GrammarError, GrammarErrorKind};
use crate::text::str_eq;

verus! {

/// The native integer representation selected for an integer-valued type.
#[derive(Debug, Clone, Copy, PartialEq, Eq, Structural)]
pub enum IntegerType {
    Int8,
    Int16,
    Int32,
    Int64,
    Uint8,
    Uint16,
    Uint32,
    Uint64,
    Unbounded,
}

/// The native real representation selected for a real-valued type.
#[derive(Debug, Clone, Copy, PartialEq, Eq, Structural)]
pub enum RealType {
    F32,
    F64,
    Unbounded,
}

/// The structured real-value envelope read from an NR3-style constraint:
/// mantissa range, base, and exponent range.
struct RealTypeConstraints {
    mantissa: (i128, i128),
    base: i128,
    exponent: (i128, i128),
}

/// The range a constraint exposes when it is a subtype constraint directly
/// wrapping a plain value-range element.
pub open spec fn spec_as_value_range(c: Constraint) -> Option<
    (Option<ASN1Value>, Option<ASN1Value>, bool),
> {
    match c {
        Constraint::Subtype(specs) => match specs.set {
            ElementOrSetOperation::Element(
                SubtypeElements::ValueRange { min, max, extensible },
            ) => Some((min, max, extensible)),
            _ => None,
        },
        _ => None,
    }
}

/// The value a constraint exposes when it is a subtype constraint directly
/// wrapping a plain single-value element.
pub open spec fn spec_as_strict_value(c: Constraint) -> Option<(ASN1Value, bool)> {
    match c {
        Constraint::Subtype(specs) => match specs.set {
            ElementOrSetOperation::Element(SubtypeElements::SingleValue { value, extensible }) => Some(
                (value, extensible),
            ),
            _ => None,
        },
        _ => None,
    }
}

/// The integer bounds and extensibility the resolver reads from a
/// constraint. A bound that is absent, non-integer, or not exposed at all is
/// left at its empty-range sentinel, so an unusable constraint reads as the
/// empty range.
pub open spec fn spec_integer_bounds(c: Constraint) -> (int, int, bool) {
    match spec_as_value_range(c) {
        Some((min, max, extensible)) => {
            let lo = match min {
                Some(ASN1Value::Integer(i)) => i as int,
                _ => i128::MAX as int,
            };
            let hi = match max {
                Some(ASN1Value::Integer(i)) => i as int,
                _ => i128::MIN as int,
            };
            (lo, hi, extensible)
        },
        None => match spec_as_strict_value(c) {
            Some((value, extensible)) => match value {
                ASN1Value::Integer(i) => (i as int, i as int, extensible),
                _ => (i128::MAX as int, i128::MIN as int, extensible),
            },
            None => (i128::MAX as int, i128::MIN as int, false),
        },
    }
}

/// The narrowest fixed-width integer type containing every value of
/// `[min, max]`, unsigned preferred, for a non-empty range.
pub open spec fn spec_narrowest_integer_type(min: int, max: int) -> IntegerType {
    if min >= 0 {
        if max <= 255 {
            IntegerType::Uint8
        } else if max <= 65535 {
            IntegerType::Uint16
        } else if max <= 4294967295 {
            IntegerType::Uint32
        } else if max <= 18446744073709551615 {
            IntegerType::Uint64
        } else {
            IntegerType::Unbounded
        }
    } else {
        if min >= -128 && max <= 127 {
            IntegerType::Int8
        } else if min >= -32768 && max <= 32767 {
            IntegerType::Int16
        } else if min >= -2147483648 && max <= 2147483647 {
            IntegerType::Int32
        } else if min >= -9223372036854775808 && max <= 9223372036854775807 {
            IntegerType::Int64
        } else {
            IntegerType::Unbounded
        }
    }
}

/// What the integer resolver returns: `Unbounded` for an empty or extensible
/// bound, else the narrowest fitting fixed-width type.
pub open spec fn spec_integer_constraints(c: Constraint) -> IntegerType {
    let (min, max, extensible) = spec_integer_bounds(c);
    if min > max || extensible {
        IntegerType::Unbounded
    } else {
        spec_narrowest_integer_type(min, max)
    }
}

/// The integer range a named component's first sub-constraint exposes, when
/// that sub-constraint is a value range with both endpoints present and both
/// integer literals.
pub open spec fn spec_named_range(c: NamedConstraint) -> Option<(int, int)> {
    if c.constraints@.len() > 0 {
        match spec_as_value_range(c.constraints@[0]) {
            Some((Some(ASN1Value::Integer(lo)), Some(ASN1Value::Integer(hi)), ext)) => Some(
                (lo as int, hi as int),
            ),
            _ => None,
        }
    } else {
        None
    }
}

/// The integer value a named component's first sub-constraint exposes, when
/// that sub-constraint is a strict single integer value.
pub open spec fn spec_named_base(c: NamedConstraint) -> Option<int> {
    if c.constraints@.len() > 0 {
        match spec_as_strict_value(c.constraints@[0]) {
            Some((ASN1Value::Integer(i), ext)) => Some(i as int),
            _ => None,
        }
    } else {
        None
    }
}

/// Walk the named components in order, keeping the latest well-formed
/// `mantissa`, `base` and `exponent` readings and failing on the first
/// matching component whose shape is unusable. Components under other names
/// are ignored.
pub open spec fn spec_scan_components(
    cs: Seq<NamedConstraint>,
    m: Option<(int, int)>,
    b: Option<int>,
    e: Option<(int, int)>,
) -> Option<(Option<(int, int)>, Option<int>, Option<(int, int)>)>
    decreases cs.len(),
{
    if cs.len() == 0 {
        Some((m, b, e))
    } else {
        let c = cs[0];
        if c.identifier@ == "mantissa"@ {
            match spec_named_range(c) {
                Some(r) => spec_scan_components(cs.skip(1), Some(r), b, e),
                None => None,
            }
        } else if c.identifier@ == "base"@ {
            match spec_named_base(c) {
                Some(v) => spec_scan_components(cs.skip(1), m, Some(v), e),
                None => None,
            }
        } else if c.identifier@ == "exponent"@ {
            match spec_named_range(c) {
                Some(r) => spec_scan_components(cs.skip(1), m, b, Some(r)),
                None => None,
            }
        } else {
            spec_scan_components(cs.skip(1), m, b, e)
        }
    }
}

/// The mantissa/base/exponent triple a constraint exposes when it is a
/// per-component constraint naming all three, each with a well-formed first
/// sub-constraint.
pub open spec fn spec_real_components(c: Constraint) -> Option<((int, int), int, (int, int))> {
    match c {
        Constraint::Subtype(specs) => match specs.set {
            ElementOrSetOperation::Element(SubtypeElements::MultipleTypeConstraints(inner)) => {
                match spec_scan_components(inner.constraints@, None, None, None) {
                    Some((Some(m), Some(b), Some(e))) => Some((m, b, e)),
                    _ => None,
                }
            },
            _ => None,
        },
        _ => None,
    }
}

/// The real format classification of a resolved mantissa/base/exponent
/// envelope.
pub open spec fn spec_real_type_of(
    m_min: int,
    m_max: int,
    base: int,
    e_min: int,
    e_max: int,
) -> RealType {
    if base == 2 && e_min >= -126 && e_max <= 127 && m_min >= -9999999 && m_max <= 9999999 {
        RealType::F32
    } else if base == 2 && e_min >= -1022 && e_max <= 1023 && m_min >= -999999999999999 && m_max
        <= 999999999999999 {
        RealType::F64
    } else {
        RealType::Unbounded
    }
}

/// What the real resolver returns: the classification of the exposed
/// envelope, or `Unbounded` when no well-formed envelope is exposed.
pub open spec fn spec_real_constraints(c: Constraint) -> RealType {
    match spec_real_components(c) {
        Some(((m_min, m_max), base, (e_min, e_max))) => spec_real_type_of(
            m_min,
            m_max,
            base,
            e_min,
            e_max,
        ),
        None => RealType::Unbounded,
    }
}

/// Whether `v` lies inside the range a representation covers. `Unbounded`
/// covers every integer.
pub open spec fn integer_type_includes(t: IntegerType, v: int) -> bool {
    match t {
        IntegerType::Uint8 => 0 <= v <= 255,
        IntegerType::Uint16 => 0 <= v <= 65535,
        IntegerType::Uint32 => 0 <= v <= 4294967295,
        IntegerType::Uint64 => 0 <= v <= 18446744073709551615,
        IntegerType::Int8 => -128 <= v <= 127,
        IntegerType::Int16 => -32768 <= v <= 32767,
        IntegerType::Int32 => -2147483648 <= v <= 2147483647,
        IntegerType::Int64 => -9223372036854775808 <= v <= 9223372036854775807,
        IntegerType::Unbounded => true,
    }
}

/// How many values a representation covers; `Unbounded` counts as wider than
/// every fixed width.
pub open spec fn integer_type_size(t: IntegerType) -> int {
    match t {
        IntegerType::Uint8 => 0x100,
        IntegerType::Int8 => 0x100,
        IntegerType::Uint16 => 0x10000,
        IntegerType::Int16 => 0x10000,
        IntegerType::Uint32 => 0x100000000,
        IntegerType::Int32 => 0x100000000,
        IntegerType::Uint64 => 0x10000000000000000,
        IntegerType::Int64 => 0x10000000000000000,
        IntegerType::Unbounded => 0x20000000000000000,
    }
}

/// The integer resolution never under-ranges: whatever representation it
/// picks covers every value between the bounds it read from the constraint.
pub proof fn lemma_integer_constraints_sound(c: Constraint)
    ensures
        forall|v: int|
            spec_integer_bounds(c).0 <= v <= spec_integer_bounds(c).1
                ==> integer_type_includes(spec_integer_constraints(c), v),
{
}

/// The integer resolution is minimal: no representation covering everything
/// between the bounds it read is smaller than the one it picks.
pub proof fn lemma_integer_constraints_narrowest(c: Constraint, t: IntegerType)
    requires
        spec_integer_bounds(c).0 <= spec_integer_bounds(c).1,
        !spec_integer_bounds(c).2,
        forall|v: int|
            spec_integer_bounds(c).0 <= v <= spec_integer_bounds(c).1
                ==> integer_type_includes(t, v),
    ensures
        integer_type_size(spec_integer_constraints(c)) <= integer_type_size(t),
{
    let min = spec_integer_bounds(c).0;
    let max = spec_integer_bounds(c).1;
    assert(integer_type_includes(t, min));
    assert(integer_type_includes(t, max));
}

/// A constraint exposing a single strict non-extensible integer value is
/// resolved to the narrowest representation covering that value: the result
/// covers it, and no other representation covering it is smaller.
pub proof fn lemma_single_value_narrowest(c: Constraint, v: i128, t: IntegerType)
    requires
        spec_as_strict_value(c) == Some((ASN1Value::Integer(v), false)),
        integer_type_includes(t, v as int),
    ensures
        integer_type_includes(spec_integer_constraints(c), v as int),
        integer_type_size(spec_integer_constraints(c)) <= integer_type_size(t),
{
    lemma_integer_constraints_sound(c);
    lemma_integer_constraints_narrowest(c, t);
}

/// An extensibility marker reachable by the resolver's matched branch forces
/// `Unbounded`, however narrow the literal bounds are.
pub proof fn lemma_extensible_unbounded(c: Constraint)
    requires
        spec_integer_bounds(c).2,
    ensures
        spec_integer_constraints(c) == IntegerType::Unbounded,
{
}

/// Bounds that are absent or self-contradictory read as an empty range, and
/// an empty range resolves to `Unbounded`. A constraint matching neither the
/// value-range branch nor the single-value branch reads as an empty range
/// too.
pub proof fn lemma_empty_bounds_unbounded(c: Constraint)
    requires
        spec_integer_bounds(c).0 > spec_integer_bounds(c).1,
    ensures
        spec_integer_constraints(c) == IntegerType::Unbounded,
{
}

/// A fresh unpacking error.
fn unpacking_error(details: &str) -> (e: GrammarError)
    ensures
        e.kind == GrammarErrorKind::UnpackingError,
{
    GrammarError::new(details, GrammarErrorKind::UnpackingError)
}

/// The view of the running mantissa or exponent reading.
spec fn range_reading_view(o: Option<(i128, i128)>) -> Option<(int, int)> {
    match o {
        Some((lo, hi)) => Some((lo as int, hi as int)),
        None => None,
    }
}

/// The view of the running base reading.
spec fn base_reading_view(o: Option<i128>) -> Option<int> {
    match o {
        Some(b) => Some(b as int),
        None => None,
    }
}

/// Scan a per-component constraint list for the `mantissa`, `base` and
/// `exponent` components, failing on the first matching component whose
/// first sub-constraint does not have the required shape or that has no
/// sub-constraint at all, and on any required component left unread.
fn scan_real_components(constraints: &Vec<NamedConstraint>) -> (r: Result<
    RealTypeConstraints,
    GrammarError,
>)
    ensures
        match r {
            Ok(rc) => spec_scan_components(constraints@, None, None, None) == Some(
                (
                    Some((rc.mantissa.0 as int, rc.mantissa.1 as int)),
                    Some(rc.base as int),
                    Some((rc.exponent.0 as int, rc.exponent.1 as int)),
                ),
            ),
            Err(e) => !(spec_scan_components(constraints@, None, None, None) matches Some(
                (Some(_), Some(_), Some(_)),
            )) && e.kind == GrammarErrorKind::UnpackingError,
        },
{
    let mut mantissa: Option<(i128, i128)> = None;
    let mut base: Option<i128> = None;
    let mut exponent: Option<(i128, i128)> = None;
    let mut idx: usize = 0;
    proof {
        assert(constraints@.skip(0) =~= constraints@);
    }
    while idx < constraints.len()
        invariant
            0 <= idx <= constraints@.len(),
            spec_scan_components(constraints@, None, None, None) == spec_scan_components(
                constraints@.skip(idx as int),
                range_reading_view(mantissa),
                base_reading_view(base),
                range_reading_view(exponent),
            ),
        decreases constraints@.len() - idx,
    {
        let c = &constraints[idx];
        proof {
            assert(constraints@.skip(idx as int)[0] == constraints@[idx as int]);
            assert(constraints@.skip(idx as int).skip(1) =~= constraints@.skip(idx as int + 1));
        }
        if str_eq(c.identifier.as_str(), "mantissa") {
            if c.constraints.len() == 0 {
                return Err(
                    unpacking_error("Failed to unpack mantissa constraint as value range."),
                );
            }
            match c.constraints[0].unpack_as_value_range() {
                Ok((cmin, cmax, _extensible)) => match (cmin, cmax) {
                    (Some(ASN1Value::Integer(lo)), Some(ASN1Value::Integer(hi))) => {
                        mantissa = Some((*lo, *hi));
                    },
                    _ => {
                        return Err(
                            unpacking_error(
                                "Failed to unpack mantissa constraint as value range.",
                            ),
                        );
                    },
                },
                Err(_) => {
                    return Err(
                        unpacking_error("Failed to unpack mantissa constraint as value range."),
                    );
                },
            }
        } else if str_eq(c.identifier.as_str(), "base") {
            if c.constraints.len() == 0 {
                return Err(unpacking_error("Failed to unpack base constraint as strict value."));
            }
            match c.constraints[0].unpack_as_strict_value() {
                Ok((value, _extensible)) => match value.unwrap_as_integer() {
                    Ok(i) => {
                        base = Some(i);
                    },
                    Err(_) => {
                        return Err(
                            unpacking_error("Failed to unpack base constraint as strict value."),
                        );
                    },
                },
                Err(_) => {
                    return Err(
                        unpacking_error("Failed to unpack base constraint as strict value."),
                    );
                },
            }
        } else if str_eq(c.identifier.as_str(), "exponent") {
            if c.constraints.len() == 0 {
                return Err(
                    unpacking_error("Failed to unpack exponent constraint as value range."),
                );
            }
            match c.constraints[0].unpack_as_value_range() {
                Ok((cmin, cmax, _extensible)) => match (cmin, cmax) {
                    (Some(ASN1Value::Integer(lo)), Some(ASN1Value::Integer(hi))) => {
                        exponent = Some((*lo, *hi));
                    },
                    _ => {
                        return Err(
                            unpacking_error(
                                "Failed to unpack exponent constraint as value range.",
                            ),
                        );
                    },
                },
                Err(_) => {
                    return Err(
                        unpacking_error("Failed to unpack exponent constraint as value range."),
                    );
                },
            }
        }
        idx += 1;
    }
    proof {
        assert(constraints@.skip(idx as int) =~= Seq::<NamedConstraint>::empty());
    }
    let mantissa = match mantissa {
        Some(m) => m,
        None => {
            return Err(unpacking_error("Failed to unpack mantissa constraint as value range."));
        },
    };
    let exponent = match exponent {
        Some(e) => e,
        None => {
            return Err(unpacking_error("Failed to unpack exponent constraint as value range."));
        },
    };
    let base = match base {
        Some(b) => b,
        None => {
            return Err(unpacking_error("Failed to unpack base constraint as strict value."));
        },
    };
    Ok(RealTypeConstraints { mantissa, base, exponent })
}

impl Constraint {
    /// The integer representation to use when applying this constraint: the
    /// narrowest fixed-width type whose range provably contains every
    /// permitted value, or `Unbounded` when no concrete non-extensible bound
    /// is exposed.
    pub fn integer_constraints(&self) -> (r: IntegerType)
        ensures
            r == spec_integer_constraints(*self),
    {
        let mut min: i128 = i128::MAX;
        let mut max: i128 = i128::MIN;
        let mut is_extensible = false;
        match self.unpack_as_value_range() {
            Ok((cmin, cmax, extensible)) => {
                is_extensible = is_extensible || extensible;
                if let Some(ASN1Value::Integer(i)) = cmin {
                    min = if *i < min {
                        *i
                    } else {
                        min
                    };
                }
                if let Some(ASN1Value::Integer(i)) = cmax {
                    max = if *i > max {
                        *i
                    } else {
                        max
                    };
                }
            },
            Err(_) => match self.unpack_as_strict_value() {
                Ok((value, extensible)) => {
                    is_extensible = is_extensible || extensible;
                    if let ASN1Value::Integer(i) = value {
                        min = if *i < min {
                            *i
                        } else {
                            min
                        };
                        max = if *i > max {
                            *i
                        } else {
                            max
                        };
                    }
                },
                Err(_) => {},
            },
        }
        if min > max || is_extensible {
            IntegerType::Unbounded
        } else if min >= 0 {
            if max <= u8::MAX as i128 {
                IntegerType::Uint8
            } else if max <= u16::MAX as i128 {
                IntegerType::Uint16
            } else if max <= u32::MAX as i128 {
                IntegerType::Uint32
            } else if max <= u64::MAX as i128 {
                IntegerType::Uint64
            } else {
                IntegerType::Unbounded
            }
        } else {
            if min >= i8::MIN as i128 && max <= i8::MAX as i128 {
                IntegerType::Int8
            } else if min >= i16::MIN as i128 && max <= i16::MAX as i128 {
                IntegerType::Int16
            } else if min >= i32::MIN as i128 && max <= i32::MAX as i128 {
                IntegerType::Int32
            } else if min >= i64::MIN as i128 && max <= i64::MAX as i128 {
                IntegerType::Int64
            } else {
                IntegerType::Unbounded
            }
        }
    }

    /// The real representation to use when applying this constraint. Any
    /// internal unpacking failure degrades to `Unbounded`; this entry point
    /// never fails.
    pub fn real_constraints(&self) -> (r: RealType)
        ensures
            r == spec_real_constraints(*self),
    {
        let components = match self.unpack_as_real_components() {
            Ok(c) => c,
            Err(_) => {
                return RealType::Unbounded;
            },
        };
        let (mantissa_min, mantissa_max) = components.mantissa;
        let base = components.base;
        let (exponent_min, exponent_max) = components.exponent;
        if base == 2 && exponent_min >= -126 && exponent_max <= 127 && mantissa_min >= -9999999
            && mantissa_max <= 9999999 {
            RealType::F32
        } else if base == 2 && exponent_min >= -1022 && exponent_max <= 1023 && mantissa_min
            >= -999999999999999 && mantissa_max <= 999999999999999 {
            RealType::F64
        } else {
            RealType::Unbounded
        }
    }

    /// Read this constraint as the structured real-value constraint: a
    /// per-component constraint naming `mantissa`, `base` and `exponent`.
    fn unpack_as_real_components(&self) -> (r: Result<RealTypeConstraints, GrammarError>)
        ensures
            match r {
                Ok(rc) => spec_real_components(*self) == Some(
                    (
                        (rc.mantissa.0 as int, rc.mantissa.1 as int),
                        rc.base as int,
                        (rc.exponent.0 as int, rc.exponent.1 as int),
                    ),
                ),
                Err(e) => spec_real_components(*self) is None && e.kind
                    == GrammarErrorKind::UnpackingError,
            },
    {
        match self {
            Constraint::Subtype(specs) => match &specs.set {
                ElementOrSetOperation::Element(
                    SubtypeElements::MultipleTypeConstraints(inner),
                ) => scan_real_components(&inner.constraints),
                _ => Err(unpacking_error("Failed to unpack constraint as real components.")),
            },
            _ => Err(unpacking_error("Failed to unpack constraint as real components.")),
        }
    }

    /// Read this constraint as a plain value-range element, or report an
    /// unpacking error when it has any other shape.
    pub fn unpack_as_value_range(&self) -> (r: Result<
        (&Option<ASN1Value>, &Option<ASN1Value>, bool),
        GrammarError,
    >)
        ensures
            match r {
                Ok(t) => spec_as_value_range(*self) == Some((*t.0, *t.1, t.2)),
                Err(e) => spec_as_value_range(*self) is None && e.kind
                    == GrammarErrorKind::UnpackingError,
            },
    {
        if let Constraint::Subtype(set) = self {
            if let ElementOrSetOperation::Element(
                SubtypeElements::ValueRange { min, max, extensible },
            ) = &set.set {
                return Ok((min, max, *extensible));
            }
        }
        Err(unpacking_error("Failed to unpack constraint as value range."))
    }

    /// Read this constraint as a plain single-value element, or report an
    /// unpacking error when it has any other shape.
    pub fn unpack_as_strict_value(&self) -> (r: Result<(&ASN1Value, bool), GrammarError>)
        ensures
            match r {
                Ok(t) => spec_as_strict_value(*self) == Some((*t.0, t.1)),
                Err(e) => spec_as_strict_value(*self) is None && e.kind
                    == GrammarErrorKind::UnpackingError,
            },
    {
        if let Constraint::Subtype(set) = self {
            if let ElementOrSetOperation::Element(
                SubtypeElements::SingleValue { value, extensible },
            ) = &set.set {
                return Ok((value, *extensible));
            }
        }
        Err(unpacking_error("Failed to unpack constraint as strict value."))
    }
}

} // verus!
