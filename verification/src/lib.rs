//! Constraint intermediate representation for an ASN.1 schema compiler,
//! together with the resolver that derives the narrowest safe native numeric
//! representation (fixed-width integer or floating-point class) implied by a
//! constraint tree, and the compact textual codec for date/time property
//! settings.

pub mod asn1;
pub mod constraints;
pub mod errors;
pub mod resolver;
pub mod settings;
pub mod text;

pub use asn1::{ASN1Type, ASN1Value, InformationObjectFields, ObjectSet};
pub use constraints::{
    ComponentPresence, CompositeConstraint, Constraint, ContentConstraint, ElementOrSetOperation,
    ElementSetSpecs, ExtensionMarker, InnerTypeConstraint, NamedConstraint, OptionalMarker,
    Parameter, PatternConstraint, RangeSeperator, RelationalConstraint, SetOperation, SetOperator,
    SubtypeElements, TableConstraint, UserDefinedConstraint, ValueConstraint,
};
pub use errors::{GrammarError, GrammarErrorKind};
pub use resolver::{IntegerType, RealType};
pub use settings::{
    BasicSettings, DateSettings, IntervalTypeSettings, LocalOrUtcSettings, MidnightSettings,
    PropertyAndSettingsPair, PropertySetting, PropertySettings, RecurrenceSettings,
    StartEndPointSettings, TimeSettings, YearSettings,
};
