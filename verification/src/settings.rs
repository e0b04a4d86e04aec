//! The property-settings registry: a closed set of named settings families,
//! each with a bidirectional compact-string codec.
//!
//! Every family has a constant name, an encoding of each variant to a
//! canonical compact string, and a decoder that accepts exactly the listed
//! forms. Decoding an unrecognized family name or an unmatched value string
//! fails; there is no fallback or default.

use vstd::prelude::*;
use crate::errors::{GrammarError, GrammarErrorKind};
use crate::text::{dec_string, parse_usize_spec, parse_usize_str, str_eq, str_starts_with,
    usize_to_dec_string, lemma_parse_of_dec_string};
use vstd::string::StrSliceExecFns;
use vstd::string::StringExecFns;

verus! {

/// A decode failure: the value string matches no recognized form.
fn unknown_settings_error() -> (e: GrammarError)
    ensures
        e.kind == GrammarErrorKind::UnknownSettingsValue,
{
    GrammarError::new("Unknown Settings value.", GrammarErrorKind::UnknownSettingsValue)
}

/// The capability contract of one settings family: a constant family name,
/// an encoder to the canonical compact string, and a decoder accepting
/// exactly the recognized forms.
pub trait PropertySetting: Sized {
    /// The family's constant name.
    spec fn family_name_spec() -> Seq<char>;

    /// The canonical compact string of a variant.
    spec fn name_spec(&self) -> Seq<char>;

    /// What the decoder accepts: the variant for a recognized value string,
    /// nothing for any other.
    spec fn parse_spec(s: Seq<char>) -> Option<Self>;

    /// The family's constant name.
    fn family_name() -> (r: String)
        ensures
            r@ == Self::family_name_spec(),
    ;

    /// Encode a variant as its canonical compact string.
    fn setting_name(&self) -> (r: String)
        ensures
            r@ == self.name_spec(),
    ;

    /// Decode a compact string, failing when it matches no recognized form
    /// for this family.
    fn from_str(value: &str) -> (r: Result<Self, GrammarError>)
        ensures
            match r {
                Ok(v) => Self::parse_spec(value@) == Some(v),
                Err(e) => Self::parse_spec(value@) is None && e.kind
                    == GrammarErrorKind::UnknownSettingsValue,
            },
    ;
}

/// The `Basic` family: which kind of time-related value is constrained.
#[derive(Debug, Clone, Copy, PartialEq, Eq, Structural)]
pub enum BasicSettings {
    Date,
    Time,
    DateTime,
    Interval,
    RecInterval,
}

impl PropertySetting for BasicSettings {
    open spec fn family_name_spec() -> Seq<char> {
        "Basic"@
    }

    open spec fn name_spec(&self) -> Seq<char> {
        match self {
            BasicSettings::Date => "Date"@,
            BasicSettings::Time => "Time"@,
            BasicSettings::DateTime => "Date-Time"@,
            BasicSettings::Interval => "Interval"@,
            BasicSettings::RecInterval => "Rec-Interval"@,
        }
    }

    open spec fn parse_spec(s: Seq<char>) -> Option<Self> {
        if s == "Date"@ {
            Some(BasicSettings::Date)
        } else if s == "Time"@ {
            Some(BasicSettings::Time)
        } else if s == "Date-Time"@ {
            Some(BasicSettings::DateTime)
        } else if s == "Interval"@ {
            Some(BasicSettings::Interval)
        } else if s == "Rec-Interval"@ {
            Some(BasicSettings::RecInterval)
        } else {
            None
        }
    }

    fn family_name() -> (r: String) {
        "Basic".to_owned()
    }

    fn setting_name(&self) -> (r: String) {
        match self {
            BasicSettings::Date => "Date".to_owned(),
            BasicSettings::Time => "Time".to_owned(),
            BasicSettings::DateTime => "Date-Time".to_owned(),
            BasicSettings::Interval => "Interval".to_owned(),
            BasicSettings::RecInterval => "Rec-Interval".to_owned(),
        }
    }

    fn from_str(value: &str) -> (r: Result<Self, GrammarError>) {
        if str_eq(value, "Date") {
            Ok(BasicSettings::Date)
        } else if str_eq(value, "Time") {
            Ok(BasicSettings::Time)
        } else if str_eq(value, "Date-Time") {
            Ok(BasicSettings::DateTime)
        } else if str_eq(value, "Interval") {
            Ok(BasicSettings::Interval)
        } else if str_eq(value, "Rec-Interval") {
            Ok(BasicSettings::RecInterval)
        } else {
            Err(unknown_settings_error())
        }
    }
}

/// Decoding the canonical encoding of any `Basic` variant gives the variant
/// back.
pub proof fn lemma_basic_round_trip(v: BasicSettings)
    ensures
        BasicSettings::parse_spec(v.name_spec()) == Some(v),
{
    reveal_strlit("Date");
    reveal_strlit("Time");
    reveal_strlit("Date-Time");
    reveal_strlit("Interval");
    reveal_strlit("Rec-Interval");
    assert("Date"@.len() == 4);
    assert("Time"@.len() == 4);
    assert("Date-Time"@.len() == 9);
    assert("Interval"@.len() == 8);
    assert("Rec-Interval"@.len() == 12);
    match v {
        BasicSettings::Date => {
            assert(BasicSettings::parse_spec("Date"@) == Some(BasicSettings::Date));
        },
        BasicSettings::Time => {
            assert("Time"@[0] != "Date"@[0]);
            assert(BasicSettings::parse_spec("Time"@) == Some(BasicSettings::Time));
        },
        BasicSettings::DateTime => {
            assert(BasicSettings::parse_spec("Date-Time"@) == Some(BasicSettings::DateTime));
        },
        BasicSettings::Interval => {
            assert(BasicSettings::parse_spec("Interval"@) == Some(BasicSettings::Interval));
        },
        BasicSettings::RecInterval => {
            assert(BasicSettings::parse_spec("Rec-Interval"@) == Some(BasicSettings::RecInterval));
        },
    }
}

/// The `Date` family: which date components are present.
#[derive(Debug, Clone, Copy, PartialEq, Eq, Structural)]
pub enum DateSettings {
    Century,
    Year,
    YearMonth,
    YearMonthDay,
    YearDay,
    YearWeek,
    YearWeekDay,
}

impl PropertySetting for DateSettings {
    open spec fn family_name_spec() -> Seq<char> {
        "Date"@
    }

    open spec fn name_spec(&self) -> Seq<char> {
        match self {
            DateSettings::Century => "C"@,
            DateSettings::Year => "Y"@,
            DateSettings::YearMonth => "YM"@,
            DateSettings::YearMonthDay => "YMD"@,
            DateSettings::YearDay => "YD"@,
            DateSettings::YearWeek => "YW"@,
            DateSettings::YearWeekDay => "YWD"@,
        }
    }

    open spec fn parse_spec(s: Seq<char>) -> Option<Self> {
        if s == "C"@ {
            Some(DateSettings::Century)
        } else if s == "Y"@ {
            Some(DateSettings::Year)
        } else if s == "YM"@ {
            Some(DateSettings::YearMonth)
        } else if s == "YMD"@ {
            Some(DateSettings::YearMonthDay)
        } else if s == "YD"@ {
            Some(DateSettings::YearDay)
        } else if s == "YW"@ {
            Some(DateSettings::YearWeek)
        } else if s == "YWD"@ {
            Some(DateSettings::YearWeekDay)
        } else {
            None
        }
    }

    fn family_name() -> (r: String) {
        "Date".to_owned()
    }

    fn setting_name(&self) -> (r: String) {
        match self {
            DateSettings::Century => "C".to_owned(),
            DateSettings::Year => "Y".to_owned(),
            DateSettings::YearMonth => "YM".to_owned(),
            DateSettings::YearMonthDay => "YMD".to_owned(),
            DateSettings::YearDay => "YD".to_owned(),
            DateSettings::YearWeek => "YW".to_owned(),
            DateSettings::YearWeekDay => "YWD".to_owned(),
        }
    }

    fn from_str(value: &str) -> (r: Result<Self, GrammarError>) {
        if str_eq(value, "C") {
            Ok(DateSettings::Century)
        } else if str_eq(value, "Y") {
            Ok(DateSettings::Year)
        } else if str_eq(value, "YM") {
            Ok(DateSettings::YearMonth)
        } else if str_eq(value, "YMD") {
            Ok(DateSettings::YearMonthDay)
        } else if str_eq(value, "YD") {
            Ok(DateSettings::YearDay)
        } else if str_eq(value, "YW") {
            Ok(DateSettings::YearWeek)
        } else if str_eq(value, "YWD") {
            Ok(DateSettings::YearWeekDay)
        } else {
            Err(unknown_settings_error())
        }
    }
}

/// Decoding the canonical encoding of any `Date` variant gives the variant
/// back.
pub proof fn lemma_date_round_trip(v: DateSettings)
    ensures
        DateSettings::parse_spec(v.name_spec()) == Some(v),
{
    reveal_strlit("C");
    reveal_strlit("Y");
    reveal_strlit("YM");
    reveal_strlit("YMD");
    reveal_strlit("YD");
    reveal_strlit("YW");
    reveal_strlit("YWD");
    assert("C"@.len() == 1);
    assert("Y"@.len() == 1);
    assert("YM"@.len() == 2);
    assert("YMD"@.len() == 3);
    assert("YD"@.len() == 2);
    assert("YW"@.len() == 2);
    assert("YWD"@.len() == 3);
    match v {
        DateSettings::Century => {
            assert(DateSettings::parse_spec("C"@) == Some(DateSettings::Century));
        },
        DateSettings::Year => {
            assert("Y"@[0] != "C"@[0]);
            assert(DateSettings::parse_spec("Y"@) == Some(DateSettings::Year));
        },
        DateSettings::YearMonth => {
            assert(DateSettings::parse_spec("YM"@) == Some(DateSettings::YearMonth));
        },
        DateSettings::YearMonthDay => {
            assert(DateSettings::parse_spec("YMD"@) == Some(DateSettings::YearMonthDay));
        },
        DateSettings::YearDay => {
            assert("YD"@[1] != "YM"@[1]);
            assert(DateSettings::parse_spec("YD"@) == Some(DateSettings::YearDay));
        },
        DateSettings::YearWeek => {
            assert("YW"@[1] != "YM"@[1]);
            assert("YW"@[1] != "YD"@[1]);
            assert(DateSettings::parse_spec("YW"@) == Some(DateSettings::YearWeek));
        },
        DateSettings::YearWeekDay => {
            assert("YWD"@[1] != "YMD"@[1]);
            assert(DateSettings::parse_spec("YWD"@) == Some(DateSettings::YearWeekDay));
        },
    }
}

/// The `Year` family: how year numbers are represented.
#[derive(Debug, Clone, Copy, PartialEq, Eq, Structural)]
pub enum YearSettings {
    Basic,
    Proleptic,
    Negative,
    Large(usize),
}

impl PropertySetting for YearSettings {
    open spec fn family_name_spec() -> Seq<char> {
        "Year"@
    }

    open spec fn name_spec(&self) -> Seq<char> {
        match self {
            YearSettings::Basic => "Basic"@,
            YearSettings::Proleptic => "Proleptic"@,
            YearSettings::Negative => "Negative"@,
            YearSettings::Large(n) => "L"@ + dec_string(*n as nat),
        }
    }

    open spec fn parse_spec(s: Seq<char>) -> Option<Self> {
        if s == "Basic"@ {
            Some(YearSettings::Basic)
        } else if s == "Proleptic"@ {
            Some(YearSettings::Proleptic)
        } else if s == "Negative"@ {
            Some(YearSettings::Negative)
        } else if s.len() > 0 && s[0] == 'L' {
            match parse_usize_spec(s.skip(1)) {
                Some(n) => Some(YearSettings::Large(n)),
                None => None,
            }
        } else {
            None
        }
    }

    fn family_name() -> (r: String) {
        "Year".to_owned()
    }

    fn setting_name(&self) -> (r: String) {
        match self {
            YearSettings::Basic => "Basic".to_owned(),
            YearSettings::Proleptic => "Proleptic".to_owned(),
            YearSettings::Negative => "Negative".to_owned(),
            YearSettings::Large(n) => {
                let mut s = "L".to_owned();
                let digits = usize_to_dec_string(*n);
                s.append(digits.as_str());
                s
            },
        }
    }

    fn from_str(value: &str) -> (r: Result<Self, GrammarError>) {
        if str_eq(value, "Basic") {
            Ok(YearSettings::Basic)
        } else if str_eq(value, "Proleptic") {
            Ok(YearSettings::Proleptic)
        } else if str_eq(value, "Negative") {
            Ok(YearSettings::Negative)
        } else if str_starts_with(value, "L") {
            proof {
                reveal_strlit("L");
                assert(value@.subrange(0, 1)[0] == value@[0]);
            }
            let rest = value.substring_char(1, value.unicode_len());
            proof {
                assert(rest@ =~= value@.skip(1));
            }
            match parse_usize_str(rest) {
                Some(n) => Ok(YearSettings::Large(n)),
                None => Err(unknown_settings_error()),
            }
        } else {
            proof {
                reveal_strlit("L");
                if value@.len() > 0 && value@[0] == 'L' {
                    assert(value@.subrange(0, 1) =~= "L"@);
                }
            }
            Err(unknown_settings_error())
        }
    }
}

/// Decoding the canonical encoding of any `Year` variant gives the variant
/// back.
pub proof fn lemma_year_round_trip(v: YearSettings)
    ensures
        YearSettings::parse_spec(v.name_spec()) == Some(v),
{
    reveal_strlit("Basic");
    reveal_strlit("Proleptic");
    reveal_strlit("Negative");
    reveal_strlit("L");
    assert("Basic"@.len() == 5);
    assert("Proleptic"@.len() == 9);
    assert("Negative"@.len() == 8);
    assert("L"@.len() == 1);
    match v {
        YearSettings::Basic => {
            assert(YearSettings::parse_spec("Basic"@) == Some(YearSettings::Basic));
        },
        YearSettings::Proleptic => {
            assert(YearSettings::parse_spec("Proleptic"@) == Some(YearSettings::Proleptic));
        },
        YearSettings::Negative => {
            assert(YearSettings::parse_spec("Negative"@) == Some(YearSettings::Negative));
        },
        YearSettings::Large(n) => {
            let s = "L"@ + dec_string(n as nat);
            crate::text::lemma_dec_string_wf(n as nat);
            assert(s[0] == 'L');
            assert(s[0] != "Basic"@[0]);
            assert(s[0] != "Proleptic"@[0]);
            assert(s[0] != "Negative"@[0]);
            assert(s.skip(1) =~= dec_string(n as nat));
            lemma_parse_of_dec_string(n as nat);
            assert(YearSettings::parse_spec(s) == Some(YearSettings::Large(n)));
        },
    }
}

/// The `Time` family: which time components are present, and with how many
/// fractional digits.
#[derive(Debug, Clone, Copy, PartialEq, Eq, Structural)]
pub enum TimeSettings {
    Hour,
    HourMinute,
    HourMinuteSecond,
    HourDecimalFraction(usize),
    HourMinuteFraction(usize),
    HourMinuteSecondFraction(usize),
}

impl PropertySetting for TimeSettings {
    open spec fn family_name_spec() -> Seq<char> {
        "Time"@
    }

    open spec fn name_spec(&self) -> Seq<char> {
        match self {
            TimeSettings::Hour => "H"@,
            TimeSettings::HourMinute => "HM"@,
            TimeSettings::HourMinuteSecond => "HMS"@,
            TimeSettings::HourDecimalFraction(n) => "HF"@ + dec_string(*n as nat),
            TimeSettings::HourMinuteFraction(n) => "HMF"@ + dec_string(*n as nat),
            TimeSettings::HourMinuteSecondFraction(n) => "HMSF"@ + dec_string(*n as nat),
        }
    }

    open spec fn parse_spec(s: Seq<char>) -> Option<Self> {
        if s == "H"@ {
            Some(TimeSettings::Hour)
        } else if s == "HM"@ {
            Some(TimeSettings::HourMinute)
        } else if s == "HMS"@ {
            Some(TimeSettings::HourMinuteSecond)
        } else if s.len() >= 2 && s.subrange(0, 2) == "HF"@ {
            match parse_usize_spec(s.skip(2)) {
                Some(n) => Some(TimeSettings::HourDecimalFraction(n)),
                None => None,
            }
        } else if s.len() >= 3 && s.subrange(0, 3) == "HMF"@ {
            match parse_usize_spec(s.skip(3)) {
                Some(n) => Some(TimeSettings::HourMinuteFraction(n)),
                None => None,
            }
        } else if s.len() >= 4 && s.subrange(0, 4) == "HMSF"@ {
            match parse_usize_spec(s.skip(4)) {
                Some(n) => Some(TimeSettings::HourMinuteSecondFraction(n)),
                None => None,
            }
        } else {
            None
        }
    }

    fn family_name() -> (r: String) {
        "Time".to_owned()
    }

    fn setting_name(&self) -> (r: String) {
        match self {
            TimeSettings::Hour => "H".to_owned(),
            TimeSettings::HourMinute => "HM".to_owned(),
            TimeSettings::HourMinuteSecond => "HMS".to_owned(),
            TimeSettings::HourDecimalFraction(n) => {
                let mut s = "HF".to_owned();
                let digits = usize_to_dec_string(*n);
                s.append(digits.as_str());
                s
            },
            TimeSettings::HourMinuteFraction(n) => {
                let mut s = "HMF".to_owned();
                let digits = usize_to_dec_string(*n);
                s.append(digits.as_str());
                s
            },
            TimeSettings::HourMinuteSecondFraction(n) => {
                let mut s = "HMSF".to_owned();
                let digits = usize_to_dec_string(*n);
                s.append(digits.as_str());
                s
            },
        }
    }

    fn from_str(value: &str) -> (r: Result<Self, GrammarError>) {
        if str_eq(value, "H") {
            Ok(TimeSettings::Hour)
        } else if str_eq(value, "HM") {
            Ok(TimeSettings::HourMinute)
        } else if str_eq(value, "HMS") {
            Ok(TimeSettings::HourMinuteSecond)
        } else if str_starts_with(value, "HF") {
            proof {
                reveal_strlit("HF");
            }
            let rest = value.substring_char(2, value.unicode_len());
            proof {
                assert(rest@ =~= value@.skip(2));
            }
            match parse_usize_str(rest) {
                Some(n) => Ok(TimeSettings::HourDecimalFraction(n)),
                None => Err(unknown_settings_error()),
            }
        } else if str_starts_with(value, "HMF") {
            proof {
                reveal_strlit("HMF");
            }
            let rest = value.substring_char(3, value.unicode_len());
            proof {
                assert(rest@ =~= value@.skip(3));
            }
            match parse_usize_str(rest) {
                Some(n) => Ok(TimeSettings::HourMinuteFraction(n)),
                None => Err(unknown_settings_error()),
            }
        } else if str_starts_with(value, "HMSF") {
            proof {
                reveal_strlit("HMSF");
            }
            let rest = value.substring_char(4, value.unicode_len());
            proof {
                assert(rest@ =~= value@.skip(4));
            }
            match parse_usize_str(rest) {
                Some(n) => Ok(TimeSettings::HourMinuteSecondFraction(n)),
                None => Err(unknown_settings_error()),
            }
        } else {
            Err(unknown_settings_error())
        }
    }
}

/// Decoding the canonical encoding of any `Time` variant gives the variant
/// back.
pub proof fn lemma_time_round_trip(v: TimeSettings)
    ensures
        TimeSettings::parse_spec(v.name_spec()) == Some(v),
{
    reveal_strlit("H");
    reveal_strlit("HM");
    reveal_strlit("HMS");
    reveal_strlit("HF");
    reveal_strlit("HMF");
    reveal_strlit("HMSF");
    assert("H"@.len() == 1);
    assert("HM"@.len() == 2);
    assert("HMS"@.len() == 3);
    assert("HF"@.len() == 2);
    assert("HMF"@.len() == 3);
    assert("HMSF"@.len() == 4);
    match v {
        TimeSettings::Hour => {
            assert("H"@.subrange(0, 1) =~= "H"@);
            assert(TimeSettings::parse_spec("H"@) == Some(TimeSettings::Hour));
        },
        TimeSettings::HourMinute => {
            assert("HM"@.subrange(0, 2)[1] == "HM"@[1]);
            assert("HM"@[1] != "HF"@[1]);
            assert(TimeSettings::parse_spec("HM"@) == Some(TimeSettings::HourMinute));
        },
        TimeSettings::HourMinuteSecond => {
            assert("HMS"@.subrange(0, 2)[1] == "HMS"@[1]);
            assert("HMS"@[1] != "HF"@[1]);
            assert("HMS"@.subrange(0, 3)[2] == "HMS"@[2]);
            assert("HMS"@[2] != "HMF"@[2]);
            assert(TimeSettings::parse_spec("HMS"@) == Some(TimeSettings::HourMinuteSecond));
        },
        TimeSettings::HourDecimalFraction(n) => {
            let s = "HF"@ + dec_string(n as nat);
            crate::text::lemma_dec_string_wf(n as nat);
            assert(s.len() >= 3);
            assert(s[1] == 'F');
            assert(s[1] != "HM"@[1]);
            assert(s[1] != "HMS"@[1]);
            assert(s.subrange(0, 2) =~= "HF"@);
            assert(s.skip(2) =~= dec_string(n as nat));
            lemma_parse_of_dec_string(n as nat);
            assert(TimeSettings::parse_spec(s) == Some(TimeSettings::HourDecimalFraction(n)));
        },
        TimeSettings::HourMinuteFraction(n) => {
            let s = "HMF"@ + dec_string(n as nat);
            crate::text::lemma_dec_string_wf(n as nat);
            assert(s.len() >= 4);
            assert(s.subrange(0, 2)[1] == s[1]);
            assert(s[1] == 'M');
            assert(s[1] != "HF"@[1]);
            assert(s.subrange(0, 3) =~= "HMF"@);
            assert(s.skip(3) =~= dec_string(n as nat));
            lemma_parse_of_dec_string(n as nat);
            assert(TimeSettings::parse_spec(s) == Some(TimeSettings::HourMinuteFraction(n)));
        },
        TimeSettings::HourMinuteSecondFraction(n) => {
            let s = "HMSF"@ + dec_string(n as nat);
            crate::text::lemma_dec_string_wf(n as nat);
            assert(s.len() >= 5);
            assert(s.subrange(0, 2)[1] == s[1]);
            assert(s[1] == 'M');
            assert(s[1] != "HF"@[1]);
            assert(s.subrange(0, 3)[2] == s[2]);
            assert(s[2] == 'S');
            assert(s[2] != "HMF"@[2]);
            assert(s.subrange(0, 4) =~= "HMSF"@);
            assert(s.skip(4) =~= dec_string(n as nat));
            lemma_parse_of_dec_string(n as nat);
            assert(TimeSettings::parse_spec(s) == Some(TimeSettings::HourMinuteSecondFraction(n)));
        },
    }
}

/// The `Local-or-UTC` family: how a time is anchored.
#[derive(Debug, Clone, Copy, PartialEq, Eq, Structural)]
pub enum LocalOrUtcSettings {
    Local,
    Utc,
    LocalAndDifference,
}

impl PropertySetting for LocalOrUtcSettings {
    open spec fn family_name_spec() -> Seq<char> {
        "Local-or-UTC"@
    }

    open spec fn name_spec(&self) -> Seq<char> {
        match self {
            LocalOrUtcSettings::Local => "L"@,
            LocalOrUtcSettings::Utc => "Z"@,
            LocalOrUtcSettings::LocalAndDifference => "LD"@,
        }
    }

    open spec fn parse_spec(s: Seq<char>) -> Option<Self> {
        if s == "L"@ {
            Some(LocalOrUtcSettings::Local)
        } else if s == "Z"@ {
            Some(LocalOrUtcSettings::Utc)
        } else if s == "LD"@ {
            Some(LocalOrUtcSettings::LocalAndDifference)
        } else {
            None
        }
    }

    fn family_name() -> (r: String) {
        "Local-or-UTC".to_owned()
    }

    fn setting_name(&self) -> (r: String) {
        match self {
            LocalOrUtcSettings::Local => "L".to_owned(),
            LocalOrUtcSettings::Utc => "Z".to_owned(),
            LocalOrUtcSettings::LocalAndDifference => "LD".to_owned(),
        }
    }

    fn from_str(value: &str) -> (r: Result<Self, GrammarError>) {
        if str_eq(value, "L") {
            Ok(LocalOrUtcSettings::Local)
        } else if str_eq(value, "Z") {
            Ok(LocalOrUtcSettings::Utc)
        } else if str_eq(value, "LD") {
            Ok(LocalOrUtcSettings::LocalAndDifference)
        } else {
            Err(unknown_settings_error())
        }
    }
}

/// Decoding the canonical encoding of any `Local-or-UTC` variant gives the
/// variant back.
pub proof fn lemma_local_or_utc_round_trip(v: LocalOrUtcSettings)
    ensures
        LocalOrUtcSettings::parse_spec(v.name_spec()) == Some(v),
{
    reveal_strlit("L");
    reveal_strlit("Z");
    reveal_strlit("LD");
    assert("L"@.len() == 1);
    assert("Z"@.len() == 1);
    assert("LD"@.len() == 2);
    match v {
        LocalOrUtcSettings::Local => {
            assert(LocalOrUtcSettings::parse_spec("L"@) == Some(LocalOrUtcSettings::Local));
        },
        LocalOrUtcSettings::Utc => {
            assert("Z"@[0] != "L"@[0]);
            assert(LocalOrUtcSettings::parse_spec("Z"@) == Some(LocalOrUtcSettings::Utc));
        },
        LocalOrUtcSettings::LocalAndDifference => {
            assert(LocalOrUtcSettings::parse_spec("LD"@) == Some(
                LocalOrUtcSettings::LocalAndDifference,
            ));
        },
    }
}

/// The `Interval-type` family: how an interval is delimited.
#[derive(Debug, Clone, Copy, PartialEq, Eq, Structural)]
pub enum IntervalTypeSettings {
    StartAndEnd,
    Duration,
    StartAndDuration,
    DurationAndEnd,
}

impl PropertySetting for IntervalTypeSettings {
    open spec fn family_name_spec() -> Seq<char> {
        "Interval-type"@
    }

    open spec fn name_spec(&self) -> Seq<char> {
        match self {
            IntervalTypeSettings::StartAndEnd => "SE"@,
            IntervalTypeSettings::Duration => "D"@,
            IntervalTypeSettings::StartAndDuration => "SD"@,
            IntervalTypeSettings::DurationAndEnd => "DE"@,
        }
    }

    open spec fn parse_spec(s: Seq<char>) -> Option<Self> {
        if s == "SE"@ {
            Some(IntervalTypeSettings::StartAndEnd)
        } else if s == "D"@ {
            Some(IntervalTypeSettings::Duration)
        } else if s == "SD"@ {
            Some(IntervalTypeSettings::StartAndDuration)
        } else if s == "DE"@ {
            Some(IntervalTypeSettings::DurationAndEnd)
        } else {
            None
        }
    }

    fn family_name() -> (r: String) {
        "Interval-type".to_owned()
    }

    fn setting_name(&self) -> (r: String) {
        match self {
            IntervalTypeSettings::StartAndEnd => "SE".to_owned(),
            IntervalTypeSettings::Duration => "D".to_owned(),
            IntervalTypeSettings::StartAndDuration => "SD".to_owned(),
            IntervalTypeSettings::DurationAndEnd => "DE".to_owned(),
        }
    }

    fn from_str(value: &str) -> (r: Result<Self, GrammarError>) {
        if str_eq(value, "SE") {
            Ok(IntervalTypeSettings::StartAndEnd)
        } else if str_eq(value, "D") {
            Ok(IntervalTypeSettings::Duration)
        } else if str_eq(value, "SD") {
            Ok(IntervalTypeSettings::StartAndDuration)
        } else if str_eq(value, "DE") {
            Ok(IntervalTypeSettings::DurationAndEnd)
        } else {
            Err(unknown_settings_error())
        }
    }
}

/// Decoding the canonical encoding of any `Interval-type` variant gives the
/// variant back.
pub proof fn lemma_interval_type_round_trip(v: IntervalTypeSettings)
    ensures
        IntervalTypeSettings::parse_spec(v.name_spec()) == Some(v),
{
    reveal_strlit("SE");
    reveal_strlit("D");
    reveal_strlit("SD");
    reveal_strlit("DE");
    assert("SE"@.len() == 2);
    assert("D"@.len() == 1);
    assert("SD"@.len() == 2);
    assert("DE"@.len() == 2);
    match v {
        IntervalTypeSettings::StartAndEnd => {
            assert(IntervalTypeSettings::parse_spec("SE"@) == Some(
                IntervalTypeSettings::StartAndEnd,
            ));
        },
        IntervalTypeSettings::Duration => {
            assert(IntervalTypeSettings::parse_spec("D"@) == Some(IntervalTypeSettings::Duration));
        },
        IntervalTypeSettings::StartAndDuration => {
            assert("SD"@[1] != "SE"@[1]);
            assert(IntervalTypeSettings::parse_spec("SD"@) == Some(
                IntervalTypeSettings::StartAndDuration,
            ));
        },
        IntervalTypeSettings::DurationAndEnd => {
            assert("DE"@[0] != "SE"@[0]);
            assert("DE"@[0] != "SD"@[0]);
            assert(IntervalTypeSettings::parse_spec("DE"@) == Some(
                IntervalTypeSettings::DurationAndEnd,
            ));
        },
    }
}

/// The `SE-point` family: what kind of value a start or end point is.
#[derive(Debug, Clone, Copy, PartialEq, Eq, Structural)]
pub enum StartEndPointSettings {
    Date,
    Time,
    DateTime,
}

impl PropertySetting for StartEndPointSettings {
    open spec fn family_name_spec() -> Seq<char> {
        "SE-point"@
    }

    open spec fn name_spec(&self) -> Seq<char> {
        match self {
            StartEndPointSettings::Date => "Date"@,
            StartEndPointSettings::Time => "Time"@,
            StartEndPointSettings::DateTime => "Date-Time"@,
        }
    }

    open spec fn parse_spec(s: Seq<char>) -> Option<Self> {
        if s == "Date"@ {
            Some(StartEndPointSettings::Date)
        } else if s == "Time"@ {
            Some(StartEndPointSettings::Time)
        } else if s == "Date-Time"@ {
            Some(StartEndPointSettings::DateTime)
        } else {
            None
        }
    }

    fn family_name() -> (r: String) {
        "SE-point".to_owned()
    }

    fn setting_name(&self) -> (r: String) {
        match self {
            StartEndPointSettings::Date => "Date".to_owned(),
            StartEndPointSettings::Time => "Time".to_owned(),
            StartEndPointSettings::DateTime => "Date-Time".to_owned(),
        }
    }

    fn from_str(value: &str) -> (r: Result<Self, GrammarError>) {
        if str_eq(value, "Date") {
            Ok(StartEndPointSettings::Date)
        } else if str_eq(value, "Time") {
            Ok(StartEndPointSettings::Time)
        } else if str_eq(value, "Date-Time") {
            Ok(StartEndPointSettings::DateTime)
        } else {
            Err(unknown_settings_error())
        }
    }
}

/// Decoding the canonical encoding of any `SE-point` variant gives the
/// variant back.
pub proof fn lemma_start_end_point_round_trip(v: StartEndPointSettings)
    ensures
        StartEndPointSettings::parse_spec(v.name_spec()) == Some(v),
{
    reveal_strlit("Date");
    reveal_strlit("Time");
    reveal_strlit("Date-Time");
    assert("Date"@.len() == 4);
    assert("Time"@.len() == 4);
    assert("Date-Time"@.len() == 9);
    match v {
        StartEndPointSettings::Date => {
            assert(StartEndPointSettings::parse_spec("Date"@) == Some(StartEndPointSettings::Date));
        },
        StartEndPointSettings::Time => {
            assert("Time"@[0] != "Date"@[0]);
            assert(StartEndPointSettings::parse_spec("Time"@) == Some(StartEndPointSettings::Time));
        },
        StartEndPointSettings::DateTime => {
            assert(StartEndPointSettings::parse_spec("Date-Time"@) == Some(
                StartEndPointSettings::DateTime,
            ));
        },
    }
}

/// The `Recurrence` family: how often an interval recurs.
#[derive(Debug, Clone, Copy, PartialEq, Eq, Structural)]
pub enum RecurrenceSettings {
    Unlimited,
    Recurrences(usize),
}

impl PropertySetting for RecurrenceSettings {
    open spec fn family_name_spec() -> Seq<char> {
        "Recurrence"@
    }

    open spec fn name_spec(&self) -> Seq<char> {
        match self {
            RecurrenceSettings::Unlimited => "Unlimited"@,
            RecurrenceSettings::Recurrences(n) => "R"@ + dec_string(*n as nat),
        }
    }

    open spec fn parse_spec(s: Seq<char>) -> Option<Self> {
        if s == "Unlimited"@ {
            Some(RecurrenceSettings::Unlimited)
        } else if s.len() > 0 && s[0] == 'R' {
            match parse_usize_spec(s.skip(1)) {
                Some(n) => Some(RecurrenceSettings::Recurrences(n)),
                None => None,
            }
        } else {
            None
        }
    }

    fn family_name() -> (r: String) {
        "Recurrence".to_owned()
    }

    fn setting_name(&self) -> (r: String) {
        match self {
            RecurrenceSettings::Unlimited => "Unlimited".to_owned(),
            RecurrenceSettings::Recurrences(n) => {
                let mut s = "R".to_owned();
                let digits = usize_to_dec_string(*n);
                s.append(digits.as_str());
                s
            },
        }
    }

    fn from_str(value: &str) -> (r: Result<Self, GrammarError>) {
        if str_eq(value, "Unlimited") {
            Ok(RecurrenceSettings::Unlimited)
        } else if str_starts_with(value, "R") {
            proof {
                reveal_strlit("R");
                assert(value@.subrange(0, 1)[0] == value@[0]);
            }
            let rest = value.substring_char(1, value.unicode_len());
            proof {
                assert(rest@ =~= value@.skip(1));
            }
            match parse_usize_str(rest) {
                Some(n) => Ok(RecurrenceSettings::Recurrences(n)),
                None => Err(unknown_settings_error()),
            }
        } else {
            proof {
                reveal_strlit("R");
                if value@.len() > 0 && value@[0] == 'R' {
                    assert(value@.subrange(0, 1) =~= "R"@);
                }
            }
            Err(unknown_settings_error())
        }
    }
}

/// Decoding the canonical encoding of any `Recurrence` variant gives the
/// variant back.
pub proof fn lemma_recurrence_round_trip(v: RecurrenceSettings)
    ensures
        RecurrenceSettings::parse_spec(v.name_spec()) == Some(v),
{
    reveal_strlit("Unlimited");
    reveal_strlit("R");
    assert("Unlimited"@.len() == 9);
    assert("R"@.len() == 1);
    match v {
        RecurrenceSettings::Unlimited => {
            assert(RecurrenceSettings::parse_spec("Unlimited"@) == Some(
                RecurrenceSettings::Unlimited,
            ));
        },
        RecurrenceSettings::Recurrences(n) => {
            let s = "R"@ + dec_string(n as nat);
            crate::text::lemma_dec_string_wf(n as nat);
            assert(s[0] == 'R');
            assert(s[0] != "Unlimited"@[0]);
            assert(s.skip(1) =~= dec_string(n as nat));
            lemma_parse_of_dec_string(n as nat);
            assert(RecurrenceSettings::parse_spec(s) == Some(RecurrenceSettings::Recurrences(n)));
        },
    }
}

/// The `Midnight` family: whether midnight belongs to the starting or the
/// ending day.
#[derive(Debug, Clone, Copy, PartialEq, Eq, Structural)]
pub enum MidnightSettings {
    StartOfDay,
    EndOfDay,
}

impl PropertySetting for MidnightSettings {
    open spec fn family_name_spec() -> Seq<char> {
        "Midnight"@
    }

    open spec fn name_spec(&self) -> Seq<char> {
        match self {
            MidnightSettings::StartOfDay => "Start"@,
            MidnightSettings::EndOfDay => "End"@,
        }
    }

    open spec fn parse_spec(s: Seq<char>) -> Option<Self> {
        if s == "Start"@ {
            Some(MidnightSettings::StartOfDay)
        } else if s == "End"@ {
            Some(MidnightSettings::EndOfDay)
        } else {
            None
        }
    }

    fn family_name() -> (r: String) {
        "Midnight".to_owned()
    }

    fn setting_name(&self) -> (r: String) {
        match self {
            MidnightSettings::StartOfDay => "Start".to_owned(),
            MidnightSettings::EndOfDay => "End".to_owned(),
        }
    }

    fn from_str(value: &str) -> (r: Result<Self, GrammarError>) {
        if str_eq(value, "Start") {
            Ok(MidnightSettings::StartOfDay)
        } else if str_eq(value, "End") {
            Ok(MidnightSettings::EndOfDay)
        } else {
            Err(unknown_settings_error())
        }
    }
}

/// Decoding the canonical encoding of any `Midnight` variant gives the
/// variant back.
pub proof fn lemma_midnight_round_trip(v: MidnightSettings)
    ensures
        MidnightSettings::parse_spec(v.name_spec()) == Some(v),
{
    reveal_strlit("Start");
    reveal_strlit("End");
    assert("Start"@.len() == 5);
    assert("End"@.len() == 3);
    match v {
        MidnightSettings::StartOfDay => {
            assert(MidnightSettings::parse_spec("Start"@) == Some(MidnightSettings::StartOfDay));
        },
        MidnightSettings::EndOfDay => {
            assert(MidnightSettings::parse_spec("End"@) == Some(MidnightSettings::EndOfDay));
        },
    }
}

/// One named settings family together with one of its settings.
#[derive(Debug, Clone, Copy, PartialEq, Eq, Structural)]
pub enum PropertyAndSettingsPair {
    Basic(BasicSettings),
    Date(DateSettings),
    Year(YearSettings),
    Time(TimeSettings),
    LocalOrUtc(LocalOrUtcSettings),
    IntervalType(IntervalTypeSettings),
    StartEndPoint(StartEndPointSettings),
    Recurrence(RecurrenceSettings),
    Midnight(MidnightSettings),
}

/// What resolving a family-name/value-string pair accepts: the name is
/// matched against each family's constant name in a fixed dispatch order, and
/// the value string is then decoded by the matched family. An unrecognized
/// family name, or a value string the matched family does not recognize,
/// resolves to nothing.
pub open spec fn pair_parse_spec(name: Seq<char>, value: Seq<char>) -> Option<
    PropertyAndSettingsPair,
> {
    if name == BasicSettings::family_name_spec() {
        match BasicSettings::parse_spec(value) {
            Some(v) => Some(PropertyAndSettingsPair::Basic(v)),
            None => None,
        }
    } else if name == DateSettings::family_name_spec() {
        match DateSettings::parse_spec(value) {
            Some(v) => Some(PropertyAndSettingsPair::Date(v)),
            None => None,
        }
    } else if name == YearSettings::family_name_spec() {
        match YearSettings::parse_spec(value) {
            Some(v) => Some(PropertyAndSettingsPair::Year(v)),
            None => None,
        }
    } else if name == TimeSettings::family_name_spec() {
        match TimeSettings::parse_spec(value) {
            Some(v) => Some(PropertyAndSettingsPair::Time(v)),
            None => None,
        }
    } else if name == LocalOrUtcSettings::family_name_spec() {
        match LocalOrUtcSettings::parse_spec(value) {
            Some(v) => Some(PropertyAndSettingsPair::LocalOrUtc(v)),
            None => None,
        }
    } else if name == IntervalTypeSettings::family_name_spec() {
        match IntervalTypeSettings::parse_spec(value) {
            Some(v) => Some(PropertyAndSettingsPair::IntervalType(v)),
            None => None,
        }
    } else if name == StartEndPointSettings::family_name_spec() {
        match StartEndPointSettings::parse_spec(value) {
            Some(v) => Some(PropertyAndSettingsPair::StartEndPoint(v)),
            None => None,
        }
    } else if name == RecurrenceSettings::family_name_spec() {
        match RecurrenceSettings::parse_spec(value) {
            Some(v) => Some(PropertyAndSettingsPair::Recurrence(v)),
            None => None,
        }
    } else if name == MidnightSettings::family_name_spec() {
        match MidnightSettings::parse_spec(value) {
            Some(v) => Some(PropertyAndSettingsPair::Midnight(v)),
            None => None,
        }
    } else {
        None
    }
}

impl PropertyAndSettingsPair {
    /// Resolve a family-name/value-string pair to a typed pair, failing for
    /// an unrecognized family name or an unmatched value string.
    pub fn try_from(value: (&str, &str)) -> (r: Result<PropertyAndSettingsPair, GrammarError>)
        ensures
            match r {
                Ok(p) => pair_parse_spec(value.0@, value.1@) == Some(p),
                Err(e) => pair_parse_spec(value.0@, value.1@) is None && e.kind
                    == GrammarErrorKind::UnknownSettingsValue,
            },
    {
        let (name, val) = value;
        if str_eq(name, "Basic") {
            match BasicSettings::from_str(val) {
                Ok(v) => Ok(PropertyAndSettingsPair::Basic(v)),
                Err(e) => Err(e),
            }
        } else if str_eq(name, "Date") {
            match DateSettings::from_str(val) {
                Ok(v) => Ok(PropertyAndSettingsPair::Date(v)),
                Err(e) => Err(e),
            }
        } else if str_eq(name, "Year") {
            match YearSettings::from_str(val) {
                Ok(v) => Ok(PropertyAndSettingsPair::Year(v)),
                Err(e) => Err(e),
            }
        } else if str_eq(name, "Time") {
            match TimeSettings::from_str(val) {
                Ok(v) => Ok(PropertyAndSettingsPair::Time(v)),
                Err(e) => Err(e),
            }
        } else if str_eq(name, "Local-or-UTC") {
            match LocalOrUtcSettings::from_str(val) {
                Ok(v) => Ok(PropertyAndSettingsPair::LocalOrUtc(v)),
                Err(e) => Err(e),
            }
        } else if str_eq(name, "Interval-type") {
            match IntervalTypeSettings::from_str(val) {
                Ok(v) => Ok(PropertyAndSettingsPair::IntervalType(v)),
                Err(e) => Err(e),
            }
        } else if str_eq(name, "SE-point") {
            match StartEndPointSettings::from_str(val) {
                Ok(v) => Ok(PropertyAndSettingsPair::StartEndPoint(v)),
                Err(e) => Err(e),
            }
        } else if str_eq(name, "Recurrence") {
            match RecurrenceSettings::from_str(val) {
                Ok(v) => Ok(PropertyAndSettingsPair::Recurrence(v)),
                Err(e) => Err(e),
            }
        } else if str_eq(name, "Midnight") {
            match MidnightSettings::from_str(val) {
                Ok(v) => Ok(PropertyAndSettingsPair::Midnight(v)),
                Err(e) => Err(e),
            }
        } else {
            Err(unknown_settings_error())
        }
    }

    /// The constant name of the pair's family.
    pub fn family_name(&self) -> (r: String)
        ensures
            r@ == self.family_name_view(),
    {
        match self {
            PropertyAndSettingsPair::Basic(_) => BasicSettings::family_name(),
            PropertyAndSettingsPair::Date(_) => DateSettings::family_name(),
            PropertyAndSettingsPair::Year(_) => YearSettings::family_name(),
            PropertyAndSettingsPair::Time(_) => TimeSettings::family_name(),
            PropertyAndSettingsPair::LocalOrUtc(_) => LocalOrUtcSettings::family_name(),
            PropertyAndSettingsPair::IntervalType(_) => IntervalTypeSettings::family_name(),
            PropertyAndSettingsPair::StartEndPoint(_) => StartEndPointSettings::family_name(),
            PropertyAndSettingsPair::Recurrence(_) => RecurrenceSettings::family_name(),
            PropertyAndSettingsPair::Midnight(_) => MidnightSettings::family_name(),
        }
    }

    /// The constant name of the pair's family.
    pub open spec fn family_name_view(&self) -> Seq<char> {
        match self {
            PropertyAndSettingsPair::Basic(_) => BasicSettings::family_name_spec(),
            PropertyAndSettingsPair::Date(_) => DateSettings::family_name_spec(),
            PropertyAndSettingsPair::Year(_) => YearSettings::family_name_spec(),
            PropertyAndSettingsPair::Time(_) => TimeSettings::family_name_spec(),
            PropertyAndSettingsPair::LocalOrUtc(_) => LocalOrUtcSettings::family_name_spec(),
            PropertyAndSettingsPair::IntervalType(_) => IntervalTypeSettings::family_name_spec(),
            PropertyAndSettingsPair::StartEndPoint(_) => StartEndPointSettings::family_name_spec(),
            PropertyAndSettingsPair::Recurrence(_) => RecurrenceSettings::family_name_spec(),
            PropertyAndSettingsPair::Midnight(_) => MidnightSettings::family_name_spec(),
        }
    }

    /// The canonical compact string of the pair's setting.
    pub fn setting_name(&self) -> (r: String)
        ensures
            r@ == self.setting_name_view(),
    {
        match self {
            PropertyAndSettingsPair::Basic(v) => v.setting_name(),
            PropertyAndSettingsPair::Date(v) => v.setting_name(),
            PropertyAndSettingsPair::Year(v) => v.setting_name(),
            PropertyAndSettingsPair::Time(v) => v.setting_name(),
            PropertyAndSettingsPair::LocalOrUtc(v) => v.setting_name(),
            PropertyAndSettingsPair::IntervalType(v) => v.setting_name(),
            PropertyAndSettingsPair::StartEndPoint(v) => v.setting_name(),
            PropertyAndSettingsPair::Recurrence(v) => v.setting_name(),
            PropertyAndSettingsPair::Midnight(v) => v.setting_name(),
        }
    }

    /// The canonical compact string of the pair's setting.
    pub open spec fn setting_name_view(&self) -> Seq<char> {
        match self {
            PropertyAndSettingsPair::Basic(v) => v.name_spec(),
            PropertyAndSettingsPair::Date(v) => v.name_spec(),
            PropertyAndSettingsPair::Year(v) => v.name_spec(),
            PropertyAndSettingsPair::Time(v) => v.name_spec(),
            PropertyAndSettingsPair::LocalOrUtc(v) => v.name_spec(),
            PropertyAndSettingsPair::IntervalType(v) => v.name_spec(),
            PropertyAndSettingsPair::StartEndPoint(v) => v.name_spec(),
            PropertyAndSettingsPair::Recurrence(v) => v.name_spec(),
            PropertyAndSettingsPair::Midnight(v) => v.name_spec(),
        }
    }
}

/// Resolving any pair's own family name together with the canonical encoding
/// of its setting gives the pair back: the round trip through the compact
/// textual form is exact for every family and every variant.
pub proof fn lemma_pair_round_trip(p: PropertyAndSettingsPair)
    ensures
        pair_parse_spec(p.family_name_view(), p.setting_name_view()) == Some(p),
{
    reveal_strlit("Basic");
    reveal_strlit("Date");
    reveal_strlit("Year");
    reveal_strlit("Time");
    reveal_strlit("Local-or-UTC");
    reveal_strlit("Interval-type");
    reveal_strlit("SE-point");
    reveal_strlit("Recurrence");
    reveal_strlit("Midnight");
    assert("Basic"@.len() == 5);
    assert("Date"@.len() == 4);
    assert("Year"@.len() == 4);
    assert("Time"@.len() == 4);
    assert("Local-or-UTC"@.len() == 12);
    assert("Interval-type"@.len() == 13);
    assert("SE-point"@.len() == 8);
    assert("Recurrence"@.len() == 10);
    assert("Midnight"@.len() == 8);
    match p {
        PropertyAndSettingsPair::Basic(v) => {
            lemma_basic_round_trip(v);
        },
        PropertyAndSettingsPair::Date(v) => {
            lemma_date_round_trip(v);
        },
        PropertyAndSettingsPair::Year(v) => {
            assert("Year"@[0] != "Date"@[0]);
            lemma_year_round_trip(v);
        },
        PropertyAndSettingsPair::Time(v) => {
            assert("Time"@[0] != "Date"@[0]);
            assert("Time"@[0] != "Year"@[0]);
            lemma_time_round_trip(v);
        },
        PropertyAndSettingsPair::LocalOrUtc(v) => {
            lemma_local_or_utc_round_trip(v);
        },
        PropertyAndSettingsPair::IntervalType(v) => {
            lemma_interval_type_round_trip(v);
        },
        PropertyAndSettingsPair::StartEndPoint(v) => {
            lemma_start_end_point_round_trip(v);
        },
        PropertyAndSettingsPair::Recurrence(v) => {
            lemma_recurrence_round_trip(v);
        },
        PropertyAndSettingsPair::Midnight(v) => {
            assert("Midnight"@[0] != "SE-point"@[0]);
            lemma_midnight_round_trip(v);
        },
    }
}

/// A property-settings constraint: the list of family/setting pairs attached
/// to a time-related type.
#[derive(Debug, Clone, PartialEq)]
pub struct PropertySettings {
    pub property_settings_list: Vec<PropertyAndSettingsPair>,
}

} // verus!

