use asn1_constraints::{
    BasicSettings, DateSettings, GrammarErrorKind, IntervalTypeSettings, LocalOrUtcSettings,
    MidnightSettings, PropertyAndSettingsPair, PropertySetting, RecurrenceSettings,
    StartEndPointSettings, TimeSettings, YearSettings,
};

fn round_trips<T: PropertySetting + PartialEq + std::fmt::Debug>(variants: Vec<T>) {
    for v in variants {
        let encoded = v.setting_name();
        let decoded = T::from_str(encoded.as_str()).unwrap();
        assert_eq!(decoded, v);
    }
}

#[test]
fn basic_settings_round_trip() {
    round_trips(vec![
        BasicSettings::Date,
        BasicSettings::Time,
        BasicSettings::DateTime,
        BasicSettings::Interval,
        BasicSettings::RecInterval,
    ]);
}

#[test]
fn date_settings_round_trip() {
    round_trips(vec![
        DateSettings::Century,
        DateSettings::Year,
        DateSettings::YearMonth,
        DateSettings::YearMonthDay,
        DateSettings::YearDay,
        DateSettings::YearWeek,
        DateSettings::YearWeekDay,
    ]);
}

#[test]
fn year_settings_round_trip() {
    round_trips(vec![
        YearSettings::Basic,
        YearSettings::Proleptic,
        YearSettings::Negative,
        YearSettings::Large(0),
        YearSettings::Large(5),
        YearSettings::Large(usize::MAX),
    ]);
}

#[test]
fn time_settings_round_trip() {
    round_trips(vec![
        TimeSettings::Hour,
        TimeSettings::HourMinute,
        TimeSettings::HourMinuteSecond,
        TimeSettings::HourDecimalFraction(1),
        TimeSettings::HourMinuteFraction(3),
        TimeSettings::HourMinuteSecondFraction(12),
    ]);
}

#[test]
fn local_or_utc_settings_round_trip() {
    round_trips(vec![
        LocalOrUtcSettings::Local,
        LocalOrUtcSettings::Utc,
        LocalOrUtcSettings::LocalAndDifference,
    ]);
}

#[test]
fn interval_type_settings_round_trip() {
    round_trips(vec![
        IntervalTypeSettings::StartAndEnd,
        IntervalTypeSettings::Duration,
        IntervalTypeSettings::StartAndDuration,
        IntervalTypeSettings::DurationAndEnd,
    ]);
}

#[test]
fn start_end_point_settings_round_trip() {
    round_trips(vec![
        StartEndPointSettings::Date,
        StartEndPointSettings::Time,
        StartEndPointSettings::DateTime,
    ]);
}

#[test]
fn recurrence_settings_round_trip() {
    round_trips(vec![
        RecurrenceSettings::Unlimited,
        RecurrenceSettings::Recurrences(0),
        RecurrenceSettings::Recurrences(99),
    ]);
}

#[test]
fn midnight_settings_round_trip() {
    round_trips(vec![MidnightSettings::StartOfDay, MidnightSettings::EndOfDay]);
}

#[test]
fn canonical_encodings_are_exact() {
    assert_eq!(BasicSettings::DateTime.setting_name(), "Date-Time");
    assert_eq!(BasicSettings::RecInterval.setting_name(), "Rec-Interval");
    assert_eq!(DateSettings::YearWeekDay.setting_name(), "YWD");
    assert_eq!(YearSettings::Large(5).setting_name(), "L5");
    assert_eq!(YearSettings::Large(98765).setting_name(), "L98765");
    assert_eq!(TimeSettings::HourMinuteFraction(3).setting_name(), "HMF3");
    assert_eq!(TimeSettings::HourDecimalFraction(0).setting_name(), "HF0");
    assert_eq!(TimeSettings::HourMinuteSecondFraction(10).setting_name(), "HMSF10");
    assert_eq!(LocalOrUtcSettings::Utc.setting_name(), "Z");
    assert_eq!(IntervalTypeSettings::DurationAndEnd.setting_name(), "DE");
    assert_eq!(RecurrenceSettings::Recurrences(7).setting_name(), "R7");
    assert_eq!(MidnightSettings::StartOfDay.setting_name(), "Start");
}

#[test]
fn family_names_are_exact() {
    assert_eq!(BasicSettings::family_name(), "Basic");
    assert_eq!(DateSettings::family_name(), "Date");
    assert_eq!(YearSettings::family_name(), "Year");
    assert_eq!(TimeSettings::family_name(), "Time");
    assert_eq!(LocalOrUtcSettings::family_name(), "Local-or-UTC");
    assert_eq!(IntervalTypeSettings::family_name(), "Interval-type");
    assert_eq!(StartEndPointSettings::family_name(), "SE-point");
    assert_eq!(RecurrenceSettings::family_name(), "Recurrence");
    assert_eq!(MidnightSettings::family_name(), "Midnight");
}

#[test]
fn numeric_suffixes_accept_a_leading_plus_sign() {
    assert_eq!(YearSettings::from_str("L+5").unwrap(), YearSettings::Large(5));
    assert_eq!(RecurrenceSettings::from_str("R+0").unwrap(), RecurrenceSettings::Recurrences(0));
}

#[test]
fn numeric_suffixes_reject_malformed_digits() {
    assert!(YearSettings::from_str("L").is_err());
    assert!(YearSettings::from_str("L5x").is_err());
    assert!(YearSettings::from_str("L99999999999999999999999999999").is_err());
    assert!(TimeSettings::from_str("HF").is_err());
    assert!(TimeSettings::from_str("HMFx").is_err());
    assert!(RecurrenceSettings::from_str("R-1").is_err());
}

#[test]
fn unmatched_value_strings_are_decode_errors() {
    let err = BasicSettings::from_str("Q").unwrap_err();
    assert_eq!(err.kind, GrammarErrorKind::UnknownSettingsValue);
    assert!(DateSettings::from_str("YMW").is_err());
    assert!(LocalOrUtcSettings::from_str("UTC").is_err());
    assert!(MidnightSettings::from_str("Noon").is_err());
    assert!(BasicSettings::from_str("date").is_err());
}

#[test]
fn pair_resolution_dispatches_on_family_name() {
    assert_eq!(
        PropertyAndSettingsPair::try_from(("Basic", "Date")).unwrap(),
        PropertyAndSettingsPair::Basic(BasicSettings::Date)
    );
    assert_eq!(
        PropertyAndSettingsPair::try_from(("Date", "YMD")).unwrap(),
        PropertyAndSettingsPair::Date(DateSettings::YearMonthDay)
    );
    assert_eq!(
        PropertyAndSettingsPair::try_from(("Year", "L5")).unwrap(),
        PropertyAndSettingsPair::Year(YearSettings::Large(5))
    );
    assert_eq!(
        PropertyAndSettingsPair::try_from(("Time", "HMF3")).unwrap(),
        PropertyAndSettingsPair::Time(TimeSettings::HourMinuteFraction(3))
    );
    assert_eq!(
        PropertyAndSettingsPair::try_from(("Local-or-UTC", "Z")).unwrap(),
        PropertyAndSettingsPair::LocalOrUtc(LocalOrUtcSettings::Utc)
    );
    assert_eq!(
        PropertyAndSettingsPair::try_from(("Interval-type", "SD")).unwrap(),
        PropertyAndSettingsPair::IntervalType(IntervalTypeSettings::StartAndDuration)
    );
    assert_eq!(
        PropertyAndSettingsPair::try_from(("SE-point", "Date-Time")).unwrap(),
        PropertyAndSettingsPair::StartEndPoint(StartEndPointSettings::DateTime)
    );
    assert_eq!(
        PropertyAndSettingsPair::try_from(("Recurrence", "Unlimited")).unwrap(),
        PropertyAndSettingsPair::Recurrence(RecurrenceSettings::Unlimited)
    );
    assert_eq!(
        PropertyAndSettingsPair::try_from(("Midnight", "End")).unwrap(),
        PropertyAndSettingsPair::Midnight(MidnightSettings::EndOfDay)
    );
}

#[test]
fn pair_resolution_round_trips_every_family() {
    let pairs = vec![
        PropertyAndSettingsPair::Basic(BasicSettings::RecInterval),
        PropertyAndSettingsPair::Date(DateSettings::YearWeek),
        PropertyAndSettingsPair::Year(YearSettings::Large(2024)),
        PropertyAndSettingsPair::Time(TimeSettings::HourMinuteSecondFraction(6)),
        PropertyAndSettingsPair::LocalOrUtc(LocalOrUtcSettings::LocalAndDifference),
        PropertyAndSettingsPair::IntervalType(IntervalTypeSettings::Duration),
        PropertyAndSettingsPair::StartEndPoint(StartEndPointSettings::Time),
        PropertyAndSettingsPair::Recurrence(RecurrenceSettings::Recurrences(3)),
        PropertyAndSettingsPair::Midnight(MidnightSettings::StartOfDay),
    ];
    for p in pairs {
        let family = p.family_name();
        let value = p.setting_name();
        let resolved =
            PropertyAndSettingsPair::try_from((family.as_str(), value.as_str())).unwrap();
        assert_eq!(resolved, p);
    }
}

#[test]
fn unrecognized_family_name_is_a_decode_error() {
    let err = PropertyAndSettingsPair::try_from(("Bogus", "Date")).unwrap_err();
    assert_eq!(err.kind, GrammarErrorKind::UnknownSettingsValue);
    let err = PropertyAndSettingsPair::try_from(("Basic", "Q")).unwrap_err();
    assert_eq!(err.kind, GrammarErrorKind::UnknownSettingsValue);
    assert!(PropertyAndSettingsPair::try_from(("basic", "Date")).is_err());
    assert!(PropertyAndSettingsPair::try_from(("", "")).is_err());
}
