use layercfg::env_source::EnvSource;
use layercfg::value::{DecimalValue, LeafKind, LeafValue};

#[test]
fn decimal_parse_reads_mantissa_and_scale() {
    let d = DecimalValue::parse("1.23").unwrap();
    assert_eq!(d, DecimalValue { mantissa: 123, scale: 2 });
}

#[test]
fn decimal_parse_negative() {
    let d = DecimalValue::parse("-0.5").unwrap();
    assert_eq!(d, DecimalValue { mantissa: -5, scale: 1 });
}

#[test]
fn decimal_parse_integer_has_scale_zero() {
    let d = DecimalValue::parse("42").unwrap();
    assert_eq!(d, DecimalValue { mantissa: 42, scale: 0 });
}

#[test]
fn decimal_parse_rejects_garbage() {
    assert_eq!(DecimalValue::parse("not a number"), None);
    assert_eq!(DecimalValue::parse(""), None);
}

#[test]
fn decimal_leaf_merges_as_one_unit() {
    let d = DecimalValue::parse("10.50").unwrap();
    let v = LeafValue::Decimal(d);
    assert_eq!(v.clone(), v);
}

#[test]
fn kind_matches_discriminates() {
    assert!(layercfg::value::kind_matches(&LeafValue::UInt(1), LeafKind::UInt));
    assert!(!layercfg::value::kind_matches(&LeafValue::UInt(1), LeafKind::Str));
    assert!(layercfg::value::kind_matches(
        &LeafValue::Decimal(DecimalValue { mantissa: 1, scale: 0 }),
        LeafKind::Decimal
    ));
    assert!(!layercfg::value::kind_matches(&LeafValue::Bool(true), LeafKind::Decimal));
}

#[test]
fn env_source_refuses_secrets_by_default() {
    assert!(!EnvSource::new().allows_secrets());
    assert!(!EnvSource::default().allows_secrets());
}

#[test]
fn env_source_allow_secrets_enables_them() {
    assert!(EnvSource::new().allow_secrets().allows_secrets());
}

#[test]
fn env_source_builder_calls_keep_the_capability() {
    let source = EnvSource::new().with_prefix("APP").with_separator("__");
    assert!(!source.allows_secrets());
    let source = EnvSource::new().allow_secrets().with_prefix("APP");
    assert!(source.allows_secrets());
}

#[test]
fn env_source_with_config_takes_an_envious_config() {
    let mut config = envious::Config::new();
    config.with_prefix("APP");
    let source = EnvSource::new().with_config(config);
    assert!(!source.allows_secrets());
    let (_config, allow) = source.into_config();
    assert!(!allow);
}
