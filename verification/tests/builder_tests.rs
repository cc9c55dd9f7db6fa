use layercfg::builder::ConfigBuilder;
use layercfg::error::{BuildError, SourceError};
use layercfg::partial::PartialValue;
use layercfg::schema::{FieldSpec, Schema};
use layercfg::source::ConfigSource;
use layercfg::value::{LeafKind, LeafValue};

fn path(segments: &[&str]) -> Vec<String> {
    segments.iter().map(|s| s.to_string()).collect()
}

fn field(
    segments: &[&str],
    kind: LeafKind,
    required: bool,
    secret: bool,
    default: Option<LeafValue>,
) -> FieldSpec {
    FieldSpec { path: path(segments), kind, required, secret, default }
}

/// `{ port: required u16, host: optional string default "localhost" }`
fn server_schema() -> Schema {
    Schema {
        fields: vec![
            field(&["port"], LeafKind::UInt, true, false, None),
            field(
                &["host"],
                LeafKind::Str,
                false,
                false,
                Some(LeafValue::Str("localhost".to_string())),
            ),
        ],
    }
}

fn literal(partial: PartialValue, allow_secrets: bool) -> ConfigSource {
    ConfigSource::Literal { partial, allow_secrets }
}

#[test]
fn merge_identity_left_and_right() {
    let mut p = PartialValue::empty(2);
    p.set_slot(0, LeafValue::UInt(7));
    let merged_left = PartialValue::empty(2).merge(p.clone());
    assert_eq!(merged_left, p);
    let merged_right = p.clone().merge(PartialValue::empty(2));
    assert_eq!(merged_right, p);
}

#[test]
fn override_precedence_later_source_wins() {
    let mut a = PartialValue::empty(2);
    a.set_slot(0, LeafValue::UInt(1111));
    let mut b = PartialValue::empty(2);
    b.set_slot(0, LeafValue::UInt(2222));
    let result = ConfigBuilder::new(server_schema())
        .override_with(literal(a, false))
        .override_with(literal(b, false))
        .try_build()
        .unwrap();
    assert_eq!(result.value(0), &Some(LeafValue::UInt(2222)));
}

#[test]
fn partial_survival_in_nested_object() {
    // A sets both fields of the nested object `db`; B, attached later, sets
    // only `db.port`: A's `db.host` must survive beside B's `db.port`.
    let schema = Schema {
        fields: vec![
            field(&["db", "host"], LeafKind::Str, true, false, None),
            field(&["db", "port"], LeafKind::UInt, true, false, None),
        ],
    };
    let mut a = PartialValue::empty(2);
    a.set_slot(0, LeafValue::Str("db.internal".to_string()));
    a.set_slot(1, LeafValue::UInt(5432));
    let mut b = PartialValue::empty(2);
    b.set_slot(1, LeafValue::UInt(6543));
    let result = ConfigBuilder::new(schema)
        .override_with(literal(a, false))
        .override_with(literal(b, false))
        .try_build()
        .unwrap();
    assert_eq!(result.value(0), &Some(LeafValue::Str("db.internal".to_string())));
    assert_eq!(result.value(1), &Some(LeafValue::UInt(6543)));
}

fn secret_schema() -> Schema {
    Schema {
        fields: vec![
            field(&["user"], LeafKind::Str, true, false, None),
            field(&["password"], LeafKind::Str, true, true, None),
        ],
    }
}

#[test]
fn secret_refused_without_capability() {
    let mut p = PartialValue::empty(2);
    p.set_slot(0, LeafValue::Str("admin".to_string()));
    p.set_slot(1, LeafValue::Str("hunter2".to_string()));
    let err = ConfigBuilder::new(secret_schema())
        .override_with(literal(p, false))
        .try_build()
        .unwrap_err();
    assert_eq!(
        err,
        BuildError::SecretNotAllowed { field: path(&["password"]), source_index: 0 }
    );
}

#[test]
fn secret_refused_whatever_the_merge_order() {
    let mut open_part = PartialValue::empty(2);
    open_part.set_slot(0, LeafValue::Str("admin".to_string()));
    let mut secret_part = PartialValue::empty(2);
    secret_part.set_slot(1, LeafValue::Str("hunter2".to_string()));
    let err = ConfigBuilder::new(secret_schema())
        .override_with(literal(open_part, true))
        .override_with(literal(secret_part, false))
        .try_build()
        .unwrap_err();
    assert_eq!(
        err,
        BuildError::SecretNotAllowed { field: path(&["password"]), source_index: 1 }
    );
}

#[test]
fn secret_accepted_with_capability() {
    let mut p = PartialValue::empty(2);
    p.set_slot(0, LeafValue::Str("admin".to_string()));
    p.set_slot(1, LeafValue::Str("hunter2".to_string()));
    let result = ConfigBuilder::new(secret_schema())
        .override_with(literal(p, true))
        .try_build()
        .unwrap();
    assert_eq!(result.value(1), &Some(LeafValue::Str("hunter2".to_string())));
}

#[test]
fn missing_fields_all_reported() {
    // `a.b` and `c` are required and never set: both paths must be listed.
    let schema = Schema {
        fields: vec![
            field(&["a", "b"], LeafKind::UInt, true, false, None),
            field(&["set"], LeafKind::UInt, true, false, None),
            field(&["c"], LeafKind::Str, true, false, None),
        ],
    };
    let mut p = PartialValue::empty(3);
    p.set_slot(1, LeafValue::UInt(5));
    let err = ConfigBuilder::new(schema)
        .override_with(literal(p, false))
        .try_build()
        .unwrap_err();
    assert_eq!(err, BuildError::MissingFields(vec![path(&["a", "b"]), path(&["c"])]));
}

#[test]
fn end_to_end_port_and_host() {
    // Source1 provides { host: "example.com" }, Source2 { port: 1234 }.
    let mut host_part = PartialValue::empty(2);
    host_part.set_slot(1, LeafValue::Str("example.com".to_string()));
    let mut port_part = PartialValue::empty(2);
    port_part.set_slot(0, LeafValue::UInt(1234));
    let result = ConfigBuilder::new(server_schema())
        .override_with(literal(host_part, false))
        .override_with(literal(port_part, false))
        .try_build()
        .unwrap();
    assert_eq!(result.value(0), &Some(LeafValue::UInt(1234)));
    assert_eq!(result.value(1), &Some(LeafValue::Str("example.com".to_string())));
}

#[test]
fn end_to_end_missing_port() {
    let mut host_part = PartialValue::empty(2);
    host_part.set_slot(1, LeafValue::Str("example.com".to_string()));
    let err = ConfigBuilder::new(server_schema())
        .override_with(literal(host_part, false))
        .try_build()
        .unwrap_err();
    assert_eq!(err, BuildError::MissingFields(vec![path(&["port"])]));
}

#[test]
fn default_fills_unset_optional_field() {
    let mut port_part = PartialValue::empty(2);
    port_part.set_slot(0, LeafValue::UInt(8080));
    let result = ConfigBuilder::new(server_schema())
        .override_with(literal(port_part, false))
        .try_build()
        .unwrap();
    assert_eq!(result.value(1), &Some(LeafValue::Str("localhost".to_string())));
}

#[test]
fn no_sources_reports_required_fields() {
    let err = ConfigBuilder::new(server_schema()).try_build().unwrap_err();
    assert_eq!(err, BuildError::MissingFields(vec![path(&["port"])]));
}

#[test]
fn source_error_is_surfaced_with_its_index() {
    let failing = ConfigSource::External {
        outcome: Err(SourceError::Malformed { message: "bad unicode in FOO".to_string() }),
        allow_secrets: false,
    };
    let mut p = PartialValue::empty(2);
    p.set_slot(0, LeafValue::UInt(1));
    let err = ConfigBuilder::new(server_schema())
        .override_with(literal(p, false))
        .override_with(failing)
        .try_build()
        .unwrap_err();
    assert_eq!(
        err,
        BuildError::Source {
            index: 1,
            error: SourceError::Malformed { message: "bad unicode in FOO".to_string() },
        }
    );
}

#[test]
fn wrong_width_contribution_is_a_source_error() {
    let p = PartialValue::empty(3);
    let err = ConfigBuilder::new(server_schema())
        .override_with(literal(p, false))
        .try_build()
        .unwrap_err();
    assert_eq!(
        err,
        BuildError::Source { index: 0, error: SourceError::WrongShape { expected: 2, got: 3 } }
    );
}

#[test]
fn wrong_kind_contribution_names_the_field() {
    let mut p = PartialValue::empty(2);
    p.set_slot(0, LeafValue::Str("not a number".to_string()));
    let err = ConfigBuilder::new(server_schema())
        .override_with(literal(p, false))
        .try_build()
        .unwrap_err();
    assert_eq!(
        err,
        BuildError::Source {
            index: 0,
            error: SourceError::TypeMismatch { field: path(&["port"]) },
        }
    );
}

#[test]
fn external_source_contribution_is_merged() {
    let mut p = PartialValue::empty(2);
    p.set_slot(0, LeafValue::UInt(9999));
    let source = ConfigSource::External { outcome: Ok(p), allow_secrets: false };
    let result = ConfigBuilder::new(server_schema())
        .override_with(source)
        .try_build()
        .unwrap();
    assert_eq!(result.value(0), &Some(LeafValue::UInt(9999)));
}

#[test]
fn empty_schema_builds_empty_value() {
    let schema = Schema { fields: vec![] };
    let result = ConfigBuilder::new(schema).try_build().unwrap();
    assert_eq!(result.values.len(), 0);
}
