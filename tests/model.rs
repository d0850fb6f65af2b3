use purchase_validate::fields::{check_field, is_set, FieldError};
use purchase_validate::model::{
    config_format, ConfigError, ConfigFormat, Field, ProjectInfo, PurchaseData, ResponseData,
};

#[test]
fn unset_markers_are_refused() {
    for v in ["", "~", "null"] {
        assert!(!is_set(v));
        assert_eq!(check_field(v.to_string()), Err(FieldError::Unset));
    }
}

#[test]
fn other_values_are_accepted() {
    for v in ["x", "nul", "Null", "~~", "null ", " "] {
        assert!(is_set(v));
        assert_eq!(check_field(v.to_string()), Ok(v.to_string()));
    }
}

#[test]
fn project_info_checks_fields_in_order() {
    let ok = ProjectInfo::new("https://example.com", "abc".into(), "proj".into()).unwrap();
    assert_eq!(ok.api_url, "https://example.com/");
    assert_eq!(ok.secret_key, "abc");
    assert_eq!(
        ProjectInfo::new("null", "abc".into(), "proj".into()),
        Err(ConfigError::UnsetField(Field::ApiUrl))
    );
    assert_eq!(
        ProjectInfo::new("not a url", "abc".into(), "proj".into()),
        Err(ConfigError::InvalidUrl)
    );
    assert_eq!(
        ProjectInfo::new("https://example.com", "~".into(), "".into()),
        Err(ConfigError::UnsetField(Field::SecretKey))
    );
    assert_eq!(
        ProjectInfo::new("https://example.com", "abc".into(), "".into()),
        Err(ConfigError::UnsetField(Field::Name))
    );
}

#[test]
fn purchase_data_refuses_first_unset_field() {
    let make = |a: &str, b: &str, c: &str, d: &str| {
        PurchaseData::new(a.into(), b.into(), c.into(), d.into(), None)
    };
    assert_eq!(make("", "", "", ""), Err(ConfigError::UnsetField(Field::Platform)));
    assert_eq!(make("p", "~", "", ""), Err(ConfigError::UnsetField(Field::ProductId)));
    assert_eq!(make("p", "i", "null", ""), Err(ConfigError::UnsetField(Field::OrderId)));
    assert_eq!(make("p", "i", "o", ""), Err(ConfigError::UnsetField(Field::Receipt)));
    let p = make("p", "i", "o", "r").unwrap();
    assert_eq!(p.receipt, "r");
    assert_eq!(p.client_identifier, None);
}

#[test]
fn response_data_refuses_unset_status() {
    assert_eq!(ResponseData::new("~".into()), Err(ConfigError::UnsetField(Field::Status)));
    assert_eq!(ResponseData::new("ok".into()).unwrap().status, "ok");
}

#[test]
fn config_format_by_extension() {
    assert_eq!(config_format(Some("yml")), Ok(ConfigFormat::Yaml));
    assert_eq!(config_format(Some("YAML")), Ok(ConfigFormat::Yaml));
    assert_eq!(config_format(Some("Json")), Ok(ConfigFormat::Json));
    assert_eq!(config_format(Some("toml")), Err(ConfigError::UnsupportedExtension));
    assert_eq!(config_format(None), Err(ConfigError::UnsupportedExtension));
}
