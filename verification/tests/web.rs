//! HomePort URL resolution.

use waldur_cli::json::parse_json;
use waldur_cli::web::{homeport_url_from_config, override_url, set_override, HomeportOverride};

#[test]
fn override_short_circuits_and_is_trimmed() {
    let mut o = HomeportOverride::new();
    assert_eq!(override_url(&o), None);
    set_override(&mut o, Some("https://custom.example.com/".to_string()));
    assert_eq!(override_url(&o).as_deref(), Some("https://custom.example.com"));
    set_override(&mut o, Some("https://other.example.com".to_string()));
    assert_eq!(override_url(&o).as_deref(), Some("https://custom.example.com"));
}

#[test]
fn an_override_of_none_still_fetches() {
    let mut o = HomeportOverride::new();
    set_override(&mut o, None);
    set_override(&mut o, Some("https://late.example.com".to_string()));
    assert_eq!(override_url(&o), None);
}

#[test]
fn resolves_homeport_url_from_the_configuration_response() {
    let cfg = parse_json(r#"{"HOMEPORT_URL": "https://homeport.example.com/", "SITE_NAME": "Waldur"}"#).unwrap();
    assert_eq!(homeport_url_from_config(&cfg).unwrap(), "https://homeport.example.com");
}

#[test]
fn a_configuration_without_homeport_url_is_a_clear_error() {
    let cfg = parse_json(r#"{"SITE_NAME": "Waldur"}"#).unwrap();
    let err = homeport_url_from_config(&cfg).unwrap_err();
    assert!(err.message().contains("HOMEPORT_URL"));
    assert!(err.message().contains("--homeport-url"));
}
