//! Credential/project resolution precedence and the credentials-file model.

use waldur_cli::config::{
    delete_stored, load_stored, login_credentials, login_user_label, needs_credentials_file,
    resolve_profile, save_stored, set_project, unset_project, Config, ConfigEnv, CredentialsFile,
    StoredCredentials, StoredLookup,
};
use waldur_cli::json::parse_json;

fn creds(api_url: &str, token: &str, project: Option<&str>) -> StoredCredentials {
    StoredCredentials {
        api_url: api_url.to_string(),
        token: token.to_string(),
        project: project.map(|p| p.to_string()),
    }
}

fn no_env() -> ConfigEnv {
    ConfigEnv { api_url: None, token: None, project: None }
}

/// Resolves as the command does: the file is read only when needed.
fn resolve(
    file: &CredentialsFile,
    env: &ConfigEnv,
    api_url: Option<&str>,
    token: Option<&str>,
    project: Option<&str>,
    profile: &str,
) -> Result<Config, waldur_cli::config::ConfigError> {
    let api_url = api_url.map(|s| s.to_string());
    let token = token.map(|s| s.to_string());
    let project = project.map(|s| s.to_string());
    let lookup = if needs_credentials_file(&api_url, &token, &project, env) {
        StoredLookup::Read(load_stored(file, profile))
    } else {
        StoredLookup::NotRead
    };
    Config::resolve(api_url, token, project, profile, env, &lookup)
}

#[test]
fn flag_wins_over_env_and_stored() {
    let mut file = CredentialsFile::new();
    save_stored(&mut file, "default", &creds("https://stored.example.com", "stored-token", None));
    let env = ConfigEnv { api_url: Some("https://env.example.com".to_string()), token: None, project: None };
    let cfg = resolve(&file, &env, Some("https://flag.example.com"), Some("flag-token"), None, "default").unwrap();
    assert_eq!(cfg.api_url, "https://flag.example.com");
    assert_eq!(cfg.token.as_deref(), Some("flag-token"));
}

#[test]
fn env_wins_over_stored_when_no_flag() {
    let mut file = CredentialsFile::new();
    save_stored(&mut file, "default", &creds("https://stored.example.com", "stored-token", None));
    let env = ConfigEnv {
        api_url: Some("https://env.example.com".to_string()),
        token: Some("env-token".to_string()),
        project: None,
    };
    let cfg = resolve(&file, &env, None, None, None, "default").unwrap();
    assert_eq!(cfg.api_url, "https://env.example.com");
    assert_eq!(cfg.token.as_deref(), Some("env-token"));
}

#[test]
fn falls_back_to_stored_profile_when_nothing_else_given() {
    let mut file = CredentialsFile::new();
    save_stored(&mut file, "default", &creds("https://stored.example.com", "stored-token", None));
    let cfg = resolve(&file, &no_env(), None, None, None, "default").unwrap();
    assert_eq!(cfg.api_url, "https://stored.example.com");
    assert_eq!(cfg.token.as_deref(), Some("stored-token"));
}

#[test]
fn missing_api_url_everywhere_is_a_clear_error() {
    let file = CredentialsFile::new();
    let err = resolve(&file, &no_env(), None, None, None, "default").unwrap_err();
    assert!(err.message().contains("No API URL"));
    assert!(err.message().contains("waldur-cli login"));
}

#[test]
fn non_default_profile_error_hint_mentions_the_profile() {
    let file = CredentialsFile::new();
    let err = resolve(&file, &no_env(), None, None, None, "staging").unwrap_err();
    assert!(err.message().contains("--profile staging"));
}

#[test]
fn api_url_has_trailing_slash_stripped() {
    let file = CredentialsFile::new();
    let cfg = resolve(&file, &no_env(), Some("https://waldur.example.com/"), Some("t"), None, "default").unwrap();
    assert_eq!(cfg.api_url, "https://waldur.example.com");
}

#[test]
fn project_precedence_flag_then_env_then_stored_default() {
    let mut file = CredentialsFile::new();
    save_stored(&mut file, "default", &creds("https://x.example.com", "t", Some("stored-project")));

    let cfg = resolve(&file, &no_env(), None, None, None, "default").unwrap();
    assert_eq!(cfg.project.as_deref(), Some("stored-project"));

    let env = ConfigEnv { api_url: None, token: None, project: Some("env-project".to_string()) };
    let cfg = resolve(&file, &env, None, None, None, "default").unwrap();
    assert_eq!(cfg.project.as_deref(), Some("env-project"));

    let cfg = resolve(&file, &env, None, None, Some("flag-project"), "default").unwrap();
    assert_eq!(cfg.project.as_deref(), Some("flag-project"));
}

#[test]
fn fully_explicit_call_never_touches_a_corrupt_stored_file() {
    let lookup = StoredLookup::Unreadable("failed to parse credentials.toml -- run `waldur-cli login` again".to_string());
    let cfg = Config::resolve(
        Some("https://flag.example.com".to_string()),
        Some("flag-token".to_string()),
        None,
        "default",
        &no_env(),
        &lookup,
    )
    .unwrap();
    assert_eq!(cfg.api_url, "https://flag.example.com");
}

#[test]
fn set_and_unset_project_round_trip() {
    let mut file = CredentialsFile::new();
    save_stored(&mut file, "default", &creds("https://x.example.com", "t", None));

    set_project(&mut file, "default", "proj-1").unwrap();
    assert_eq!(load_stored(&file, "default").unwrap().project.as_deref(), Some("proj-1"));

    let had = unset_project(&mut file, "default");
    assert!(had);
    assert_eq!(load_stored(&file, "default").unwrap().project, None);

    let had_again = unset_project(&mut file, "default");
    assert!(!had_again);
}

#[test]
fn set_project_without_prior_login_fails_clearly() {
    let mut file = CredentialsFile::new();
    let err = set_project(&mut file, "default", "proj-1").unwrap_err();
    assert!(err.message().contains("no saved credentials"));
}

#[test]
fn delete_stored_removes_file_when_last_profile_gone() {
    let mut file = CredentialsFile::new();
    save_stored(&mut file, "default", &creds("https://x.example.com", "t", None));

    let existed = delete_stored(&mut file, "default");
    assert!(existed);
    assert!(load_stored(&file, "default").is_none());
    assert!(file.is_empty());

    let existed_again = delete_stored(&mut file, "default");
    assert!(!existed_again);
}

#[test]
fn multiple_profiles_are_independent() {
    let mut file = CredentialsFile::new();
    save_stored(&mut file, "prod", &creds("https://prod.example.com", "prod-token", None));
    save_stored(&mut file, "staging", &creds("https://staging.example.com", "staging-token", None));

    let prod = resolve(&file, &no_env(), None, None, None, "prod").unwrap();
    let staging = resolve(&file, &no_env(), None, None, None, "staging").unwrap();
    assert_eq!(prod.api_url, "https://prod.example.com");
    assert_eq!(staging.api_url, "https://staging.example.com");

    delete_stored(&mut file, "prod");
    assert!(load_stored(&file, "prod").is_none());
    assert!(load_stored(&file, "staging").is_some());
}

#[test]
fn a_needed_unreadable_file_is_an_error() {
    let lookup = StoredLookup::Unreadable("failed to parse it".to_string());
    let err = Config::resolve(None, None, None, "default", &no_env(), &lookup).unwrap_err();
    assert_eq!(err.message(), "failed to parse it");
}

#[test]
fn an_unreadable_file_only_loses_the_default_project() {
    let lookup = StoredLookup::Unreadable("broken".to_string());
    let cfg = Config::resolve(
        Some("https://a.example.com".to_string()),
        Some("t".to_string()),
        None,
        "default",
        &no_env(),
        &lookup,
    )
    .unwrap();
    assert_eq!(cfg.project, None);
}

#[test]
fn saving_again_replaces_a_profile() {
    let mut file = CredentialsFile::new();
    save_stored(&mut file, "default", &creds("https://a.example.com", "t1", None));
    save_stored(&mut file, "default", &creds("https://b.example.com", "t2", None));
    let c = load_stored(&file, "default").unwrap();
    assert_eq!(c.api_url, "https://b.example.com");
    assert_eq!(c.token, "t2");
    assert_eq!(file.entries().len(), 1);
}

#[test]
fn no_api_url_message_for_the_default_profile() {
    let file = CredentialsFile::new();
    let err = resolve(&file, &no_env(), None, None, None, "default").unwrap_err();
    assert_eq!(
        err.message(),
        "No API URL given for profile 'default'. Pass --api-url, set WALDUR_API_URL, or run `waldur-cli login`, e.g. https://waldur.example.com"
    );
}

#[test]
fn file_is_read_only_when_something_is_missing() {
    let url = Some("u".to_string());
    let tok = Some("t".to_string());
    let proj = Some("p".to_string());
    assert!(!needs_credentials_file(&url, &tok, &proj, &no_env()));
    assert!(needs_credentials_file(&url, &tok, &None, &no_env()));
    assert!(needs_credentials_file(&None, &tok, &proj, &no_env()));
}

#[test]
fn profile_falls_back_to_default() {
    assert_eq!(resolve_profile(None, None), "default");
    assert_eq!(resolve_profile(None, Some("env".to_string())), "env");
    assert_eq!(resolve_profile(Some("flag".to_string()), Some("env".to_string())), "flag");
}

#[test]
fn relogin_keeps_the_default_project() {
    let old = creds("https://old.example.com", "old", Some("p1"));
    let c = login_credentials("https://new.example.com//", "new".to_string(), Some(&old));
    assert_eq!(c.api_url, "https://new.example.com");
    assert_eq!(c.token, "new");
    assert_eq!(c.project.as_deref(), Some("p1"));
    let fresh = login_credentials("https://n.example.com", "x".to_string(), None);
    assert_eq!(fresh.project, None);
}

#[test]
fn login_reports_the_user_name() {
    let me = parse_json(r#"{"username": "alice"}"#).unwrap();
    assert_eq!(login_user_label(&me), "alice");
    let anon = parse_json(r#"{"uuid": "x"}"#).unwrap();
    assert_eq!(login_user_label(&anon), "(unknown user)");
}

#[test]
fn from_entries_keeps_every_profile() {
    let entries = vec![
        ("a".to_string(), creds("https://a", "ta", None)),
        ("b".to_string(), creds("https://b", "tb", Some("pb"))),
    ];
    let file = CredentialsFile::from_entries(&entries);
    assert_eq!(load_stored(&file, "a").unwrap().token, "ta");
    assert_eq!(load_stored(&file, "b").unwrap().project.as_deref(), Some("pb"));
}
