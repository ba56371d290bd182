use leptos_config::environment::Env;
use leptos_config::errors::LeptosConfigError;
use leptos_config::extract::extract_section;
use leptos_config::options::SiteAddr;
use leptos_config::resolve_config;

fn no_env() -> Vec<(String, String)> {
    Vec::new()
}

fn env_of(pairs: &[(&str, &str)]) -> Vec<(String, String)> {
    pairs
        .iter()
        .map(|(k, v)| (k.to_string(), v.to_string()))
        .collect()
}

#[test]
fn rewrite_preserves_line_numbers() {
    // The section header stands on line 10: nine newlines precede it.
    let doc = "\n".repeat(9) + "[package.metadata.leptos]\noutput_name = \"app\"";
    let rewritten = extract_section(&doc).unwrap();
    let expected = "\n".repeat(9) + "[leptos_options]\noutput_name = \"app\"";
    assert_eq!(rewritten, expected);
}

#[test]
fn rewrite_normalizes_hyphens() {
    let doc = "[package]\nname = \"x\"\n[package.metadata.leptos]\noutput-name = \"my-app\"";
    let rewritten = extract_section(&doc).unwrap();
    assert_eq!(
        rewritten,
        "\n\n[leptos_options]\noutput_name = \"my_app\""
    );
}

#[test]
fn header_must_start_a_line() {
    let doc = "x [package.metadata.leptos]\noutput_name = \"app\"";
    assert_eq!(
        extract_section(doc),
        Err(LeptosConfigError::ConfigSectionNotFound)
    );
}

#[test]
fn missing_section_is_its_own_error() {
    let doc = "[package]\nname = \"x\"\n";
    let err = resolve_config(doc, &no_env()).unwrap_err();
    assert_eq!(err, LeptosConfigError::ConfigSectionNotFound);
    assert_ne!(err, LeptosConfigError::ConfigNotFound);
}

#[test]
fn defaults_applied_exactly_once() {
    let doc = "[package.metadata.leptos]\noutput_name = \"app\"\n";
    let conf = resolve_config(doc, &no_env()).unwrap();
    let o = conf.leptos_options;
    assert_eq!(o.output_name, "app");
    assert_eq!(o.site_root, "/pkg");
    assert_eq!(o.site_pkg_dir, "pkg");
    assert_eq!(o.env, Env::DEV);
    assert_eq!(
        o.site_address,
        SiteAddr { o1: 127, o2: 0, o3: 0, o4: 1, port: 3000 }
    );
    assert_eq!(o.reload_port, 3001);
}

#[test]
fn explicit_empty_value_is_not_defaulted() {
    let doc = "[package.metadata.leptos]\noutput_name = \"app\"\nsite_root = \"\"\n";
    let conf = resolve_config(doc, &no_env()).unwrap();
    assert_eq!(conf.leptos_options.site_root, "");
}

#[test]
fn missing_output_name_fails() {
    let doc = "[package.metadata.leptos]\nsite_root = \"/pkg\"\n";
    let err = resolve_config(doc, &no_env()).unwrap_err();
    assert_eq!(
        err,
        LeptosConfigError::ConfigError("missing field `output_name`".to_string())
    );
}

#[test]
fn environment_layer_wins_on_collision() {
    let doc = "[package.metadata.leptos]\noutput_name = \"app\"\nreload_port = 3001\n";
    let vars = env_of(&[("LEPTOS_RELOAD_PORT", "9999")]);
    let conf = resolve_config(doc, &vars).unwrap();
    assert_eq!(conf.leptos_options.reload_port, 9999);
}

#[test]
fn unrelated_variables_are_ignored() {
    let doc = "[package.metadata.leptos]\noutput_name = \"app\"\n";
    let vars = env_of(&[("OTHER_RELOAD_PORT", "9999"), ("LEPTOS", "x")]);
    let conf = resolve_config(doc, &vars).unwrap();
    assert_eq!(conf.leptos_options.reload_port, 3001);
}

#[test]
fn variable_names_are_lowercased() {
    let doc = "[package.metadata.leptos]\noutput_name = \"app\"\n";
    let vars = env_of(&[("LEPTOS_SITE_ROOT", "/custom")]);
    let conf = resolve_config(doc, &vars).unwrap();
    assert_eq!(conf.leptos_options.site_root, "/custom");
}

#[test]
fn resolution_is_idempotent() {
    let doc = "[package.metadata.leptos]\noutput_name = \"app\"\nenv = \"prod\"\n";
    let vars = env_of(&[("LEPTOS_RELOAD_PORT", "5001")]);
    let first = resolve_config(doc, &vars).unwrap();
    let second = resolve_config(doc, &vars).unwrap();
    assert_eq!(first, second);
}

#[test]
fn env_field_accepts_classifier_forms() {
    let doc = "[package.metadata.leptos]\noutput_name = \"app\"\nenv = \"PRODUCTION\"\n";
    let conf = resolve_config(doc, &no_env()).unwrap();
    assert_eq!(conf.leptos_options.env, Env::PROD);
}

#[test]
fn env_field_rejects_unrecognized_names() {
    let doc = "[package.metadata.leptos]\noutput_name = \"app\"\nenv = \"staging\"\n";
    let err = resolve_config(doc, &no_env()).unwrap_err();
    assert_eq!(
        err,
        LeptosConfigError::ConfigError(
            "staging is not a supported environment. Use either `dev` or `production`."
                .to_string()
        )
    );
}

#[test]
fn site_address_is_parsed() {
    let doc =
        "[package.metadata.leptos]\noutput_name = \"app\"\nsite_address = \"0.0.0.0:8080\"\n";
    let conf = resolve_config(doc, &no_env()).unwrap();
    assert_eq!(
        conf.leptos_options.site_address,
        SiteAddr { o1: 0, o2: 0, o3: 0, o4: 0, port: 8080 }
    );
}

#[test]
fn invalid_site_address_cites_the_value() {
    let doc = "[package.metadata.leptos]\noutput_name = \"app\"\nsite_address = \"oops\"\n";
    let err = resolve_config(doc, &no_env()).unwrap_err();
    assert_eq!(
        err,
        LeptosConfigError::ConfigError("invalid site_address `oops`".to_string())
    );
}

#[test]
fn duplicate_key_is_a_merge_conflict() {
    let doc = "[package.metadata.leptos]\noutput_name = \"a\"\noutput_name = \"b\"\n";
    let err = resolve_config(doc, &no_env()).unwrap_err();
    assert_eq!(err, LeptosConfigError::MergeError);
}

#[test]
fn reload_port_range_is_checked() {
    let doc = "[package.metadata.leptos]\noutput_name = \"app\"\nreload_port = 4294967296\n";
    let err = resolve_config(doc, &no_env()).unwrap_err();
    assert!(matches!(err, LeptosConfigError::ConfigError(_)));

    let doc2 = "[package.metadata.leptos]\noutput_name = \"app\"\nreload_port = 4294967295\n";
    let conf = resolve_config(doc2, &no_env()).unwrap();
    assert_eq!(conf.leptos_options.reload_port, u32::MAX);
}

#[test]
fn reload_port_accepts_digit_strings() {
    let doc = "[package.metadata.leptos]\noutput_name = \"app\"\nreload_port = \"4001\"\n";
    let conf = resolve_config(doc, &no_env()).unwrap();
    assert_eq!(conf.leptos_options.reload_port, 4001);

    let vars = env_of(&[("LEPTOS_RELOAD_PORT", "not-a-number")]);
    let err = resolve_config(doc, &vars).unwrap_err();
    assert!(matches!(err, LeptosConfigError::ConfigError(_)));
}

#[test]
fn comments_and_blank_lines_are_skipped() {
    let doc = "[package.metadata.leptos]\n# the generated name\n\noutput_name = \"app\" # inline\n";
    let conf = resolve_config(doc, &no_env()).unwrap();
    assert_eq!(conf.leptos_options.output_name, "app");
}

#[test]
fn later_sections_are_ignored() {
    let doc = "[package.metadata.leptos]\noutput_name = \"app\"\n[package]\nname = \"other\"\n";
    let conf = resolve_config(doc, &no_env()).unwrap();
    assert_eq!(conf.leptos_options.output_name, "app");
    assert_eq!(conf.leptos_options.site_root, "/pkg");
}

#[test]
fn crlf_documents_parse_like_lf_documents() {
    let doc = "[package]\r\nname = \"x\"\r\n[package.metadata.leptos]\r\noutput_name = \"app\"\r\n";
    let conf = resolve_config(doc, &no_env()).unwrap();
    assert_eq!(conf.leptos_options.output_name, "app");
}

#[test]
fn malformed_bindings_fail_loudly() {
    let doc = "[package.metadata.leptos]\noutput_name\n";
    let err = resolve_config(doc, &no_env()).unwrap_err();
    assert_eq!(
        err,
        LeptosConfigError::ConfigError(
            "expected `key = value` in configuration section".to_string()
        )
    );

    let doc2 = "[package.metadata.leptos]\noutput_name = \"app\n";
    let err2 = resolve_config(doc2, &no_env()).unwrap_err();
    assert_eq!(
        err2,
        LeptosConfigError::ConfigError("unterminated string value".to_string())
    );
}

#[test]
fn error_messages_are_exposed() {
    let err = LeptosConfigError::ConfigError("missing field `output_name`".to_string());
    assert_eq!(err.message(), "missing field `output_name`");
    assert!(!LeptosConfigError::ConfigSectionNotFound.message().is_empty());
}
