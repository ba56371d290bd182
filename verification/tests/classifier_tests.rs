use leptos_config::environment::Env;
use leptos_config::options::{parse_addr, SiteAddr};

#[test]
fn lenient_recognizes_dev_forms() {
    assert_eq!(Env::from_str("dev"), Ok(Env::DEV));
    assert_eq!(Env::from_str("Development"), Ok(Env::DEV));
    assert_eq!(Env::from_str("DEV"), Ok(Env::DEV));
}

#[test]
fn lenient_recognizes_prod_forms() {
    assert_eq!(Env::from_str("prod"), Ok(Env::PROD));
    assert_eq!(Env::from_str("PRODUCTION"), Ok(Env::PROD));
    assert_eq!(Env::from_str("Prod"), Ok(Env::PROD));
}

#[test]
fn lenient_defaults_unrecognized_to_dev() {
    assert_eq!(Env::from_str("staging"), Ok(Env::DEV));
    assert_eq!(Env::from_str(""), Ok(Env::DEV));
    assert_eq!(Env::from_str("produ"), Ok(Env::DEV));
}

#[test]
fn default_is_dev() {
    assert_eq!(Env::default(), Env::DEV);
}

#[test]
fn from_name_classifies_recognized_names() {
    assert_eq!(Env::from_name("Prod"), Env::PROD);
    assert_eq!(Env::from_name("dev"), Env::DEV);
    assert_eq!(Env::from_name("DEVELOPMENT"), Env::DEV);
}

#[test]
fn strict_accepts_known_names() {
    assert_eq!(Env::try_from("dev".to_string()), Ok(Env::DEV));
    assert_eq!(Env::try_from("Development".to_string()), Ok(Env::DEV));
    assert_eq!(Env::try_from("prod".to_string()), Ok(Env::PROD));
    assert_eq!(Env::try_from("PRODUCTION".to_string()), Ok(Env::PROD));
}

#[test]
fn strict_rejects_unrecognized_names() {
    assert_eq!(
        Env::try_from("staging".to_string()),
        Err("staging is not a supported environment. Use either `dev` or `production`."
            .to_string())
    );
    assert!(Env::try_from("".to_string()).is_err());
}

#[test]
fn addr_parses_dotted_quad() {
    assert_eq!(
        parse_addr("127.0.0.1:3000"),
        Some(SiteAddr { o1: 127, o2: 0, o3: 0, o4: 1, port: 3000 })
    );
    assert_eq!(
        parse_addr("0.0.0.0:80"),
        Some(SiteAddr { o1: 0, o2: 0, o3: 0, o4: 0, port: 80 })
    );
    assert_eq!(
        parse_addr("255.255.255.255:65535"),
        Some(SiteAddr { o1: 255, o2: 255, o3: 255, o4: 255, port: 65535 })
    );
}

#[test]
fn addr_rejects_malformed_input() {
    assert_eq!(parse_addr("localhost:3000"), None);
    assert_eq!(parse_addr("1.2.3.4"), None);
    assert_eq!(parse_addr("1.2.3.4:99999"), None);
    assert_eq!(parse_addr("256.0.0.1:80"), None);
    assert_eq!(parse_addr("1.2.3.4.5:80"), None);
    assert_eq!(parse_addr("1.2.3:80"), None);
    assert_eq!(parse_addr(":80"), None);
    assert_eq!(parse_addr("1.2.3.4:"), None);
}

#[test]
fn site_addr_default_is_localhost_3000() {
    assert_eq!(
        SiteAddr::default(),
        SiteAddr { o1: 127, o2: 0, o3: 0, o4: 1, port: 3000 }
    );
}
