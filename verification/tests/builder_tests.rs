use leptos_config::environment::Env;
use leptos_config::options::{LeptosOptions, SiteAddr};

#[test]
fn builder_defaults_unset_fields() {
    let o = LeptosOptions::builder().output_name("app").build();
    assert_eq!(o.output_name, "app");
    assert_eq!(o.site_root, "/pkg");
    assert_eq!(o.site_pkg_dir, "pkg");
    assert_eq!(o.env, Env::DEV);
    assert_eq!(
        o.site_address,
        SiteAddr { o1: 127, o2: 0, o3: 0, o4: 1, port: 3000 }
    );
    assert_eq!(o.reload_port, 3001);
}

#[test]
fn builder_keeps_set_fields() {
    let o = LeptosOptions::builder()
        .output_name("site")
        .site_root("/out")
        .site_pkg_dir("wasm")
        .env(Env::PROD)
        .site_address(SiteAddr { o1: 0, o2: 0, o3: 0, o4: 0, port: 443 })
        .reload_port(5001)
        .build();
    assert_eq!(o.output_name, "site");
    assert_eq!(o.site_root, "/out");
    assert_eq!(o.site_pkg_dir, "wasm");
    assert_eq!(o.env, Env::PROD);
    assert_eq!(
        o.site_address,
        SiteAddr { o1: 0, o2: 0, o3: 0, o4: 0, port: 443 }
    );
    assert_eq!(o.reload_port, 5001);
}
