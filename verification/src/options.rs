use crate::environment::{is_dev_name, is_prod_name, Env};
use crate::errors::{ConfigErrorView, LeptosConfigError};
use crate::layer::{lookup_merged, spec_lookup};
use crate::text::{
    all_digits, digits_val, find_char, lemma_digits_val_bounds, lemma_find_char_props, parse_u64,
    spec_find_char,
};
use crate::value::{ConfValue, ConfValueView};
use vstd::prelude::*;

verus! {

// The typed options materializer: turns the merged, untyped key/value
// space into the strongly typed options record, applying per-field
// defaults exactly when a key is absent and failing loudly on any
// value the field cannot coerce.

/// The address the site is served from, as a literal IPv4 host and
/// port. Keeping the parts as plain numbers lets every consumer read
/// them without re-parsing text.
#[derive(Debug, Clone, Copy, PartialEq, Eq, Structural)]
pub struct SiteAddr {
    pub o1: u8,
    pub o2: u8,
    pub o3: u8,
    pub o4: u8,
    pub port: u16,
}

/// The default site address, 127.0.0.1:3000.
pub open spec fn default_site_addr() -> SiteAddr {
    SiteAddr { o1: 127, o2: 0, o3: 0, o4: 1, port: 3000 }
}

impl Default for SiteAddr {
    /// The default site address, 127.0.0.1:3000.
    fn default() -> (r: SiteAddr)
        ensures
            r == default_site_addr(),
    {
        SiteAddr { o1: 127, o2: 0, o3: 0, o4: 1, port: 3000 }
    }
}

/// One dotted group of an IPv4 host: one to three digits, value at
/// most 255.
pub open spec fn is_octet(g: Seq<char>) -> bool {
    0 < g.len() <= 3 && all_digits(g) && digits_val(g) <= 255
}

/// A port: one to five digits, value at most 65535.
pub open spec fn is_port(g: Seq<char>) -> bool {
    0 < g.len() <= 5 && all_digits(g) && digits_val(g) <= 65535
}

/// The address denoted by a `host:port` string with a dotted-quad
/// host, or `None` when the string does not have that shape.
pub open spec fn spec_parse_addr(s: Seq<char>) -> Option<SiteAddr> {
    match spec_find_char(s, 0, ':') {
        None => None,
        Some(c) => {
            let host = s.subrange(0, c);
            let port = s.subrange(c + 1, s.len() as int);
            if !is_port(port) {
                None
            } else {
                match spec_find_char(host, 0, '.') {
                    None => None,
                    Some(d1) => match spec_find_char(host, d1 + 1, '.') {
                        None => None,
                        Some(d2) => match spec_find_char(host, d2 + 1, '.') {
                            None => None,
                            Some(d3) => {
                                let g1 = host.subrange(0, d1);
                                let g2 = host.subrange(d1 + 1, d2);
                                let g3 = host.subrange(d2 + 1, d3);
                                let g4 = host.subrange(d3 + 1, host.len() as int);
                                if g4.contains('.') {
                                    None
                                } else if is_octet(g1) && is_octet(g2) && is_octet(g3) && is_octet(
                                    g4,
                                ) {
                                    Some(
                                        (SiteAddr {
                                            o1: digits_val(g1) as u8,
                                            o2: digits_val(g2) as u8,
                                            o3: digits_val(g3) as u8,
                                            o4: digits_val(g4) as u8,
                                            port: digits_val(port) as u16,
                                        }),
                                    )
                                } else {
                                    None
                                }
                            },
                        },
                    },
                }
            }
        },
    }
}

/// Parses one dotted group of an IPv4 host.
fn parse_octet(g: &str) -> (r: Option<u8>)
    ensures
        match r {
            Some(v) => is_octet(g@) && v == digits_val(g@),
            None => !is_octet(g@),
        },
{
    let glen = g.unicode_len();
    if glen == 0 || glen > 3 {
        return None;
    }
    match parse_u64(g) {
        None => {
            proof {
                if all_digits(g@) {
                    lemma_digits_val_bounds(g@);
                }
            }
            None
        },
        Some(v) => {
            if v > 255 {
                None
            } else {
                Some(v as u8)
            }
        },
    }
}

/// Parses a `host:port` string.
pub fn parse_addr(s: &str) -> (r: Option<SiteAddr>)
    ensures
        r == spec_parse_addr(s@),
{
    let len = s.unicode_len();
    let c = match find_char(s, len, 0, ':') {
        None => {
            return None;
        },
        Some(c) => c,
    };
    let host = s.substring_char(0, c);
    let hlen: usize = c;
    let port_s = s.substring_char(c + 1, len);
    let plen: usize = len - (c + 1);
    if plen == 0 || plen > 5 {
        return None;
    }
    let port = match parse_u64(port_s) {
        None => {
            proof {
                if all_digits(port_s@) {
                    lemma_digits_val_bounds(port_s@);
                }
            }
            return None;
        },
        Some(v) => {
            if v > 65535 {
                return None;
            }
            v as u16
        },
    };
    let d1 = match find_char(host, hlen, 0, '.') {
        None => {
            return None;
        },
        Some(d) => d,
    };
    let d2 = match find_char(host, hlen, d1 + 1, '.') {
        None => {
            return None;
        },
        Some(d) => d,
    };
    let d3 = match find_char(host, hlen, d2 + 1, '.') {
        None => {
            return None;
        },
        Some(d) => d,
    };
    let ghost g4 = host@.subrange(d3 + 1, hlen as int);
    match find_char(host, hlen, d3 + 1, '.') {
        Some(_) => {
            proof {
                lemma_find_char_props(host@, d3 + 1, '.');
                let w = spec_find_char(host@, d3 + 1, '.')->0;
                assert(g4[w - (d3 + 1)] == '.');
            }
            return None;
        },
        None => {
            proof {
                lemma_find_char_props(host@, d3 + 1, '.');
                assert forall|j: int| 0 <= j < g4.len() implies g4[j] != '.' by {
                    assert(g4[j] == host@[d3 + 1 + j]);
                }
                assert(!g4.contains('.'));
            }
        },
    }
    let v1 = match parse_octet(host.substring_char(0, d1)) {
        None => {
            return None;
        },
        Some(v) => v,
    };
    let v2 = match parse_octet(host.substring_char(d1 + 1, d2)) {
        None => {
            return None;
        },
        Some(v) => v,
    };
    let v3 = match parse_octet(host.substring_char(d2 + 1, d3)) {
        None => {
            return None;
        },
        Some(v) => v,
    };
    let v4 = match parse_octet(host.substring_char(d3 + 1, hlen)) {
        None => {
            return None;
        },
        Some(v) => v,
    };
    Some(SiteAddr { o1: v1, o2: v2, o3: v3, o4: v4, port })
}

/// Spec-level image of the resolved options record.
pub struct LeptosOptionsView {
    pub output_name: Seq<char>,
    pub site_root: Seq<char>,
    pub site_pkg_dir: Seq<char>,
    pub env: Env,
    pub site_address: SiteAddr,
    pub reload_port: u32,
}

/// The resolved configuration record: the name of the generated
/// output files (required), the site root and package directory, the
/// deployment environment, the serving address and the reload port,
/// each defaulted when its key is absent from the merged space.
#[derive(Debug, Clone, PartialEq, Eq)]
pub struct LeptosOptions {
    pub output_name: String,
    pub site_root: String,
    pub site_pkg_dir: String,
    pub env: Env,
    pub site_address: SiteAddr,
    pub reload_port: u32,
}

impl View for LeptosOptions {
    type V = LeptosOptionsView;

    open spec fn view(&self) -> LeptosOptionsView {
        LeptosOptionsView {
            output_name: self.output_name@,
            site_root: self.site_root@,
            site_pkg_dir: self.site_pkg_dir@,
            env: self.env,
            site_address: self.site_address,
            reload_port: self.reload_port,
        }
    }
}

/// A step-by-step constructor for [`LeptosOptions`]: every field can
/// be set once, and building applies the documented default to each
/// field left unset. The one required field, `output_name`, must be
/// set before building.
pub struct LeptosOptionsBuilder {
    pub output_name: Option<String>,
    pub site_root: Option<String>,
    pub site_pkg_dir: Option<String>,
    pub env: Option<Env>,
    pub site_address: Option<SiteAddr>,
    pub reload_port: Option<u32>,
}

impl LeptosOptions {
    /// Starts a builder with every field unset.
    pub fn builder() -> (r: LeptosOptionsBuilder)
        ensures
            r.output_name is None,
            r.site_root is None,
            r.site_pkg_dir is None,
            r.env is None,
            r.site_address is None,
            r.reload_port is None,
    {
        LeptosOptionsBuilder {
            output_name: None,
            site_root: None,
            site_pkg_dir: None,
            env: None,
            site_address: None,
            reload_port: None,
        }
    }
}

impl LeptosOptionsBuilder {
    pub fn output_name(self, v: &str) -> (r: Self)
        ensures
            r.output_name matches Some(s) && s@ == v@,
            r.site_root == self.site_root,
            r.site_pkg_dir == self.site_pkg_dir,
            r.env == self.env,
            r.site_address == self.site_address,
            r.reload_port == self.reload_port,
    {
        Self { output_name: Some(String::from_str(v)), ..self }
    }

    pub fn site_root(self, v: &str) -> (r: Self)
        ensures
            r.site_root matches Some(s) && s@ == v@,
            r.output_name == self.output_name,
            r.site_pkg_dir == self.site_pkg_dir,
            r.env == self.env,
            r.site_address == self.site_address,
            r.reload_port == self.reload_port,
    {
        Self { site_root: Some(String::from_str(v)), ..self }
    }

    pub fn site_pkg_dir(self, v: &str) -> (r: Self)
        ensures
            r.site_pkg_dir matches Some(s) && s@ == v@,
            r.output_name == self.output_name,
            r.site_root == self.site_root,
            r.env == self.env,
            r.site_address == self.site_address,
            r.reload_port == self.reload_port,
    {
        Self { site_pkg_dir: Some(String::from_str(v)), ..self }
    }

    pub fn env(self, v: Env) -> (r: Self)
        ensures
            r.env == Some(v),
            r.output_name == self.output_name,
            r.site_root == self.site_root,
            r.site_pkg_dir == self.site_pkg_dir,
            r.site_address == self.site_address,
            r.reload_port == self.reload_port,
    {
        Self { env: Some(v), ..self }
    }

    pub fn site_address(self, v: SiteAddr) -> (r: Self)
        ensures
            r.site_address == Some(v),
            r.output_name == self.output_name,
            r.site_root == self.site_root,
            r.site_pkg_dir == self.site_pkg_dir,
            r.env == self.env,
            r.reload_port == self.reload_port,
    {
        Self { site_address: Some(v), ..self }
    }

    pub fn reload_port(self, v: u32) -> (r: Self)
        ensures
            r.reload_port == Some(v),
            r.output_name == self.output_name,
            r.site_root == self.site_root,
            r.site_pkg_dir == self.site_pkg_dir,
            r.env == self.env,
            r.site_address == self.site_address,
    {
        Self { reload_port: Some(v), ..self }
    }

    /// Finishes the record, defaulting every unset optional field.
    pub fn build(self) -> (r: LeptosOptions)
        requires
            self.output_name is Some,
        ensures
            r@.output_name == self.output_name->0@,
            r@.site_root == (match self.site_root {
                Some(s) => s@,
                None => "/pkg"@,
            }),
            r@.site_pkg_dir == (match self.site_pkg_dir {
                Some(s) => s@,
                None => "pkg"@,
            }),
            r@.env == (match self.env {
                Some(e) => e,
                None => Env::DEV,
            }),
            r@.site_address == (match self.site_address {
                Some(a) => a,
                None => default_site_addr(),
            }),
            r@.reload_port == (match self.reload_port {
                Some(p) => p,
                None => 3001u32,
            }),
    {
        let output_name = match self.output_name {
            Some(s) => s,
            None => String::new(),
        };
        let site_root = match self.site_root {
            Some(s) => s,
            None => String::from_str("/pkg"),
        };
        let site_pkg_dir = match self.site_pkg_dir {
            Some(s) => s,
            None => String::from_str("pkg"),
        };
        let env = match self.env {
            Some(e) => e,
            None => Env::DEV,
        };
        let site_address = match self.site_address {
            Some(a) => a,
            None => SiteAddr { o1: 127, o2: 0, o3: 0, o4: 1, port: 3000 },
        };
        let reload_port = match self.reload_port {
            Some(p) => p,
            None => 3001u32,
        };
        LeptosOptions { output_name, site_root, site_pkg_dir, env, site_address, reload_port }
    }
}

/// Spec-level image of the resolved document.
pub struct ConfFileView {
    pub leptos_options: LeptosOptionsView,
}

/// The resolved document: a thin wrapper holding the options record.
#[derive(Debug, Clone, PartialEq, Eq)]
pub struct ConfFile {
    pub leptos_options: LeptosOptions,
}

impl View for ConfFile {
    type V = ConfFileView;

    open spec fn view(&self) -> ConfFileView {
        ConfFileView { leptos_options: self.leptos_options@ }
    }
}

pub open spec fn msg_missing_output_name() -> Seq<char> {
    "missing field `output_name`"@
}

pub open spec fn msg_expected_string(key: Seq<char>) -> Seq<char> {
    "expected a string value for configuration key `"@ + key + "`"@
}

pub open spec fn msg_env_invalid(s: Seq<char>) -> Seq<char> {
    s + " is not a supported environment. Use either `dev` or `production`."@
}

pub open spec fn msg_bad_addr(s: Seq<char>) -> Seq<char> {
    "invalid site_address `"@ + s + "`"@
}

pub open spec fn msg_bad_reload_port() -> Seq<char> {
    "invalid reload_port: expected an unsigned integer no larger than 4294967295"@
}

/// The required field: absent means failure, never a silently empty
/// name.
pub open spec fn spec_output_name_field(kvs: Seq<(Seq<char>, ConfValueView)>) -> Result<
    Seq<char>,
    ConfigErrorView,
> {
    match spec_lookup(kvs, "output_name"@) {
        None => Err(ConfigErrorView::ConfigError(msg_missing_output_name())),
        Some(ConfValueView::Text(s)) => Ok(s),
        Some(ConfValueView::Number(_)) => Err(
            ConfigErrorView::ConfigError(msg_expected_string("output_name"@)),
        ),
    }
}

/// A defaulted string field: the default applies exactly when the key
/// is absent; a present but empty value stays empty.
pub open spec fn spec_str_field(
    kvs: Seq<(Seq<char>, ConfValueView)>,
    key: Seq<char>,
    dflt: Seq<char>,
) -> Result<Seq<char>, ConfigErrorView> {
    match spec_lookup(kvs, key) {
        None => Ok(dflt),
        Some(ConfValueView::Text(s)) => Ok(s),
        Some(ConfValueView::Number(_)) => Err(
            ConfigErrorView::ConfigError(msg_expected_string(key)),
        ),
    }
}

/// The environment field: strict classification — an unrecognized
/// name fails resolution rather than silently defaulting.
pub open spec fn spec_env_field(kvs: Seq<(Seq<char>, ConfValueView)>) -> Result<
    Env,
    ConfigErrorView,
> {
    match spec_lookup(kvs, "env"@) {
        None => Ok(Env::DEV),
        Some(ConfValueView::Text(s)) => if is_dev_name(s) {
            Ok(Env::DEV)
        } else if is_prod_name(s) {
            Ok(Env::PROD)
        } else {
            Err(ConfigErrorView::ConfigError(msg_env_invalid(s)))
        },
        Some(ConfValueView::Number(_)) => Err(
            ConfigErrorView::ConfigError(msg_expected_string("env"@)),
        ),
    }
}

/// The serving address field: a `host:port` string, failing with a
/// message that cites the offending value.
pub open spec fn spec_addr_field(kvs: Seq<(Seq<char>, ConfValueView)>) -> Result<
    SiteAddr,
    ConfigErrorView,
> {
    match spec_lookup(kvs, "site_address"@) {
        None => Ok(default_site_addr()),
        Some(ConfValueView::Text(s)) => match spec_parse_addr(s) {
            Some(a) => Ok(a),
            None => Err(ConfigErrorView::ConfigError(msg_bad_addr(s))),
        },
        Some(ConfValueView::Number(_)) => Err(
            ConfigErrorView::ConfigError(msg_expected_string("site_address"@)),
        ),
    }
}

/// The reload port field: an integer, or a string of digits (as an
/// environment variable supplies it), that fits in a `u32`.
pub open spec fn spec_reload_port_field(kvs: Seq<(Seq<char>, ConfValueView)>) -> Result<
    u32,
    ConfigErrorView,
> {
    match spec_lookup(kvs, "reload_port"@) {
        None => Ok(3001u32),
        Some(ConfValueView::Number(n)) => if n <= u32::MAX as u64 {
            Ok(n as u32)
        } else {
            Err(ConfigErrorView::ConfigError(msg_bad_reload_port()))
        },
        Some(ConfValueView::Text(s)) => if s.len() > 0 && all_digits(s) && digits_val(s)
            <= u32::MAX {
            Ok(digits_val(s) as u32)
        } else {
            Err(ConfigErrorView::ConfigError(msg_bad_reload_port()))
        },
    }
}

/// The options record denoted by a merged key space, or the first
/// field failure in declaration order.
pub open spec fn spec_materialize(kvs: Seq<(Seq<char>, ConfValueView)>) -> Result<
    LeptosOptionsView,
    ConfigErrorView,
> {
    match spec_output_name_field(kvs) {
        Err(e) => Err(e),
        Ok(output_name) => match spec_str_field(kvs, "site_root"@, "/pkg"@) {
            Err(e) => Err(e),
            Ok(site_root) => match spec_str_field(kvs, "site_pkg_dir"@, "pkg"@) {
                Err(e) => Err(e),
                Ok(site_pkg_dir) => match spec_env_field(kvs) {
                    Err(e) => Err(e),
                    Ok(env) => match spec_addr_field(kvs) {
                        Err(e) => Err(e),
                        Ok(site_address) => match spec_reload_port_field(kvs) {
                            Err(e) => Err(e),
                            Ok(reload_port) => Ok(
                                (LeptosOptionsView {
                                    output_name,
                                    site_root,
                                    site_pkg_dir,
                                    env,
                                    site_address,
                                    reload_port,
                                }),
                            ),
                        },
                    },
                },
            },
        },
    }
}

/// Materializes the merged space formed by the base layer overlaid
/// with the environment layer into the typed options record.
pub fn materialize(base: &Vec<(String, ConfValue)>, over: &Vec<(String, ConfValue)>) -> (r: Result<
    LeptosOptions,
    LeptosConfigError,
>)
    ensures
        match r {
            Ok(o) => spec_materialize(base.deep_view() + over.deep_view()) matches Ok(v) && o@
                == v,
            Err(e) => spec_materialize(base.deep_view() + over.deep_view()) matches Err(v) && e@
                == v,
        },
{
    let output_name = match lookup_merged(base, over, "output_name") {
        None => {
            return Err(
                LeptosConfigError::ConfigError(String::from_str("missing field `output_name`")),
            );
        },
        Some(cv) => match cv {
            ConfValue::Text(s) => String::from_str(s.as_str()),
            ConfValue::Number(_) => {
                return Err(
                    LeptosConfigError::ConfigError(
                        String::from_str("expected a string value for configuration key `")
                            .concat("output_name").concat("`"),
                    ),
                );
            },
        },
    };
    let site_root = match lookup_merged(base, over, "site_root") {
        None => String::from_str("/pkg"),
        Some(cv) => match cv {
            ConfValue::Text(s) => String::from_str(s.as_str()),
            ConfValue::Number(_) => {
                return Err(
                    LeptosConfigError::ConfigError(
                        String::from_str("expected a string value for configuration key `")
                            .concat("site_root").concat("`"),
                    ),
                );
            },
        },
    };
    let site_pkg_dir = match lookup_merged(base, over, "site_pkg_dir") {
        None => String::from_str("pkg"),
        Some(cv) => match cv {
            ConfValue::Text(s) => String::from_str(s.as_str()),
            ConfValue::Number(_) => {
                return Err(
                    LeptosConfigError::ConfigError(
                        String::from_str("expected a string value for configuration key `")
                            .concat("site_pkg_dir").concat("`"),
                    ),
                );
            },
        },
    };
    proof {
        reveal_strlit("dev");
        reveal_strlit("development");
        reveal_strlit("prod");
        reveal_strlit("production");
    }
    let env = match lookup_merged(base, over, "env") {
        None => Env::DEV,
        Some(cv) => match cv {
            ConfValue::Text(s) => match Env::try_from(String::from_str(s.as_str())) {
                Ok(e) => {
                    proof {
                        assert("dev"@.len() == 3 && "development"@.len() == 11 && "prod"@.len()
                            == 4 && "production"@.len() == 10);
                        assert(!(is_dev_name(s@) && is_prod_name(s@)));
                    }
                    e
                },
                Err(m) => {
                    return Err(LeptosConfigError::ConfigError(m));
                },
            },
            ConfValue::Number(_) => {
                return Err(
                    LeptosConfigError::ConfigError(
                        String::from_str("expected a string value for configuration key `")
                            .concat("env").concat("`"),
                    ),
                );
            },
        },
    };
    let site_address = match lookup_merged(base, over, "site_address") {
        None => SiteAddr { o1: 127, o2: 0, o3: 0, o4: 1, port: 3000 },
        Some(cv) => match cv {
            ConfValue::Text(s) => match parse_addr(s.as_str()) {
                Some(a) => a,
                None => {
                    return Err(
                        LeptosConfigError::ConfigError(
                            String::from_str("invalid site_address `").concat(s.as_str()).concat(
                                "`",
                            ),
                        ),
                    );
                },
            },
            ConfValue::Number(_) => {
                return Err(
                    LeptosConfigError::ConfigError(
                        String::from_str("expected a string value for configuration key `")
                            .concat("site_address").concat("`"),
                    ),
                );
            },
        },
    };
    let reload_port = match lookup_merged(base, over, "reload_port") {
        None => 3001u32,
        Some(cv) => match cv {
            ConfValue::Number(n) => {
                if *n <= 0xFFFF_FFFFu64 {
                    *n as u32
                } else {
                    return Err(
                        LeptosConfigError::ConfigError(
                            String::from_str(
                                "invalid reload_port: expected an unsigned integer no larger than 4294967295",
                            ),
                        ),
                    );
                }
            },
            ConfValue::Text(s) => match parse_u64(s.as_str()) {
                Some(v) => {
                    if v <= 0xFFFF_FFFFu64 {
                        v as u32
                    } else {
                        return Err(
                            LeptosConfigError::ConfigError(
                                String::from_str(
                                    "invalid reload_port: expected an unsigned integer no larger than 4294967295",
                                ),
                            ),
                        );
                    }
                },
                None => {
                    return Err(
                        LeptosConfigError::ConfigError(
                            String::from_str(
                                "invalid reload_port: expected an unsigned integer no larger than 4294967295",
                            ),
                        ),
                    );
                },
            },
        },
    };
    Ok(LeptosOptions { output_name, site_root, site_pkg_dir, env, site_address, reload_port })
}

} // verus!
