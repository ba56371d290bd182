//! A layered configuration resolver: locates a named configuration
//! section embedded in a larger document, rewrites it into the base
//! configuration layer, overlays environment-variable overrides, and
//! materializes the merged key space into a typed, partially defaulted
//! options record.
//!
//! The pipeline is a pure function of the document text and an
//! explicit environment snapshot; reading the document and taking the
//! snapshot are the caller's business.

pub mod environment;
pub mod errors;
pub mod extract;
pub mod layer;
pub mod options;
pub mod parse;
pub mod text;
pub mod value;

use crate::environment::Env;
use crate::errors::{ConfigErrorView, LeptosConfigError};
use crate::extract::{extract_section, spec_extract};
use crate::layer::{env_layer, spec_env_layer, spec_lookup};
use crate::options::{
    default_site_addr, materialize, msg_missing_output_name, spec_materialize, ConfFile,
    ConfFileView, LeptosOptionsView,
};
use crate::parse::{parse_section, spec_parse_section};
use crate::value::ConfValueView;
use vstd::prelude::*;

verus! {

/// The whole resolution pipeline on a document `t` and an environment
/// snapshot `vars`: extract and rewrite the section, parse it into
/// the base layer, overlay the environment layer, materialize. Each
/// stage either hands its output to the next or fails terminally.
pub open spec fn spec_resolve(t: Seq<char>, vars: Seq<(Seq<char>, Seq<char>)>) -> Result<
    ConfFileView,
    ConfigErrorView,
> {
    match spec_extract(t) {
        Err(e) => Err(e),
        Ok(rew) => match spec_parse_section(rew) {
            Err(e) => Err(e),
            Ok(base) => match spec_materialize(base + spec_env_layer(vars)) {
                Err(e) => Err(e),
                Ok(o) => Ok((ConfFileView { leptos_options: o })),
            },
        },
    }
}

/// Resolves the configuration carried by `text` against the given
/// environment snapshot: one discriminated result, no partial states.
pub fn resolve_config(text: &str, env_vars: &Vec<(String, String)>) -> (r: Result<
    ConfFile,
    LeptosConfigError,
>)
    ensures
        match r {
            Ok(c) => spec_resolve(text@, env_vars.deep_view()) matches Ok(v) && c@ == v,
            Err(e) => spec_resolve(text@, env_vars.deep_view()) matches Err(v) && e@ == v,
        },
{
    let rewritten = match extract_section(text) {
        Ok(s) => s,
        Err(e) => {
            return Err(e);
        },
    };
    let base = match parse_section(rewritten.as_str()) {
        Ok(b) => b,
        Err(e) => {
            return Err(e);
        },
    };
    let over = env_layer(env_vars);
    match materialize(&base, &over) {
        Ok(o) => Ok(ConfFile { leptos_options: o }),
        Err(e) => Err(e),
    }
}

/// Resolution is idempotent: resolving twice from the same unchanged
/// document and environment snapshot yields field-for-field identical
/// results, successes and failures alike.
pub proof fn lemma_resolution_idempotent(
    t: Seq<char>,
    vars: Seq<(Seq<char>, Seq<char>)>,
    r1: Result<ConfFileView, ConfigErrorView>,
    r2: Result<ConfFileView, ConfigErrorView>,
)
    requires
        r1 == spec_resolve(t, vars),
        r2 == spec_resolve(t, vars),
    ensures
        r1 == r2,
{
}

/// The required field is never defaulted: a merged space that does
/// not bind `output_name` fails materialization with the missing-field
/// diagnostic, never with a silently empty name.
pub proof fn lemma_missing_output_name(kvs: Seq<(Seq<char>, ConfValueView)>)
    requires
        spec_lookup(kvs, "output_name"@) is None,
    ensures
        spec_materialize(kvs) == Err::<LeptosOptionsView, ConfigErrorView>(
            ConfigErrorView::ConfigError(msg_missing_output_name()),
        ),
{
}

/// Defaults are applied exactly once, when a key is entirely absent:
/// a merged space that binds nothing but `output_name` materializes
/// to the documented defaults for every other field.
pub proof fn lemma_defaults_for_absent_keys(kvs: Seq<(Seq<char>, ConfValueView)>, name: Seq<char>)
    requires
        kvs.len() == 1,
        kvs[0].0 == "output_name"@,
        kvs[0].1 == ConfValueView::Text(name),
    ensures
        spec_materialize(kvs) == Ok::<LeptosOptionsView, ConfigErrorView>(
            (LeptosOptionsView {
                output_name: name,
                site_root: "/pkg"@,
                site_pkg_dir: "pkg"@,
                env: Env::DEV,
                site_address: default_site_addr(),
                reload_port: 3001u32,
            }),
        ),
{
    reveal_strlit("output_name");
    reveal_strlit("site_root");
    reveal_strlit("site_pkg_dir");
    reveal_strlit("env");
    reveal_strlit("site_address");
    reveal_strlit("reload_port");
    assert(kvs.last() == kvs[0]);
    let rest = kvs.drop_last();
    assert(rest.len() == 0);
    assert("site_root"@.len() != "output_name"@.len());
    assert("site_pkg_dir"@.len() != "output_name"@.len());
    assert("env"@.len() != "output_name"@.len());
    assert("site_address"@.len() != "output_name"@.len());
    assert("reload_port"@[0] != "output_name"@[0]);
    assert(spec_lookup(kvs, "output_name"@) == Some(ConfValueView::Text(name)));
    assert(spec_lookup(rest, "site_root"@) is None);
    assert(spec_lookup(kvs, "site_root"@) is None);
    assert(spec_lookup(rest, "site_pkg_dir"@) is None);
    assert(spec_lookup(kvs, "site_pkg_dir"@) is None);
    assert(spec_lookup(rest, "env"@) is None);
    assert(spec_lookup(kvs, "env"@) is None);
    assert(spec_lookup(rest, "site_address"@) is None);
    assert(spec_lookup(kvs, "site_address"@) is None);
    assert(spec_lookup(rest, "reload_port"@) is None);
    assert(spec_lookup(kvs, "reload_port"@) is None);
}

} // verus!
