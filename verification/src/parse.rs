use crate::errors::{ConfigErrorView, LeptosConfigError};
use crate::extract::options_header;
use crate::text::{
    all_digits, digits_val, find_char, is_digit, is_digit_exec, lemma_find_char_props, parse_u64,
    spec_find_char, spec_trim, trim,
};
use crate::value::{ConfValue, ConfValueView};
use vstd::prelude::*;

verus! {

// The key/value parser turns the rewritten section text into the base
// configuration layer: an ordered list of (key, untyped value) pairs.
// The accepted syntax is the flat subset the section needs: one
// `key = value` per line, quoted-string or bare-integer values, blank
// lines and `#` comments in between, everything after a following
// `[section]` header ignored.

pub open spec fn msg_missing_header() -> Seq<char> {
    "configuration section must begin with `[leptos_options]`"@
}

pub open spec fn msg_no_eq() -> Seq<char> {
    "expected `key = value` in configuration section"@
}

pub open spec fn msg_bad_key() -> Seq<char> {
    "invalid configuration key"@
}

pub open spec fn msg_bad_value() -> Seq<char> {
    "invalid configuration value"@
}

pub open spec fn msg_unterminated() -> Seq<char> {
    "unterminated string value"@
}

pub open spec fn msg_num_range() -> Seq<char> {
    "integer value out of range"@
}

/// The lines of `t` starting at offset `from`, split on newlines.
pub open spec fn spec_split_lines_from(t: Seq<char>, from: int) -> Seq<Seq<char>>
    decreases t.len() - from,
{
    if from < 0 || from > t.len() {
        Seq::empty()
    } else {
        match spec_find_char(t, from, '\n') {
            Some(i) => if from <= i < t.len() {
                seq![t.subrange(from, i)] + spec_split_lines_from(t, i + 1)
            } else {
                Seq::empty()
            },
            None => seq![t.subrange(from, t.len() as int)],
        }
    }
}

/// The lines of `t`, split on newlines.
pub open spec fn spec_split_lines(t: Seq<char>) -> Seq<Seq<char>> {
    spec_split_lines_from(t, 0)
}

/// Splits a string into its lines.
pub fn split_lines(text: &str) -> (r: Vec<String>)
    ensures
        r.deep_view() == spec_split_lines(text@),
{
    let len = text.unicode_len();
    let mut out: Vec<String> = Vec::new();
    let mut from: usize = 0;
    loop
        invariant_except_break
            len == text@.len(),
            from <= len,
            spec_split_lines(text@) =~= out.deep_view() + spec_split_lines_from(
                text@,
                from as int,
            ),
        ensures
            out.deep_view() =~= spec_split_lines(text@),
        decreases len - from,
    {
        match find_char(text, len, from, '\n') {
            Some(i) => {
                let line = text.substring_char(from, i);
                out.push(String::from_str(line));
                proof {
                    assert(out.deep_view() =~= out.deep_view().subrange(
                        0,
                        out.deep_view().len() - 1,
                    ).push(text@.subrange(from as int, i as int)));
                }
                from = i + 1;
            },
            None => {
                let line = text.substring_char(from, len);
                out.push(String::from_str(line));
                proof {
                    assert(out.deep_view() =~= out.deep_view().subrange(
                        0,
                        out.deep_view().len() - 1,
                    ).push(text@.subrange(from as int, len as int)));
                }
                break ;
            },
        }
    }
    out
}

/// Characters allowed in a configuration key.
pub open spec fn is_key_char(c: char) -> bool {
    is_digit(c) || (97 <= c as u32 && c as u32 <= 122) || (65 <= c as u32 && c as u32 <= 90) || c
        == '_'
}

pub open spec fn valid_key(k: Seq<char>) -> bool {
    k.len() > 0 && forall|i: int| 0 <= i < k.len() ==> is_key_char(k[i])
}

fn is_key_char_exec(c: char) -> (r: bool)
    ensures
        r == is_key_char(c),
{
    let u: u32 = c as u32;
    is_digit_exec(c) || (97 <= u && u <= 122) || (65 <= u && u <= 90) || c == '_'
}

fn valid_key_exec(k: &str) -> (r: bool)
    ensures
        r == valid_key(k@),
{
    let len = k.unicode_len();
    if len == 0 {
        return false;
    }
    let mut i: usize = 0;
    while i < len
        invariant
            len == k@.len(),
            0 < len,
            i <= len,
            forall|j: int| 0 <= j < i ==> is_key_char(k@[j]),
        decreases len - i,
    {
        if !is_key_char_exec(k.get_char(i)) {
            return false;
        }
        i = i + 1;
    }
    true
}

/// Index just past the run of decimal digits beginning at `from`.
pub open spec fn digit_run_end(v: Seq<char>, from: int) -> int
    decreases v.len() - from,
{
    if 0 <= from < v.len() && is_digit(v[from]) {
        digit_run_end(v, from + 1)
    } else {
        from
    }
}

proof fn lemma_digit_run_end_props(v: Seq<char>, from: int)
    requires
        0 <= from <= v.len(),
    ensures
        from <= digit_run_end(v, from) <= v.len(),
        forall|j: int| from <= j < digit_run_end(v, from) ==> is_digit(v[j]),
        digit_run_end(v, from) < v.len() ==> !is_digit(v[digit_run_end(v, from)]),
    decreases v.len() - from,
{
    if from < v.len() && is_digit(v[from]) {
        lemma_digit_run_end_props(v, from + 1);
    }
}

fn digit_run_end_exec(v: &str, len: usize, from: usize) -> (r: usize)
    requires
        len == v@.len(),
        from <= len,
    ensures
        r == digit_run_end(v@, from as int),
        from <= r <= len,
{
    let mut i: usize = from;
    while i < len && is_digit_exec(v.get_char(i))
        invariant
            len == v@.len(),
            from <= i <= len,
            digit_run_end(v@, from as int) == digit_run_end(v@, i as int),
        decreases len - i,
    {
        i = i + 1;
    }
    i
}

/// The untyped value denoted by the (trimmed) text `v` to the right of
/// the `=` of a binding, or a diagnostic message when `v` fits neither
/// the quoted-string form nor the bare-integer form.
pub open spec fn spec_parse_value(v: Seq<char>) -> Result<ConfValueView, Seq<char>> {
    if v.len() == 0 {
        Err(msg_bad_value())
    } else if v[0] == '"' {
        match spec_find_char(v, 1, '"') {
            None => Err(msg_unterminated()),
            Some(q) => {
                let inner = v.subrange(1, q);
                let rest = spec_trim(v.subrange(q + 1, v.len() as int));
                if inner.contains('\\') {
                    Err(msg_bad_value())
                } else if rest.len() == 0 || rest[0] == '#' {
                    Ok(ConfValueView::Text(inner))
                } else {
                    Err(msg_bad_value())
                }
            },
        }
    } else if is_digit(v[0]) {
        let e = digit_run_end(v, 0);
        let num = v.subrange(0, e);
        let rest = spec_trim(v.subrange(e, v.len() as int));
        if !(rest.len() == 0 || rest[0] == '#') {
            Err(msg_bad_value())
        } else if digits_val(num) > u64::MAX {
            Err(msg_num_range())
        } else {
            Ok(ConfValueView::Number(digits_val(num) as u64))
        }
    } else {
        Err(msg_bad_value())
    }
}

/// Parses the text to the right of `=`.
pub fn parse_value(v: &str) -> (r: Result<ConfValue, String>)
    ensures
        match r {
            Ok(cv) => spec_parse_value(v@) matches Ok(x) && cv@ == x,
            Err(m) => spec_parse_value(v@) matches Err(x) && m@ == x,
        },
{
    let len = v.unicode_len();
    if len == 0 {
        return Err(String::from_str("invalid configuration value"));
    }
    let c0 = v.get_char(0);
    if c0 == '"' {
        match find_char(v, len, 1, '"') {
            None => Err(String::from_str("unterminated string value")),
            Some(q) => {
                let inner = v.substring_char(1, q);
                let inner_len: usize = q - 1;
                proof {
                    assert(inner@ =~= v@.subrange(1, q as int));
                }
                let rest = trim(v.substring_char(q + 1, len));
                let rest_len = rest.unicode_len();
                let backslash = find_char(inner, inner_len, 0, '\\');
                proof {
                    lemma_find_char_props(inner@, 0, '\\');
                }
                if backslash.is_some() {
                    Err(String::from_str("invalid configuration value"))
                } else if rest_len == 0 || rest.get_char(0) == '#' {
                    Ok(ConfValue::Text(String::from_str(inner)))
                } else {
                    Err(String::from_str("invalid configuration value"))
                }
            },
        }
    } else if is_digit_exec(c0) {
        let e = digit_run_end_exec(v, len, 0);
        let num = v.substring_char(0, e);
        let rest = trim(v.substring_char(e, len));
        let rest_len = rest.unicode_len();
        if !(rest_len == 0 || rest.get_char(0) == '#') {
            Err(String::from_str("invalid configuration value"))
        } else {
            proof {
                lemma_digit_run_end_props(v@, 0);
            }
            match parse_u64(num) {
                Some(n) => Ok(ConfValue::Number(n)),
                None => Err(String::from_str("integer value out of range")),
            }
        }
    } else {
        Err(String::from_str("invalid configuration value"))
    }
}

/// The binding denoted by a (trimmed, significant) line: the key to
/// the left of the first `=`, the value to its right, or a diagnostic
/// message.
pub open spec fn spec_parse_kv(l: Seq<char>) -> Result<(Seq<char>, ConfValueView), Seq<char>> {
    match spec_find_char(l, 0, '=') {
        None => Err(msg_no_eq()),
        Some(e) => {
            let k = spec_trim(l.subrange(0, e));
            let v = spec_trim(l.subrange(e + 1, l.len() as int));
            if !valid_key(k) {
                Err(msg_bad_key())
            } else {
                match spec_parse_value(v) {
                    Ok(val) => Ok((k, val)),
                    Err(m) => Err(m),
                }
            }
        },
    }
}

/// Parses one significant line as a `key = value` binding.
pub fn parse_kv(l: &str) -> (r: Result<(String, ConfValue), String>)
    ensures
        match r {
            Ok(kv) => spec_parse_kv(l@) matches Ok(x) && kv.0@ == x.0 && kv.1@ == x.1,
            Err(m) => spec_parse_kv(l@) matches Err(x) && m@ == x,
        },
{
    let len = l.unicode_len();
    match find_char(l, len, 0, '=') {
        None => Err(String::from_str("expected `key = value` in configuration section")),
        Some(e) => {
            let k = trim(l.substring_char(0, e));
            let v = trim(l.substring_char(e + 1, len));
            if !valid_key_exec(k) {
                Err(String::from_str("invalid configuration key"))
            } else {
                match parse_value(v) {
                    Ok(val) => Ok((String::from_str(k), val)),
                    Err(m) => Err(m),
                }
            }
        },
    }
}

/// Does the key list already bind `k`?
pub open spec fn kvs_contains_key(kvs: Seq<(Seq<char>, ConfValueView)>, k: Seq<char>) -> bool {
    exists|i: int| 0 <= i < kvs.len() && kvs[i].0 == k
}

fn contains_key(kvs: &Vec<(String, ConfValue)>, k: &str) -> (r: bool)
    ensures
        r == kvs_contains_key(kvs.deep_view(), k@),
{
    let mut i: usize = 0;
    while i < kvs.len()
        invariant
            i <= kvs.len(),
            forall|j: int| 0 <= j < i ==> kvs.deep_view()[j].0 != k@,
        decreases kvs.len() - i,
    {
        if crate::text::str_eq(kvs[i].0.as_str(), k) {
            proof {
                assert(kvs.deep_view()[i as int].0 == k@);
            }
            return true;
        }
        i = i + 1;
    }
    false
}

/// Folds the lines of the section into the base layer. `seen` records
/// whether the canonical section header has been passed, `acc` the
/// bindings collected so far. Blank lines and comments are skipped;
/// the first significant line must be the canonical header; a later
/// `[...]` header ends the section; a key bound twice inside the
/// section is a merge conflict.
pub open spec fn spec_parse_lines(
    lines: Seq<Seq<char>>,
    seen: bool,
    acc: Seq<(Seq<char>, ConfValueView)>,
) -> Result<Seq<(Seq<char>, ConfValueView)>, ConfigErrorView>
    decreases lines.len(),
{
    if lines.len() == 0 {
        if seen {
            Ok(acc)
        } else {
            Err(ConfigErrorView::ConfigError(msg_missing_header()))
        }
    } else {
        let l = spec_trim(lines[0]);
        let rest = lines.drop_first();
        if l.len() == 0 || l[0] == '#' {
            spec_parse_lines(rest, seen, acc)
        } else if !seen {
            if l == options_header() {
                spec_parse_lines(rest, true, acc)
            } else {
                Err(ConfigErrorView::ConfigError(msg_missing_header()))
            }
        } else if l[0] == '[' {
            Ok(acc)
        } else {
            match spec_parse_kv(l) {
                Err(m) => Err(ConfigErrorView::ConfigError(m)),
                Ok((k, v)) => if kvs_contains_key(acc, k) {
                    Err(ConfigErrorView::MergeError)
                } else {
                    spec_parse_lines(rest, seen, acc.push((k, v)))
                },
            }
        }
    }
}

/// The base layer denoted by the rewritten section text.
pub open spec fn spec_parse_section(t: Seq<char>) -> Result<
    Seq<(Seq<char>, ConfValueView)>,
    ConfigErrorView,
> {
    spec_parse_lines(spec_split_lines(t), false, Seq::empty())
}

/// Parses the rewritten section text into the base configuration
/// layer, in document order.
pub fn parse_section(text: &str) -> (r: Result<Vec<(String, ConfValue)>, LeptosConfigError>)
    ensures
        match r {
            Ok(kvs) => spec_parse_section(text@) matches Ok(x) && kvs.deep_view() == x,
            Err(e) => spec_parse_section(text@) matches Err(x) && e@ == x,
        },
{
    let lines = split_lines(text);
    let n: usize = lines.len();
    let mut acc: Vec<(String, ConfValue)> = Vec::new();
    let mut seen: bool = false;
    let mut i: usize = 0;
    proof {
        assert(lines.deep_view().skip(0) =~= lines.deep_view());
        assert(acc.deep_view() =~= Seq::<(Seq<char>, ConfValueView)>::empty());
    }
    while i < n
        invariant
            n == lines.len(),
            i <= n,
            lines.deep_view() == spec_split_lines(text@),
            spec_parse_section(text@) == spec_parse_lines(
                lines.deep_view().skip(i as int),
                seen,
                acc.deep_view(),
            ),
        decreases n - i,
    {
        proof {
            assert(lines.deep_view().skip(i as int).drop_first() =~= lines.deep_view().skip(
                i + 1,
            ));
            assert(lines.deep_view().skip(i as int)[0] == lines.deep_view()[i as int]);
            assert(lines.deep_view()[i as int] == lines@[i as int]@);
        }
        let line = trim(lines[i].as_str());
        let llen = line.unicode_len();
        if llen == 0 || line.get_char(0) == '#' {
            i = i + 1;
        } else if !seen {
            if crate::text::str_eq(line, "[leptos_options]") {
                seen = true;
                i = i + 1;
            } else {
                return Err(
                    LeptosConfigError::ConfigError(
                        String::from_str(
                            "configuration section must begin with `[leptos_options]`",
                        ),
                    ),
                );
            }
        } else if line.get_char(0) == '[' {
            return Ok(acc);
        } else {
            match parse_kv(line) {
                Err(m) => {
                    return Err(LeptosConfigError::ConfigError(m));
                },
                Ok((k, v)) => {
                    if contains_key(&acc, k.as_str()) {
                        return Err(LeptosConfigError::MergeError);
                    }
                    let ghost pre = acc.deep_view();
                    let ghost kk = k@;
                    let ghost vv = v@;
                    acc.push((k, v));
                    proof {
                        assert(acc.deep_view() =~= pre.push((kk, vv)));
                    }
                    i = i + 1;
                },
            }
        }
    }
    proof {
        assert(lines.deep_view().skip(n as int) =~= Seq::<Seq<char>>::empty());
    }
    if seen {
        Ok(acc)
    } else {
        Err(
            LeptosConfigError::ConfigError(
                String::from_str("configuration section must begin with `[leptos_options]`"),
            ),
        )
    }
}

} // verus!
