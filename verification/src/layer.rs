use crate::text::{str_eq, str_matches_at, to_lower, to_lower_string};
use crate::value::{ConfValue, ConfValueView};
use vstd::prelude::*;

verus! {

// The layered source builder. The base layer (the rewritten section)
// comes first, the environment layer second; a later layer wins on key
// collision, which is what lets deployment-time variables override
// file-time values.

/// The merged-space key that an environment variable named `name`
/// contributes to, if any: variables whose name starts with the fixed
/// prefix `LEPTOS_` contribute under the lowercased remainder of their
/// name; every other variable is ignored.
pub open spec fn spec_env_key(name: Seq<char>) -> Option<Seq<char>> {
    if name.len() > 7 && name.subrange(0, 7) == "LEPTOS_"@ {
        Some(to_lower(name.subrange(7, name.len() as int)))
    } else {
        None
    }
}

/// The environment layer contributed by an environment snapshot, in
/// snapshot order: one text-valued binding per matching variable.
pub open spec fn spec_env_layer(vars: Seq<(Seq<char>, Seq<char>)>) -> Seq<
    (Seq<char>, ConfValueView),
>
    decreases vars.len(),
{
    if vars.len() == 0 {
        Seq::empty()
    } else {
        (match spec_env_key(vars[0].0) {
            Some(k) => seq![(k, ConfValueView::Text(vars[0].1))],
            None => Seq::empty(),
        }) + spec_env_layer(vars.drop_first())
    }
}

/// Builds the environment layer from an environment snapshot.
pub fn env_layer(vars: &Vec<(String, String)>) -> (r: Vec<(String, ConfValue)>)
    ensures
        r.deep_view() == spec_env_layer(vars.deep_view()),
{
    let mut out: Vec<(String, ConfValue)> = Vec::new();
    let mut i: usize = 0;
    proof {
        assert(vars.deep_view().skip(0) =~= vars.deep_view());
        assert(out.deep_view() =~= Seq::<(Seq<char>, ConfValueView)>::empty());
    }
    while i < vars.len()
        invariant
            i <= vars.len(),
            spec_env_layer(vars.deep_view()) =~= out.deep_view() + spec_env_layer(
                vars.deep_view().skip(i as int),
            ),
        decreases vars.len() - i,
    {
        proof {
            assert(vars.deep_view().skip(i as int).drop_first() =~= vars.deep_view().skip(i + 1));
            assert(vars.deep_view().skip(i as int)[0] == vars.deep_view()[i as int]);
            assert(vars.deep_view()[i as int].0 == vars@[i as int].0@);
            assert(vars.deep_view()[i as int].1 == vars@[i as int].1@);
            reveal_strlit("LEPTOS_");
        }
        let name = vars[i].0.as_str();
        let nlen = name.unicode_len();
        if nlen >= 8 && str_matches_at(name, nlen, 0, "LEPTOS_", 7) {
            let key = to_lower_string(name.substring_char(7, nlen));
            let val = ConfValue::Text(String::from_str(vars[i].1.as_str()));
            let ghost pre = out.deep_view();
            let ghost kk = key@;
            let ghost vv = val@;
            out.push((key, val));
            proof {
                assert(out.deep_view() =~= pre.push((kk, vv)));
            }
        }
        i = i + 1;
    }
    proof {
        assert(spec_env_layer(vars.deep_view().skip(vars.len() as int)) =~= Seq::<
            (Seq<char>, ConfValueView),
        >::empty());
        assert(out.deep_view() =~= spec_env_layer(vars.deep_view()));
    }
    out
}

/// The value bound to `k` in an ordered list of bindings; when `k` is
/// bound more than once the later binding wins.
pub open spec fn spec_lookup(kvs: Seq<(Seq<char>, ConfValueView)>, k: Seq<char>) -> Option<
    ConfValueView,
>
    decreases kvs.len(),
{
    if kvs.len() == 0 {
        None
    } else if kvs.last().0 == k {
        Some(kvs.last().1)
    } else {
        spec_lookup(kvs.drop_last(), k)
    }
}

/// Precedence law of the layered merge: in the space formed by a base
/// layer followed by an overriding layer, a key bound in the
/// overriding layer takes its value from there, and only keys it does
/// not bind fall through to the base layer.
pub proof fn lemma_lookup_append(
    base: Seq<(Seq<char>, ConfValueView)>,
    over: Seq<(Seq<char>, ConfValueView)>,
    k: Seq<char>,
)
    ensures
        spec_lookup(base + over, k) == (match spec_lookup(over, k) {
            Some(v) => Some(v),
            None => spec_lookup(base, k),
        }),
    decreases over.len(),
{
    if over.len() == 0 {
        assert(base + over =~= base);
    } else {
        assert((base + over).last() == over.last());
        if over.last().0 != k {
            assert((base + over).drop_last() =~= base + over.drop_last());
            lemma_lookup_append(base, over.drop_last(), k);
        }
    }
}

/// Looks `key` up in one layer, later bindings first.
pub fn lookup<'a>(kvs: &'a Vec<(String, ConfValue)>, key: &str) -> (r: Option<&'a ConfValue>)
    ensures
        match r {
            Some(v) => spec_lookup(kvs.deep_view(), key@) == Some(v@),
            None => spec_lookup(kvs.deep_view(), key@) is None,
        },
{
    let mut i: usize = kvs.len();
    proof {
        assert(kvs.deep_view().take(kvs.len() as int) =~= kvs.deep_view());
    }
    while i > 0
        invariant
            i <= kvs.len(),
            spec_lookup(kvs.deep_view(), key@) == spec_lookup(
                kvs.deep_view().take(i as int),
                key@,
            ),
        decreases i,
    {
        proof {
            assert(kvs.deep_view().take(i as int).last() == kvs.deep_view()[i - 1]);
            assert(kvs.deep_view().take(i as int).drop_last() =~= kvs.deep_view().take(i - 1));
            assert(kvs.deep_view()[i - 1].0 == kvs@[i - 1].0@);
            assert(kvs.deep_view()[i - 1].1 == kvs@[i - 1].1@);
        }
        if str_eq(kvs[i - 1].0.as_str(), key) {
            return Some(&kvs[i - 1].1);
        }
        i = i - 1;
    }
    proof {
        assert(kvs.deep_view().take(0) =~= Seq::<(Seq<char>, ConfValueView)>::empty());
    }
    None
}

/// Looks `key` up in the merged space formed by `base` overlaid with
/// `over`: the overriding layer wins on collision.
pub fn lookup_merged<'a>(
    base: &'a Vec<(String, ConfValue)>,
    over: &'a Vec<(String, ConfValue)>,
    key: &str,
) -> (r: Option<&'a ConfValue>)
    ensures
        match r {
            Some(v) => spec_lookup(base.deep_view() + over.deep_view(), key@) == Some(v@),
            None => spec_lookup(base.deep_view() + over.deep_view(), key@) is None,
        },
{
    proof {
        lemma_lookup_append(base.deep_view(), over.deep_view(), key@);
    }
    match lookup(over, key) {
        Some(v) => Some(v),
        None => lookup(base, key),
    }
}

} // verus!
