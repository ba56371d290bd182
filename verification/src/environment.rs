use crate::text::{lower_char, lower_char_exec, to_lower};
use vstd::prelude::*;

verus! {

/// The deployment environment the application runs in. A closed set:
/// there are exactly two variants, and classification of free-form
/// strings always lands on one of them (or fails, under the strict
/// policy).
#[derive(Debug, Clone, PartialEq, Eq, Structural)]
pub enum Env {
    PROD,
    DEV,
}

/// Does `s` name the development environment (case-insensitively)?
pub open spec fn is_dev_name(s: Seq<char>) -> bool {
    to_lower(s) == "dev"@ || to_lower(s) == "development"@
}

/// Does `s` name the production environment (case-insensitively)?
pub open spec fn is_prod_name(s: Seq<char>) -> bool {
    to_lower(s) == "prod"@ || to_lower(s) == "production"@
}

/// Lenient classification: production names map to `PROD`, everything
/// else — development names, unrecognized strings — falls back to the
/// safe default `DEV`.
pub open spec fn spec_classify_lenient(s: Seq<char>) -> Env {
    if is_prod_name(s) {
        Env::PROD
    } else {
        Env::DEV
    }
}

/// The two classification policies agree wherever both succeed: a
/// recognized development name classifies as `DEV` and a recognized
/// production name as `PROD`, under the lenient policy exactly as
/// under the strict one. Only unrecognized input tells them apart.
pub proof fn lemma_policies_agree(s: Seq<char>)
    ensures
        is_dev_name(s) ==> spec_classify_lenient(s) == Env::DEV,
        is_prod_name(s) ==> spec_classify_lenient(s) == Env::PROD,
{
    reveal_strlit("dev");
    reveal_strlit("development");
    reveal_strlit("prod");
    reveal_strlit("production");
    assert("dev"@.len() == 3 && "development"@.len() == 11 && "prod"@.len() == 4
        && "production"@.len() == 10);
}

/// Compares `s` case-insensitively against an already-lowercase word.
fn eq_lower(s: &str, lit: &str) -> (r: bool)
    ensures
        r == (to_lower(s@) == lit@),
{
    let ls = s.unicode_len();
    let ll = lit.unicode_len();
    if ls != ll {
        proof {
            assert(to_lower(s@).len() != lit@.len());
        }
        return false;
    }
    let mut i: usize = 0;
    while i < ls
        invariant
            ls == s@.len(),
            ls == lit@.len(),
            i <= ls,
            forall|j: int| 0 <= j < i ==> lower_char(s@[j]) == lit@[j],
        decreases ls - i,
    {
        if lower_char_exec(s.get_char(i)) != lit.get_char(i) {
            proof {
                assert(to_lower(s@)[i as int] != lit@[i as int]);
            }
            return false;
        }
        i = i + 1;
    }
    proof {
        assert(to_lower(s@) =~= lit@);
    }
    true
}

impl Env {
    /// Lenient parse used during normal resolution: recognized
    /// production names give `PROD`; everything else, including
    /// unrecognized input, gives the safe default `DEV`. Never fails.
    #[allow(clippy::should_implement_trait)]
    pub fn from_str(input: &str) -> (r: Result<Env, ()>)
        ensures
            r matches Ok(e) && e == spec_classify_lenient(input@),
    {
        if eq_lower(input, "prod") || eq_lower(input, "production") {
            Ok(Env::PROD)
        } else {
            Ok(Env::DEV)
        }
    }

    /// Classification for input already known to name an environment.
    /// Callers with possibly unrecognized input use `try_from` (strict)
    /// or `from_str` (lenient) instead.
    pub fn from_name(s: &str) -> (r: Env)
        requires
            is_dev_name(s@) || is_prod_name(s@),
        ensures
            r == spec_classify_lenient(s@),
    {
        if eq_lower(s, "prod") || eq_lower(s, "production") {
            Env::PROD
        } else {
            Env::DEV
        }
    }

    /// Strict classification: an unrecognized name is rejected with a
    /// descriptive error rather than silently mapped to a default.
    pub fn try_from(s: String) -> (r: Result<Env, String>)
        ensures
            match r {
                Ok(e) => (is_dev_name(s@) && e == Env::DEV) || (is_prod_name(s@) && e
                    == Env::PROD),
                Err(m) => !is_dev_name(s@) && !is_prod_name(s@) && m@ == s@
                    + " is not a supported environment. Use either `dev` or `production`."@,
            },
    {
        if eq_lower(s.as_str(), "dev") || eq_lower(s.as_str(), "development") {
            Ok(Env::DEV)
        } else if eq_lower(s.as_str(), "prod") || eq_lower(s.as_str(), "production") {
            Ok(Env::PROD)
        } else {
            Err(s.concat(" is not a supported environment. Use either `dev` or `production`."))
        }
    }
}

impl Default for Env {
    /// The safe default environment.
    fn default() -> (r: Env)
        ensures
            r == Env::DEV,
    {
        Env::DEV
    }
}

} // verus!

