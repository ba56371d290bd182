use vstd::prelude::*;

verus! {

// Character-level helpers shared by the section extractor, the
// key/value parser and the environment classifier.

/// Whitespace that may surround keys, values and whole lines.
/// A carriage return is treated as trailing whitespace so documents
/// with CRLF line endings parse the same as LF documents.
pub open spec fn is_ws(c: char) -> bool {
    c == ' ' || c == '\t' || c == '\r'
}

pub fn is_ws_exec(c: char) -> (r: bool)
    ensures
        r == is_ws(c),
{
    c == ' ' || c == '\t' || c == '\r'
}

pub open spec fn is_digit(c: char) -> bool {
    48 <= c as u32 && c as u32 <= 57
}

pub fn is_digit_exec(c: char) -> (r: bool)
    ensures
        r == is_digit(c),
{
    let u: u32 = c as u32;
    48 <= u && u <= 57
}

/// Numeric value of a decimal digit character.
pub open spec fn digit_val(c: char) -> nat {
    (c as u32 - 48) as nat
}

/// ASCII lowercase image of a character; anything outside `A`..`Z`
/// is left unchanged.
pub open spec fn lower_char(c: char) -> char {
    if 65 <= c as u32 && c as u32 <= 90 {
        (c as u32 + 32) as char
    } else {
        c
    }
}

pub fn lower_char_exec(c: char) -> (r: char)
    ensures
        r == lower_char(c),
{
    let u: u32 = c as u32;
    if 65 <= u && u <= 90 {
        ((u + 32) as u8) as char
    } else {
        c
    }
}

/// Character-wise ASCII lowercase image of a string.
pub open spec fn to_lower(s: Seq<char>) -> Seq<char> {
    Seq::new(s.len(), |i: int| lower_char(s[i]))
}

/// Relies on std's `String::push`: appends exactly the given character
/// at the end of the string.
#[verifier::external_body]
pub(crate) fn push_char(s: &mut String, c: char)
    ensures
        final(s)@ == old(s)@.push(c),
{
    s.push(c);
}

/// Lowercases a string character by character.
pub fn to_lower_string(s: &str) -> (r: String)
    ensures
        r@ == to_lower(s@),
{
    let len = s.unicode_len();
    let mut out = String::new();
    let mut i: usize = 0;
    while i < len
        invariant
            len == s@.len(),
            i <= len,
            out@ =~= to_lower(s@).subrange(0, i as int),
        decreases len - i,
    {
        let c = lower_char_exec(s.get_char(i));
        push_char(&mut out, c);
        i = i + 1;
    }
    proof {
        assert(out@ =~= to_lower(s@));
    }
    out
}

/// Character-for-character string equality.
pub fn str_eq(a: &str, b: &str) -> (r: bool)
    ensures
        r == (a@ == b@),
{
    let la = a.unicode_len();
    let lb = b.unicode_len();
    if la != lb {
        return false;
    }
    let mut i: usize = 0;
    while i < la
        invariant
            la == a@.len(),
            la == b@.len(),
            i <= la,
            forall|j: int| 0 <= j < i ==> a@[j] == b@[j],
        decreases la - i,
    {
        if a.get_char(i) != b.get_char(i) {
            return false;
        }
        i = i + 1;
    }
    proof {
        assert(a@ =~= b@);
    }
    true
}

/// Does `pat` occur in `s` starting at offset `i`?
pub fn str_matches_at(s: &str, slen: usize, i: usize, pat: &str, plen: usize) -> (r: bool)
    requires
        slen == s@.len(),
        plen == pat@.len(),
        i + plen <= slen,
    ensures
        r == (s@.subrange(i as int, i + pat@.len()) == pat@),
{
    let mut j: usize = 0;
    while j < plen
        invariant
            slen == s@.len(),
            plen == pat@.len(),
            i + plen <= slen,
            j <= plen,
            forall|k: int| 0 <= k < j ==> s@[i + k] == pat@[k],
        decreases plen - j,
    {
        if s.get_char(i + j) != pat.get_char(j) {
            proof {
                assert(s@.subrange(i as int, i + pat@.len())[j as int] != pat@[j as int]);
            }
            return false;
        }
        j = j + 1;
    }
    proof {
        assert(s@.subrange(i as int, i + pat@.len()) =~= pat@);
    }
    true
}

/// Index of the first occurrence of `c` in `t` at or after `from`.
pub open spec fn spec_find_char(t: Seq<char>, from: int, c: char) -> Option<int>
    decreases t.len() - from,
{
    if from < 0 || from >= t.len() {
        None
    } else if t[from] == c {
        Some(from)
    } else {
        spec_find_char(t, from + 1, c)
    }
}

pub proof fn lemma_find_char_props(t: Seq<char>, from: int, c: char)
    requires
        0 <= from <= t.len(),
    ensures
        match spec_find_char(t, from, c) {
            Some(i) => from <= i < t.len() && t[i] == c && forall|j: int|
                from <= j < i ==> t[j] != c,
            None => forall|j: int| from <= j < t.len() ==> t[j] != c,
        },
    decreases t.len() - from,
{
    if from < t.len() && t[from] != c {
        lemma_find_char_props(t, from + 1, c);
    }
}

pub fn find_char(s: &str, len: usize, from: usize, c: char) -> (r: Option<usize>)
    requires
        len == s@.len(),
        from <= len,
    ensures
        match r {
            Some(i) => spec_find_char(s@, from as int, c) == Some(i as int) && from <= i < len,
            None => spec_find_char(s@, from as int, c) is None,
        },
{
    let mut i: usize = from;
    while i < len
        invariant
            len == s@.len(),
            from <= i <= len,
            spec_find_char(s@, from as int, c) == spec_find_char(s@, i as int, c),
        decreases len - i,
    {
        if s.get_char(i) == c {
            return Some(i);
        }
        i = i + 1;
    }
    None
}

/// Number of newline characters in `t`.
pub open spec fn count_newlines(t: Seq<char>) -> nat
    decreases t.len(),
{
    if t.len() == 0 {
        0
    } else {
        count_newlines(t.drop_last()) + (if t.last() == '\n' {
            1nat
        } else {
            0nat
        })
    }
}

/// Counts the newline characters among the first `end` characters of `s`.
pub fn count_newlines_upto(s: &str, len: usize, end: usize) -> (r: usize)
    requires
        len == s@.len(),
        end <= len,
    ensures
        r == count_newlines(s@.subrange(0, end as int)),
{
    let mut i: usize = 0;
    let mut cnt: usize = 0;
    while i < end
        invariant
            len == s@.len(),
            end <= len,
            i <= end,
            cnt <= i,
            cnt == count_newlines(s@.subrange(0, i as int)),
        decreases end - i,
    {
        let c = s.get_char(i);
        proof {
            assert(s@.subrange(0, i + 1).drop_last() =~= s@.subrange(0, i as int));
            assert(s@.subrange(0, i + 1).last() == s@[i as int]);
        }
        if c == '\n' {
            cnt = cnt + 1;
        }
        i = i + 1;
    }
    cnt
}

/// `l` with leading whitespace removed.
pub open spec fn trim_front(l: Seq<char>) -> Seq<char>
    decreases l.len(),
{
    if l.len() > 0 && is_ws(l[0]) {
        trim_front(l.drop_first())
    } else {
        l
    }
}

/// `l` with trailing whitespace removed.
pub open spec fn trim_back(l: Seq<char>) -> Seq<char>
    decreases l.len(),
{
    if l.len() > 0 && is_ws(l.last()) {
        trim_back(l.drop_last())
    } else {
        l
    }
}

/// `l` with surrounding whitespace removed.
pub open spec fn spec_trim(l: Seq<char>) -> Seq<char> {
    trim_back(trim_front(l))
}

/// Removes surrounding whitespace from a string.
pub fn trim(s: &str) -> (r: &str)
    ensures
        r@ == spec_trim(s@),
{
    let len = s.unicode_len();
    proof {
        assert(s@.subrange(0, len as int) =~= s@);
    }
    let mut a: usize = 0;
    while a < len && is_ws_exec(s.get_char(a))
        invariant
            len == s@.len(),
            a <= len,
            trim_front(s@) == trim_front(s@.subrange(a as int, len as int)),
        decreases len - a,
    {
        proof {
            assert(s@.subrange(a as int, len as int).drop_first() =~= s@.subrange(
                a + 1,
                len as int,
            ));
        }
        a = a + 1;
    }
    proof {
        if a < len {
            assert(trim_front(s@) =~= s@.subrange(a as int, len as int));
        } else {
            assert(s@.subrange(a as int, len as int) =~= Seq::<char>::empty());
            assert(trim_front(s@) =~= s@.subrange(a as int, len as int));
        }
    }
    let mut b: usize = len;
    while b > a && is_ws_exec(s.get_char(b - 1))
        invariant
            len == s@.len(),
            a <= b <= len,
            trim_front(s@) == s@.subrange(a as int, len as int),
            trim_back(s@.subrange(a as int, len as int)) == trim_back(
                s@.subrange(a as int, b as int),
            ),
        decreases b,
    {
        proof {
            assert(s@.subrange(a as int, b as int).drop_last() =~= s@.subrange(
                a as int,
                b - 1,
            ));
        }
        b = b - 1;
    }
    proof {
        if b > a {
            assert(trim_back(s@.subrange(a as int, b as int)) =~= s@.subrange(
                a as int,
                b as int,
            ));
        } else {
            assert(s@.subrange(a as int, b as int) =~= Seq::<char>::empty());
            assert(trim_back(s@.subrange(a as int, b as int)) =~= s@.subrange(
                a as int,
                b as int,
            ));
        }
    }
    s.substring_char(a, b)
}

/// Is every character of `s` a decimal digit?
pub open spec fn all_digits(s: Seq<char>) -> bool {
    forall|i: int| 0 <= i < s.len() ==> is_digit(s[i])
}

/// Value of a string of decimal digits, most significant first.
pub open spec fn digits_val(s: Seq<char>) -> nat
    decreases s.len(),
{
    if s.len() == 0 {
        0
    } else {
        digits_val(s.drop_last()) * 10 + digit_val(s.last())
    }
}

proof fn lemma_digits_val_prefix(s: Seq<char>, i: int)
    requires
        0 <= i <= s.len(),
    ensures
        digits_val(s.subrange(0, i)) <= digits_val(s),
    decreases s.len() - i,
{
    if i < s.len() {
        lemma_digits_val_prefix(s, i + 1);
        assert(s.subrange(0, i + 1).drop_last() =~= s.subrange(0, i));
        assert(digits_val(s.subrange(0, i)) <= digits_val(s.subrange(0, i + 1)));
    } else {
        assert(s.subrange(0, i) =~= s);
    }
}

/// A short all-digit string has a small value.
pub proof fn lemma_digits_val_bounds(s: Seq<char>)
    requires
        all_digits(s),
    ensures
        s.len() == 0 ==> digits_val(s) == 0,
        s.len() <= 1 ==> digits_val(s) <= 9,
        s.len() <= 2 ==> digits_val(s) <= 99,
        s.len() <= 3 ==> digits_val(s) <= 999,
        s.len() <= 4 ==> digits_val(s) <= 9999,
        s.len() <= 5 ==> digits_val(s) <= 99999,
    decreases s.len(),
{
    if s.len() > 0 {
        assert(all_digits(s.drop_last())) by {
            assert(forall|i: int|
                0 <= i < s.len() - 1 ==> s.drop_last()[i] == s[i] && is_digit(s[i]));
        }
        lemma_digits_val_bounds(s.drop_last());
        assert(digit_val(s.last()) <= 9);
    }
}

/// Parses a non-empty all-digit string as a `u64`; `None` when the
/// string is empty, holds a non-digit, or its value does not fit.
pub fn parse_u64(s: &str) -> (r: Option<u64>)
    ensures
        match r {
            Some(v) => s@.len() > 0 && all_digits(s@) && v == digits_val(s@)
                && digits_val(s@) <= u64::MAX,
            None => s@.len() == 0 || !all_digits(s@) || digits_val(s@) > u64::MAX,
        },
{
    let len = s.unicode_len();
    if len == 0 {
        return None;
    }
    let mut i: usize = 0;
    let mut acc: u64 = 0;
    while i < len
        invariant
            len == s@.len(),
            0 < len,
            i <= len,
            forall|j: int| 0 <= j < i ==> is_digit(s@[j]),
            acc == digits_val(s@.subrange(0, i as int)),
        decreases len - i,
    {
        let c = s.get_char(i);
        if !is_digit_exec(c) {
            return None;
        }
        let d: u64 = (c as u32 - 48) as u64;
        proof {
            assert(s@.subrange(0, i + 1).drop_last() =~= s@.subrange(0, i as int));
            assert(s@.subrange(0, i + 1).last() == s@[i as int]);
        }
        if acc > (u64::MAX - d) / 10 {
            proof {
                lemma_digits_val_prefix(s@, i + 1);
                assert(digits_val(s@.subrange(0, i + 1)) == acc * 10 + d);
            }
            return None;
        }
        acc = acc * 10 + d;
        i = i + 1;
    }
    proof {
        assert(s@.subrange(0, len as int) =~= s@);
    }
    Some(acc)
}

} // verus!
