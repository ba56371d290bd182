use crate::errors::{ConfigErrorView, LeptosConfigError};
use crate::text::{count_newlines, count_newlines_upto, push_char, str_matches_at};
use vstd::prelude::*;

verus! {

// The section extractor locates the configuration section inside the
// source document by a purely textual scan — no grammar of the
// embedding document is involved — and rewrites its header to the
// resolver's canonical section name.

/// The header line that marks the configuration section in the source
/// document.
pub open spec fn section_header() -> Seq<char> {
    "[package.metadata.leptos]"@
}

/// The canonical section name the header is rewritten to.
pub open spec fn options_header() -> Seq<char> {
    "[leptos_options]"@
}

/// Is offset `i` the start of a line of `t`?
pub open spec fn is_line_start(t: Seq<char>, i: int) -> bool {
    i == 0 || t[i - 1] == '\n'
}

/// Does the section header occur at offset `i` of `t`, anchored at the
/// start of a line?
pub open spec fn header_match_at(t: Seq<char>, i: int) -> bool {
    &&& 0 <= i
    &&& i + section_header().len() <= t.len()
    &&& is_line_start(t, i)
    &&& t.subrange(i, i + section_header().len()) == section_header()
}

/// Offset of the first header match at or after `i`, if any.
pub open spec fn spec_find_section_from(t: Seq<char>, i: int) -> Option<int>
    decreases t.len() - i,
{
    if i < 0 || i > t.len() {
        None
    } else if header_match_at(t, i) {
        Some(i)
    } else if i == t.len() {
        None
    } else {
        spec_find_section_from(t, i + 1)
    }
}

/// Offset of the first header match in `t`, if any.
pub open spec fn spec_find_section(t: Seq<char>) -> Option<int> {
    spec_find_section_from(t, 0)
}

proof fn lemma_find_section_from_props(t: Seq<char>, i: int)
    requires
        0 <= i <= t.len(),
    ensures
        match spec_find_section_from(t, i) {
            Some(k) => i <= k && header_match_at(t, k) && forall|j: int|
                i <= j < k ==> !header_match_at(t, j),
            None => forall|j: int| i <= j ==> !header_match_at(t, j),
        },
    decreases t.len() - i,
{
    if !header_match_at(t, i) && i < t.len() {
        lemma_find_section_from_props(t, i + 1);
    }
}

/// The first match really is the first: no earlier offset matches, and
/// a `None` result means no offset matches at all.
pub proof fn lemma_find_section_props(t: Seq<char>)
    ensures
        match spec_find_section(t) {
            Some(k) => header_match_at(t, k) && forall|j: int| j < k ==> !header_match_at(t, j),
            None => forall|j: int| !header_match_at(t, j),
        },
{
    lemma_find_section_from_props(t, 0);
    assert(forall|j: int| j < 0 ==> !header_match_at(t, j));
}

/// Scans the document for the first line-anchored occurrence of the
/// section header.
pub fn find_section(text: &str, len: usize) -> (r: Option<usize>)
    requires
        len == text@.len(),
    ensures
        match r {
            Some(i) => spec_find_section(text@) == Some(i as int),
            None => spec_find_section(text@) is None,
        },
{
    let pat = "[package.metadata.leptos]";
    proof {
        reveal_strlit("[package.metadata.leptos]");
    }
    let plen = pat.unicode_len();
    let mut i: usize = 0;
    while i < len
        invariant
            len == text@.len(),
            plen == section_header().len(),
            pat@ == section_header(),
            plen == 25,
            i <= len,
            spec_find_section(text@) == spec_find_section_from(text@, i as int),
        decreases len - i,
    {
        let at_line_start = i == 0 || text.get_char(i - 1) == '\n';
        let fits: bool = plen <= len - i;
        if at_line_start && fits && str_matches_at(text, len, i, pat, plen) {
            return Some(i);
        }
        proof {
            assert(!header_match_at(text@, i as int));
        }
        i = i + 1;
    }
    proof {
        assert(!header_match_at(text@, len as int));
    }
    None
}

/// `s` with every hyphen replaced by an underscore, so the keys of the
/// extracted section use one uniform spelling in the merged space.
pub open spec fn dash_to_underscore(s: Seq<char>) -> Seq<char> {
    Seq::new(
        s.len(),
        |i: int|
            if s[i] == '-' {
                '_'
            } else {
                s[i]
            },
    )
}

/// `n` newline characters.
pub open spec fn blank_prefix(n: nat) -> Seq<char> {
    Seq::new(n, |i: int| '\n')
}

/// Line-number fidelity of the rewrite: the blank prefix holds exactly
/// as many newlines as preceded the match, so every line of the
/// rewritten section keeps the line number it had in the source
/// document and downstream diagnostics cite the right lines.
pub proof fn lemma_blank_prefix_newlines(n: nat)
    ensures
        count_newlines(blank_prefix(n)) == n,
    decreases n,
{
    if n > 0 {
        assert(blank_prefix(n).drop_last() =~= blank_prefix((n - 1) as nat));
        lemma_blank_prefix_newlines((n - 1) as nat);
    }
}

/// The rewritten section for a document `t` whose header match is at
/// offset `i`: one blank line for every newline before the match (so
/// downstream diagnostics keep the document's line numbers), then the
/// canonical section name, then the rest of the document with hyphens
/// normalized to underscores.
pub open spec fn spec_rewritten(t: Seq<char>, i: int) -> Seq<char> {
    blank_prefix(count_newlines(t.subrange(0, i))) + options_header() + dash_to_underscore(
        t.subrange(i + section_header().len(), t.len() as int),
    )
}

/// The extractor's overall result on a document: the rewritten section
/// for the first header match, or failure when no line of the document
/// carries the header.
pub open spec fn spec_extract(t: Seq<char>) -> Result<Seq<char>, ConfigErrorView> {
    match spec_find_section(t) {
        Some(i) => Ok(spec_rewritten(t, i)),
        None => Err(ConfigErrorView::ConfigSectionNotFound),
    }
}

/// Locates the configuration section and returns the rewritten text
/// that serves as the base configuration layer; fails with
/// `ConfigSectionNotFound` when the document holds no section header.
pub fn extract_section(text: &str) -> (r: Result<String, LeptosConfigError>)
    ensures
        match r {
            Ok(s) => spec_extract(text@) matches Ok(v) && s@ == v,
            Err(e) => spec_extract(text@) matches Err(v) && e@ == v,
        },
{
    let len = text.unicode_len();
    let start = match find_section(text, len) {
        Some(i) => i,
        None => {
            return Err(LeptosConfigError::ConfigSectionNotFound);
        },
    };
    proof {
        lemma_find_section_props(text@);
        reveal_strlit("[package.metadata.leptos]");
    }
    let newlines: usize = count_newlines_upto(text, len, start);
    let mut out = String::new();
    let mut k: usize = 0;
    while k < newlines
        invariant
            k <= newlines,
            out@ =~= blank_prefix(k as nat),
        decreases newlines - k,
    {
        push_char(&mut out, '\n');
        proof {
            assert(out@ =~= blank_prefix((k + 1) as nat));
        }
        k = k + 1;
    }
    out.append("[leptos_options]");
    proof {
        assert(out@ =~= blank_prefix(count_newlines(text@.subrange(0, start as int)))
            + options_header());
    }
    let mut p: usize = start + 25;
    proof {
        assert(p == start + section_header().len());
        assert(p <= len);
    }
    while p < len
        invariant
            len == text@.len(),
            start + section_header().len() <= p <= len,
            out@ =~= blank_prefix(count_newlines(text@.subrange(0, start as int)))
                + options_header() + dash_to_underscore(
                text@.subrange(start + section_header().len(), p as int),
            ),
        decreases len - p,
    {
        let c = text.get_char(p);
        if c == '-' {
            push_char(&mut out, '_');
        } else {
            push_char(&mut out, c);
        }
        proof {
            let lo = start + section_header().len();
            assert(text@.subrange(lo, p + 1) =~= text@.subrange(lo, p as int).push(
                text@[p as int],
            ));
            assert(dash_to_underscore(text@.subrange(lo, p + 1)) =~= dash_to_underscore(
                text@.subrange(lo, p as int),
            ).push(
                if text@[p as int] == '-' {
                    '_'
                } else {
                    text@[p as int]
                },
            ));
        }
        p = p + 1;
    }
    proof {
        assert(out@ =~= spec_rewritten(text@, start as int));
    }
    Ok(out)
}

} // verus!
