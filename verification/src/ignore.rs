//! The ignore-rule matcher: a deliberately simplified subset of ignore-file
//! syntax.  A ruleset is an ordered list of raw patterns; a path is ignored
//! when any pattern matches.  There is no negation, no `**`, and no
//! character class: a pattern is either anchored with a leading slash, a
//! single-wildcard prefix/suffix test, or a literal path that also matches
//! everything under it.

use crate::strutil::{
    count_char, count_char_in, find_first, find_last, first_pos, last_pos, lemma_first_pos,
    lemma_last_pos, spec_trim, str_eq, str_starts_with, str_ends_with, substring_copy, trim,
};
use vstd::prelude::*;

verus! {

/// One trailing `/` removed, so that a directory-style pattern matches the
/// directory and everything under it.
pub open spec fn strip_trailing_slash(p: Seq<char>) -> Seq<char> {
    if p.len() > 0 && p[p.len() - 1] == '/' {
        p.drop_last()
    } else {
        p
    }
}

/// `q` followed by a slash is a prefix of `rel`: `rel` lies under the
/// directory `q`.
pub open spec fn dir_prefix_of(q: Seq<char>, rel: Seq<char>) -> bool {
    rel.len() > q.len() && rel.subrange(0, q.len() as int) == q && rel[q.len() as int] == '/'
}

/// Whether the pattern `pat` matches the relative path `rel`.
///
/// After stripping one trailing slash: a pattern with a leading slash is
/// anchored at the root and matches the exact path, anything under it, or —
/// when the anchored pattern itself starts with `*` — any path ending with
/// the part after that star.  Otherwise a pattern holding exactly one `*`
/// splits there and matches by prefix and suffix.  Any other pattern is a
/// literal that matches the exact path or anything under it.
pub open spec fn spec_match_pattern(rel: Seq<char>, pat: Seq<char>) -> bool {
    let p = strip_trailing_slash(pat);
    if p.len() > 0 && p[0] == '/' {
        let q = p.drop_first();
        ||| rel == q
        ||| dir_prefix_of(q, rel)
        ||| (q.len() > 0 && q[0] == '*' && q.drop_first().is_suffix_of(rel))
    } else if count_char(p, '*') == 1 {
        let k = last_pos(p, '*');
        p.subrange(0, k).is_prefix_of(rel) && p.subrange(k + 1, p.len() as int).is_suffix_of(rel)
    } else {
        rel == p || dir_prefix_of(p, rel)
    }
}

/// Whether any pattern of `pats` matches `rel`.
pub open spec fn spec_is_ignored(rel: Seq<char>, pats: Seq<Seq<char>>) -> bool {
    exists|i: int| 0 <= i < pats.len() && spec_match_pattern(rel, pats[i])
}

/// The patterns kept from an ignore file: each line trimmed, blank lines and
/// `#`-comments skipped.
pub open spec fn spec_keep_line(l: Seq<char>) -> bool {
    spec_trim(l).len() > 0 && spec_trim(l)[0] != '#'
}

/// The ordered patterns parsed from the text of an ignore file.
pub open spec fn spec_parse_patterns(s: Seq<char>) -> Seq<Seq<char>>
    decreases s.len(),
    via spec_parse_patterns_dec
{
    let k = first_pos(s, '\n');
    if k < 0 {
        if spec_keep_line(s) {
            seq![spec_trim(s)]
        } else {
            Seq::empty()
        }
    } else {
        (if spec_keep_line(s.subrange(0, k)) {
            seq![spec_trim(s.subrange(0, k))]
        } else {
            Seq::empty()
        }) + spec_parse_patterns(s.subrange(k + 1, s.len() as int))
    }
}

#[via_fn]
proof fn spec_parse_patterns_dec(s: Seq<char>) {
    lemma_first_pos(s, '\n');
}

/// An ordered ignore ruleset, loaded once per filesystem source.
pub struct GitIgnoreRules {
    patterns: Vec<String>,
}

impl View for GitIgnoreRules {
    type V = Seq<Seq<char>>;

    closed spec fn view(&self) -> Seq<Seq<char>> {
        self.patterns.deep_view()
    }
}

impl GitIgnoreRules {
    /// An empty ruleset, which ignores nothing.
    pub fn new() -> (r: GitIgnoreRules)
        ensures
            r@ == Seq::<Seq<char>>::empty(),
    {
        let r = GitIgnoreRules { patterns: Vec::new() };
        proof {
            assert(r@ =~= Seq::<Seq<char>>::empty());
        }
        r
    }

    /// Parse the text of an ignore file into a ruleset.
    pub fn from_content(content: &str) -> (r: GitIgnoreRules)
        ensures
            r@ == spec_parse_patterns(content@),
    {
        let n = content.unicode_len();
        let mut patterns: Vec<String> = Vec::new();
        let mut start: usize = 0;
        proof {
            assert(content@.subrange(0, n as int) =~= content@);
            assert(patterns.deep_view() + spec_parse_patterns(content@) =~= spec_parse_patterns(
                content@,
            ));
        }
        while start < n
            invariant
                n == content@.len(),
                start <= n,
                spec_parse_patterns(content@) =~= patterns.deep_view() + spec_parse_patterns(
                    content@.subrange(start as int, n as int),
                ),
            decreases n - start,
        {
            let ghost pre = patterns.deep_view();
            let rest = content.substring_char(start, n);
            let (line_end, next_start): (usize, usize) = match find_first(rest, '\n') {
                Some(k) => (k, start + k + 1),
                None => (n - start, n),
            };
            let line = rest.substring_char(0, line_end);
            let t = trim(line);
            let keep = t.unicode_len() > 0 && t.as_str().get_char(0) != '#';
            if keep {
                patterns.push(t);
            }
            proof {
                let restv = content@.subrange(start as int, n as int);
                let linev = restv.subrange(0, line_end as int);
                assert(linev == line@);
                if first_pos(restv, '\n') >= 0 {
                    assert(restv.subrange(line_end + 1, restv.len() as int) =~= content@.subrange(
                        next_start as int,
                        n as int,
                    ));
                } else {
                    assert(linev =~= restv);
                    assert(content@.subrange(next_start as int, n as int) =~= Seq::<
                        char,
                    >::empty());
                }
                if keep {
                    assert(patterns.deep_view() =~= pre.push(t@));
                    assert(pre.push(t@) =~= pre + seq![spec_trim(linev)]);
                }
                assert(patterns.deep_view() + spec_parse_patterns(
                    content@.subrange(next_start as int, n as int),
                ) =~= pre + spec_parse_patterns(restv));
            }
            start = next_start;
        }
        proof {
            assert(spec_parse_patterns(content@.subrange(start as int, n as int)) =~= Seq::<
                Seq<char>,
            >::empty());
            assert(patterns.deep_view() + Seq::<Seq<char>>::empty() =~= patterns.deep_view());
        }
        let r = GitIgnoreRules { patterns };
        r
    }

    /// Whether any rule of this set matches `rel_path`.
    pub fn is_ignored(&self, rel_path: &str) -> (r: bool)
        ensures
            r == spec_is_ignored(rel_path@, self@),
    {
        let n = self.patterns.len();
        let mut i: usize = 0;
        while i < n
            invariant
                n == self.patterns@.len(),
                i <= n,
                forall|j: int| 0 <= j < i ==> !spec_match_pattern(rel_path@, self@[j]),
            decreases n - i,
        {
            if self.match_pattern(rel_path, self.patterns[i].as_str()) {
                proof {
                    assert(spec_match_pattern(rel_path@, self@[i as int]));
                }
                return true;
            }
            i = i + 1;
        }
        false
    }

    /// Whether the single pattern `pat` matches `rel_path`.
    pub fn match_pattern(&self, rel_path: &str, pat: &str) -> (r: bool)
        ensures
            r == spec_match_pattern(rel_path@, pat@),
    {
        let pn = pat.unicode_len();
        let stripped_end: usize = if pn > 0 && pat.get_char(pn - 1) == '/' {
            pn - 1
        } else {
            pn
        };
        let p = pat.substring_char(0, stripped_end);
        proof {
            assert(p@ == strip_trailing_slash(pat@));
        }
        let plen = p.unicode_len();
        if plen > 0 && p.get_char(0) == '/' {
            let q = p.substring_char(1, plen);
            proof {
                assert(q@ == p@.drop_first());
            }
            if str_eq(rel_path, q) {
                return true;
            }
            if self.is_under_dir(rel_path, q) {
                return true;
            }
            let qlen = q.unicode_len();
            if qlen > 0 && q.get_char(0) == '*' {
                let after = q.substring_char(1, qlen);
                proof {
                    assert(after@ == q@.drop_first());
                }
                if str_ends_with(rel_path, after) {
                    return true;
                }
            }
            false
        } else if count_char_in(p, '*') == 1 {
            proof {
                lemma_last_pos(p@, '*');
            }
            let k = match find_last(p, '*') {
                Some(k) => k,
                None => {
                    proof {
                        lemma_last_pos(p@, '*');
                        crate::strutil::lemma_count_char_zero(p@, '*');
                        assert(false);
                    }
                    return false;
                },
            };
            let prefix = p.substring_char(0, k);
            let suffix = p.substring_char(k + 1, plen);
            str_starts_with(rel_path, prefix) && str_ends_with(rel_path, suffix)
        } else {
            if str_eq(rel_path, p) {
                return true;
            }
            self.is_under_dir(rel_path, p)
        }
    }

    /// Whether `rel` lies strictly under the directory path `q`.
    fn is_under_dir(&self, rel: &str, q: &str) -> (r: bool)
        ensures
            r == dir_prefix_of(q@, rel@),
    {
        let qlen = q.unicode_len();
        let rlen = rel.unicode_len();
        if rlen <= qlen {
            return false;
        }
        if !str_starts_with(rel, q) {
            return false;
        }
        proof {
            assert(rel@.subrange(0, qlen as int) == q@);
        }
        rel.get_char(qlen) == '/'
    }
}

} // verus!
