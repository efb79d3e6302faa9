//! Character-level string operations the pipeline needs: equality,
//! leading-whitespace trimming, and swapping a path's extension for the
//! output extension.

use vstd::prelude::*;

verus! {

/// The characters of Unicode's White_Space property, as `char::is_whitespace`
/// documents them — the set `str::trim_start` trims.
pub open spec fn is_ws_char(c: char) -> bool {
    ||| c == '\u{0009}'
    ||| c == '\u{000A}'
    ||| c == '\u{000B}'
    ||| c == '\u{000C}'
    ||| c == '\u{000D}'
    ||| c == ' '
    ||| c == '\u{0085}'
    ||| c == '\u{00A0}'
    ||| c == '\u{1680}'
    ||| c == '\u{2000}'
    ||| c == '\u{2001}'
    ||| c == '\u{2002}'
    ||| c == '\u{2003}'
    ||| c == '\u{2004}'
    ||| c == '\u{2005}'
    ||| c == '\u{2006}'
    ||| c == '\u{2007}'
    ||| c == '\u{2008}'
    ||| c == '\u{2009}'
    ||| c == '\u{200A}'
    ||| c == '\u{2028}'
    ||| c == '\u{2029}'
    ||| c == '\u{202F}'
    ||| c == '\u{205F}'
    ||| c == '\u{3000}'
}

/// The string with its leading whitespace removed.
pub open spec fn spec_trim_start(s: Seq<char>) -> Seq<char>
    decreases s.len(),
{
    if s.len() > 0 && is_ws_char(s[0]) {
        spec_trim_start(s.drop_first())
    } else {
        s
    }
}

/// `d` is the position of the dot that starts `s`'s extension: the last dot,
/// after every slash, not leading a path component and not at the start.
pub open spec fn has_extension_at(s: Seq<char>, d: int) -> bool {
    &&& 0 < d < s.len()
    &&& s[d] == '.'
    &&& s[d - 1] != '/'
    &&& forall|k: int| d < k < s.len() ==> s[k] != '.' && s[k] != '/'
}

/// The path with its extension replaced by `.html`; a path without an
/// extension gets `.html` appended.
pub open spec fn spec_swap_extension(s: Seq<char>) -> Seq<char> {
    if exists|d: int| has_extension_at(s, d) {
        s.take(choose|d: int| has_extension_at(s, d)) + ".html"@
    } else {
        s + ".html"@
    }
}

pub proof fn lemma_extension_unique(s: Seq<char>, d1: int, d2: int)
    requires
        has_extension_at(s, d1),
        has_extension_at(s, d2),
    ensures
        d1 == d2,
{
    if d1 < d2 {
        assert(s[d2] == '.');
    } else if d2 < d1 {
        assert(s[d1] == '.');
    }
}

/// Exact character-wise string equality.
pub fn str_eq(a: &str, b: &str) -> (r: bool)
    ensures
        r == (a@ == b@),
{
    let na = a.unicode_len();
    let nb = b.unicode_len();
    if na != nb {
        return false;
    }
    let mut i: usize = 0;
    while i < na
        invariant
            i <= na,
            na == a@.len(),
            nb == b@.len(),
            na == nb,
            forall|k: int| 0 <= k < i ==> a@[k] == b@[k],
        decreases na - i,
    {
        if a.get_char(i) != b.get_char(i) {
            return false;
        }
        i += 1;
    }
    proof {
        assert(a@ =~= b@);
    }
    true
}

/// Remove leading spaces, tabs, carriage returns and newlines.
pub fn trim_start(s: &str) -> (r: String)
    ensures
        r@ == spec_trim_start(s@),
{
    let n = s.unicode_len();
    let mut i: usize = 0;
    proof {
        assert(s@.skip(0) =~= s@);
    }
    while i < n && is_ws(s.get_char(i))
        invariant
            i <= n,
            n == s@.len(),
            spec_trim_start(s@) == spec_trim_start(s@.skip(i as int)),
        decreases n - i,
    {
        proof {
            assert(s@.skip(i as int).drop_first() =~= s@.skip(i as int + 1));
        }
        i += 1;
    }
    let rest = s.substring_char(i, n);
    proof {
        assert(spec_trim_start(s@.skip(i as int)) == s@.skip(i as int));
        assert(rest@ =~= s@.skip(i as int));
    }
    String::from_str(rest)
}

fn is_ws(c: char) -> (r: bool)
    ensures
        r == is_ws_char(c),
{
    c == '\u{0009}' || c == '\u{000A}' || c == '\u{000B}' || c == '\u{000C}' || c == '\u{000D}'
        || c == ' ' || c == '\u{0085}' || c == '\u{00A0}' || c == '\u{1680}' || c == '\u{2000}'
        || c == '\u{2001}' || c == '\u{2002}' || c == '\u{2003}' || c == '\u{2004}' || c
        == '\u{2005}' || c == '\u{2006}' || c == '\u{2007}' || c == '\u{2008}' || c == '\u{2009}'
        || c == '\u{200A}' || c == '\u{2028}' || c == '\u{2029}' || c == '\u{202F}' || c
        == '\u{205F}' || c == '\u{3000}'
}

/// Replace the path's extension with `.html`, or append `.html` when the
/// path has none.
pub fn swap_extension_html(s: &str) -> (r: String)
    ensures
        r@ == spec_swap_extension(s@),
{
    let n = s.unicode_len();
    let mut last_dot: usize = 0;
    let mut has_dot: bool = false;
    let mut last_slash: usize = 0;
    let mut has_slash: bool = false;
    let mut i: usize = 0;
    while i < n
        invariant
            i <= n,
            n == s@.len(),
            has_dot ==> last_dot < i && s@[last_dot as int] == '.',
            forall|k: int| 0 <= k < i && s@[k] == '.' ==> has_dot && k <= last_dot,
            has_slash ==> last_slash < i && s@[last_slash as int] == '/',
            forall|k: int| 0 <= k < i && s@[k] == '/' ==> has_slash && k <= last_slash,
        decreases n - i,
    {
        let c = s.get_char(i);
        if c == '.' {
            last_dot = i;
            has_dot = true;
        } else if c == '/' {
            last_slash = i;
            has_slash = true;
        }
        i += 1;
    }
    let good = has_dot && last_dot > 0 && (!has_slash || (last_dot > last_slash && last_dot
        - last_slash >= 2));
    if good {
        proof {
            assert(s@[last_dot as int - 1] != '/');
            assert(has_extension_at(s@, last_dot as int));
            let dc = choose|d: int| has_extension_at(s@, d);
            lemma_extension_unique(s@, dc, last_dot as int);
        }
        let stem = s.substring_char(0, last_dot);
        let mut out = String::from_str(stem);
        out.append(".html");
        proof {
            assert(out@ =~= spec_swap_extension(s@));
        }
        out
    } else {
        proof {
            assert forall|d: int| !has_extension_at(s@, d) by {
                if has_extension_at(s@, d) {
                    assert(s@[d] == '.');
                    assert(has_dot && d <= last_dot as int);
                    assert(s@[last_dot as int] == '.');
                    assert(d == last_dot as int);
                    assert(has_slash && last_dot < last_slash + 2);
                    assert(s@[last_slash as int] == '/');
                    assert(last_slash as int >= d - 1);
                    assert(s@[d - 1] != '/');
                    assert(last_slash as int >= d);
                    assert(false);
                }
            }
        }
        let mut out = String::from_str(s);
        out.append(".html");
        proof {
            assert(out@ =~= spec_swap_extension(s@));
        }
        out
    }
}

} // verus!
