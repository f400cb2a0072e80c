use vstd::prelude::*;
use vstd::string::StrSliceExecFns;

verus! {

/// The whitespace characters stripped from remote command output: exactly
/// the set `char::is_whitespace` accepts (the Unicode `White_Space`
/// property).
pub open spec fn is_blank(c: char) -> bool {
    ||| c == '\u{0009}'
    ||| c == '\u{000A}'
    ||| c == '\u{000B}'
    ||| c == '\u{000C}'
    ||| c == '\u{000D}'
    ||| c == '\u{0020}'
    ||| c == '\u{0085}'
    ||| c == '\u{00A0}'
    ||| c == '\u{1680}'
    ||| ('\u{2000}' <= c && c <= '\u{200A}')
    ||| c == '\u{2028}'
    ||| c == '\u{2029}'
    ||| c == '\u{202F}'
    ||| c == '\u{205F}'
    ||| c == '\u{3000}'
}

/// How many blank characters the text starts with.
pub open spec fn blank_prefix_len(s: Seq<char>) -> nat
    decreases s.len(),
{
    if s.len() == 0 {
        0
    } else if !is_blank(s[0]) {
        0
    } else {
        1 + blank_prefix_len(s.drop_first())
    }
}

/// How many blank characters the text ends with.
pub open spec fn blank_suffix_len(s: Seq<char>) -> nat
    decreases s.len(),
{
    if s.len() == 0 {
        0
    } else if !is_blank(s.last()) {
        0
    } else {
        1 + blank_suffix_len(s.drop_last())
    }
}

/// The text with surrounding blanks removed.
pub open spec fn trimmed(s: Seq<char>) -> Seq<char> {
    if blank_prefix_len(s) == s.len() {
        Seq::empty()
    } else {
        s.subrange(blank_prefix_len(s) as int, s.len() - blank_suffix_len(s))
    }
}

proof fn lemma_blank_prefix(s: Seq<char>, k: int)
    requires
        0 <= k <= s.len(),
        forall|j: int| 0 <= j < k ==> is_blank(s[j]),
        k < s.len() ==> !is_blank(s[k]),
    ensures
        blank_prefix_len(s) == k,
    decreases s.len(),
{
    if s.len() == 0 {
    } else if k == 0 {
    } else {
        assert(is_blank(s[0]));
        let t = s.drop_first();
        assert(forall|j: int| 0 <= j < k - 1 ==> is_blank(t[j]));
        lemma_blank_prefix(t, k - 1);
    }
}

proof fn lemma_blank_suffix(s: Seq<char>, k: int)
    requires
        0 <= k <= s.len(),
        forall|j: int| s.len() - k <= j < s.len() ==> is_blank(s[j]),
        k < s.len() ==> !is_blank(s[s.len() - k - 1]),
    ensures
        blank_suffix_len(s) == k,
    decreases s.len(),
{
    if s.len() == 0 {
    } else if k == 0 {
        assert(!is_blank(s.last()));
    } else {
        assert(is_blank(s.last()));
        let t = s.drop_last();
        assert(forall|j: int| t.len() - (k - 1) <= j < t.len() ==> is_blank(t[j]));
        lemma_blank_suffix(t, k - 1);
    }
}

/// Whether a character counts as surrounding whitespace.
pub fn blank_char(c: char) -> (r: bool)
    ensures
        r == is_blank(c),
{
    c == '\u{0009}' || c == '\u{000A}' || c == '\u{000B}' || c == '\u{000C}' || c == '\u{000D}'
        || c == '\u{0020}' || c == '\u{0085}' || c == '\u{00A0}' || c == '\u{1680}' || ('\u{2000}'
        <= c && c <= '\u{200A}') || c == '\u{2028}' || c == '\u{2029}' || c == '\u{202F}' || c
        == '\u{205F}' || c == '\u{3000}'
}

/// Remote command output with surrounding whitespace removed; the session
/// capability hands a command's collected output through this before any
/// check sees it.
pub fn trim_output(s: &str) -> (r: String)
    ensures
        r@ == trimmed(s@),
{
    let n = s.unicode_len();
    let mut start: usize = 0;
    while start < n && blank_char(s.get_char(start))
        invariant
            0 <= start <= n,
            n == s@.len(),
            forall|j: int| 0 <= j < start ==> is_blank(s@[j]),
        decreases n - start,
    {
        start += 1;
    }
    if start == n {
        proof {
            lemma_blank_prefix(s@, n as int);
        }
        return String::new();
    }
    let mut end: usize = n;
    while end > start && blank_char(s.get_char(end - 1))
        invariant
            start < n,
            start <= end <= n,
            n == s@.len(),
            !is_blank(s@[start as int]),
            forall|j: int| end <= j < n ==> is_blank(s@[j]),
        decreases end,
    {
        end -= 1;
    }
    proof {
        lemma_blank_prefix(s@, start as int);
        assert(end > start);
        assert(!is_blank(s@[end - 1]));
        lemma_blank_suffix(s@, n - end);
    }
    let piece = s.substring_char(start, end);
    piece.to_owned()
}

/// Character-by-character equality of two string slices.
///
/// Rust's `==` on `&str` carries no specification here, so the registry and
/// the severity parser compare identifiers through this function instead.
pub fn str_eq(a: &str, b: &str) -> (r: bool)
    ensures
        r == (a@ == b@),
{
    let alen = a.unicode_len();
    let blen = b.unicode_len();
    if alen != blen {
        return false;
    }
    let mut i: usize = 0;
    while i < alen
        invariant
            i <= alen,
            alen == a@.len(),
            blen == b@.len(),
            alen == blen,
            forall|j: int| 0 <= j < i ==> a@[j] == b@[j],
        decreases alen - i,
    {
        if a.get_char(i) != b.get_char(i) {
            proof {
                assert(a@[i as int] != b@[i as int]);
            }
            return false;
        }
        i += 1;
    }
    proof {
        assert(a@ =~= b@);
    }
    true
}

/// Membership of a string in a list of strings, compared by contents.
pub fn contains_str(ids: &Vec<String>, s: &str) -> (r: bool)
    ensures
        r == ids@.map_values(|t: String| t@).contains(s@),
{
    let ghost views = ids@.map_values(|t: String| t@);
    let mut i: usize = 0;
    while i < ids.len()
        invariant
            i <= ids@.len(),
            views == ids@.map_values(|t: String| t@),
            forall|j: int| 0 <= j < i ==> views[j] != s@,
        decreases ids@.len() - i,
    {
        if str_eq(ids[i].as_str(), s) {
            proof {
                assert(views[i as int] == s@);
            }
            return true;
        }
        i += 1;
    }
    proof {
        assert(forall|j: int| 0 <= j < views.len() ==> views[j] != s@);
    }
    false
}

} // verus!
