//! Character-sequence helpers shared by the profile parser and the path
//! handling: ASCII-whitespace trimming, prefix tests, equality, and the
//! library's path-join convention.

use vstd::prelude::*;
use vstd::string::StrSliceExecFns;
use vstd::string::StringExecFns;

verus! {

/// The whitespace characters that trimming removes: the ASCII ones.
pub open spec fn is_ws(c: char) -> bool {
    c == ' ' || c == '\t' || c == '\n' || c == '\r' || c == '\u{000C}'
}

pub open spec fn spec_trim_start(s: Seq<char>) -> Seq<char>
    decreases s.len(),
{
    if s.len() == 0 {
        s
    } else if is_ws(s[0]) {
        spec_trim_start(s.drop_first())
    } else {
        s
    }
}

pub open spec fn spec_trim_end(s: Seq<char>) -> Seq<char>
    decreases s.len(),
{
    if s.len() == 0 {
        s
    } else if is_ws(s.last()) {
        spec_trim_end(s.drop_last())
    } else {
        s
    }
}

/// The sequence with leading and trailing ASCII whitespace removed.
pub open spec fn spec_trim(s: Seq<char>) -> Seq<char> {
    spec_trim_end(spec_trim_start(s))
}

fn is_ws_char(c: char) -> (r: bool)
    ensures
        r == is_ws(c),
{
    c == ' ' || c == '\t' || c == '\n' || c == '\r' || c == '\u{000C}'
}

proof fn lemma_trim_start_skip(s: Seq<char>, i: int)
    requires
        0 <= i <= s.len(),
        forall|k: int| 0 <= k < i ==> is_ws(s[k]),
        i < s.len() ==> !is_ws(s[i]),
    ensures
        spec_trim_start(s) == s.subrange(i, s.len() as int),
    decreases i,
{
    if i == 0 {
        assert(spec_trim_start(s) =~= s.subrange(0, s.len() as int)) by {
            if s.len() > 0 {
                assert(!is_ws(s[0]));
            }
        };
    } else {
        let t = s.drop_first();
        assert(forall|k: int| 0 <= k < i - 1 ==> is_ws(t[k]));
        lemma_trim_start_skip(t, i - 1);
        assert(t.subrange(i - 1, t.len() as int) =~= s.subrange(i, s.len() as int));
    }
}

proof fn lemma_trim_end_skip(s: Seq<char>, j: int)
    requires
        0 <= j <= s.len(),
        forall|k: int| j <= k < s.len() ==> is_ws(s[k]),
        j > 0 ==> !is_ws(s[j - 1]),
    ensures
        spec_trim_end(s) == s.subrange(0, j),
    decreases s.len() - j,
{
    if j == s.len() {
        assert(spec_trim_end(s) =~= s.subrange(0, j)) by {
            if s.len() > 0 {
                assert(!is_ws(s.last()));
            }
        };
    } else {
        let t = s.drop_last();
        assert(is_ws(s.last()));
        lemma_trim_end_skip(t, j);
        assert(t.subrange(0, j) =~= s.subrange(0, j));
    }
}

/// Whether the trimmed value is exactly the string "1".
pub open spec fn spec_is_one(s: Seq<char>) -> bool {
    spec_trim(s) == seq!['1']
}

/// Decides whether `s` trims to exactly "1", the convention a registry file
/// uses for a true `IsRelative` flag.
pub fn trims_to_one(s: &str) -> (r: bool)
    ensures
        r == spec_is_one(s@),
{
    let n = s.unicode_len();
    let mut i: usize = 0;
    while i < n && is_ws_char(s.get_char(i))
        invariant
            0 <= i <= n,
            n == s@.len(),
            forall|k: int| 0 <= k < i ==> is_ws(s@[k]),
        decreases n - i,
    {
        i = i + 1;
    }
    if i == n {
        proof {
            lemma_trim_start_skip(s@, i as int);
            assert(spec_trim_start(s@) =~= Seq::<char>::empty());
            assert(spec_trim(s@).len() == 0);
        }
        return false;
    }
    proof {
        lemma_trim_start_skip(s@, i as int);
    }
    let ghost t = s@.subrange(i as int, n as int);
    let mut j: usize = n;
    while j > i + 1 && is_ws_char(s.get_char(j - 1))
        invariant
            i < j <= n,
            n == s@.len(),
            t == s@.subrange(i as int, n as int),
            forall|k: int| j <= k < n ==> is_ws(s@[k]),
        decreases j,
    {
        j = j - 1;
    }
    if is_ws_char(s.get_char(j - 1)) {
        // only possible when j == i + 1, i.e. every kept character is blank;
        // but s[i] is not whitespace, so this cannot happen
        proof {
            assert(j == i + 1);
            assert(!is_ws(s@[i as int]));
        }
        return false;
    }
    proof {
        assert(forall|k: int| (j - i) <= k < t.len() ==> is_ws(t[k]));
        assert(t[j - i - 1] == s@[j - 1]);
        lemma_trim_end_skip(t, j - i);
        assert(spec_trim(s@) =~= s@.subrange(i as int, j as int)) by {
            assert(t.subrange(0, j - i) =~= s@.subrange(i as int, j as int));
        };
    }
    let r = j - i == 1 && s.get_char(i) == '1';
    proof {
        if r {
            assert(spec_trim(s@) =~= seq!['1']);
        } else {
            if spec_trim(s@) == seq!['1'] {
                assert(s@.subrange(i as int, j as int).len() == 1);
                assert(s@.subrange(i as int, j as int)[0] == s@[i as int]);
            }
        }
    }
    r
}

/// Whether `p` is a prefix of `s`.
pub open spec fn spec_starts_with(s: Seq<char>, p: Seq<char>) -> bool {
    p.len() <= s.len() && s.subrange(0, p.len() as int) == p
}

/// Decides whether a section name begins with the literal prefix "Profile".
pub fn starts_with_profile(s: &str) -> (r: bool)
    ensures
        r == spec_starts_with(s@, "Profile"@),
{
    proof {
        reveal_strlit("Profile");
    }
    let n = s.unicode_len();
    if n < 7 {
        return false;
    }
    let r = s.get_char(0) == 'P' && s.get_char(1) == 'r' && s.get_char(2) == 'o' && s.get_char(3)
        == 'f' && s.get_char(4) == 'i' && s.get_char(5) == 'l' && s.get_char(6) == 'e';
    proof {
        let sub = s@.subrange(0, 7);
        assert(forall|k: int| 0 <= k < 7 ==> sub[k] == s@[k]);
        if r {
            assert(sub =~= "Profile"@);
        } else {
            if sub == "Profile"@ {
                assert(s@[0] == sub[0] && s@[1] == sub[1] && s@[2] == sub[2] && s@[3] == sub[3]
                    && s@[4] == sub[4] && s@[5] == sub[5] && s@[6] == sub[6]);
                assert(false);
            }
        }
    }
    r
}

/// String equality by character sequence.
pub fn str_eq(a: &str, b: &str) -> (r: bool)
    ensures
        r == (a@ == b@),
{
    let sa: String = a.to_owned();
    let sb: String = b.to_owned();
    sa == sb
}

/// The sequence of character sequences a vector of strings stands for.
pub open spec fn strs_view(v: Seq<String>) -> Seq<Seq<char>> {
    v.map_values(|s: String| s@)
}

/// The character sequence an optional string stands for.
pub open spec fn opt_view(o: Option<String>) -> Option<Seq<char>> {
    match o {
        Some(s) => Some(s@),
        None => None,
    }
}

/// Copies a string list, keeping every value and the order.
pub fn clone_strings(v: &Vec<String>) -> (r: Vec<String>)
    ensures
        strs_view(r@) == strs_view(v@),
{
    let mut out: Vec<String> = Vec::new();
    let n = v.len();
    let mut i: usize = 0;
    while i < n
        invariant
            0 <= i <= n,
            n == v@.len(),
            out@.len() == i,
            forall|j: int| 0 <= j < i ==> out@[j]@ == v@[j]@,
        decreases n - i,
    {
        out.push(v[i].clone());
        i = i + 1;
    }
    proof {
        assert(strs_view(out@) =~= strs_view(v@));
    }
    out
}


/// The directory part of a path: everything before the last separator; a
/// path without a separator has the empty parent.
pub open spec fn spec_parent_dir(s: Seq<char>) -> Seq<char>
    decreases s.len(),
{
    if s.len() == 0 {
        s
    } else if s.last() == '\\' || s.last() == '/' {
        s.drop_last()
    } else {
        spec_parent_dir(s.drop_last())
    }
}

proof fn lemma_parent_dir_at(s: Seq<char>, j: int)
    requires
        0 <= j <= s.len(),
        forall|k: int| j <= k < s.len() ==> !(s[k] == '\\' || s[k] == '/'),
        j > 0 ==> (s[j - 1] == '\\' || s[j - 1] == '/'),
    ensures
        spec_parent_dir(s) == if j == 0 {
            Seq::<char>::empty()
        } else {
            s.subrange(0, j - 1)
        },
    decreases s.len() - j,
{
    if j == s.len() {
        if j == 0 {
            assert(spec_parent_dir(s) =~= Seq::<char>::empty());
        } else {
            assert(s.last() == s[j - 1]);
            assert(spec_parent_dir(s) =~= s.subrange(0, j - 1));
        }
    } else {
        assert(!(s.last() == '\\' || s.last() == '/'));
        let t = s.drop_last();
        lemma_parent_dir_at(t, j);
        if j > 0 {
            assert(t.subrange(0, j - 1) =~= s.subrange(0, j - 1));
        }
    }
}

/// The parent directory of a path, under the library's convention: the
/// prefix before the last path separator.
pub fn parent_dir(s: &str) -> (r: String)
    ensures
        r@ == spec_parent_dir(s@),
{
    let n = s.unicode_len();
    let mut j: usize = n;
    while j > 0 && !(s.get_char(j - 1) == '\\' || s.get_char(j - 1) == '/')
        invariant
            0 <= j <= n,
            n == s@.len(),
            forall|k: int| j <= k < n ==> !(s@[k] == '\\' || s@[k] == '/'),
        decreases j,
    {
        j = j - 1;
    }
    proof {
        lemma_parent_dir_at(s@, j as int);
    }
    if j == 0 {
        String::new()
    } else {
        s.substring_char(0, j - 1).to_owned()
    }
}

/// The library's path-join convention: a backslash separates the two parts
/// unless the base already ends in a separator or is empty.
pub open spec fn spec_join_path(base: Seq<char>, rel: Seq<char>) -> Seq<char> {
    if base.len() == 0 {
        rel
    } else if base.last() == '\\' || base.last() == '/' {
        base + rel
    } else {
        base + seq!['\\'] + rel
    }
}

/// Joins a relative path onto a base directory.
pub fn join_path(base: &str, rel: &str) -> (r: String)
    ensures
        r@ == spec_join_path(base@, rel@),
{
    let n = base.unicode_len();
    if n == 0 {
        return rel.to_owned();
    }
    let last = base.get_char(n - 1);
    let mut out: String = base.to_owned();
    if !(last == '\\' || last == '/') {
        out.append("\\");
        proof {
            reveal_strlit("\\");
            assert("\\"@ =~= seq!['\\']);
        }
    }
    out.append(rel);
    proof {
        assert(out@ =~= spec_join_path(base@, rel@));
    }
    out
}

} // verus!
