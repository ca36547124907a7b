//! Verified text utilities: character-level string equality, splitting on a
//! separator character, and the basic path joining used to rebase the
//! relative paths of a configuration against the working-copy root.
use vstd::prelude::*;
use vstd::string::StrSliceExecFns;
use vstd::string::StringExecFns;

verus! {

/// First index at or after `i` holding `sep`, or the length when none does.
pub open spec fn sep_run_end(s: Seq<char>, i: int, sep: char) -> int
    decreases s.len() - i,
{
    if 0 <= i < s.len() && s[i] != sep {
        sep_run_end(s, i + 1, sep)
    } else {
        i
    }
}

/// The segments of `s` from position `i` on, split on `sep`. Splitting keeps
/// empty segments, so there is always at least one segment, and a separator
/// at either end contributes an empty segment there.
pub open spec fn split_from(s: Seq<char>, i: int, sep: char) -> Seq<Seq<char>>
    decreases s.len() - i,
{
    if i < 0 || i >= s.len() {
        seq![Seq::<char>::empty()]
    } else if s[i] == sep {
        seq![Seq::<char>::empty()] + split_from(s, i + 1, sep)
    } else {
        let rest = split_from(s, i + 1, sep);
        seq![seq![s[i]] + rest[0]] + rest.drop_first()
    }
}

/// Splitting yields at least one segment.
pub proof fn lemma_split_nonempty(s: Seq<char>, i: int, sep: char)
    ensures
        split_from(s, i, sep).len() >= 1,
    decreases s.len() - i,
{
    if 0 <= i < s.len() && s[i] != sep {
        lemma_split_nonempty(s, i + 1, sep);
    }
}

/// When the characters of `[i, j)` are free of `sep` and `j` is the length or
/// a separator position, the split of `s` from `i` starts with exactly the
/// segment `s[i..j]`.
pub proof fn lemma_split_segment(s: Seq<char>, i: int, j: int, sep: char)
    requires
        0 <= i <= j <= s.len(),
        forall|k: int| i <= k < j ==> s[k] != sep,
        j == s.len() || s[j] == sep,
    ensures
        j < s.len() ==> split_from(s, i, sep) == seq![s.subrange(i, j)] + split_from(
            s,
            j + 1,
            sep,
        ),
        j == s.len() ==> split_from(s, i, sep) == seq![s.subrange(i, j)],
    decreases j - i,
{
    if i == j {
        assert(s.subrange(i, j) =~= Seq::<char>::empty());
        if j < s.len() {
            assert(split_from(s, i, sep) =~= seq![s.subrange(i, j)] + split_from(s, j + 1, sep));
        } else {
            assert(split_from(s, i, sep) =~= seq![s.subrange(i, j)]);
        }
    } else {
        lemma_split_segment(s, i + 1, j, sep);
        lemma_split_nonempty(s, i + 1, sep);
        let rest = split_from(s, i + 1, sep);
        assert(seq![s[i]] + rest[0] =~= s.subrange(i, j));
        if j < s.len() {
            assert(split_from(s, i, sep) =~= seq![s.subrange(i, j)] + split_from(s, j + 1, sep));
        } else {
            assert(rest =~= seq![s.subrange(i + 1, j)]);
            assert(split_from(s, i, sep) =~= seq![s.subrange(i, j)]);
        }
    }
}

/// Character-for-character string equality, decided against the views.
pub fn str_eq(a: &str, b: &str) -> (r: bool)
    ensures
        r == (a@ == b@),
{
    let n = a.unicode_len();
    if n != b.unicode_len() {
        return false;
    }
    let mut i: usize = 0;
    while i < n
        invariant
            n == a@.len(),
            n == b@.len(),
            i <= n,
            forall|k: int| 0 <= k < i ==> a@[k] == b@[k],
        decreases n - i,
    {
        if a.get_char(i) != b.get_char(i) {
            return false;
        }
        i += 1;
    }
    proof {
        assert(a@ =~= b@);
    }
    true
}

/// Splits `s` on the separator character, keeping empty segments.
pub fn split_char(s: &str, sep: char) -> (r: Vec<String>)
    ensures
        r@.map_values(|t: String| t@) == split_from(s@, 0, sep),
{
    let n = s.unicode_len();
    let mut r: Vec<String> = Vec::new();
    let mut i: usize = 0;
    proof {
        assert(r@.map_values(|t: String| t@) + split_from(s@, 0, sep) =~= split_from(s@, 0, sep));
    }
    loop
        invariant_except_break
            i <= n,
            n == s@.len(),
            r@.map_values(|t: String| t@) + split_from(s@, i as int, sep) == split_from(
                s@,
                0,
                sep,
            ),
        ensures
            r@.map_values(|t: String| t@) == split_from(s@, 0, sep),
        decreases n - i,
    {
        let ghost r0 = r@.map_values(|t: String| t@);
        let mut j: usize = i;
        while j < n && s.get_char(j) != sep
            invariant
                i <= j <= n,
                n == s@.len(),
                forall|k: int| i <= k < j ==> s@[k] != sep,
            decreases n - j,
        {
            j += 1;
        }
        let seg = s.substring_char(i, j);
        r.push(String::from_str(seg));
        proof {
            lemma_split_segment(s@, i as int, j as int, sep);
            assert(r@.map_values(|t: String| t@) =~= r0.push(s@.subrange(i as int, j as int)));
        }
        if j == n {
            proof {
                assert(r@.map_values(|t: String| t@) =~= r0 + split_from(s@, i as int, sep));
            }
            break ;
        }
        proof {
            assert(r@.map_values(|t: String| t@) + split_from(s@, (j + 1) as int, sep) =~= r0
                + split_from(s@, i as int, sep));
        }
        i = j + 1;
    }
    r
}

/// Joins a child path onto a root: an absolute child stands alone, an empty
/// root contributes nothing, and exactly one separator stands between the
/// two parts otherwise.
pub open spec fn spec_join(root: Seq<char>, child: Seq<char>) -> Seq<char> {
    if child.len() > 0 && child[0] == '/' {
        child
    } else if root.len() == 0 {
        child
    } else if root[root.len() - 1] == '/' {
        root + child
    } else {
        root + seq!['/'] + child
    }
}

/// Rebases `child` against `root` by basic path joining.
pub fn join_path(root: &str, child: &str) -> (r: String)
    ensures
        r@ == spec_join(root@, child@),
{
    let cn = child.unicode_len();
    if cn > 0 && child.get_char(0) == '/' {
        return String::from_str(child);
    }
    let rn = root.unicode_len();
    if rn == 0 {
        return String::from_str(child);
    }
    let mut out = String::from_str(root);
    if out.as_str().get_char(rn - 1) != '/' {
        out.append("/");
        proof {
            reveal_strlit("/");
            assert(out@ =~= root@ + seq!['/']);
        }
    }
    out.append(child);
    proof {
        assert(out@ =~= spec_join(root@, child@));
    }
    out
}

} // verus!
