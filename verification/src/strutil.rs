use vstd::prelude::*;
use vstd::string::StrSliceExecFns;

verus! {

/// Character-wise string equality.
pub fn str_eq(a: &str, b: &str) -> (r: bool)
    ensures
        r == (a@ == b@),
{
    let alen = a.unicode_len();
    let blen = b.unicode_len();
    if alen != blen {
        return false;
    }
    let mut i: usize = 0;
    while i < alen
        invariant
            alen == a@.len(),
            blen == b@.len(),
            alen == blen,
            i <= alen,
            forall|j: int| 0 <= j < i ==> a@[j] == b@[j],
        decreases alen - i,
    {
        if a.get_char(i) != b.get_char(i) {
            return false;
        }
        i += 1;
    }
    proof {
        assert(a@ =~= b@);
    }
    true
}

/// `p` is a prefix of `s`.
pub open spec fn spec_starts_with(s: Seq<char>, p: Seq<char>) -> bool {
    p.len() <= s.len() && s.subrange(0, p.len() as int) == p
}

/// Character-wise prefix test.
pub fn starts_with(s: &str, prefix: &str) -> (r: bool)
    ensures
        r == spec_starts_with(s@, prefix@),
{
    let n = s.unicode_len();
    let p = prefix.unicode_len();
    if p > n {
        return false;
    }
    str_eq(s.substring_char(0, p), prefix)
}

/// The index of the first occurrence of `sep` in `s`, or -1 when `sep`
/// does not occur.
pub open spec fn spec_first_index(s: Seq<char>, sep: char) -> int
    decreases s.len(),
{
    if s.len() == 0 {
        -1
    } else if s[0] == sep {
        0
    } else {
        let r = spec_first_index(s.drop_first(), sep);
        if r < 0 {
            -1
        } else {
            r + 1
        }
    }
}

proof fn lemma_first_index_range(s: Seq<char>, sep: char)
    ensures
        -1 <= spec_first_index(s, sep) < s.len(),
        spec_first_index(s, sep) >= 0 ==> s[spec_first_index(s, sep)] == sep,
    decreases s.len(),
{
    if s.len() > 0 && s[0] != sep {
        lemma_first_index_range(s.drop_first(), sep);
    }
}

proof fn lemma_first_index_from(s: Seq<char>, sep: char, i: int)
    requires
        0 <= i <= s.len(),
        forall|j: int| 0 <= j < i ==> s[j] != sep,
    ensures
        i == s.len() ==> spec_first_index(s, sep) == -1,
        i < s.len() && s[i] == sep ==> spec_first_index(s, sep) == i,
    decreases i,
{
    if i > 0 {
        let t = s.drop_first();
        assert forall|j: int| 0 <= j < i - 1 implies t[j] != sep by {
            assert(t[j] == s[j + 1]);
        }
        lemma_first_index_from(t, sep, i - 1);
        if i < s.len() {
            assert(t[i - 1] == s[i]);
        }
    }
}

/// The segments of `s` delimited by `sep`: an empty text yields one empty
/// segment, and each occurrence of `sep` closes a segment, so `n`
/// occurrences yield `n + 1` segments.
pub open spec fn spec_split(s: Seq<char>, sep: char) -> Seq<Seq<char>>
    decreases s.len(),
{
    let i = spec_first_index(s, sep);
    if 0 <= i < s.len() {
        seq![s.subrange(0, i)] + spec_split(s.subrange(i + 1, s.len() as int), sep)
    } else {
        seq![s]
    }
}

/// The views of a sequence of owned strings.
pub open spec fn seq_views(v: Seq<String>) -> Seq<Seq<char>> {
    v.map_values(|t: String| t@)
}

/// The index of the first occurrence of `sep` in `s`, when there is one.
pub fn find_char(s: &str, sep: char) -> (r: Option<usize>)
    ensures
        (match r {
            Some(i) => spec_first_index(s@, sep) == i as int,
            None => spec_first_index(s@, sep) == -1,
        }),
{
    let n = s.unicode_len();
    let mut i: usize = 0;
    while i < n
        invariant
            n == s@.len(),
            i <= n,
            forall|j: int| 0 <= j < i ==> s@[j] != sep,
        decreases n - i,
    {
        if s.get_char(i) == sep {
            proof {
                lemma_first_index_from(s@, sep, i as int);
            }
            return Some(i);
        }
        i += 1;
    }
    proof {
        lemma_first_index_from(s@, sep, n as int);
    }
    None
}

/// No character of `s` is `c`.
pub open spec fn free_of(s: Seq<char>, c: char) -> bool {
    forall|i: int| 0 <= i < s.len() ==> s[i] != c
}

proof fn lemma_first_index_all_before(s: Seq<char>, sep: char)
    ensures
        forall|j: int| 0 <= j < spec_first_index(s, sep) ==> s[j] != sep,
        spec_first_index(s, sep) == -1 ==> free_of(s, sep),
    decreases s.len(),
{
    lemma_first_index_range(s, sep);
    if s.len() > 0 && s[0] != sep {
        let t = s.drop_first();
        lemma_first_index_all_before(t, sep);
        assert forall|j: int| 0 <= j < spec_first_index(s, sep) implies s[j] != sep by {
            if j > 0 {
                assert(t[j - 1] == s[j]);
            }
        }
        if spec_first_index(s, sep) == -1 {
            assert forall|j: int| 0 <= j < s.len() implies s[j] != sep by {
                if j > 0 {
                    assert(t[j - 1] == s[j]);
                }
            }
        }
    }
}

/// No segment of a split contains the separator it was split on.
pub proof fn lemma_split_segments_free(s: Seq<char>, sep: char)
    ensures
        forall|k: int|
            0 <= k < spec_split(s, sep).len() ==> free_of(#[trigger] spec_split(s, sep)[k], sep),
    decreases s.len(),
{
    lemma_first_index_all_before(s, sep);
    let i = spec_first_index(s, sep);
    if 0 <= i < s.len() {
        let head = s.subrange(0, i);
        let tail = s.subrange(i + 1, s.len() as int);
        assert(free_of(head, sep));
        lemma_split_segments_free(tail, sep);
        assert forall|k: int| 0 <= k < spec_split(s, sep).len() implies free_of(
            #[trigger] spec_split(s, sep)[k],
            sep,
        ) by {
            if k > 0 {
                assert(spec_split(s, sep)[k] == spec_split(tail, sep)[k - 1]);
            }
        }
    }
}

/// A common prefix cancels: equal concatenations with the same left part
/// have equal right parts.
pub proof fn lemma_prepend_cancel(p: Seq<char>, a: Seq<char>, b: Seq<char>)
    requires
        p + a == p + b,
    ensures
        a == b,
{
    assert((p + a).len() == p.len() + a.len());
    assert((p + b).len() == p.len() + b.len());
    assert(a.len() == b.len());
    assert forall|i: int| 0 <= i < a.len() implies a[i] == b[i] by {
        assert((p + a)[p.len() + i] == a[i]);
        assert((p + b)[p.len() + i] == b[i]);
    }
    assert(a =~= b);
}

/// A single-character delimiter splits a concatenation unambiguously: when
/// neither left part contains the delimiter, equal concatenations have
/// equal parts on both sides of it.
pub proof fn lemma_sep_cancel(m1: Seq<char>, g1: Seq<char>, m2: Seq<char>, g2: Seq<char>, c: char)
    requires
        free_of(m1, c),
        free_of(m2, c),
        m1 + seq![c] + g1 == m2 + seq![c] + g2,
    ensures
        m1 == m2,
        g1 == g2,
{
    let x = m1 + seq![c] + g1;
    assert(seq![c].len() == 1);
    assert((m1 + seq![c]).len() == m1.len() + 1);
    assert((m2 + seq![c]).len() == m2.len() + 1);
    assert(x.len() == m1.len() + 1 + g1.len());
    assert((m2 + seq![c] + g2).len() == m2.len() + 1 + g2.len());
    assert(x[m1.len() as int] == c);
    assert((m2 + seq![c] + g2)[m2.len() as int] == c);
    if m1.len() < m2.len() {
        assert((m2 + seq![c] + g2)[m1.len() as int] == m2[m1.len() as int]);
        assert(false);
    }
    if m2.len() < m1.len() {
        assert(x[m2.len() as int] == m1[m2.len() as int]);
        assert(false);
    }
    assert forall|i: int| 0 <= i < m1.len() implies m1[i] == m2[i] by {
        assert(x[i] == m1[i]);
        assert((m2 + seq![c] + g2)[i] == m2[i]);
    }
    assert(m1 =~= m2);
    assert(g1.len() == g2.len());
    assert forall|i: int| 0 <= i < g1.len() implies g1[i] == g2[i] by {
        assert(x[m1.len() + 1 + i] == g1[i]);
        assert((m2 + seq![c] + g2)[m2.len() + 1 + i] == g2[i]);
    }
    assert(g1 =~= g2);
}

/// Split `s` at every occurrence of `sep`.
pub fn split_char(s: &str, sep: char) -> (r: Vec<String>)
    ensures
        seq_views(r@) == spec_split(s@, sep),
    decreases s@.len(),
{
    match find_char(s, sep) {
        Some(i) => {
            proof {
                lemma_first_index_range(s@, sep);
            }
            let n = s.unicode_len();
            let head = s.substring_char(0, i);
            let tail = s.substring_char(i + 1, n);
            let mut rest = split_char(tail, sep);
            rest.insert(0, head.to_owned());
            proof {
                assert(seq_views(rest@) =~= spec_split(s@, sep));
            }
            rest
        },
        None => {
            let mut v: Vec<String> = Vec::new();
            v.push(s.to_owned());
            proof {
                assert(seq_views(v@) =~= spec_split(s@, sep));
            }
            v
        },
    }
}

} // verus!
