//! Character-level helpers on strings, stated over `Seq<char>`.

use vstd::prelude::*;

verus! {

broadcast use vstd::string::group_string_axioms;

/// `needle` occurs in `haystack` starting at position `i`.
pub open spec fn occurs_at(haystack: Seq<char>, needle: Seq<char>, i: int) -> bool {
    &&& 0 <= i
    &&& i + needle.len() <= haystack.len()
    &&& haystack.subrange(i, i + needle.len()) == needle
}

/// `needle` occurs somewhere in `haystack` as a contiguous run.
pub open spec fn seq_contains(haystack: Seq<char>, needle: Seq<char>) -> bool {
    exists|i: int| #[trigger] occurs_at(haystack, needle, i)
}

/// `needle` matches `haystack` at position `i` from its `j`-th character on.
pub open spec fn matches_from(haystack: Seq<char>, needle: Seq<char>, i: int, j: nat) -> bool
    decreases needle.len() - j,
{
    if j >= needle.len() {
        true
    } else {
        haystack[i + j] == needle[j as int] && matches_from(haystack, needle, i, j + 1)
    }
}

/// `needle` occurs in `haystack` at some position from `from` on, found by
/// trying each position in turn.
pub open spec fn occurs_from(haystack: Seq<char>, needle: Seq<char>, from: nat) -> bool
    decreases haystack.len() + 1 - from,
{
    if from + needle.len() > haystack.len() {
        false
    } else {
        matches_from(haystack, needle, from as int, 0) || occurs_from(haystack, needle, from + 1)
    }
}

proof fn lemma_matches_from(haystack: Seq<char>, needle: Seq<char>, i: int, j: nat)
    requires
        0 <= i,
        i + needle.len() <= haystack.len(),
    ensures
        matches_from(haystack, needle, i, j)
            <==> forall|k: int| j <= k < needle.len() ==> haystack[i + k] == #[trigger] needle[k],
    decreases needle.len() - j,
{
    if j < needle.len() {
        lemma_matches_from(haystack, needle, i, j + 1);
    }
}

proof fn lemma_occurs_from(haystack: Seq<char>, needle: Seq<char>, from: nat)
    ensures
        occurs_from(haystack, needle, from) <==> exists|i: int| from <= i && #[trigger] occurs_at(haystack, needle, i),
    decreases haystack.len() + 1 - from,
{
    if from + needle.len() <= haystack.len() {
        lemma_occurs_from(haystack, needle, from + 1);
        lemma_matches_from(haystack, needle, from as int, 0);
        let window = haystack.subrange(from as int, (from + needle.len()) as int);
        if matches_from(haystack, needle, from as int, 0) {
            assert(window =~= needle);
            assert(occurs_at(haystack, needle, from as int));
        } else if occurs_at(haystack, needle, from as int) {
            assert forall|k: int| 0 <= k < needle.len() implies haystack[from + k] == #[trigger] needle[k] by {
                assert(window[k] == haystack[from + k]);
            }
        }
        if exists|i: int| from <= i && #[trigger] occurs_at(haystack, needle, i) {
            let i = choose|i: int| from <= i && #[trigger] occurs_at(haystack, needle, i);
            if i != from {
                assert(from + 1 <= i);
            }
        }
    } else {
        if exists|i: int| from <= i && #[trigger] occurs_at(haystack, needle, i) {
            let i = choose|i: int| from <= i && #[trigger] occurs_at(haystack, needle, i);
            assert(i + needle.len() <= haystack.len());
        }
    }
}

/// Searching position by position finds `needle` exactly when it occurs in
/// `haystack`.
pub proof fn lemma_occurs_from_start(haystack: Seq<char>, needle: Seq<char>)
    ensures
        occurs_from(haystack, needle, 0) == seq_contains(haystack, needle),
{
    lemma_occurs_from(haystack, needle, 0);
    if seq_contains(haystack, needle) {
        let i = choose|i: int| #[trigger] occurs_at(haystack, needle, i);
        assert(0 <= i);
    }
}

/// Searching position by position finds a needle exactly when it occurs, for
/// every haystack and needle.
pub proof fn lemma_occurs_from_start_all()
    ensures
        forall|haystack: Seq<char>, needle: Seq<char>|
            #[trigger] seq_contains(haystack, needle) == occurs_from(haystack, needle, 0),
{
    assert forall|haystack: Seq<char>, needle: Seq<char>|
        #[trigger] seq_contains(haystack, needle) == occurs_from(haystack, needle, 0) by {
        lemma_occurs_from_start(haystack, needle);
    }
}

/// A search that finds `needle` nowhere in `haystack` shows that it does not
/// occur there.
pub proof fn lemma_absent(haystack: Seq<char>, needle: Seq<char>)
    requires
        !occurs_from(haystack, needle, 0),
    ensures
        !seq_contains(haystack, needle),
{
    lemma_occurs_from_start(haystack, needle);
}

/// The characters of `s`, collected once so that later reads are direct.
pub fn chars_of(s: &str) -> (r: Vec<char>)
    ensures
        r@ == s@,
{
    let n = s.unicode_len();
    let mut out: Vec<char> = Vec::new();
    let mut i: usize = 0;
    while i < n
        invariant
            n == s@.len(),
            i <= n,
            out@ == s@.subrange(0, i as int),
        decreases n - i,
    {
        out.push(s.get_char(i));
        i = i + 1;
    }
    assert(out@ =~= s@);
    out
}

/// Whether the two strings hold the same characters.
pub fn str_eq(a: &str, b: &str) -> (r: bool)
    ensures
        r == (a@ == b@),
{
    let x = chars_of(a);
    let y = chars_of(b);
    if x.len() != y.len() {
        return false;
    }
    let mut i: usize = 0;
    while i < x.len()
        invariant
            x@ == a@,
            y@ == b@,
            x@.len() == y@.len(),
            i <= x@.len(),
            forall|j: int| 0 <= j < i ==> x@[j] == y@[j],
        decreases x@.len() - i,
    {
        if x[i] != y[i] {
            return false;
        }
        i = i + 1;
    }
    assert(a@ =~= b@);
    true
}

fn occurs_at_exec(h: &Vec<char>, n: &Vec<char>, i: usize) -> (r: bool)
    requires
        i + n@.len() <= h@.len(),
    ensures
        r == occurs_at(h@, n@, i as int),
{
    let hl = h.len();
    let mut k: usize = 0;
    while k < n.len()
        invariant
            hl == h@.len(),
            i + n@.len() <= h@.len(),
            k <= n@.len(),
            forall|j: int| 0 <= j < k ==> h@[i + j] == n@[j],
        decreases n@.len() - k,
    {
        if h[i + k] != n[k] {
            assert(h@.subrange(i as int, i + n@.len())[k as int] != n@[k as int]);
            return false;
        }
        k = k + 1;
    }
    assert(h@.subrange(i as int, i + n@.len()) =~= n@);
    true
}

/// Whether `needle` occurs in `haystack`, as `str::contains` with a `&str` pattern.
pub fn str_contains(haystack: &str, needle: &str) -> (r: bool)
    ensures
        r == seq_contains(haystack@, needle@),
{
    let h = chars_of(haystack);
    let n = chars_of(needle);
    if n.len() > h.len() {
        assert forall|i: int| !#[trigger] occurs_at(haystack@, needle@, i) by {}
        return false;
    }
    if n.len() == 0 {
        assert(occurs_at(haystack@, needle@, 0)) by {
            assert(haystack@.subrange(0, 0) =~= needle@);
        }
        return true;
    }
    let hl = h.len();
    let last = hl - n.len();
    let mut i: usize = 0;
    while i <= last
        invariant
            hl == h@.len(),
            h@ == haystack@,
            n@ == needle@,
            last == h@.len() - n@.len(),
            0 < n@.len() <= h@.len(),
            i <= last + 1,
            forall|j: int| 0 <= j < i ==> !#[trigger] occurs_at(h@, n@, j),
        decreases last + 1 - i,
    {
        if occurs_at_exec(&h, &n, i) {
            return true;
        }
        i = i + 1;
    }
    assert forall|j: int| !#[trigger] occurs_at(haystack@, needle@, j) by {
        if 0 <= j && j < i {
        }
    }
    false
}

/// The decimal digit character for `d`.
pub open spec fn digit_char(d: nat) -> char {
    ((48 + d) as u32) as char
}

/// The decimal representation of `n`, without sign or leading zeros.
pub open spec fn decimal(n: nat) -> Seq<char>
    decreases n,
{
    if n < 10 {
        seq![digit_char(n)]
    } else {
        decimal(n / 10) + seq![digit_char(n % 10)]
    }
}

/// The text of the single decimal digit `d`.
pub(crate) fn digit_str(d: u64) -> (r: &'static str)
    requires
        d < 10,
    ensures
        r@ == seq![digit_char(d as nat)],
{
    proof {
        reveal_strlit("0");
        reveal_strlit("1");
        reveal_strlit("2");
        reveal_strlit("3");
        reveal_strlit("4");
        reveal_strlit("5");
        reveal_strlit("6");
        reveal_strlit("7");
        reveal_strlit("8");
        reveal_strlit("9");
    }
    if d == 0 {
        "0"
    } else if d == 1 {
        "1"
    } else if d == 2 {
        "2"
    } else if d == 3 {
        "3"
    } else if d == 4 {
        "4"
    } else if d == 5 {
        "5"
    } else if d == 6 {
        "6"
    } else if d == 7 {
        "7"
    } else if d == 8 {
        "8"
    } else {
        "9"
    }
}

/// The decimal text of `n`, as `to_string` on an unsigned integer gives it.
pub fn decimal_string(n: u64) -> (r: String)
    ensures
        r@ == decimal(n as nat),
    decreases n,
{
    if n < 10 {
        String::from_str(digit_str(n))
    } else {
        let mut s = decimal_string(n / 10);
        s.append(digit_str(n % 10));
        s
    }
}

} // verus!
