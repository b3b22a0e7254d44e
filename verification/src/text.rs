//! Character-level helpers for strings.
use vstd::prelude::*;
use vstd::std_specs::iter::IteratorSpec;

verus! {

broadcast use vstd::string::group_string_axioms;

/// Appends one character to a string.
#[verifier::external_body]
fn push_char(s: &mut String, c: char)
    ensures
        final(s)@ == old(s)@.push(c),
{
    s.push(c)
}

/// The characters of `s`, in order.
pub fn chars_of(s: &str) -> (r: Vec<char>)
    ensures
        r@ == s@,
{
    let mut out: Vec<char> = Vec::new();
    for c in it: s.chars()
        invariant
            out@ == it.seq().take(it.index()),
            it.seq() == s@,
    {
        out.push(c);
        assert(out@ =~= it.seq().take(it.index() + 1));
    }
    assert(out@ =~= s@);
    out
}

/// The string made of the characters of `cs`.
pub fn string_of(cs: &[char]) -> (r: String)
    ensures
        r@ == cs@,
{
    let mut out = String::new();
    for i in 0..cs.len()
        invariant
            out@ == cs@.take(i as int),
    {
        push_char(&mut out, cs[i]);
        assert(out@ =~= cs@.take(i + 1));
    }
    assert(cs@.take(cs.len() as int) =~= cs@);
    out
}


/// `s` with every occurrence of `pat` removed, the occurrences taken from the
/// left without overlap. An empty pattern removes nothing.
pub open spec fn remove_all(s: Seq<char>, pat: Seq<char>) -> Seq<char>
    decreases s.len(),
{
    if pat.len() == 0 || s.len() < pat.len() {
        s
    } else if s.take(pat.len() as int) == pat {
        remove_all(s.skip(pat.len() as int), pat)
    } else {
        seq![s[0]] + remove_all(s.skip(1), pat)
    }
}

/// `s` without its leading run of `c`.
pub open spec fn trim_leading(s: Seq<char>, c: char) -> Seq<char>
    decreases s.len(),
{
    if s.len() > 0 && s[0] == c {
        trim_leading(s.skip(1), c)
    } else {
        s
    }
}

/// What `trim_leading` leaves does not start with `c`.
pub proof fn lemma_trim_leading_start(s: Seq<char>, c: char)
    ensures
        trim_leading(s, c).len() > 0 ==> trim_leading(s, c)[0] != c,
    decreases s.len(),
{
    if s.len() > 0 && s[0] == c {
        lemma_trim_leading_start(s.skip(1), c);
    }
}

/// `trim_leading` removes only copies of `c`, and only from the front: what
/// is left is a suffix of `s`, and every character before it is `c`.
pub proof fn lemma_trim_leading_removes_only(s: Seq<char>, c: char)
    ensures
        trim_leading(s, c).len() <= s.len(),
        trim_leading(s, c) == s.skip(s.len() - trim_leading(s, c).len()),
        forall|i: int| 0 <= i < s.len() - trim_leading(s, c).len() ==> #[trigger] s[i] == c,
    decreases s.len(),
{
    if s.len() > 0 && s[0] == c {
        lemma_trim_leading_removes_only(s.skip(1), c);
        let r = trim_leading(s, c);
        assert(s.skip(1).skip(s.skip(1).len() - r.len()) =~= s.skip(s.len() - r.len()));
        assert forall|i: int| 0 <= i < s.len() - r.len() implies #[trigger] s[i] == c by {
            if i > 0 {
                assert(s[i] == s.skip(1)[i - 1]);
            }
        }
    } else {
        assert(s.skip(0) =~= s);
    }
}

/// A pattern occurs in `s` at index `i`.
pub open spec fn occurs_in(s: Seq<char>, pat: Seq<char>, i: int) -> bool {
    0 <= i && i + pat.len() <= s.len() && s.subrange(i, i + pat.len()) == pat
}

/// Removing an empty pattern changes nothing.
pub proof fn lemma_remove_all_empty_pattern(s: Seq<char>)
    ensures
        remove_all(s, Seq::<char>::empty()) == s,
{
}

/// Text in which the pattern never occurs is left as it is.
pub proof fn lemma_remove_all_absent(s: Seq<char>, pat: Seq<char>)
    requires
        forall|i: int| !#[trigger] occurs_in(s, pat, i),
    ensures
        remove_all(s, pat) == s,
    decreases s.len(),
{
    if pat.len() == 0 || s.len() < pat.len() {
    } else {
        assert(!occurs_in(s, pat, 0));
        assert(s.subrange(0, pat.len() as int) == s.take(pat.len() as int));
        let t = s.skip(1);
        assert forall|i: int| !#[trigger] occurs_in(t, pat, i) by {
            if occurs_in(t, pat, i) {
                assert(s.subrange(i + 1, i + 1 + pat.len()) =~= t.subrange(i, i + pat.len()));
                assert(occurs_in(s, pat, i + 1));
            }
        }
        lemma_remove_all_absent(t, pat);
        assert(seq![s[0]] + t =~= s);
    }
}

/// An occurrence at the front is removed whole, and the rest is handled on
/// its own.
pub proof fn lemma_remove_all_leading(s: Seq<char>, pat: Seq<char>)
    requires
        pat.len() > 0,
    ensures
        remove_all(pat + s, pat) == remove_all(s, pat),
{
    let t = pat + s;
    assert(t.take(pat.len() as int) =~= pat);
    assert(t.skip(pat.len() as int) =~= s);
}

/// Whether `pat` occurs in `s` at position `i`.
fn occurs_at(s: &Vec<char>, i: usize, pat: &Vec<char>) -> (r: bool)
    requires
        i + pat.len() <= s.len(),
    ensures
        r == (s@.subrange(i as int, i + pat.len()) == pat@),
{
    for k in 0..pat.len()
        invariant
            i + pat.len() <= s.len(),
            forall|j: int| 0 <= j < k ==> s@[i + j] == pat@[j],
    {
        if s[i + k] != pat[k] {
            assert(s@.subrange(i as int, i + pat.len())[k as int] != pat@[k as int]);
            return false;
        }
    }
    assert(s@.subrange(i as int, i + pat.len()) =~= pat@);
    true
}

/// Removes every occurrence of `pat` from `s`, scanning from the left.
pub fn remove_matches(s: &str, pat: &str) -> (r: String)
    ensures
        r@ == remove_all(s@, pat@),
{
    let cs = chars_of(s);
    let ps = chars_of(pat);
    let n = cs.len();
    let m = ps.len();
    let mut out: Vec<char> = Vec::new();
    let mut i: usize = 0;
    assert(s@.skip(0) =~= s@);
    if m > 0 {
        while m <= n - i
            invariant
                cs@ == s@,
                ps@ == pat@,
                n == cs.len(),
                m == ps.len(),
                m > 0,
                i <= n,
                remove_all(s@, pat@) == out@ + remove_all(s@.skip(i as int), pat@),
            decreases n - i,
        {
            let ghost rest = s@.skip(i as int);
            if occurs_at(&cs, i, &ps) {
                assert(rest.take(m as int) =~= s@.subrange(i as int, i + m));
                assert(rest.skip(m as int) =~= s@.skip(i + m));
                i = i + m;
            } else {
                assert(rest.take(m as int) =~= s@.subrange(i as int, i + m));
                assert(rest.skip(1) =~= s@.skip(i + 1));
                out.push(cs[i]);
                assert(out@ + remove_all(s@.skip(i + 1), pat@) =~= (out@.drop_last() + (seq![rest[0]]
                    + remove_all(rest.skip(1), pat@))));
                i = i + 1;
            }
        }
    }
    let ghost tail = s@.skip(i as int);
    assert(remove_all(tail, pat@) == tail);
    while i < n
        invariant
            cs@ == s@,
            n == cs.len(),
            i <= n,
            remove_all(s@, pat@) == out@ + s@.skip(i as int),
        decreases n - i,
    {
        out.push(cs[i]);
        assert(out@ + s@.skip(i + 1) =~= out@.drop_last() + s@.skip(i as int));
        i = i + 1;
    }
    assert(out@ + s@.skip(n as int) =~= out@);
    string_of(&out)
}

/// Removes the leading run of `c` from `s`.
pub fn trim_start_char(s: &str, c: char) -> (r: String)
    ensures
        r@ == trim_leading(s@, c),
{
    let cs = chars_of(s);
    let n = cs.len();
    let mut i: usize = 0;
    assert(s@.skip(0) =~= s@);
    while i < n && cs[i] == c
        invariant
            cs@ == s@,
            n == cs.len(),
            i <= n,
            trim_leading(s@, c) == trim_leading(s@.skip(i as int), c),
        decreases n - i,
    {
        assert(s@.skip(i as int).skip(1) =~= s@.skip(i + 1));
        i = i + 1;
    }
    let ghost rest = s@.skip(i as int);
    let mut out: Vec<char> = Vec::new();
    let mut j: usize = i;
    while j < n
        invariant
            cs@ == s@,
            n == cs.len(),
            i <= j <= n,
            out@ == s@.subrange(i as int, j as int),
        decreases n - j,
    {
        out.push(cs[j]);
        assert(out@ =~= s@.subrange(i as int, j + 1));
        j = j + 1;
    }
    assert(out@ =~= rest);
    string_of(&out)
}

} // verus!
