//! Small verified helpers on text.
use vstd::prelude::*;
use vstd::std_specs::iter::IteratorSpec;

verus! {

broadcast use {vstd::string::axiom_spec_iter, vstd::string::next_postcondition};

/// The characters of `s`, in order.
pub fn chars_of(s: &str) -> (r: Vec<char>)
    ensures
        r@ == s@,
{
    let mut it = s.chars();
    let mut r: Vec<char> = Vec::new();
    loop
        invariant
            r@ + it.remaining() == s@,
        decreases s@.len() - r@.len(),
    {
        let ghost before = it.remaining();
        match it.next() {
            Some(c) => {
                r.push(c);
                assert(r@ + it.remaining() =~= s@) by {
                    assert(before == seq![c] + it.remaining());
                }
            },
            None => {
                assert(r@ =~= s@);
                return r;
            },
        }
    }
}

/// Whether two texts are equal.
pub fn text_eq(a: &str, b: &str) -> (r: bool)
    ensures
        r == (a@ == b@),
{
    a.to_owned() == b.to_owned()
}

/// Whether `t` occurs in `s` at position `i`.
pub open spec fn occurs_at(s: Seq<char>, t: Seq<char>, i: int) -> bool {
    0 <= i && i + t.len() <= s.len() && s.subrange(i, i + t.len()) == t
}

/// Whether `t` occurs anywhere in `s`.
pub open spec fn contains_text(s: Seq<char>, t: Seq<char>) -> bool {
    exists|i: int| occurs_at(s, t, i)
}

/// Whether `t` occurs in `s`.
pub fn contains(s: &str, t: &str) -> (r: bool)
    ensures
        r == contains_text(s@, t@),
{
    let sc = chars_of(s);
    let tc = chars_of(t);
    if tc.len() > sc.len() {
        assert forall|i: int| !occurs_at(s@, t@, i) by {}
        return false;
    }
    if tc.len() == 0 {
        assert(s@.subrange(0, 0) =~= t@);
        assert(occurs_at(s@, t@, 0));
        return true;
    }
    let n: usize = sc.len();
    let last: usize = n - tc.len();
    let mut i: usize = 0;
    while i <= last
        invariant
            sc@ == s@,
            tc@ == t@,
            last == sc@.len() - tc@.len(),
            n == sc@.len(),
            tc@.len() > 0,
            forall|k: int| 0 <= k < i ==> !#[trigger] occurs_at(s@, t@, k),
        decreases last + 1 - i,
    {
        let mut j: usize = 0;
        let mut same = true;
        while j < tc.len()
            invariant
                sc@ == s@,
                tc@ == t@,
                i <= last,
                last == sc@.len() - tc@.len(),
            n == sc@.len(),
                j <= tc@.len(),
                same == (forall|m: int| 0 <= m < j ==> sc@[i + m] == tc@[m]),
            decreases tc@.len() - j,
        {
            if sc[i + j] != tc[j] {
                same = false;
            }
            j = j + 1;
        }
        if same {
            assert(s@.subrange(i as int, i + t@.len()) =~= t@);
            assert(occurs_at(s@, t@, i as int));
            return true;
        }
        assert(!occurs_at(s@, t@, i as int)) by {
            if occurs_at(s@, t@, i as int) {
                assert forall|m: int| 0 <= m < tc@.len() implies sc@[i + m] == tc@[m] by {
                    assert(s@.subrange(i as int, i + t@.len())[m] == s@[i + m]);
                }
            }
        }
        i = i + 1;
    }
    assert forall|k: int| !occurs_at(s@, t@, k) by {
        if 0 <= k && k + t@.len() <= s@.len() {
            assert(k < i);
        }
    }
    false
}

} // verus!
