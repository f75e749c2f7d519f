//! Character classification and whitespace trimming over character
//! sequences, as the tokenizer applies them to each comma-separated field.

use vstd::prelude::*;

verus! {

/// Unicode whitespace, the set that field trimming strips: the characters
/// with the White_Space property.
pub open spec fn is_space(c: char) -> bool {
    let u = c as u32;
    (9 <= u && u <= 13) || u == 32 || u == 0x85 || u == 0xA0 || u == 0x1680 || (0x2000 <= u
        && u <= 0x200A) || u == 0x2028 || u == 0x2029 || u == 0x202F || u == 0x205F || u == 0x3000
}

/// Decides [`is_space`] on a concrete character.
pub fn is_space_char(c: char) -> (r: bool)
    ensures
        r == is_space(c),
{
    let u = c as u32;
    (9 <= u && u <= 13) || u == 32 || u == 0x85 || u == 0xA0 || u == 0x1680 || (0x2000 <= u
        && u <= 0x200A) || u == 0x2028 || u == 0x2029 || u == 0x202F || u == 0x205F || u == 0x3000
}

/// The sequence with its leading whitespace removed.
pub open spec fn spec_trim_front(s: Seq<char>) -> Seq<char>
    decreases s.len(),
{
    if s.len() > 0 && is_space(s[0]) {
        spec_trim_front(s.skip(1))
    } else {
        s
    }
}

/// The sequence with its trailing whitespace removed.
pub open spec fn spec_trim_back(s: Seq<char>) -> Seq<char>
    decreases s.len(),
{
    if s.len() > 0 && is_space(s.last()) {
        spec_trim_back(s.drop_last())
    } else {
        s
    }
}

/// The sequence with surrounding whitespace removed, as `str::trim` leaves it.
pub open spec fn spec_trim(s: Seq<char>) -> Seq<char> {
    spec_trim_back(spec_trim_front(s))
}

proof fn lemma_trim_front_step(s: Seq<char>, a: int)
    requires
        0 <= a < s.len(),
        is_space(s[a]),
    ensures
        spec_trim_front(s.skip(a)) == spec_trim_front(s.skip(a + 1)),
{
    let t = s.skip(a);
    assert(t.len() > 0);
    assert(t[0] == s[a]);
    assert(t.skip(1) =~= s.skip(a + 1));
}

proof fn lemma_trim_back_step(s: Seq<char>, a: int, b: int)
    requires
        0 <= a < b <= s.len(),
        is_space(s[b - 1]),
    ensures
        spec_trim_back(s.subrange(a, b)) == spec_trim_back(s.subrange(a, b - 1)),
{
    let t = s.subrange(a, b);
    assert(t.len() > 0);
    assert(t.last() == s[b - 1]);
    assert(t.drop_last() =~= s.subrange(a, b - 1));
}

/// Removes surrounding whitespace from a string slice, character for
/// character as [`spec_trim`] describes.
pub fn trim(s: &str) -> (r: &str)
    ensures
        r@ == spec_trim(s@),
{
    let n = s.unicode_len();
    let mut a: usize = 0;
    proof {
        assert(s@.skip(0) =~= s@);
    }
    loop
        invariant
            a <= n,
            n == s@.len(),
            spec_trim_front(s@) == spec_trim_front(s@.skip(a as int)),
        ensures
            a <= n,
            n == s@.len(),
            spec_trim_front(s@) == spec_trim_front(s@.skip(a as int)),
            a == n || !is_space(s@[a as int]),
        decreases n - a,
    {
        if a == n {
            break ;
        }
        let c = s.get_char(a);
        if !is_space_char(c) {
            break ;
        }
        proof {
            lemma_trim_front_step(s@, a as int);
        }
        a = a + 1;
    }
    proof {
        if a == n {
            assert(s@.skip(a as int) =~= Seq::<char>::empty());
        }
        assert(spec_trim_front(s@) == s@.subrange(a as int, n as int)) by {
            assert(s@.skip(a as int) =~= s@.subrange(a as int, n as int));
        }
    }
    let mut b: usize = n;
    loop
        invariant
            a <= b <= n,
            n == s@.len(),
            spec_trim_back(s@.subrange(a as int, n as int)) == spec_trim_back(
                s@.subrange(a as int, b as int),
            ),
        ensures
            a <= b <= n,
            spec_trim_back(s@.subrange(a as int, n as int)) == spec_trim_back(
                s@.subrange(a as int, b as int),
            ),
            b == a || !is_space(s@[b - 1]),
        decreases b,
    {
        if b == a {
            break ;
        }
        let c = s.get_char(b - 1);
        if !is_space_char(c) {
            break ;
        }
        proof {
            lemma_trim_back_step(s@, a as int, b as int);
        }
        b = b - 1;
    }
    proof {
        let t = s@.subrange(a as int, b as int);
        if b == a {
            assert(t.len() == 0);
        } else {
            assert(t.last() == s@[b - 1]);
        }
        assert(spec_trim_back(t) == t);
    }
    s.substring_char(a, b)
}

} // verus!
