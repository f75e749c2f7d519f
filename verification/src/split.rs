//! Splitting the remainder of a command line on the comma separator.
//! Commas are hard separators with no escaping: every comma ends a field,
//! and a line of `k` commas yields `k + 1` fields, empty ones included.

use vstd::prelude::*;

verus! {

/// The field separator of the command grammar.
pub open spec fn is_sep(c: char) -> bool {
    c == ','
}

/// The fields of `s`, in order: the maximal runs of characters between
/// separators. A non-empty input with no separator is one field; the empty
/// input is one empty field, as `str::split` yields it.
pub open spec fn spec_split(s: Seq<char>) -> Seq<Seq<char>>
    decreases s.len(),
{
    if s.len() == 0 {
        seq![s]
    } else if is_sep(s[0]) {
        seq![Seq::<char>::empty()] + spec_split(s.skip(1))
    } else {
        let rest = spec_split(s.skip(1));
        seq![seq![s[0]] + rest[0]] + rest.skip(1)
    }
}

/// A sequence without separators is a single field.
pub proof fn lemma_split_no_sep(s: Seq<char>)
    requires
        forall|j: int| 0 <= j < s.len() ==> !is_sep(#[trigger] s[j]),
    ensures
        spec_split(s) == seq![s],
    decreases s.len(),
{
    if s.len() > 0 {
        assert(forall|j: int| 0 <= j < s.skip(1).len() ==> !is_sep(#[trigger] s.skip(1)[j]));
        lemma_split_no_sep(s.skip(1));
        let rest = spec_split(s.skip(1));
        assert(rest[0] == s.skip(1));
        assert(seq![s[0]] + s.skip(1) =~= s);
        assert(rest.skip(1) =~= Seq::<Seq<char>>::empty());
        assert(spec_split(s) =~~= seq![s]);
    }
}

/// Splitting at the first separator: the run before it is the first field,
/// and the rest of the fields are those of what follows it.
pub proof fn lemma_split_first_sep(s: Seq<char>, i: int)
    requires
        0 <= i < s.len(),
        is_sep(s[i]),
        forall|j: int| 0 <= j < i ==> !is_sep(#[trigger] s[j]),
    ensures
        spec_split(s) == seq![s.take(i)] + spec_split(s.skip(i + 1)),
    decreases i,
{
    if i == 0 {
        assert(s.take(0) =~= Seq::<char>::empty());
        assert(spec_split(s) =~~= seq![s.take(0)] + spec_split(s.skip(1)));
    } else {
        let t = s.skip(1);
        assert(t[i - 1] == s[i]);
        assert(forall|j: int| 0 <= j < i - 1 ==> !is_sep(#[trigger] t[j]));
        lemma_split_first_sep(t, i - 1);
        let rest = seq![t.take(i - 1)] + spec_split(t.skip(i));
        assert(rest[0] == t.take(i - 1));
        assert(seq![s[0]] + t.take(i - 1) =~= s.take(i));
        assert(t.skip(i) =~= s.skip(i + 1));
        assert(rest.skip(1) =~= spec_split(s.skip(i + 1)));
        assert(spec_split(s) =~~= seq![s.take(i)] + spec_split(s.skip(i + 1)));
    }
}

/// Splits a string slice on commas, field for field as [`spec_split`]
/// describes.
pub fn split_commas(s: &str) -> (r: Vec<String>)
    ensures
        r.deep_view() == spec_split(s@),
{
    let n = s.unicode_len();
    let mut fields: Vec<String> = Vec::new();
    let mut start: usize = 0;
    let mut i: usize = 0;
    proof {
        assert(s@.skip(0) =~= s@);
        assert(fields.deep_view() + spec_split(s@) =~= spec_split(s@));
    }
    loop
        invariant
            start <= i <= n,
            n == s@.len(),
            forall|j: int| start <= j < i ==> !is_sep(#[trigger] s@[j]),
            spec_split(s@) == fields.deep_view() + spec_split(s@.skip(start as int)),
        ensures
            start <= i <= n,
            i == n,
            n == s@.len(),
            forall|j: int| start <= j < n ==> !is_sep(#[trigger] s@[j]),
            spec_split(s@) == fields.deep_view() + spec_split(s@.skip(start as int)),
        decreases n - i,
    {
        if i == n {
            break ;
        }
        let c = s.get_char(i);
        if c == ',' {
            let f = s.substring_char(start, i);
            let ghost old_fields = fields.deep_view();
            fields.push(f.to_owned());
            proof {
                let t = s@.skip(start as int);
                assert(t[i - start] == s@[i as int]);
                assert(forall|j: int| 0 <= j < i - start ==> !is_sep(#[trigger] t[j]));
                lemma_split_first_sep(t, i - start);
                assert(t.take(i - start) =~= s@.subrange(start as int, i as int));
                assert(t.skip(i - start + 1) =~= s@.skip(i + 1));
                assert(fields.deep_view() =~= old_fields + seq![f@]);
                assert(spec_split(s@) =~~= fields.deep_view() + spec_split(s@.skip(i + 1)));
            }
            start = i + 1;
        }
        i = i + 1;
    }
    let last = s.substring_char(start, n);
    let ghost old_fields = fields.deep_view();
    fields.push(last.to_owned());
    proof {
        let t = s@.skip(start as int);
        assert(forall|j: int| 0 <= j < t.len() ==> !is_sep(#[trigger] t[j]));
        lemma_split_no_sep(t);
        assert(t =~= s@.subrange(start as int, n as int));
        assert(fields.deep_view() =~= old_fields + seq![last@]);
        assert(fields.deep_view() =~~= old_fields + spec_split(t));
    }
    fields
}

} // verus!
