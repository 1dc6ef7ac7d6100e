use vstd::prelude::*;

verus! {

/// Relies on String::push: appends the given character to the end of the
/// string. vstd specifies append for string slices but not push for a char.
#[verifier::external_body]
pub(crate) fn push_char(s: &mut String, c: char)
    ensures
        final(s)@ == old(s)@.push(c),
{
    s.push(c);
}

/// Character-wise string equality.
pub fn str_eq(a: &str, b: &str) -> (r: bool)
    ensures
        r == (a@ == b@),
{
    let na = a.unicode_len();
    let nb = b.unicode_len();
    if na != nb {
        return false;
    }
    let mut i: usize = 0;
    while i < na
        invariant
            na == a@.len(),
            na == b@.len(),
            i <= na,
            forall|j: int| 0 <= j < i ==> a@[j] == b@[j],
        decreases na - i,
    {
        if a.get_char(i) != b.get_char(i) {
            return false;
        }
        i = i + 1;
    }
    proof {
        assert(a@ =~= b@);
    }
    true
}

/// Splitting on a separator, with the usual convention: n separator
/// occurrences yield n + 1 tokens, empty tokens included, and the empty
/// string yields one empty token.
pub open spec fn spec_split(s: Seq<char>, sep: char) -> Seq<Seq<char>>
    decreases s.len(),
{
    if s.len() == 0 {
        seq![Seq::<char>::empty()]
    } else if s[0] == sep {
        seq![Seq::<char>::empty()] + spec_split(s.drop_first(), sep)
    } else {
        let rest = spec_split(s.drop_first(), sep);
        seq![seq![s[0]] + rest[0]] + rest.drop_first()
    }
}

pub proof fn lemma_split_len(s: Seq<char>, sep: char)
    ensures
        spec_split(s, sep).len() >= 1,
    decreases s.len(),
{
    if s.len() > 0 {
        lemma_split_len(s.drop_first(), sep);
    }
}

/// A string with no separator occurrence splits into itself alone.
pub proof fn lemma_split_whole(s: Seq<char>, sep: char)
    requires
        forall|j: int| 0 <= j < s.len() ==> s[j] != sep,
    ensures
        spec_split(s, sep) == seq![s],
    decreases s.len(),
{
    if s.len() == 0 {
        assert(spec_split(s, sep) =~~= seq![s]);
    } else {
        let t = s.drop_first();
        lemma_split_whole(t, sep);
        let rest = spec_split(t, sep);
        assert(rest == seq![t]);
        assert(rest[0] == t);
        assert(seq![s[0]] + t =~= s);
        assert(rest.drop_first() =~= Seq::<Seq<char>>::empty());
        assert(spec_split(s, sep) == seq![seq![s[0]] + rest[0]] + rest.drop_first());
        assert(seq![seq![s[0]] + rest[0]] + rest.drop_first() =~= seq![s]);
    }
}

/// Splitting a string whose first separator occurrence is at `i` yields the
/// prefix before `i` followed by the split of the suffix after `i`.
pub proof fn lemma_split_step(s: Seq<char>, sep: char, i: int)
    requires
        0 <= i < s.len(),
        s[i] == sep,
        forall|j: int| 0 <= j < i ==> s[j] != sep,
    ensures
        spec_split(s, sep) == seq![s.subrange(0, i)] + spec_split(
            s.subrange(i + 1, s.len() as int),
            sep,
        ),
    decreases i,
{
    if i == 0 {
        assert(s.subrange(0, 0) =~= Seq::<char>::empty());
        assert(s.subrange(1, s.len() as int) =~= s.drop_first());
        assert(spec_split(s, sep) =~= seq![s.subrange(0, 0)] + spec_split(
            s.subrange(1, s.len() as int),
            sep,
        ));
    } else {
        let t = s.drop_first();
        lemma_split_step(t, sep, i - 1);
        lemma_split_len(t.subrange(i, t.len() as int), sep);
        let rest = spec_split(t, sep);
        assert(rest[0] == t.subrange(0, i - 1));
        assert(seq![s[0]] + rest[0] =~= s.subrange(0, i));
        assert(rest.drop_first() =~= spec_split(t.subrange(i, t.len() as int), sep));
        assert(t.subrange(i, t.len() as int) =~= s.subrange(i + 1, s.len() as int));
        assert(spec_split(s, sep) =~= seq![s.subrange(0, i)] + spec_split(
            s.subrange(i + 1, s.len() as int),
            sep,
        ));
    }
}

/// Splits a string on a separator character.
pub fn split_str(s: &str, sep: char) -> (r: Vec<String>)
    ensures
        r.deep_view() == spec_split(s@, sep),
{
    let n = s.unicode_len();
    let mut tokens: Vec<String> = Vec::new();
    let mut start: usize = 0;
    let mut i: usize = 0;
    proof {
        assert(tokens.deep_view() =~= Seq::<Seq<char>>::empty());
        assert(s@.subrange(0, n as int) =~= s@);
        assert(spec_split(s@, sep) =~= tokens.deep_view() + spec_split(
            s@.subrange(0, n as int),
            sep,
        ));
    }
    while i < n
        invariant
            n == s@.len(),
            start <= i <= n,
            forall|j: int| start <= j < i ==> s@[j] != sep,
            spec_split(s@, sep) == tokens.deep_view() + spec_split(
                s@.subrange(start as int, n as int),
                sep,
            ),
        decreases n - i,
    {
        if s.get_char(i) == sep {
            let tok = s.substring_char(start, i).to_owned();
            let ghost prev_dv = tokens.deep_view();
            let ghost suffix = s@.subrange(start as int, n as int);
            let ghost tail = s@.subrange(i as int + 1, n as int);
            tokens.push(tok);
            proof {
                lemma_split_step(suffix, sep, i - start);
                assert(suffix.subrange(0, i - start) =~= s@.subrange(start as int, i as int));
                assert(suffix.subrange(i - start + 1, suffix.len() as int) =~= tail);
                assert(tokens.deep_view() =~= prev_dv + seq![tok@]);
                assert((prev_dv + seq![tok@]) + spec_split(tail, sep) =~= prev_dv + (seq![tok@]
                    + spec_split(tail, sep)));
            }
            start = i + 1;
        }
        i = i + 1;
    }
    let tok = s.substring_char(start, n).to_owned();
    let ghost prev_dv = tokens.deep_view();
    tokens.push(tok);
    proof {
        lemma_split_whole(s@.subrange(start as int, n as int), sep);
        assert(tokens.deep_view() =~= prev_dv + seq![tok@]);
        assert(tokens.deep_view() =~= spec_split(s@, sep));
    }
    tokens
}

/// Joining a sequence of tokens with a separator character between each pair.
pub open spec fn spec_join(ts: Seq<Seq<char>>, sep: char) -> Seq<char>
    decreases ts.len(),
{
    if ts.len() == 0 {
        Seq::<char>::empty()
    } else if ts.len() == 1 {
        ts[0]
    } else {
        ts[0] + seq![sep] + spec_join(ts.drop_first(), sep)
    }
}

/// Joins the tokens with indices in [lo, hi) with a separator.
pub fn join_range(ts: &Vec<String>, lo: usize, hi: usize, sep: char) -> (r: String)
    requires
        lo <= hi <= ts@.len(),
    ensures
        r@ == spec_join(ts.deep_view().subrange(lo as int, hi as int), sep),
{
    if lo == hi {
        proof {
            assert(ts.deep_view().subrange(lo as int, hi as int) =~= Seq::<Seq<char>>::empty());
        }
        return String::new();
    }
    let mut acc: String = ts[hi - 1].clone();
    proof {
        assert(ts.deep_view().subrange(hi - 1, hi as int).len() == 1);
        assert(ts.deep_view().subrange(hi - 1, hi as int)[0] == ts.deep_view()[hi - 1]);
    }
    let mut i: usize = hi - 1;
    while i > lo
        invariant
            lo <= i < hi <= ts@.len(),
            acc@ == spec_join(ts.deep_view().subrange(i as int, hi as int), sep),
        decreases i,
    {
        i = i - 1;
        let mut t: String = ts[i].clone();
        push_char(&mut t, sep);
        t.append(acc.as_str());
        proof {
            let dv = ts.deep_view();
            let part = dv.subrange(i as int, hi as int);
            assert(part.len() >= 2);
            assert(part.drop_first() =~= dv.subrange(i as int + 1, hi as int));
            assert(t@ =~= part[0] + seq![sep] + spec_join(part.drop_first(), sep));
        }
        acc = t;
    }
    acc
}

/// The subject term of a storage constraint name. Constraint names follow
/// the convention `<table>_<field...>_<suffix>`: with fewer than three
/// underscore-separated tokens the raw name is used verbatim; otherwise the
/// first token (table) and last token (suffix) are dropped and the middle
/// tokens are joined with single spaces.
pub open spec fn spec_subject_of(name: Seq<char>) -> Seq<char> {
    let ts = spec_split(name, '_');
    if ts.len() < 3 {
        name
    } else {
        spec_join(ts.subrange(1, ts.len() - 1), ' ')
    }
}

/// Derives the subject term from a constraint name.
pub fn subject_term(name: &str) -> (r: String)
    ensures
        r@ == spec_subject_of(name@),
{
    let ts = split_str(name, '_');
    if ts.len() < 3 {
        proof {
            assert(ts.deep_view().len() == ts@.len());
        }
        name.to_owned()
    } else {
        proof {
            assert(ts.deep_view().len() == ts@.len());
        }
        join_range(&ts, 1, ts.len() - 1, ' ')
    }
}

} // verus!
