use vstd::prelude::*;

verus! {

/// The key-value pairs of a JSON object whose values are all strings,
/// sorted by key with duplicate keys keeping the last value, or nothing
/// when the text is not such an object.
pub uninterp spec fn json_table_of(s: Seq<char>) -> Option<Seq<(Seq<char>, Seq<char>)>>;

/// Relies on serde_json::from_str, deserializing into an ordered map of
/// strings: the outcome is a pure function of the input text; a duplicate
/// key keeps its last value and the pairs come out sorted by key.
#[verifier::external_body]
fn parse_json_table(s: &str) -> (r: Option<Vec<(String, String)>>)
    ensures
        match r {
            Some(v) => json_table_of(s@) == Some(v.deep_view()),
            None => json_table_of(s@) is None,
        },
{
    match serde_json::from_str::<std::collections::BTreeMap<String, String>>(s) {
        Ok(m) => Some(m.into_iter().collect()),
        Err(_) => None,
    }
}

/// The single unrecoverable condition in the subsystem: a message-table
/// source that cannot be parsed into a code-to-message mapping.
#[derive(Clone, Copy, Debug, PartialEq, Eq, Structural)]
pub enum LoadError {
    Malformed,
}

/// The mapping described by a sequence of keyed entries, a later entry
/// shadowing an earlier one with the same key.
pub open spec fn map_of_entries(es: Seq<(u16, Seq<char>)>) -> Map<u16, Seq<char>>
    decreases es.len(),
{
    if es.len() == 0 {
        Map::<u16, Seq<char>>::empty()
    } else {
        map_of_entries(es.drop_last()).insert(es.last().0, es.last().1)
    }
}

/// The code-to-message mapping described by raw key-value pairs: a pair
/// whose key is not a canonical decimal code names no code and is skipped;
/// a later pair shadows an earlier one with the same code.
pub open spec fn table_of_pairs(ps: Seq<(Seq<char>, Seq<char>)>) -> Map<u16, Seq<char>>
    decreases ps.len(),
{
    if ps.len() == 0 {
        Map::<u16, Seq<char>>::empty()
    } else {
        let m = table_of_pairs(ps.drop_last());
        match crate::numbers::spec_canonical_code(ps.last().0) {
            Some(code) => m.insert(code, ps.last().1),
            None => m,
        }
    }
}

/// Total resolution against a loaded mapping: the stored message, or the
/// caller-supplied fallback when the code is absent.
pub open spec fn spec_resolve(m: Map<u16, Seq<char>>, code: u16, fallback: Seq<char>) -> Seq<
    char,
> {
    if m.contains_key(code) {
        m[code]
    } else {
        fallback
    }
}

/// An immutable mapping from numeric code to message text, built once from
/// one external text source and read-only afterwards.
#[derive(Debug)]
pub struct MessageTable {
    entries: Vec<(u16, String)>,
}

impl View for MessageTable {
    type V = Map<u16, Seq<char>>;

    closed spec fn view(&self) -> Map<u16, Seq<char>> {
        map_of_entries(self.entries.deep_view())
    }
}

proof fn lemma_entries_absent(es: Seq<(u16, Seq<char>)>, code: u16)
    requires
        forall|i: int| 0 <= i < es.len() ==> (#[trigger] es[i]).0 != code,
    ensures
        !map_of_entries(es).contains_key(code),
    decreases es.len(),
{
    if es.len() > 0 {
        lemma_entries_absent(es.drop_last(), code);
    }
}

proof fn lemma_entries_found(es: Seq<(u16, Seq<char>)>, i: int)
    requires
        0 <= i < es.len(),
        forall|j: int| i < j < es.len() ==> (#[trigger] es[j]).0 != es[i].0,
    ensures
        map_of_entries(es).contains_key(es[i].0),
        map_of_entries(es)[es[i].0] == es[i].1,
    decreases es.len(),
{
    if i < es.len() - 1 {
        lemma_entries_found(es.drop_last(), i);
    }
}

impl MessageTable {
    /// Builds the table from one external text source. Loading succeeds
    /// exactly when the source parses as a JSON object of strings; the
    /// result then holds the code-to-message mapping those pairs describe.
    pub fn from_source(text: &str) -> (r: Result<MessageTable, LoadError>)
        ensures
            match r {
                Ok(t) => json_table_of(text@) matches Some(ps) && t@ == table_of_pairs(ps),
                Err(e) => json_table_of(text@) is None && e == LoadError::Malformed,
            },
    {
        match parse_json_table(text) {
            Some(pairs) => Ok(Self::from_pairs(&pairs)),
            None => Err(LoadError::Malformed),
        }
    }

    /// Builds the table from raw key-value pairs.
    pub fn from_pairs(pairs: &Vec<(String, String)>) -> (t: MessageTable)
        ensures
            t@ == table_of_pairs(pairs.deep_view()),
    {
        let n = pairs.len();
        let mut entries: Vec<(u16, String)> = Vec::new();
        let mut i: usize = 0;
        proof {
            assert(pairs.deep_view().subrange(0, 0) =~= Seq::<(Seq<char>, Seq<char>)>::empty());
            assert(entries.deep_view() =~= Seq::<(u16, Seq<char>)>::empty());
        }
        while i < n
            invariant
                n == pairs@.len(),
                i <= n,
                map_of_entries(entries.deep_view()) == table_of_pairs(
                    pairs.deep_view().subrange(0, i as int),
                ),
            decreases n - i,
        {
            let ghost prev = entries.deep_view();
            let key: &String = &pairs[i].0;
            match crate::numbers::canonical_code(key.as_str()) {
                Some(code) => {
                    let message: String = pairs[i].1.clone();
                    entries.push((code, message));
                    proof {
                        assert(entries.deep_view() =~= prev.push(
                            (code, pairs.deep_view()[i as int].1),
                        ));
                        assert(entries.deep_view().drop_last() =~= prev);
                    }
                },
                None => {},
            }
            proof {
                assert(pairs.deep_view().subrange(0, i as int + 1).drop_last()
                    =~= pairs.deep_view().subrange(0, i as int));
                assert(pairs.deep_view().subrange(0, i as int + 1).last() == pairs.deep_view()[i as int]);
            }
            i = i + 1;
        }
        proof {
            assert(pairs.deep_view().subrange(0, n as int) =~= pairs.deep_view());
        }
        MessageTable { entries }
    }

    /// Resolves a code against the table: the stored message, or the
    /// caller-supplied fallback when the code is absent. Total once the
    /// table is built; it never fails.
    pub fn resolve(&self, code: u16, fallback: &str) -> (r: String)
        ensures
            r@ == spec_resolve(self@, code, fallback@),
    {
        let n = self.entries.len();
        let mut i: usize = n;
        while i > 0
            invariant
                n == self.entries@.len(),
                i <= n,
                forall|j: int|
                    i <= j < n ==> (#[trigger] self.entries.deep_view()[j]).0 != code,
            decreases i,
        {
            i = i - 1;
            let k: u16 = self.entries[i].0;
            if k == code {
                proof {
                    lemma_entries_found(self.entries.deep_view(), i as int);
                }
                return self.entries[i].1.clone();
            }
        }
        proof {
            lemma_entries_absent(self.entries.deep_view(), code);
        }
        fallback.to_owned()
    }
}

/// Law: resolution is total on a loaded table, and returns the fallback
/// exactly when the code is absent — stated for fallbacks that the table
/// does not itself store under the code.
pub proof fn lemma_resolve_fallback_iff_absent(m: Map<u16, Seq<char>>, code: u16, fallback: Seq<
    char,
>)
    requires
        m.contains_key(code) ==> m[code] != fallback,
    ensures
        (spec_resolve(m, code, fallback) == fallback) <==> !m.contains_key(code),
{
}

} // verus!
