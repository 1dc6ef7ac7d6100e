use vstd::prelude::*;

verus! {

/// The two message-table partitions: codes in the global namespace share
/// one cross-service vocabulary, while every other code belongs to the
/// vocabulary of the deploying service.
pub struct MessageCatalog {
    pub global: crate::table::MessageTable,
    pub service: crate::table::MessageTable,
}

impl MessageCatalog {
    /// The table governing a code, selected by the numeric range alone.
    pub open spec fn governing_table(self, code: u16) -> Map<u16, Seq<char>> {
        if crate::codes::is_global_code(code) {
            self.global@
        } else {
            self.service@
        }
    }

    pub open spec fn spec_message(self, code: u16, fallback: Seq<char>) -> Seq<char> {
        crate::table::spec_resolve(self.governing_table(code), code, fallback)
    }

    pub fn new(global: crate::table::MessageTable, service: crate::table::MessageTable) -> (r:
        MessageCatalog)
        ensures
            r.global@ == global@,
            r.service@ == service@,
    {
        MessageCatalog { global, service }
    }

    /// Resolves a code to its configured message, or to the caller-supplied
    /// fallback when the governing table does not hold the code. Codes in
    /// [1000, 2000) are looked up in the global table and all other codes
    /// in the service table; the numeric range is the only dispatch key.
    pub fn get_error_message(&self, code: u16, fallback: &str) -> (r: String)
        ensures
            r@ == self.spec_message(code, fallback@),
    {
        if code >= crate::codes::GLOBAL_NAMESPACE_START
            && code < crate::codes::GLOBAL_NAMESPACE_END {
            self.global.resolve(code, fallback)
        } else {
            self.service.resolve(code, fallback)
        }
    }
}

/// Law: resolution of a code in the global namespace reads only the global
/// table, and resolution of any other code reads only the service table —
/// two catalogs that agree on the governing partition resolve identically,
/// whatever the other partition holds.
pub proof fn lemma_namespace_routing(
    a: MessageCatalog,
    b: MessageCatalog,
    code: u16,
    fallback: Seq<char>,
)
    requires
        crate::codes::is_global_code(code) ==> a.global@ == b.global@,
        !crate::codes::is_global_code(code) ==> a.service@ == b.service@,
    ensures
        a.spec_message(code, fallback) == b.spec_message(code, fallback),
{
}

} // verus!
