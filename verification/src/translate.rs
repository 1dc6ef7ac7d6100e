use vstd::prelude::*;

verus! {

/// Minimal failure metadata from a storage backend: the backend's failure
/// classification and, when one was reported, the violated constraint's
/// name. Produced by the storage collaborator and consumed here once.
#[derive(Clone, Debug)]
pub struct ConstraintSignal {
    pub classification: String,
    pub constraint_name: Option<String>,
}

/// The one classification handled specially: the storage backend's
/// uniqueness-violation class.
pub open spec fn is_unique_violation(classification: Seq<char>) -> bool {
    classification == "23505"@
}

/// Whether a (possibly missing) signal is a recognized uniqueness
/// violation.
pub open spec fn signal_recognized(signal: Option<ConstraintSignal>) -> bool {
    match signal {
        Some(sig) => is_unique_violation(sig.classification@),
        None => false,
    }
}

/// The constraint name carried by a signal, the empty string when the
/// backend reported none.
pub open spec fn signal_constraint(signal: Option<ConstraintSignal>) -> Seq<char> {
    match signal {
        Some(sig) => match sig.constraint_name {
            Some(name) => name@,
            None => Seq::<char>::empty(),
        },
        None => Seq::<char>::empty(),
    }
}

/// Translates a raw storage-backend failure into the stable error
/// representation. A recognized uniqueness violation becomes a bad-input
/// error whose message names the violated subject; every other
/// classification, and a missing signal, becomes a generic internal error
/// carrying the raw backend text. A pure, total function of its input.
pub fn translate(signal: &Option<ConstraintSignal>, raw_error: &str) -> (r:
    crate::error::ErrorValue)
    ensures
        r.details is None,
        signal_recognized(*signal) ==> {
            &&& r.code == crate::codes::CODE_BAD_REQUEST
            &&& r.status == crate::status::StatusCategory::BadInput
            &&& r.message@ == crate::strutil::spec_subject_of(signal_constraint(*signal))
                + " already exists"@
        },
        !signal_recognized(*signal) ==> {
            &&& r.code == crate::codes::CODE_INTERNAL
            &&& r.status == crate::status::StatusCategory::Internal
            &&& r.message@ == raw_error@
        },
{
    match signal {
        Some(sig) => {
            if crate::strutil::str_eq(sig.classification.as_str(), "23505") {
                let name: &str = match &sig.constraint_name {
                    Some(n) => n.as_str(),
                    None => "",
                };
                proof {
                    reveal_strlit("");
                    assert(name@ == signal_constraint(*signal));
                }
                let mut message = crate::strutil::subject_term(name);
                message.append(" already exists");
                crate::error::ErrorValue::bad_request(message)
            } else {
                crate::error::ErrorValue::internal_error(raw_error.to_owned())
            }
        },
        None => crate::error::ErrorValue::internal_error(raw_error.to_owned()),
    }
}

/// Law: the status the translator assigns is exactly what the status
/// policy assigns to the code it picks — the two components never
/// disagree on a translated failure.
pub proof fn lemma_translate_status_consistent(recognized: bool)
    ensures
        recognized ==> crate::status::spec_status_for(crate::codes::CODE_BAD_REQUEST)
            == crate::status::StatusCategory::BadInput,
        !recognized ==> crate::status::spec_status_for(crate::codes::CODE_INTERNAL)
            == crate::status::StatusCategory::Internal,
{
    crate::status::lemma_exact_code_statuses();
}

} // verus!
