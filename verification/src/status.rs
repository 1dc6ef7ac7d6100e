use vstd::prelude::*;

verus! {

/// An abstract transport-outcome bucket, decoupled from any specific wire
/// protocol's numeric status codes.
#[derive(Clone, Copy, Debug, PartialEq, Eq, Structural)]
pub enum StatusCategory {
    BadInput,
    NotFound,
    Unauthorized,
    Forbidden,
    Conflict,
    Unprocessable,
    TooManyRequests,
    BadGateway,
    ServiceUnavailable,
    Internal,
}

/// The fixed table by which the serialization boundary picks a transport
/// status code from a status category.
pub open spec fn spec_http_status_of(cat: StatusCategory) -> u16 {
    match cat {
        StatusCategory::BadInput => 400,
        StatusCategory::Unauthorized => 401,
        StatusCategory::Forbidden => 403,
        StatusCategory::NotFound => 404,
        StatusCategory::Conflict => 409,
        StatusCategory::Unprocessable => 422,
        StatusCategory::TooManyRequests => 429,
        StatusCategory::Internal => 500,
        StatusCategory::BadGateway => 502,
        StatusCategory::ServiceUnavailable => 503,
    }
}

pub fn http_status_of(cat: StatusCategory) -> (r: u16)
    ensures
        r == spec_http_status_of(cat),
{
    match cat {
        StatusCategory::BadInput => 400,
        StatusCategory::Unauthorized => 401,
        StatusCategory::Forbidden => 403,
        StatusCategory::NotFound => 404,
        StatusCategory::Conflict => 409,
        StatusCategory::Unprocessable => 422,
        StatusCategory::TooManyRequests => 429,
        StatusCategory::Internal => 500,
        StatusCategory::BadGateway => 502,
        StatusCategory::ServiceUnavailable => 503,
    }
}

/// Exact-code policies: each generic cross-service code and each
/// service-owned user-domain code maps one-to-one to a fixed category.
pub open spec fn spec_exact_policies() -> Seq<(u16, StatusCategory)> {
    seq![
        (crate::codes::CODE_INTERNAL, StatusCategory::Internal),
        (crate::codes::CODE_BAD_REQUEST, StatusCategory::BadInput),
        (crate::codes::CODE_NOT_FOUND, StatusCategory::NotFound),
        (crate::codes::CODE_UNAUTHORIZED, StatusCategory::Unauthorized),
        (crate::codes::CODE_VALIDATION, StatusCategory::Unprocessable),
        (crate::codes::CODE_DATABASE, StatusCategory::Internal),
        (crate::codes::CODE_USER_NOT_FOUND, StatusCategory::NotFound),
        (crate::codes::CODE_USER_ALREADY_EXISTS, StatusCategory::Conflict),
        (crate::codes::CODE_INVALID_CREDENTIALS, StatusCategory::Unauthorized),
        (crate::codes::CODE_EMAIL_ALREADY_EXISTS, StatusCategory::Conflict),
        (crate::codes::CODE_WEAK_PASSWORD, StatusCategory::BadInput),
        (crate::codes::CODE_INVALID_EMAIL_FORMAT, StatusCategory::BadInput),
        (crate::codes::CODE_TOKEN_EXPIRED, StatusCategory::Unauthorized),
        (crate::codes::CODE_TOKEN_INVALID, StatusCategory::Unauthorized),
        (crate::codes::CODE_PERMISSION_DENIED, StatusCategory::Forbidden),
        (crate::codes::CODE_RATE_LIMIT_EXCEEDED, StatusCategory::TooManyRequests),
    ]
}

/// Range policies for service-owned codes: a 100-wide band per concern, so
/// that a new code inside an existing band receives the right category
/// without a policy change. Each band is (first code, one past last, category).
pub open spec fn spec_band_policies() -> Seq<(u16, u16, StatusCategory)> {
    seq![
        (crate::codes::AUTH_BAND_START, crate::codes::AUTH_BAND_END, StatusCategory::Unauthorized),
        (crate::codes::RATE_BAND_START, crate::codes::RATE_BAND_END, StatusCategory::TooManyRequests),
    ]
}

/// First exact policy whose code equals `code`, scanned in priority order.
pub open spec fn spec_lookup_exact(ps: Seq<(u16, StatusCategory)>, code: u16) -> Option<
    StatusCategory,
>
    decreases ps.len(),
{
    if ps.len() == 0 {
        None
    } else if ps[0].0 == code {
        Some(ps[0].1)
    } else {
        spec_lookup_exact(ps.drop_first(), code)
    }
}

/// First band containing `code`, scanned in priority order.
pub open spec fn spec_lookup_band(bs: Seq<(u16, u16, StatusCategory)>, code: u16) -> Option<
    StatusCategory,
>
    decreases bs.len(),
{
    if bs.len() == 0 {
        None
    } else if bs[0].0 <= code && code < bs[0].1 {
        Some(bs[0].2)
    } else {
        spec_lookup_band(bs.drop_first(), code)
    }
}

/// The status policy: exact-code policies take precedence over range
/// policies; range policies take precedence over the internal default.
pub open spec fn spec_status_for(code: u16) -> StatusCategory {
    match spec_lookup_exact(spec_exact_policies(), code) {
        Some(cat) => cat,
        None => match spec_lookup_band(spec_band_policies(), code) {
            Some(cat) => cat,
            None => StatusCategory::Internal,
        },
    }
}

fn exact_policy_table() -> (v: Vec<(u16, StatusCategory)>)
    ensures
        v@ == spec_exact_policies(),
{
    let v: Vec<(u16, StatusCategory)> = vec![
        (crate::codes::CODE_INTERNAL, StatusCategory::Internal),
        (crate::codes::CODE_BAD_REQUEST, StatusCategory::BadInput),
        (crate::codes::CODE_NOT_FOUND, StatusCategory::NotFound),
        (crate::codes::CODE_UNAUTHORIZED, StatusCategory::Unauthorized),
        (crate::codes::CODE_VALIDATION, StatusCategory::Unprocessable),
        (crate::codes::CODE_DATABASE, StatusCategory::Internal),
        (crate::codes::CODE_USER_NOT_FOUND, StatusCategory::NotFound),
        (crate::codes::CODE_USER_ALREADY_EXISTS, StatusCategory::Conflict),
        (crate::codes::CODE_INVALID_CREDENTIALS, StatusCategory::Unauthorized),
        (crate::codes::CODE_EMAIL_ALREADY_EXISTS, StatusCategory::Conflict),
        (crate::codes::CODE_WEAK_PASSWORD, StatusCategory::BadInput),
        (crate::codes::CODE_INVALID_EMAIL_FORMAT, StatusCategory::BadInput),
        (crate::codes::CODE_TOKEN_EXPIRED, StatusCategory::Unauthorized),
        (crate::codes::CODE_TOKEN_INVALID, StatusCategory::Unauthorized),
        (crate::codes::CODE_PERMISSION_DENIED, StatusCategory::Forbidden),
        (crate::codes::CODE_RATE_LIMIT_EXCEEDED, StatusCategory::TooManyRequests),
    ];
    proof {
        assert(v@ =~= spec_exact_policies());
    }
    v
}

fn band_policy_table() -> (v: Vec<(u16, u16, StatusCategory)>)
    ensures
        v@ == spec_band_policies(),
{
    let v: Vec<(u16, u16, StatusCategory)> = vec![
        (crate::codes::AUTH_BAND_START, crate::codes::AUTH_BAND_END, StatusCategory::Unauthorized),
        (
            crate::codes::RATE_BAND_START,
            crate::codes::RATE_BAND_END,
            StatusCategory::TooManyRequests,
        ),
    ];
    proof {
        assert(v@ =~= spec_band_policies());
    }
    v
}

/// Maps a numeric code to its transport status category: the first matching
/// exact policy, else the first band containing the code, else Internal.
pub fn status_for(code: u16) -> (r: StatusCategory)
    ensures
        r == spec_status_for(code),
{
    let exact = exact_policy_table();
    let n = exact.len();
    proof {
        assert(exact@.subrange(0, n as int) =~= exact@);
    }
    let mut i: usize = 0;
    while i < n
        invariant
            n == exact@.len(),
            i <= n,
            exact@ == spec_exact_policies(),
            spec_lookup_exact(spec_exact_policies(), code) == spec_lookup_exact(
                exact@.subrange(i as int, n as int),
                code,
            ),
        decreases n - i,
    {
        let (c, cat) = exact[i];
        if c == code {
            return cat;
        }
        proof {
            assert(exact@.subrange(i as int, n as int).drop_first() =~= exact@.subrange(
                i as int + 1,
                n as int,
            ));
        }
        i = i + 1;
    }
    proof {
        assert(exact@.subrange(n as int, n as int) =~= Seq::<(u16, StatusCategory)>::empty());
    }
    let bands = band_policy_table();
    let m = bands.len();
    proof {
        assert(bands@.subrange(0, m as int) =~= bands@);
    }
    let mut j: usize = 0;
    while j < m
        invariant
            m == bands@.len(),
            j <= m,
            bands@ == spec_band_policies(),
            spec_lookup_exact(spec_exact_policies(), code) is None,
            spec_lookup_band(spec_band_policies(), code) == spec_lookup_band(
                bands@.subrange(j as int, m as int),
                code,
            ),
        decreases m - j,
    {
        let (lo, hi, cat) = bands[j];
        if lo <= code && code < hi {
            return cat;
        }
        proof {
            assert(bands@.subrange(j as int, m as int).drop_first() =~= bands@.subrange(
                j as int + 1,
                m as int,
            ));
        }
        j = j + 1;
    }
    proof {
        assert(bands@.subrange(m as int, m as int) =~= Seq::<(u16, u16, StatusCategory)>::empty());
    }
    StatusCategory::Internal
}

proof fn lemma_lookup_exact_none(ps: Seq<(u16, StatusCategory)>, code: u16)
    requires
        forall|i: int| 0 <= i < ps.len() ==> (#[trigger] ps[i]).0 != code,
    ensures
        spec_lookup_exact(ps, code) is None,
    decreases ps.len(),
{
    if ps.len() > 0 {
        lemma_lookup_exact_none(ps.drop_first(), code);
    }
}

proof fn lemma_lookup_band_none(bs: Seq<(u16, u16, StatusCategory)>, code: u16)
    requires
        forall|i: int| 0 <= i < bs.len() ==> !((#[trigger] bs[i]).0 <= code && code < bs[i].1),
    ensures
        spec_lookup_band(bs, code) is None,
    decreases bs.len(),
{
    if bs.len() > 0 {
        lemma_lookup_band_none(bs.drop_first(), code);
    }
}

proof fn lemma_lookup_exact_found(ps: Seq<(u16, StatusCategory)>, code: u16, i: int)
    requires
        0 <= i < ps.len(),
        ps[i].0 == code,
        forall|j: int| 0 <= j < i ==> (#[trigger] ps[j]).0 != code,
    ensures
        spec_lookup_exact(ps, code) == Some(ps[i].1),
    decreases i,
{
    if i > 0 {
        let t = ps.drop_first();
        assert(t[i - 1] == ps[i]);
        assert(forall|j: int| 0 <= j < i - 1 ==> (#[trigger] t[j]).0 != code);
        lemma_lookup_exact_found(t, code, i - 1);
    }
}

/// Law: every code carrying an exact policy receives exactly the category
/// that policy names, evaluated here for the whole table.
pub proof fn lemma_exact_code_statuses()
    ensures
        spec_status_for(crate::codes::CODE_INTERNAL) == StatusCategory::Internal,
        spec_status_for(crate::codes::CODE_BAD_REQUEST) == StatusCategory::BadInput,
        spec_status_for(crate::codes::CODE_NOT_FOUND) == StatusCategory::NotFound,
        spec_status_for(crate::codes::CODE_UNAUTHORIZED) == StatusCategory::Unauthorized,
        spec_status_for(crate::codes::CODE_VALIDATION) == StatusCategory::Unprocessable,
        spec_status_for(crate::codes::CODE_DATABASE) == StatusCategory::Internal,
        spec_status_for(crate::codes::CODE_USER_NOT_FOUND) == StatusCategory::NotFound,
        spec_status_for(crate::codes::CODE_USER_ALREADY_EXISTS) == StatusCategory::Conflict,
        spec_status_for(crate::codes::CODE_INVALID_CREDENTIALS) == StatusCategory::Unauthorized,
        spec_status_for(crate::codes::CODE_EMAIL_ALREADY_EXISTS) == StatusCategory::Conflict,
        spec_status_for(crate::codes::CODE_WEAK_PASSWORD) == StatusCategory::BadInput,
        spec_status_for(crate::codes::CODE_INVALID_EMAIL_FORMAT) == StatusCategory::BadInput,
        spec_status_for(crate::codes::CODE_TOKEN_EXPIRED) == StatusCategory::Unauthorized,
        spec_status_for(crate::codes::CODE_TOKEN_INVALID) == StatusCategory::Unauthorized,
        spec_status_for(crate::codes::CODE_PERMISSION_DENIED) == StatusCategory::Forbidden,
        spec_status_for(crate::codes::CODE_RATE_LIMIT_EXCEEDED) == StatusCategory::TooManyRequests,
{
    let ps = spec_exact_policies();
    lemma_lookup_exact_found(ps, crate::codes::CODE_INTERNAL, 0);
    lemma_lookup_exact_found(ps, crate::codes::CODE_BAD_REQUEST, 1);
    lemma_lookup_exact_found(ps, crate::codes::CODE_NOT_FOUND, 2);
    lemma_lookup_exact_found(ps, crate::codes::CODE_UNAUTHORIZED, 3);
    lemma_lookup_exact_found(ps, crate::codes::CODE_VALIDATION, 4);
    lemma_lookup_exact_found(ps, crate::codes::CODE_DATABASE, 5);
    lemma_lookup_exact_found(ps, crate::codes::CODE_USER_NOT_FOUND, 6);
    lemma_lookup_exact_found(ps, crate::codes::CODE_USER_ALREADY_EXISTS, 7);
    lemma_lookup_exact_found(ps, crate::codes::CODE_INVALID_CREDENTIALS, 8);
    lemma_lookup_exact_found(ps, crate::codes::CODE_EMAIL_ALREADY_EXISTS, 9);
    lemma_lookup_exact_found(ps, crate::codes::CODE_WEAK_PASSWORD, 10);
    lemma_lookup_exact_found(ps, crate::codes::CODE_INVALID_EMAIL_FORMAT, 11);
    lemma_lookup_exact_found(ps, crate::codes::CODE_TOKEN_EXPIRED, 12);
    lemma_lookup_exact_found(ps, crate::codes::CODE_TOKEN_INVALID, 13);
    lemma_lookup_exact_found(ps, crate::codes::CODE_PERMISSION_DENIED, 14);
    lemma_lookup_exact_found(ps, crate::codes::CODE_RATE_LIMIT_EXCEEDED, 15);
}

/// Law: an exact-code policy takes precedence over every range policy.
pub proof fn lemma_exact_policy_precedence(code: u16, cat: StatusCategory)
    requires
        spec_lookup_exact(spec_exact_policies(), code) == Some(cat),
    ensures
        spec_status_for(code) == cat,
{
}

/// Law: a code matched by no exact policy takes its category from the first
/// band containing it.
pub proof fn lemma_band_policy_precedence(code: u16, cat: StatusCategory)
    requires
        spec_lookup_exact(spec_exact_policies(), code) is None,
        spec_lookup_band(spec_band_policies(), code) == Some(cat),
    ensures
        spec_status_for(code) == cat,
{
}

/// Law: a code outside every exact policy and every defined band falls back
/// to the internal (server-fault) category; it never silently succeeds.
pub proof fn lemma_status_outside_policies_internal(code: u16)
    requires
        !(crate::codes::CODE_INTERNAL <= code <= crate::codes::CODE_DATABASE),
        !(crate::codes::CODE_USER_NOT_FOUND <= code <= crate::codes::CODE_RATE_LIMIT_EXCEEDED),
        !(crate::codes::AUTH_BAND_START <= code < crate::codes::AUTH_BAND_END),
        !(crate::codes::RATE_BAND_START <= code < crate::codes::RATE_BAND_END),
    ensures
        spec_status_for(code) == StatusCategory::Internal,
{
    lemma_lookup_exact_none(spec_exact_policies(), code);
    lemma_lookup_band_none(spec_band_policies(), code);
}

} // verus!
