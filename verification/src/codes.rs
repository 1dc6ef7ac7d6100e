use vstd::prelude::*;

verus! {

// Generic cross-service codes: the global namespace [1000, 2000).
pub const CODE_INTERNAL: u16 = 1000;

pub const CODE_BAD_REQUEST: u16 = 1001;

pub const CODE_NOT_FOUND: u16 = 1002;

pub const CODE_UNAUTHORIZED: u16 = 1003;

pub const CODE_VALIDATION: u16 = 1004;

pub const CODE_DATABASE: u16 = 1005;

// Service-owned user-domain codes: the service namespace, 2000 and above.
pub const CODE_USER_NOT_FOUND: u16 = 2000;

pub const CODE_USER_ALREADY_EXISTS: u16 = 2001;

pub const CODE_INVALID_CREDENTIALS: u16 = 2002;

pub const CODE_EMAIL_ALREADY_EXISTS: u16 = 2003;

pub const CODE_WEAK_PASSWORD: u16 = 2004;

pub const CODE_INVALID_EMAIL_FORMAT: u16 = 2005;

pub const CODE_TOKEN_EXPIRED: u16 = 2006;

pub const CODE_TOKEN_INVALID: u16 = 2007;

pub const CODE_PERMISSION_DENIED: u16 = 2008;

pub const CODE_RATE_LIMIT_EXCEEDED: u16 = 2009;

// Service-owned code bands, one 100-wide band per concern.
pub const AUTH_BAND_START: u16 = 2100;

pub const AUTH_BAND_END: u16 = 2200;

pub const RATE_BAND_START: u16 = 2200;

pub const RATE_BAND_END: u16 = 2300;

// The global namespace boundaries.
pub const GLOBAL_NAMESPACE_START: u16 = 1000;

pub const GLOBAL_NAMESPACE_END: u16 = 2000;

/// A code in [1000, 2000) names a cross-service ("global") condition; every
/// other code is owned by the deploying service.
pub open spec fn is_global_code(code: u16) -> bool {
    GLOBAL_NAMESPACE_START <= code < GLOBAL_NAMESPACE_END
}

/// Codes below the global namespace are invalid and must not be emitted.
pub open spec fn is_valid_code(code: u16) -> bool {
    code >= GLOBAL_NAMESPACE_START
}

} // verus!
