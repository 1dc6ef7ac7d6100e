use vstd::prelude::*;

verus! {

/// One structured detail of an error: the field concerned and the message
/// kept for it.
#[derive(Clone, Debug)]
pub struct ErrorDetail {
    pub field: String,
    pub message: String,
}

/// The mathematical content of a detail list.
pub open spec fn detail_views(ds: Seq<ErrorDetail>) -> Seq<(Seq<char>, Seq<char>)> {
    ds.map_values(|d: ErrorDetail| (d.field@, d.message@))
}

/// The mathematical content of an optional detail list.
pub open spec fn details_view_opt(details: &Option<Vec<ErrorDetail>>) -> Option<
    Seq<(Seq<char>, Seq<char>)>,
> {
    match details {
        None => None,
        Some(ds) => Some(detail_views(ds@)),
    }
}

/// The unifying, immutable error representation: a stable numeric code, a
/// resolved human-readable message, a transport status category, and an
/// optional ordered detail list. It is the only artifact handed to the
/// response-serialization boundary.
#[derive(Clone, Debug)]
pub struct ErrorValue {
    pub code: u16,
    pub message: String,
    pub status: crate::status::StatusCategory,
    pub details: Option<Vec<ErrorDetail>>,
}

impl ErrorValue {
    /// A fresh error value for an arbitrary code: the message comes from
    /// the catalog partition governing the code (with a generic fallback
    /// naming the code), the status is the given one, or the internal
    /// server-fault category when none is given.
    pub fn new(
        code: u16,
        status: Option<crate::status::StatusCategory>,
        catalog: &crate::catalog::MessageCatalog,
    ) -> (r: ErrorValue)
        ensures
            r.code == code,
            r.message@ == catalog.spec_message(
                code,
                "Error code: "@ + crate::numbers::dec_digits(code as int),
            ),
            r.status == (match status {
                Some(s) => s,
                None => crate::status::StatusCategory::Internal,
            }),
            r.details is None,
    {
        let mut fallback: String = "Error code: ".to_owned();
        let digits = crate::numbers::render_u16(code);
        fallback.append(digits.as_str());
        let message = catalog.get_error_message(code, fallback.as_str());
        let status_value = match status {
            Some(s) => s,
            None => crate::status::StatusCategory::Internal,
        };
        ErrorValue { code, message, status: status_value, details: None }
    }

    /// The response document the boundary serializes for this error.
    pub fn to_document(&self) -> (r: String)
        ensures
            r@ == crate::document::spec_document(
                self.code,
                self.message@,
                details_view_opt(&self.details),
            ),
    {
        crate::document::render_document(self)
    }

    /// The transport status code the boundary sends for this error.
    pub fn status_code(&self) -> (r: u16)
        ensures
            r == crate::status::spec_http_status_of(self.status),
    {
        crate::status::http_status_of(self.status)
    }

    /// An internal fault carrying its diagnostic text.
    pub fn internal_error(message: String) -> (r: ErrorValue)
        ensures
            r.code == crate::codes::CODE_INTERNAL,
            r.status == crate::status::StatusCategory::Internal,
            r.message@ == message@,
            r.details is None,
    {
        ErrorValue {
            code: crate::codes::CODE_INTERNAL,
            message,
            status: crate::status::StatusCategory::Internal,
            details: None,
        }
    }

    /// A rejected request carrying the reason.
    pub fn bad_request(message: String) -> (r: ErrorValue)
        ensures
            r.code == crate::codes::CODE_BAD_REQUEST,
            r.status == crate::status::StatusCategory::BadInput,
            r.message@ == message@,
            r.details is None,
    {
        ErrorValue {
            code: crate::codes::CODE_BAD_REQUEST,
            message,
            status: crate::status::StatusCategory::BadInput,
            details: None,
        }
    }

    /// A missing resource carrying the reason.
    pub fn not_found(message: String) -> (r: ErrorValue)
        ensures
            r.code == crate::codes::CODE_NOT_FOUND,
            r.status == crate::status::StatusCategory::NotFound,
            r.message@ == message@,
            r.details is None,
    {
        ErrorValue {
            code: crate::codes::CODE_NOT_FOUND,
            message,
            status: crate::status::StatusCategory::NotFound,
            details: None,
        }
    }

    /// A failed authentication carrying the reason.
    pub fn unauthorized(message: String) -> (r: ErrorValue)
        ensures
            r.code == crate::codes::CODE_UNAUTHORIZED,
            r.status == crate::status::StatusCategory::Unauthorized,
            r.message@ == message@,
            r.details is None,
    {
        ErrorValue {
            code: crate::codes::CODE_UNAUTHORIZED,
            message,
            status: crate::status::StatusCategory::Unauthorized,
            details: None,
        }
    }

    /// A validation failure carrying a summary message only.
    pub fn validation_error(message: String) -> (r: ErrorValue)
        ensures
            r.code == crate::codes::CODE_VALIDATION,
            r.status == crate::status::StatusCategory::Unprocessable,
            r.message@ == message@,
            r.details is None,
    {
        ErrorValue {
            code: crate::codes::CODE_VALIDATION,
            message,
            status: crate::status::StatusCategory::Unprocessable,
            details: None,
        }
    }

    /// A storage-backend fault carrying its diagnostic text.
    pub fn database_error(message: String) -> (r: ErrorValue)
        ensures
            r.code == crate::codes::CODE_DATABASE,
            r.status == crate::status::StatusCategory::Internal,
            r.message@ == message@,
            r.details is None,
    {
        ErrorValue {
            code: crate::codes::CODE_DATABASE,
            message,
            status: crate::status::StatusCategory::Internal,
            details: None,
        }
    }

    /// A domain error for a known user-domain code: the message is resolved
    /// from the catalog with the given fallback, and the status is what the
    /// status policy assigns the code.
    fn domain_error(
        code: u16,
        fallback: &str,
        status: crate::status::StatusCategory,
        catalog: &crate::catalog::MessageCatalog,
    ) -> (r: ErrorValue)
        requires
            status == crate::status::spec_status_for(code),
        ensures
            r.code == code,
            r.message@ == catalog.spec_message(code, fallback@),
            r.status == crate::status::spec_status_for(code),
            r.details is None,
    {
        let message = catalog.get_error_message(code, fallback);
        ErrorValue { code, message, status, details: None }
    }

    /// The requested user does not exist.
    pub fn user_not_found(catalog: &crate::catalog::MessageCatalog) -> (r: ErrorValue)
        ensures
            r.code == crate::codes::CODE_USER_NOT_FOUND,
            r.message@ == catalog.spec_message(crate::codes::CODE_USER_NOT_FOUND, "User not found"@),
            r.status == crate::status::StatusCategory::NotFound,
            r.details is None,
    {
        proof {
            crate::status::lemma_exact_code_statuses();
        }
        Self::domain_error(
            crate::codes::CODE_USER_NOT_FOUND,
            "User not found",
            crate::status::StatusCategory::NotFound,
            catalog,
        )
    }

    /// A user with the same identity already exists.
    pub fn user_already_exists(catalog: &crate::catalog::MessageCatalog) -> (r: ErrorValue)
        ensures
            r.code == crate::codes::CODE_USER_ALREADY_EXISTS,
            r.message@ == catalog.spec_message(
                crate::codes::CODE_USER_ALREADY_EXISTS,
                "User already exists"@,
            ),
            r.status == crate::status::StatusCategory::Conflict,
            r.details is None,
    {
        proof {
            crate::status::lemma_exact_code_statuses();
        }
        Self::domain_error(
            crate::codes::CODE_USER_ALREADY_EXISTS,
            "User already exists",
            crate::status::StatusCategory::Conflict,
            catalog,
        )
    }

    /// The presented credentials do not match.
    pub fn invalid_credentials(catalog: &crate::catalog::MessageCatalog) -> (r: ErrorValue)
        ensures
            r.code == crate::codes::CODE_INVALID_CREDENTIALS,
            r.message@ == catalog.spec_message(
                crate::codes::CODE_INVALID_CREDENTIALS,
                "Invalid credentials"@,
            ),
            r.status == crate::status::StatusCategory::Unauthorized,
            r.details is None,
    {
        proof {
            crate::status::lemma_exact_code_statuses();
        }
        Self::domain_error(
            crate::codes::CODE_INVALID_CREDENTIALS,
            "Invalid credentials",
            crate::status::StatusCategory::Unauthorized,
            catalog,
        )
    }

    /// An account with the same email already exists.
    pub fn email_already_exists(catalog: &crate::catalog::MessageCatalog) -> (r: ErrorValue)
        ensures
            r.code == crate::codes::CODE_EMAIL_ALREADY_EXISTS,
            r.message@ == catalog.spec_message(
                crate::codes::CODE_EMAIL_ALREADY_EXISTS,
                "Email already exists"@,
            ),
            r.status == crate::status::StatusCategory::Conflict,
            r.details is None,
    {
        proof {
            crate::status::lemma_exact_code_statuses();
        }
        Self::domain_error(
            crate::codes::CODE_EMAIL_ALREADY_EXISTS,
            "Email already exists",
            crate::status::StatusCategory::Conflict,
            catalog,
        )
    }

    /// The chosen password does not meet the strength rules.
    pub fn weak_password(catalog: &crate::catalog::MessageCatalog) -> (r: ErrorValue)
        ensures
            r.code == crate::codes::CODE_WEAK_PASSWORD,
            r.message@ == catalog.spec_message(
                crate::codes::CODE_WEAK_PASSWORD,
                "Password is too weak"@,
            ),
            r.status == crate::status::StatusCategory::BadInput,
            r.details is None,
    {
        proof {
            crate::status::lemma_exact_code_statuses();
        }
        Self::domain_error(
            crate::codes::CODE_WEAK_PASSWORD,
            "Password is too weak",
            crate::status::StatusCategory::BadInput,
            catalog,
        )
    }

    /// The presented email is not in an acceptable form.
    pub fn invalid_email_format(catalog: &crate::catalog::MessageCatalog) -> (r: ErrorValue)
        ensures
            r.code == crate::codes::CODE_INVALID_EMAIL_FORMAT,
            r.message@ == catalog.spec_message(
                crate::codes::CODE_INVALID_EMAIL_FORMAT,
                "Invalid email format"@,
            ),
            r.status == crate::status::StatusCategory::BadInput,
            r.details is None,
    {
        proof {
            crate::status::lemma_exact_code_statuses();
        }
        Self::domain_error(
            crate::codes::CODE_INVALID_EMAIL_FORMAT,
            "Invalid email format",
            crate::status::StatusCategory::BadInput,
            catalog,
        )
    }

    /// The presented token has expired.
    pub fn token_expired(catalog: &crate::catalog::MessageCatalog) -> (r: ErrorValue)
        ensures
            r.code == crate::codes::CODE_TOKEN_EXPIRED,
            r.message@ == catalog.spec_message(
                crate::codes::CODE_TOKEN_EXPIRED,
                "Token has expired"@,
            ),
            r.status == crate::status::StatusCategory::Unauthorized,
            r.details is None,
    {
        proof {
            crate::status::lemma_exact_code_statuses();
        }
        Self::domain_error(
            crate::codes::CODE_TOKEN_EXPIRED,
            "Token has expired",
            crate::status::StatusCategory::Unauthorized,
            catalog,
        )
    }

    /// The presented token is not valid.
    pub fn token_invalid(catalog: &crate::catalog::MessageCatalog) -> (r: ErrorValue)
        ensures
            r.code == crate::codes::CODE_TOKEN_INVALID,
            r.message@ == catalog.spec_message(
                crate::codes::CODE_TOKEN_INVALID,
                "Token is invalid"@,
            ),
            r.status == crate::status::StatusCategory::Unauthorized,
            r.details is None,
    {
        proof {
            crate::status::lemma_exact_code_statuses();
        }
        Self::domain_error(
            crate::codes::CODE_TOKEN_INVALID,
            "Token is invalid",
            crate::status::StatusCategory::Unauthorized,
            catalog,
        )
    }

    /// The caller may not perform the requested action.
    pub fn permission_denied(catalog: &crate::catalog::MessageCatalog) -> (r: ErrorValue)
        ensures
            r.code == crate::codes::CODE_PERMISSION_DENIED,
            r.message@ == catalog.spec_message(
                crate::codes::CODE_PERMISSION_DENIED,
                "Permission denied"@,
            ),
            r.status == crate::status::StatusCategory::Forbidden,
            r.details is None,
    {
        proof {
            crate::status::lemma_exact_code_statuses();
        }
        Self::domain_error(
            crate::codes::CODE_PERMISSION_DENIED,
            "Permission denied",
            crate::status::StatusCategory::Forbidden,
            catalog,
        )
    }

    /// The caller has exceeded the allowed request rate.
    pub fn rate_limit_exceeded(catalog: &crate::catalog::MessageCatalog) -> (r: ErrorValue)
        ensures
            r.code == crate::codes::CODE_RATE_LIMIT_EXCEEDED,
            r.message@ == catalog.spec_message(
                crate::codes::CODE_RATE_LIMIT_EXCEEDED,
                "Rate limit exceeded"@,
            ),
            r.status == crate::status::StatusCategory::TooManyRequests,
            r.details is None,
    {
        proof {
            crate::status::lemma_exact_code_statuses();
        }
        Self::domain_error(
            crate::codes::CODE_RATE_LIMIT_EXCEEDED,
            "Rate limit exceeded",
            crate::status::StatusCategory::TooManyRequests,
            catalog,
        )
    }

    /// A validation failure with structured details: one entry per failed
    /// field, each keeping only the first failure, in first-seen order.
    pub fn validation_failure(message: String, failures: &Vec<(String, Vec<String>)>) -> (r:
        ErrorValue)
        ensures
            r.code == crate::codes::CODE_VALIDATION,
            r.status == crate::status::StatusCategory::Unprocessable,
            r.message@ == message@,
            r.details matches Some(ds) && detail_views(ds@) == crate::aggregate::spec_aggregate(
                failures.deep_view(),
            ),
    {
        let details = crate::aggregate::extract_errors(failures);
        ErrorValue {
            code: crate::codes::CODE_VALIDATION,
            message,
            status: crate::status::StatusCategory::Unprocessable,
            details: Some(details),
        }
    }
}

} // verus!
