use vstd::prelude::*;

verus! {

/// The liveness report of a running service.
#[derive(Clone, Debug)]
pub struct HealthResponse {
    pub status: String,
    pub service: String,
    pub version: String,
}

impl HealthResponse {
    /// A liveness report always answers "ok" with the service's identity.
    pub fn new(service: String, version: String) -> (r: HealthResponse)
        ensures
            r.status@ == "ok"@,
            r.service@ == service@,
            r.version@ == version@,
    {
        HealthResponse { status: "ok".to_owned(), service, version }
    }
}

/// The readiness report of a running service: ready exactly when every
/// backing dependency answered its ping.
#[derive(Clone, Copy, Debug, PartialEq, Eq, Structural)]
pub struct ReadinessResponse {
    pub ready: bool,
    pub database: bool,
    pub redis: bool,
    pub mongodb: bool,
}

impl ReadinessResponse {
    pub fn new(database: bool, redis: bool, mongodb: bool) -> (r: ReadinessResponse)
        ensures
            r.database == database,
            r.redis == redis,
            r.mongodb == mongodb,
            r.ready == (database && redis && mongodb),
    {
        ReadinessResponse { ready: database && redis && mongodb, database, redis, mongodb }
    }

    /// The transport status of the readiness answer: success when ready,
    /// service-unavailable otherwise.
    pub fn http_status(&self) -> (r: u16)
        ensures
            r == (if self.ready {
                200u16
            } else {
                crate::status::spec_http_status_of(
                    crate::status::StatusCategory::ServiceUnavailable,
                )
            }),
    {
        if self.ready {
            200
        } else {
            crate::status::http_status_of(crate::status::StatusCategory::ServiceUnavailable)
        }
    }
}

} // verus!
