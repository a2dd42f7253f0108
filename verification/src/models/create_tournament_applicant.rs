//! Requests to run tournaments, and the builder of their records.
use vstd::prelude::*;

verus! {

/// Collects a request's fields (user ids as 128-bit integers).
pub struct CreateTournamentApplicantBuilder {
    pub user_id: u128,
    pub request_context: Option<String>,
    pub status: String,
    pub last_modified_user_id: u128,
}

/// A request record to insert.
pub struct NewCreateTournamentApplicant {
    pub user_id: u128,
    pub request_context: Option<String>,
    pub status: String,
    pub last_modified_user_id: u128,
}

impl CreateTournamentApplicantBuilder {
    /// A request of `user_id` in state `status`, last changed by `last_modified_user_id`.
    pub fn new(user_id: u128, status: &str, last_modified_user_id: u128) -> (r: Self)
        ensures
            r.user_id == user_id,
            r.request_context is None,
            r.status@ == status@,
            r.last_modified_user_id == last_modified_user_id,
    {
        CreateTournamentApplicantBuilder {
            user_id,
            request_context: None,
            status: String::from_str(status),
            last_modified_user_id,
        }
    }

    /// A pending request of `user_id`.
    pub fn new_default(user_id: u128, last_modified_user_id: u128) -> (r: Self)
        ensures
            r.user_id == user_id,
            r.request_context is None,
            r.status@ == "pending"@,
            r.last_modified_user_id == last_modified_user_id,
    {
        CreateTournamentApplicantBuilder::new(user_id, "pending", last_modified_user_id)
    }

    pub fn set_request_context(self, request_context: Option<String>) -> (r: Self)
        ensures
            r == (CreateTournamentApplicantBuilder { request_context, ..self }),
    {
        CreateTournamentApplicantBuilder { request_context, ..self }
    }

    pub fn set_status(self, status: &str) -> (r: Self)
        ensures
            r.status@ == status@,
            r == (CreateTournamentApplicantBuilder { status: r.status, ..self }),
    {
        CreateTournamentApplicantBuilder { status: String::from_str(status), ..self }
    }

    /// The record.
    pub fn build(self) -> (r: NewCreateTournamentApplicant)
        ensures
            r.user_id == self.user_id,
            r.request_context == self.request_context,
            r.status == self.status,
            r.last_modified_user_id == self.last_modified_user_id,
    {
        NewCreateTournamentApplicant {
            user_id: self.user_id,
            request_context: self.request_context,
            status: self.status,
            last_modified_user_id: self.last_modified_user_id,
        }
    }
}

} // verus!
