use vstd::prelude::*;
use crate::error::{AppError, AppResult};

verus! {

/// The response envelope: the HTTP status, and either the data of a success
/// or the message of a failure.
#[derive(Debug, Clone)]
pub struct ApiResponse<T> {
    pub status: u16,
    pub data: Option<T>,
    pub error: Option<String>,
}

/// A status code that HTTP can carry: three digits.
pub open spec fn valid_status(status: u16) -> bool {
    100 <= status <= 999
}

impl<T> ApiResponse<T> {
    /// Exactly one of `data` and `error` is present.
    pub open spec fn well_formed(&self) -> bool {
        self.data is Some <==> self.error is None
    }

    /// `self` reports the failure `e`: its status and its rendered message,
    /// and no data.
    pub open spec fn reports(&self, e: AppError) -> bool {
        &&& self.status == e.spec_status()
        &&& self.data is None
        &&& self.error matches Some(m) && m@ == e.spec_message()
    }

    /// `self` is the envelope of `result`: on success its data with `status`,
    /// on failure the failure's report.
    pub open spec fn reflects(&self, result: AppResult<T>, status: u16) -> bool {
        match result {
            Ok(d) => self.status == status && self.data == Some(d) && self.error is None,
            Err(e) => self.reports(e),
        }
    }

    /// A success with status 200 (OK).
    pub fn success(data: T) -> (r: Self)
        ensures
            r.status == 200,
            r.data == Some(data),
            r.error is None,
            r.well_formed(),
    {
        Self::with_status(data, 200)
    }

    /// A success with the given status.
    pub fn with_status(data: T, status: u16) -> (r: Self)
        requires
            valid_status(status),
        ensures
            r.status == status,
            r.data == Some(data),
            r.error is None,
            r.well_formed(),
    {
        ApiResponse { status, data: Some(data), error: None }
    }

    /// The report of a failure: its status and rendered message.
    pub fn error(error: &AppError) -> (r: Self)
        ensures
            r.reports(*error),
            r.well_formed(),
    {
        ApiResponse { status: error.status_code(), data: None, error: Some(error.message()) }
    }

    /// The envelope of a result, with `status` on success.
    pub fn from_result(result: AppResult<T>, status: u16) -> (r: Self)
        requires
            valid_status(status),
        ensures
            r.reflects(result, status),
            r.well_formed(),
    {
        match result {
            Ok(data) => Self::with_status(data, status),
            Err(err) => Self::error(&err),
        }
    }

    /// Whether the status is a success (200 to 299).
    pub fn is_success(&self) -> (r: bool)
        ensures
            r == (200 <= self.status <= 299),
    {
        200 <= self.status && self.status <= 299
    }

    /// The failure the envelope reports, as an internal error carrying its
    /// message.
    pub fn get_error(&self) -> (r: Option<AppError>)
        ensures
            match self.error {
                Some(m) => r matches Some(AppError::Internal(s)) && s@ == m@,
                None => r is None,
            },
    {
        match &self.error {
            Some(err) => Some(AppError::Internal(err.clone())),
            None => None,
        }
    }

    /// The status to send: the envelope's own where HTTP can carry it, else
    /// 500.
    pub fn response_status(&self) -> (r: u16)
        ensures
            r == if valid_status(self.status) { self.status } else { 500 },
    {
        if 100 <= self.status && self.status <= 999 {
            self.status
        } else {
            500
        }
    }
}

/// A handler's result, ready to be turned into an HTTP response.
pub struct AppResponse<T>(pub AppResult<T>);

impl<T> From<AppResult<T>> for AppResponse<T> {
    fn from(result: AppResult<T>) -> (r: AppResponse<T>) {
        AppResponse(result)
    }
}

impl<T> vstd::std_specs::convert::FromSpecImpl<AppResult<T>> for AppResponse<T> {
    open spec fn obeys_from_spec() -> bool {
        true
    }

    open spec fn from_spec(result: AppResult<T>) -> AppResponse<T> {
        AppResponse(result)
    }
}

} // verus!
