//! The failures of a translation and what the proxy answers for each.

use vstd::prelude::*;

verus! {

pub type ApiResult<T> = Result<T, ApiError>;

/// Everything that can go wrong while a player is translated.
#[derive(Clone, Debug, PartialEq, Eq)]
pub enum ApiError {
    /// The upstream payload is not well-formed rows of integers. `message`
    /// says what was wrong with it.
    Csv { message: String },
    /// The request to the upstream service failed. `status` is the status
    /// the service answered with, where it answered at all.
    Reqwest { status: Option<u16> },
}

/// What a failure holds.
pub enum Failure {
    Csv { message: Seq<char> },
    Reqwest { status: Option<u16> },
}

impl View for ApiError {
    type V = Failure;

    open spec fn view(&self) -> Failure {
        match self {
            ApiError::Csv { message } => Failure::Csv { message: message@ },
            ApiError::Reqwest { status } => Failure::Reqwest { status: *status },
        }
    }
}

/// Severity at which a failure is reported.
#[derive(Clone, Copy, Debug, PartialEq, Eq)]
pub enum Level {
    Error,
    Debug,
}

impl Failure {
    /// The status code the proxy answers with for this failure: the status
    /// of the upstream service where it gave one, 500 in every other case.
    pub open spec fn status_code(self) -> u16 {
        match self {
            Failure::Csv { .. } => 500,
            Failure::Reqwest { status: Some(code) } => code,
            Failure::Reqwest { status: None } => 500,
        }
    }

    /// The level at which this failure is logged: server-side failures are
    /// errors, anything below 500 is only of interest when debugging.
    pub open spec fn log_level(self) -> Level {
        if self.status_code() >= 500 {
            Level::Error
        } else {
            Level::Debug
        }
    }
}

impl ApiError {
    /// Converts this failure to an HTTP status code. A malformed payload is a
    /// 500. An upstream failure forwards the upstream status, whatever it
    /// is, and is a 500 where the service gave none.
    pub fn to_status(&self) -> (code: u16)
        ensures
            code == self@.status_code(),
    {
        match self {
            ApiError::Csv { .. } => 500,
            ApiError::Reqwest { status } => match status {
                Some(upstream) => *upstream,
                None => 500,
            },
        }
    }

    /// Chooses the level at which this failure is to be logged.
    pub fn log(&self) -> (level: Level)
        ensures
            level == self@.log_level(),
    {
        if self.to_status() >= 500 {
            Level::Error
        } else {
            Level::Debug
        }
    }
}

} // verus!
