use vstd::prelude::*;

verus! {

/// Failures the game service reports; the handlers answer each kind with
/// its own status.
#[derive(Debug, Clone, PartialEq, Eq)]
pub enum ApiError {
    NotFound(String),
    BadRequest(String),
    Forbidden(String),
    Internal(String),
}

impl ApiError {
    /// The text the failure carries.
    pub fn text(&self) -> (t: &String)
        ensures
            *t == match self {
                ApiError::NotFound(m) => *m,
                ApiError::BadRequest(m) => *m,
                ApiError::Forbidden(m) => *m,
                ApiError::Internal(m) => *m,
            },
    {
        match self {
            ApiError::NotFound(m) => m,
            ApiError::BadRequest(m) => m,
            ApiError::Forbidden(m) => m,
            ApiError::Internal(m) => m,
        }
    }
}

/// The recorded result of a game; a game row without one has not started.
#[derive(Debug, Clone, Copy, PartialEq, Eq, Structural)]
pub enum ResultSide {
    Ongoing,
    WhiteWins,
    BlackWins,
    Draw,
    Abandoned,
}

/// The status filter of a game listing.
#[derive(Debug, Clone, Copy, PartialEq, Eq, Structural)]
pub enum GameStatus {
    Waiting,
    InProgress,
    Completed,
    Aborted,
}

} // verus!
