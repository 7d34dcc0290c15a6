use vstd::prelude::*;

verus! {

/// Errors that an API request can end in.
#[derive(Debug)]
pub enum AppError {
    /// A D-Bus call to logind failed.
    Dbus(String),
    /// The session or user that the request names does not exist.
    NotFound(String),
    /// The request itself is malformed.
    BadRequest(String),
}

/// The mathematical model of an [`AppError`]: its kind and its message.
pub enum AppErrorView {
    Dbus(Seq<char>),
    NotFound(Seq<char>),
    BadRequest(Seq<char>),
}

impl View for AppError {
    type V = AppErrorView;

    open spec fn view(&self) -> AppErrorView {
        match self {
            AppError::Dbus(m) => AppErrorView::Dbus(m@),
            AppError::NotFound(m) => AppErrorView::NotFound(m@),
            AppError::BadRequest(m) => AppErrorView::BadRequest(m@),
        }
    }
}

impl AppErrorView {
    /// The HTTP status code that an error of this kind is answered with.
    pub open spec fn status(self) -> u16 {
        match self {
            AppErrorView::Dbus(_) => 502,
            AppErrorView::NotFound(_) => 404,
            AppErrorView::BadRequest(_) => 400,
        }
    }

    pub open spec fn message(self) -> Seq<char> {
        match self {
            AppErrorView::Dbus(m) => m,
            AppErrorView::NotFound(m) => m,
            AppErrorView::BadRequest(m) => m,
        }
    }
}

impl AppError {
    /// HTTP status for this error: 502 Bad Gateway for D-Bus failures,
    /// 404 Not Found for unknown sessions and users, 400 Bad Request for
    /// malformed requests.
    pub fn status_code(&self) -> (code: u16)
        ensures
            code == self@.status(),
    {
        match self {
            AppError::Dbus(_) => 502,
            AppError::NotFound(_) => 404,
            AppError::BadRequest(_) => 400,
        }
    }

    /// The human-readable message carried by the error.
    pub fn message(&self) -> (m: String)
        ensures
            m@ == self@.message(),
    {
        match self {
            AppError::Dbus(m) => m.clone(),
            AppError::NotFound(m) => m.clone(),
            AppError::BadRequest(m) => m.clone(),
        }
    }
}

} // verus!
