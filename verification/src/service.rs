//! Errors of the background-service wrapper.
//!
//! The service install/start/stop machinery itself talks to the system
//! service manager and lives outside the library; this is its error type,
//! with the failing subsystem's message carried as text.

use vstd::prelude::*;

verus! {

/// What went wrong while managing the background user service.
pub enum ServiceError {
    /// The platform service manager could not be reached.
    Manager(String),
    Install(String),
    Uninstall(String),
    Start(String),
    Stop(String),
    Status(String),
    /// An underlying I/O failure, by its message.
    Io(String),
    /// The service manager refused to run at user level.
    UserLevel(String),
    /// The configuration path could not be determined.
    Config(String),
}

/// The mathematical shape of a [`ServiceError`].
pub enum ServiceErrorView {
    Manager(Seq<char>),
    Install(Seq<char>),
    Uninstall(Seq<char>),
    Start(Seq<char>),
    Stop(Seq<char>),
    Status(Seq<char>),
    Io(Seq<char>),
    UserLevel(Seq<char>),
    Config(Seq<char>),
}

impl View for ServiceError {
    type V = ServiceErrorView;

    open spec fn view(&self) -> ServiceErrorView {
        match self {
            ServiceError::Manager(s) => ServiceErrorView::Manager(s@),
            ServiceError::Install(s) => ServiceErrorView::Install(s@),
            ServiceError::Uninstall(s) => ServiceErrorView::Uninstall(s@),
            ServiceError::Start(s) => ServiceErrorView::Start(s@),
            ServiceError::Stop(s) => ServiceErrorView::Stop(s@),
            ServiceError::Status(s) => ServiceErrorView::Status(s@),
            ServiceError::Io(s) => ServiceErrorView::Io(s@),
            ServiceError::UserLevel(s) => ServiceErrorView::UserLevel(s@),
            ServiceError::Config(s) => ServiceErrorView::Config(s@),
        }
    }
}

impl ServiceError {
    /// What [`ServiceError::message`] returns.
    pub open spec fn spec_message(&self) -> Seq<char> {
        match self@ {
            ServiceErrorView::Manager(s) => "Failed to get service manager: "@ + s,
            ServiceErrorView::Install(s) => "Failed to install service: "@ + s,
            ServiceErrorView::Uninstall(s) => "Failed to uninstall service: "@ + s,
            ServiceErrorView::Start(s) => "Failed to start service: "@ + s,
            ServiceErrorView::Stop(s) => "Failed to stop service: "@ + s,
            ServiceErrorView::Status(s) => "Failed to get service status: "@ + s,
            ServiceErrorView::Io(s) => "IO error: "@ + s,
            ServiceErrorView::UserLevel(s) => "Failed to set user level: "@ + s,
            ServiceErrorView::Config(s) => "Failed to get config path: "@ + s,
        }
    }

    /// A human-readable description, for callers that print errors.
    pub fn message(&self) -> (r: String)
        ensures
            r@ == self.spec_message(),
    {
        match self {
            ServiceError::Manager(s) => {
                let mut m = String::from_str("Failed to get service manager: ");
                m.append(s.as_str());
                m
            },
            ServiceError::Install(s) => {
                let mut m = String::from_str("Failed to install service: ");
                m.append(s.as_str());
                m
            },
            ServiceError::Uninstall(s) => {
                let mut m = String::from_str("Failed to uninstall service: ");
                m.append(s.as_str());
                m
            },
            ServiceError::Start(s) => {
                let mut m = String::from_str("Failed to start service: ");
                m.append(s.as_str());
                m
            },
            ServiceError::Stop(s) => {
                let mut m = String::from_str("Failed to stop service: ");
                m.append(s.as_str());
                m
            },
            ServiceError::Status(s) => {
                let mut m = String::from_str("Failed to get service status: ");
                m.append(s.as_str());
                m
            },
            ServiceError::Io(s) => {
                let mut m = String::from_str("IO error: ");
                m.append(s.as_str());
                m
            },
            ServiceError::UserLevel(s) => {
                let mut m = String::from_str("Failed to set user level: ");
                m.append(s.as_str());
                m
            },
            ServiceError::Config(s) => {
                let mut m = String::from_str("Failed to get config path: ");
                m.append(s.as_str());
                m
            },
        }
    }
}

} // verus!
