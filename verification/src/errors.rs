//! The parse-error taxonomy.
//!
//! Every rejected input is reported through one of these variants; the
//! parsing contracts state exactly which variant an input produces.

use vstd::prelude::*;

verus! {

/// Why a dispatcher name, argument, identifier or event name was rejected.
#[derive(Debug, PartialEq, Eq)]
pub enum ParseError {
    /// A required argument was absent; `name` names the missing argument.
    MissingArgument { name: String },
    /// An argument was present but malformed.
    InvalidArgument { index: usize, raw_value: String },
    /// The dispatcher name matches no known dispatcher.
    UnknownDispatcher(String),
    /// The workspace specifier matches no recognized shape.
    UnknownWorkspaceIdentifier(String),
    /// A `right:`/`left:` workspace offset whose number does not parse.
    InvalidWorkspaceOffset(String),
    /// A `pid:` window identifier whose value is not an unsigned 32-bit number.
    InvalidPid,
    /// Not one of `up`, `down`, `left`, `right`.
    UnknownDirection(String),
    /// Not one of the four screen corners.
    UnknownCorner(String),
    /// Not one of `real`, `maximize`, `noparam`.
    UnknownFullscreenType(String),
    /// Not one of `next`, `previous`.
    UnknownCycleDirection(String),
    /// A window-move target that is neither a monitor nor a direction.
    UnknownWindowTarget(String),
    /// An event name that matches no event type.
    UnknownEventType(String),
    /// An event type that needs a subtype was given none; holds the event name.
    MissingSubtype(String),
    /// A subtype that the event type does not have.
    UnknownSubtype(String),
}

/// The mathematical shape of a [`ParseError`]: strings become `Seq<char>`.
pub enum ParseErrorView {
    MissingArgument { name: Seq<char> },
    InvalidArgument { index: int, raw_value: Seq<char> },
    UnknownDispatcher(Seq<char>),
    UnknownWorkspaceIdentifier(Seq<char>),
    InvalidWorkspaceOffset(Seq<char>),
    InvalidPid,
    UnknownDirection(Seq<char>),
    UnknownCorner(Seq<char>),
    UnknownFullscreenType(Seq<char>),
    UnknownCycleDirection(Seq<char>),
    UnknownWindowTarget(Seq<char>),
    UnknownEventType(Seq<char>),
    MissingSubtype(Seq<char>),
    UnknownSubtype(Seq<char>),
}

impl View for ParseError {
    type V = ParseErrorView;

    open spec fn view(&self) -> ParseErrorView {
        match self {
            ParseError::MissingArgument { name } => ParseErrorView::MissingArgument {
                name: name@,
            },
            ParseError::InvalidArgument { index, raw_value } => ParseErrorView::InvalidArgument {
                index: *index as int,
                raw_value: raw_value@,
            },
            ParseError::UnknownDispatcher(s) => ParseErrorView::UnknownDispatcher(s@),
            ParseError::UnknownWorkspaceIdentifier(s) => ParseErrorView::UnknownWorkspaceIdentifier(
                s@,
            ),
            ParseError::InvalidWorkspaceOffset(s) => ParseErrorView::InvalidWorkspaceOffset(s@),
            ParseError::InvalidPid => ParseErrorView::InvalidPid,
            ParseError::UnknownDirection(s) => ParseErrorView::UnknownDirection(s@),
            ParseError::UnknownCorner(s) => ParseErrorView::UnknownCorner(s@),
            ParseError::UnknownFullscreenType(s) => ParseErrorView::UnknownFullscreenType(s@),
            ParseError::UnknownCycleDirection(s) => ParseErrorView::UnknownCycleDirection(s@),
            ParseError::UnknownWindowTarget(s) => ParseErrorView::UnknownWindowTarget(s@),
            ParseError::UnknownEventType(s) => ParseErrorView::UnknownEventType(s@),
            ParseError::MissingSubtype(s) => ParseErrorView::MissingSubtype(s@),
            ParseError::UnknownSubtype(s) => ParseErrorView::UnknownSubtype(s@),
        }
    }
}

impl Clone for ParseError {
    fn clone(&self) -> (r: Self)
        ensures
            r@ == self@,
    {
        match self {
            ParseError::MissingArgument { name } => ParseError::MissingArgument {
                name: name.clone(),
            },
            ParseError::InvalidArgument { index, raw_value } => ParseError::InvalidArgument {
                index: *index,
                raw_value: raw_value.clone(),
            },
            ParseError::UnknownDispatcher(s) => ParseError::UnknownDispatcher(s.clone()),
            ParseError::UnknownWorkspaceIdentifier(s) => ParseError::UnknownWorkspaceIdentifier(
                s.clone(),
            ),
            ParseError::InvalidWorkspaceOffset(s) => ParseError::InvalidWorkspaceOffset(s.clone()),
            ParseError::InvalidPid => ParseError::InvalidPid,
            ParseError::UnknownDirection(s) => ParseError::UnknownDirection(s.clone()),
            ParseError::UnknownCorner(s) => ParseError::UnknownCorner(s.clone()),
            ParseError::UnknownFullscreenType(s) => ParseError::UnknownFullscreenType(s.clone()),
            ParseError::UnknownCycleDirection(s) => ParseError::UnknownCycleDirection(s.clone()),
            ParseError::UnknownWindowTarget(s) => ParseError::UnknownWindowTarget(s.clone()),
            ParseError::UnknownEventType(s) => ParseError::UnknownEventType(s.clone()),
            ParseError::MissingSubtype(s) => ParseError::MissingSubtype(s.clone()),
            ParseError::UnknownSubtype(s) => ParseError::UnknownSubtype(s.clone()),
        }
    }
}

impl ParseError {
    /// A human-readable description, for callers that print errors.
    pub fn message(&self) -> (r: String)
        ensures
            r@ == self.spec_message(),
    {
        match self {
            ParseError::MissingArgument { name } => {
                let mut m = String::from_str("Missing argument: ");
                m.append(name.as_str());
                m
            },
            ParseError::InvalidArgument { index: _, raw_value } => {
                let mut m = String::from_str("Invalid argument: ");
                m.append(raw_value.as_str());
                m
            },
            ParseError::UnknownDispatcher(s) => {
                let mut m = String::from_str("Unknown dispatcher: ");
                m.append(s.as_str());
                m
            },
            ParseError::UnknownWorkspaceIdentifier(s) => {
                let mut m = String::from_str("Unknown workspace identifier: ");
                m.append(s.as_str());
                m
            },
            ParseError::InvalidWorkspaceOffset(s) => {
                let mut m = String::from_str("Invalid workspace offset: ");
                m.append(s.as_str());
                m
            },
            ParseError::InvalidPid => String::from_str("Invalid PID"),
            ParseError::UnknownDirection(s) => {
                let mut m = String::from_str("Unknown direction: ");
                m.append(s.as_str());
                m
            },
            ParseError::UnknownCorner(s) => {
                let mut m = String::from_str("Unknown corner: ");
                m.append(s.as_str());
                m
            },
            ParseError::UnknownFullscreenType(s) => {
                let mut m = String::from_str("Unknown fullscreen type: ");
                m.append(s.as_str());
                m
            },
            ParseError::UnknownCycleDirection(s) => {
                let mut m = String::from_str("Unknown cycle direction: ");
                m.append(s.as_str());
                m
            },
            ParseError::UnknownWindowTarget(s) => {
                let mut m = String::from_str("Unknown target for MoveWindow: ");
                m.append(s.as_str());
                m
            },
            ParseError::UnknownEventType(s) => {
                let mut m = String::from_str("Unknown event type: ");
                m.append(s.as_str());
                m
            },
            ParseError::MissingSubtype(s) => {
                let mut m = String::from_str("Event requires a subtype: ");
                m.append(s.as_str());
                m
            },
            ParseError::UnknownSubtype(s) => {
                let mut m = String::from_str("Unknown subtype: ");
                m.append(s.as_str());
                m
            },
        }
    }

    /// What [`ParseError::message`] returns, variant by variant.
    pub open spec fn spec_message(&self) -> Seq<char> {
        match self@ {
            ParseErrorView::MissingArgument { name } => "Missing argument: "@ + name,
            ParseErrorView::InvalidArgument { index: _, raw_value } => "Invalid argument: "@
                + raw_value,
            ParseErrorView::UnknownDispatcher(s) => "Unknown dispatcher: "@ + s,
            ParseErrorView::UnknownWorkspaceIdentifier(s) => "Unknown workspace identifier: "@ + s,
            ParseErrorView::InvalidWorkspaceOffset(s) => "Invalid workspace offset: "@ + s,
            ParseErrorView::InvalidPid => "Invalid PID"@,
            ParseErrorView::UnknownDirection(s) => "Unknown direction: "@ + s,
            ParseErrorView::UnknownCorner(s) => "Unknown corner: "@ + s,
            ParseErrorView::UnknownFullscreenType(s) => "Unknown fullscreen type: "@ + s,
            ParseErrorView::UnknownCycleDirection(s) => "Unknown cycle direction: "@ + s,
            ParseErrorView::UnknownWindowTarget(s) => "Unknown target for MoveWindow: "@ + s,
            ParseErrorView::UnknownEventType(s) => "Unknown event type: "@ + s,
            ParseErrorView::MissingSubtype(s) => "Event requires a subtype: "@ + s,
            ParseErrorView::UnknownSubtype(s) => "Unknown subtype: "@ + s,
        }
    }
}

} // verus!
