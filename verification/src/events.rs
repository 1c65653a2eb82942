//! Compositor event types and event payloads.
//!
//! An [`EventType`] names what a reaction listens for; an [`Event`] is one
//! delivered occurrence, carrying the window class and title when the event
//! kind has them.

use vstd::prelude::*;

use crate::errors::{ParseError, ParseErrorView};
use crate::res_view;
use crate::text::{chars_eq_lit, lower_chars, spec_contains, spec_lower, str_chars};

verus! {

/// What happened to a window.
#[derive(Clone, Copy, PartialEq, Eq, Structural, Debug, Hash)]
pub enum WindowEventType {
    Opened,
    Closed,
    Moved,
    Active,
}

/// What happened to a workspace.
#[derive(Clone, Copy, PartialEq, Eq, Structural, Debug, Hash)]
pub enum WorkspaceEventType {
    Changed,
    Added,
    Deleted,
}

/// What happened to a window group.
#[derive(Clone, Copy, PartialEq, Eq, Structural, Debug, Hash)]
pub enum GroupEventType {
    Toggled,
    MovedIn,
    MovedOut,
}

/// Every event kind a reaction can listen for.
#[derive(Clone, Copy, PartialEq, Eq, Structural, Debug, Hash)]
pub enum EventType {
    Window(WindowEventType),
    Workspace(WorkspaceEventType),
    Monitor,
    Float,
    Fullscreen,
    Layout,
    Group(GroupEventType),
    Config,
}

impl View for EventType {
    type V = EventType;

    open spec fn view(&self) -> EventType {
        *self
    }
}

/// How an event name and optional subtype are read, both ignoring case.
///
/// `window`, `workspace` and `group` require a subtype; the other kinds
/// ignore one.  Group subtypes are written `toggled`, `moved-in` and
/// `moved-out`.
pub open spec fn spec_from_event_and_subtype(ev: Seq<char>, st: Option<Seq<char>>) -> Result<
    EventType,
    ParseErrorView,
> {
    let l = spec_lower(ev);
    if l == "window"@ {
        match st {
            Some(s) => {
                let ls = spec_lower(s);
                if ls == "opened"@ {
                    Ok(EventType::Window(WindowEventType::Opened))
                } else if ls == "closed"@ {
                    Ok(EventType::Window(WindowEventType::Closed))
                } else if ls == "moved"@ {
                    Ok(EventType::Window(WindowEventType::Moved))
                } else if ls == "active"@ {
                    Ok(EventType::Window(WindowEventType::Active))
                } else {
                    Err(ParseErrorView::UnknownSubtype(s))
                }
            },
            None => Err(ParseErrorView::MissingSubtype(ev)),
        }
    } else if l == "workspace"@ {
        match st {
            Some(s) => {
                let ls = spec_lower(s);
                if ls == "changed"@ {
                    Ok(EventType::Workspace(WorkspaceEventType::Changed))
                } else if ls == "added"@ {
                    Ok(EventType::Workspace(WorkspaceEventType::Added))
                } else if ls == "deleted"@ {
                    Ok(EventType::Workspace(WorkspaceEventType::Deleted))
                } else {
                    Err(ParseErrorView::UnknownSubtype(s))
                }
            },
            None => Err(ParseErrorView::MissingSubtype(ev)),
        }
    } else if l == "monitor"@ {
        Ok(EventType::Monitor)
    } else if l == "float"@ {
        Ok(EventType::Float)
    } else if l == "fullscreen"@ {
        Ok(EventType::Fullscreen)
    } else if l == "layout"@ {
        Ok(EventType::Layout)
    } else if l == "group"@ {
        match st {
            Some(s) => {
                let ls = spec_lower(s);
                if ls == "toggled"@ {
                    Ok(EventType::Group(GroupEventType::Toggled))
                } else if ls == "moved-in"@ {
                    Ok(EventType::Group(GroupEventType::MovedIn))
                } else if ls == "moved-out"@ {
                    Ok(EventType::Group(GroupEventType::MovedOut))
                } else {
                    Err(ParseErrorView::UnknownSubtype(s))
                }
            },
            None => Err(ParseErrorView::MissingSubtype(ev)),
        }
    } else if l == "config"@ {
        Ok(EventType::Config)
    } else {
        Err(ParseErrorView::UnknownEventType(ev))
    }
}

impl EventType {
    /// Parses an event name and optional subtype, ignoring case.
    pub fn from_event_and_subtype(event: &str, subtype: Option<&str>) -> (r: Result<
        EventType,
        ParseError,
    >)
        ensures
            res_view(r) == spec_from_event_and_subtype(
                event@,
                match subtype {
                    Some(s) => Some(s@),
                    None => None,
                },
            ),
    {
        let l = lower_chars(&str_chars(event));
        if chars_eq_lit(&l, "window") {
            match subtype {
                Some(s) => {
                    let ls = lower_chars(&str_chars(s));
                    if chars_eq_lit(&ls, "opened") {
                        Ok(EventType::Window(WindowEventType::Opened))
                    } else if chars_eq_lit(&ls, "closed") {
                        Ok(EventType::Window(WindowEventType::Closed))
                    } else if chars_eq_lit(&ls, "moved") {
                        Ok(EventType::Window(WindowEventType::Moved))
                    } else if chars_eq_lit(&ls, "active") {
                        Ok(EventType::Window(WindowEventType::Active))
                    } else {
                        Err(ParseError::UnknownSubtype(s.to_owned()))
                    }
                },
                None => Err(ParseError::MissingSubtype(event.to_owned())),
            }
        } else if chars_eq_lit(&l, "workspace") {
            match subtype {
                Some(s) => {
                    let ls = lower_chars(&str_chars(s));
                    if chars_eq_lit(&ls, "changed") {
                        Ok(EventType::Workspace(WorkspaceEventType::Changed))
                    } else if chars_eq_lit(&ls, "added") {
                        Ok(EventType::Workspace(WorkspaceEventType::Added))
                    } else if chars_eq_lit(&ls, "deleted") {
                        Ok(EventType::Workspace(WorkspaceEventType::Deleted))
                    } else {
                        Err(ParseError::UnknownSubtype(s.to_owned()))
                    }
                },
                None => Err(ParseError::MissingSubtype(event.to_owned())),
            }
        } else if chars_eq_lit(&l, "monitor") {
            Ok(EventType::Monitor)
        } else if chars_eq_lit(&l, "float") {
            Ok(EventType::Float)
        } else if chars_eq_lit(&l, "fullscreen") {
            Ok(EventType::Fullscreen)
        } else if chars_eq_lit(&l, "layout") {
            Ok(EventType::Layout)
        } else if chars_eq_lit(&l, "group") {
            match subtype {
                Some(s) => {
                    let ls = lower_chars(&str_chars(s));
                    if chars_eq_lit(&ls, "toggled") {
                        Ok(EventType::Group(GroupEventType::Toggled))
                    } else if chars_eq_lit(&ls, "moved-in") {
                        Ok(EventType::Group(GroupEventType::MovedIn))
                    } else if chars_eq_lit(&ls, "moved-out") {
                        Ok(EventType::Group(GroupEventType::MovedOut))
                    } else {
                        Err(ParseError::UnknownSubtype(s.to_owned()))
                    }
                },
                None => Err(ParseError::MissingSubtype(event.to_owned())),
            }
        } else if chars_eq_lit(&l, "config") {
            Ok(EventType::Config)
        } else {
            Err(ParseError::UnknownEventType(event.to_owned()))
        }
    }

    /// A printable name for the event type, as the event log shows it.
    pub fn label(&self) -> (r: String)
        ensures
            r@ == self.spec_label(),
    {
        match self {
            EventType::Window(s) => {
                let mut m = String::from_str("window ");
                m.append(
                    match s {
                        WindowEventType::Opened => "opened",
                        WindowEventType::Closed => "closed",
                        WindowEventType::Moved => "moved",
                        WindowEventType::Active => "active",
                    },
                );
                m
            },
            EventType::Workspace(s) => {
                let mut m = String::from_str("workspace ");
                m.append(
                    match s {
                        WorkspaceEventType::Changed => "changed",
                        WorkspaceEventType::Added => "added",
                        WorkspaceEventType::Deleted => "deleted",
                    },
                );
                m
            },
            EventType::Monitor => String::from_str("monitor"),
            EventType::Float => String::from_str("float"),
            EventType::Fullscreen => String::from_str("fullscreen"),
            EventType::Layout => String::from_str("layout"),
            EventType::Group(s) => {
                let mut m = String::from_str("group ");
                m.append(
                    match s {
                        GroupEventType::Toggled => "toggled",
                        GroupEventType::MovedIn => "moved-in",
                        GroupEventType::MovedOut => "moved-out",
                    },
                );
                m
            },
            EventType::Config => String::from_str("config"),
        }
    }

    /// What [`EventType::label`] returns.
    pub open spec fn spec_label(&self) -> Seq<char> {
        match self {
            EventType::Window(s) => "window "@ + match s {
                WindowEventType::Opened => "opened"@,
                WindowEventType::Closed => "closed"@,
                WindowEventType::Moved => "moved"@,
                WindowEventType::Active => "active"@,
            },
            EventType::Workspace(s) => "workspace "@ + match s {
                WorkspaceEventType::Changed => "changed"@,
                WorkspaceEventType::Added => "added"@,
                WorkspaceEventType::Deleted => "deleted"@,
            },
            EventType::Monitor => "monitor"@,
            EventType::Float => "float"@,
            EventType::Fullscreen => "fullscreen"@,
            EventType::Layout => "layout"@,
            EventType::Group(s) => "group "@ + match s {
                GroupEventType::Toggled => "toggled"@,
                GroupEventType::MovedIn => "moved-in"@,
                GroupEventType::MovedOut => "moved-out"@,
            },
            EventType::Config => "config"@,
        }
    }
}

/// Whether the event log shows an event, given the user's filter string:
/// an absent or empty filter shows everything, otherwise the event name
/// must contain the filter, ignoring case on both sides.
pub open spec fn spec_should_log(ev: Seq<char>, filter: Option<Seq<char>>) -> bool {
    match filter {
        Some(f) => if f.len() > 0 {
            spec_contains(spec_lower(ev), spec_lower(f))
        } else {
            true
        },
        None => true,
    }
}

/// Decides whether the event log shows an event of the named type.
pub fn should_log_event(event_type: &str, filter: &Option<String>) -> (b: bool)
    ensures
        b == spec_should_log(
            event_type@,
            match filter {
                Some(f) => Some(f@),
                None => None,
            },
        ),
{
    match filter {
        Some(f) => {
            if f.as_str().is_empty() {
                true
            } else {
                crate::text::contains_chars(
                    &lower_chars(&str_chars(event_type)),
                    &lower_chars(&str_chars(f.as_str())),
                )
            }
        },
        None => true,
    }
}

/// The class and title a window event carries.
#[derive(Debug)]
pub struct WindowInfo {
    pub class: String,
    pub title: String,
}

/// The mathematical shape of a [`WindowInfo`].
pub struct WindowInfoView {
    pub class: Seq<char>,
    pub title: Seq<char>,
}

impl View for WindowInfo {
    type V = WindowInfoView;

    open spec fn view(&self) -> WindowInfoView {
        WindowInfoView { class: self.class@, title: self.title@ }
    }
}

impl Clone for WindowInfo {
    fn clone(&self) -> (r: Self)
        ensures
            r@ == self@,
    {
        WindowInfo { class: self.class.clone(), title: self.title.clone() }
    }
}

/// One delivered compositor event: its kind, and the window payload for the
/// kinds that carry one (`window opened` and `window active`; an active
/// event with no payload means no window has focus).
#[derive(Debug)]
pub struct Event {
    pub event_type: EventType,
    pub window: Option<WindowInfo>,
}

/// The mathematical shape of an [`Event`].
pub struct EventView {
    pub event_type: EventType,
    pub window: Option<WindowInfoView>,
}

impl View for Event {
    type V = EventView;

    open spec fn view(&self) -> EventView {
        EventView {
            event_type: self.event_type,
            window: match &self.window {
                Some(w) => Some(w@),
                None => None,
            },
        }
    }
}

} // verus!
