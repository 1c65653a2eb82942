//! The command-line data model.
//!
//! These types mirror the CLI surface: a command tree, loosely-typed
//! dispatcher arguments, and the four-field window identifier taken from
//! `--class`/`--title`/`--pid`/`--address` flags.  Argument parsing itself
//! (flag handling, help text) lives outside the library; these are the plain
//! values it produces.

use vstd::prelude::*;

use crate::text::chars_to_string;
use crate::numbers::{nat_dec_chars_u64, spec_nat_dec};

verus! {

/// The whole command line: one subcommand.
pub struct Cli {
    pub command: Commands,
}

/// Every subcommand the tool offers.
pub enum Commands {
    /// Get or set a keyword value.
    Keyword {
        run_async: bool,
        get: bool,
        set: bool,
        keyword: String,
        value: Option<String>,
    },
    /// Execute a dispatcher command.
    Dispatch(DispatchCommand),
    /// Listen for and log compositor events.
    Listen { filter: Option<String>, max_events: usize },
    /// React to events by dispatching commands.
    React {
        config: Option<String>,
        inline: bool,
        event: Option<String>,
        subtype: Option<String>,
        filter: Option<String>,
        dispatch: Option<Dispatch>,
        max_reactions: usize,
    },
    /// Manage the background user service.
    Setup(SetupCommand),
    /// Load a config file for global reactions.
    Global { config_path: String },
    /// Query the compositor for information.
    Query(QueryCommand),
}

/// Which service-management action to perform; exactly one should be set.
pub struct SetupCommand {
    pub install: bool,
    pub uninstall: bool,
    pub start: bool,
    pub kill: bool,
    pub restart: bool,
    pub check: bool,
    pub watch: bool,
}

/// A query subcommand.
pub struct QueryCommand {
    pub command: Query,
}

/// What to query.
pub enum Query {
    /// The current cursor position, optionally watched continuously.
    CursorPos { watch: bool },
}

/// The dispatch subcommand: an optional dispatcher plus its mode flags.
pub struct DispatchCommand {
    pub run_async: bool,
    pub list_dispatchers: bool,
    pub command: Option<Dispatch>,
}

/// A window chosen by at most one of class, title, pid or address.
pub struct WindowId {
    pub class: Option<String>,
    pub title: Option<String>,
    pub pid: Option<u32>,
    pub address: Option<String>,
}

/// The mathematical shape of a [`WindowId`].
pub struct WindowIdView {
    pub class: Option<Seq<char>>,
    pub title: Option<Seq<char>>,
    pub pid: Option<u32>,
    pub address: Option<Seq<char>>,
}

impl View for WindowId {
    type V = WindowIdView;

    open spec fn view(&self) -> WindowIdView {
        WindowIdView {
            class: match &self.class {
                Some(c) => Some(c@),
                None => None,
            },
            title: match &self.title {
                Some(t) => Some(t@),
                None => None,
            },
            pid: self.pid,
            address: match &self.address {
                Some(a) => Some(a@),
                None => None,
            },
        }
    }
}

impl Default for WindowId {
    /// A window identifier with no field set.
    fn default() -> (r: Self)
        ensures
            r@.class is None,
            r@.title is None,
            r@.pid is None,
            r@.address is None,
    {
        WindowId { class: None, title: None, pid: None, address: None }
    }
}

/// The prefixed identifier string of a [`WindowId`]: its first set field,
/// checked in the order class, title, pid, address; `None` when empty.
pub open spec fn spec_window_id_string(w: WindowIdView) -> Option<Seq<char>> {
    match w.class {
        Some(c) => Some("class:"@ + c),
        None => match w.title {
            Some(t) => Some("title:"@ + t),
            None => match w.pid {
                Some(p) => Some("pid:"@ + spec_nat_dec(p as int)),
                None => match w.address {
                    Some(a) => Some("address:"@ + a),
                    None => None,
                },
            },
        },
    }
}

impl WindowId {
    /// Prints the first set field as a prefixed identifier string.
    pub fn to_identifier_string(&self) -> (r: Option<String>)
        ensures
            match (r, spec_window_id_string(self@)) {
                (Some(s), Some(v)) => s@ == v,
                (None, None) => true,
                _ => false,
            },
    {
        if let Some(class) = &self.class {
            let mut m = String::from_str("class:");
            m.append(class.as_str());
            Some(m)
        } else if let Some(title) = &self.title {
            let mut m = String::from_str("title:");
            m.append(title.as_str());
            Some(m)
        } else if let Some(pid) = self.pid {
            let mut m = String::from_str("pid:");
            let digits = chars_to_string(&nat_dec_chars_u64(pid as u64));
            m.append(digits.as_str());
            Some(m)
        } else if let Some(address) = &self.address {
            let mut m = String::from_str("address:");
            m.append(address.as_str());
            Some(m)
        } else {
            None
        }
    }
}

/// Resize parameters: a signed delta or exact dimensions.
#[derive(Clone, Copy, PartialEq, Eq, Structural, Debug)]
pub enum ResizeCmd {
    Delta { dx: i16, dy: i16 },
    Exact { width: i16, height: i16 },
}

impl View for ResizeCmd {
    type V = ResizeCmd;

    open spec fn view(&self) -> ResizeCmd {
        *self
    }
}

/// A dispatcher as the CLI hands it over: names resolved by the subcommand,
/// parameters still plain strings.
pub enum Dispatch {
    Exec { command: Vec<String> },
    KillActiveWindow,
    ToggleFloating { window: WindowId },
    ToggleSplit,
    ToggleOpaque,
    MoveCursorToCorner { corner: String },
    MoveCursor { x: i64, y: i64 },
    ToggleFullscreen { mode: String },
    MoveToWorkspace { workspace: String },
    MoveToWorkspaceSilent { workspace: String, window: WindowId },
    Workspace { workspace: String },
    CycleWindow { direction: String },
    MoveFocus { direction: String },
    MoveWindow { target: String },
    SwapWindow { direction: String },
    FocusWindow { window: WindowId },
    ToggleFakeFullscreen,
    TogglePseudo,
    TogglePin,
    CenterWindow,
    BringActiveToTop,
    FocusUrgentOrLast,
    FocusCurrentOrLast,
    ForceRendererReload,
    Exit,
    ResizeActive { params: ResizeCmd },
    ResizeWindowPixel { params: ResizeCmd, window: WindowId },
}

/// The mathematical shape of a [`Dispatch`].
pub enum DispatchView {
    Exec { command: Seq<Seq<char>> },
    KillActiveWindow,
    ToggleFloating { window: WindowIdView },
    ToggleSplit,
    ToggleOpaque,
    MoveCursorToCorner { corner: Seq<char> },
    MoveCursor { x: i64, y: i64 },
    ToggleFullscreen { mode: Seq<char> },
    MoveToWorkspace { workspace: Seq<char> },
    MoveToWorkspaceSilent { workspace: Seq<char>, window: WindowIdView },
    Workspace { workspace: Seq<char> },
    CycleWindow { direction: Seq<char> },
    MoveFocus { direction: Seq<char> },
    MoveWindow { target: Seq<char> },
    SwapWindow { direction: Seq<char> },
    FocusWindow { window: WindowIdView },
    ToggleFakeFullscreen,
    TogglePseudo,
    TogglePin,
    CenterWindow,
    BringActiveToTop,
    FocusUrgentOrLast,
    FocusCurrentOrLast,
    ForceRendererReload,
    Exit,
    ResizeActive { params: ResizeCmd },
    ResizeWindowPixel { params: ResizeCmd, window: WindowIdView },
}

impl View for Dispatch {
    type V = DispatchView;

    open spec fn view(&self) -> DispatchView {
        match self {
            Dispatch::Exec { command } => DispatchView::Exec { command: command.deep_view() },
            Dispatch::KillActiveWindow => DispatchView::KillActiveWindow,
            Dispatch::ToggleFloating { window } => DispatchView::ToggleFloating {
                window: window@,
            },
            Dispatch::ToggleSplit => DispatchView::ToggleSplit,
            Dispatch::ToggleOpaque => DispatchView::ToggleOpaque,
            Dispatch::MoveCursorToCorner { corner } => DispatchView::MoveCursorToCorner {
                corner: corner@,
            },
            Dispatch::MoveCursor { x, y } => DispatchView::MoveCursor { x: *x, y: *y },
            Dispatch::ToggleFullscreen { mode } => DispatchView::ToggleFullscreen { mode: mode@ },
            Dispatch::MoveToWorkspace { workspace } => DispatchView::MoveToWorkspace {
                workspace: workspace@,
            },
            Dispatch::MoveToWorkspaceSilent { workspace, window } => {
                DispatchView::MoveToWorkspaceSilent { workspace: workspace@, window: window@ }
            },
            Dispatch::Workspace { workspace } => DispatchView::Workspace {
                workspace: workspace@,
            },
            Dispatch::CycleWindow { direction } => DispatchView::CycleWindow {
                direction: direction@,
            },
            Dispatch::MoveFocus { direction } => DispatchView::MoveFocus {
                direction: direction@,
            },
            Dispatch::MoveWindow { target } => DispatchView::MoveWindow { target: target@ },
            Dispatch::SwapWindow { direction } => DispatchView::SwapWindow {
                direction: direction@,
            },
            Dispatch::FocusWindow { window } => DispatchView::FocusWindow { window: window@ },
            Dispatch::ToggleFakeFullscreen => DispatchView::ToggleFakeFullscreen,
            Dispatch::TogglePseudo => DispatchView::TogglePseudo,
            Dispatch::TogglePin => DispatchView::TogglePin,
            Dispatch::CenterWindow => DispatchView::CenterWindow,
            Dispatch::BringActiveToTop => DispatchView::BringActiveToTop,
            Dispatch::FocusUrgentOrLast => DispatchView::FocusUrgentOrLast,
            Dispatch::FocusCurrentOrLast => DispatchView::FocusCurrentOrLast,
            Dispatch::ForceRendererReload => DispatchView::ForceRendererReload,
            Dispatch::Exit => DispatchView::Exit,
            Dispatch::ResizeActive { params } => DispatchView::ResizeActive { params: *params },
            Dispatch::ResizeWindowPixel { params, window } => DispatchView::ResizeWindowPixel {
                params: *params,
                window: window@,
            },
        }
    }
}

} // verus!
