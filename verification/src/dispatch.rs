//! The dispatch command model.
//!
//! A [`DispatchType`] is a fully validated compositor command: every
//! parameter has been checked before the value exists.  Commands are built
//! from a dispatcher name and string arguments by [`build_dispatch_cmd`];
//! dispatcher names are matched ignoring case and `-`/`_` separators.
//! Each command prints back to a canonical name and argument list, and the
//! round trip from a command through its canonical form and back is proved.

use vstd::prelude::*;

use crate::errors::{ParseError, ParseErrorView};
use crate::flags::{Dispatch, DispatchView, ResizeCmd, spec_window_id_string};
use crate::numbers::{
    int_dec_chars_i64, lemma_int_dec_head, lemma_parse_int_dec, spec_int_dec, spec_parse_i16,
    spec_parse_i64,
};
use crate::parsers::{
    Corner, CycleDirection, Direction, FullscreenType, WindowMatcher, WindowMatcherView,
    WindowTarget, WindowTargetView, WorkspaceSpecifier, WorkspaceSpecifierView, corner_canonical,
    cycle_canonical, direction_canonical, fullscreen_canonical, lemma_corner_round_trip,
    lemma_cycle_round_trip, lemma_direction_round_trip, lemma_fullscreen_round_trip,
    lemma_matcher_round_trip, lemma_window_target_round_trip, lemma_workspace_round_trip,
    parse_corner, parse_cycle_direction, parse_direction, parse_fullscreen_type,
    parse_window_matcher, parse_window_target, parse_workspace_specifier, spec_corner_canon,
    spec_cycle_canon, spec_direction_canon, spec_fullscreen_canon, spec_matcher_canon,
    spec_parse_corner, spec_parse_cycle, spec_parse_direction, spec_parse_fullscreen,
    spec_parse_window_matcher, spec_parse_window_target, spec_parse_workspace,
    spec_window_target_canon, spec_workspace_canon,
};
use crate::res_view;
use crate::text::{
    chars_eq_lit, chars_to_string, join_spaces, lower_chars, spec_join, spec_lower, str_chars,
};

verus! {

// --- The validated command ---

/// A validated compositor command, ready for the dispatch transport.
///
/// Every variant carries only checked values: malformed input fails in
/// [`build_dispatch_cmd`] and never produces a command.
#[derive(Debug, PartialEq)]
pub enum DispatchType {
    /// Run a shell command; the arguments were joined with single spaces.
    Exec(String),
    KillActiveWindow,
    ToggleFloating(Option<WindowMatcher>),
    ToggleSplit,
    ToggleOpaque,
    MoveCursorToCorner(Corner),
    MoveCursor(i64, i64),
    ToggleFullscreen(FullscreenType),
    MoveToWorkspace(WorkspaceSpecifier),
    MoveToWorkspaceSilent(WorkspaceSpecifier, Option<WindowMatcher>),
    Workspace(WorkspaceSpecifier),
    CycleWindow(CycleDirection),
    MoveFocus(Direction),
    SwapWindow(Direction),
    FocusWindow(WindowMatcher),
    MoveWindow(WindowTarget),
    ToggleFakeFullscreen,
    TogglePseudo,
    TogglePin,
    CenterWindow,
    BringActiveToTop,
    FocusUrgentOrLast,
    FocusCurrentOrLast,
    ForceRendererReload,
    Exit,
    ResizeActive(ResizeCmd),
    ResizeWindowPixel(ResizeCmd, WindowMatcher),
}

/// The mathematical shape of a [`DispatchType`].
pub enum DispatchTypeView {
    Exec(Seq<char>),
    KillActiveWindow,
    ToggleFloating(Option<WindowMatcherView>),
    ToggleSplit,
    ToggleOpaque,
    MoveCursorToCorner(Corner),
    MoveCursor(i64, i64),
    ToggleFullscreen(FullscreenType),
    MoveToWorkspace(WorkspaceSpecifierView),
    MoveToWorkspaceSilent(WorkspaceSpecifierView, Option<WindowMatcherView>),
    Workspace(WorkspaceSpecifierView),
    CycleWindow(CycleDirection),
    MoveFocus(Direction),
    SwapWindow(Direction),
    FocusWindow(WindowMatcherView),
    MoveWindow(WindowTargetView),
    ToggleFakeFullscreen,
    TogglePseudo,
    TogglePin,
    CenterWindow,
    BringActiveToTop,
    FocusUrgentOrLast,
    FocusCurrentOrLast,
    ForceRendererReload,
    Exit,
    ResizeActive(ResizeCmd),
    ResizeWindowPixel(ResizeCmd, WindowMatcherView),
}

impl View for DispatchType {
    type V = DispatchTypeView;

    open spec fn view(&self) -> DispatchTypeView {
        match self {
            DispatchType::Exec(c) => DispatchTypeView::Exec(c@),
            DispatchType::KillActiveWindow => DispatchTypeView::KillActiveWindow,
            DispatchType::ToggleFloating(w) => DispatchTypeView::ToggleFloating(
                match w {
                    Some(m) => Some(m@),
                    None => None,
                },
            ),
            DispatchType::ToggleSplit => DispatchTypeView::ToggleSplit,
            DispatchType::ToggleOpaque => DispatchTypeView::ToggleOpaque,
            DispatchType::MoveCursorToCorner(c) => DispatchTypeView::MoveCursorToCorner(*c),
            DispatchType::MoveCursor(x, y) => DispatchTypeView::MoveCursor(*x, *y),
            DispatchType::ToggleFullscreen(f) => DispatchTypeView::ToggleFullscreen(*f),
            DispatchType::MoveToWorkspace(w) => DispatchTypeView::MoveToWorkspace(w@),
            DispatchType::MoveToWorkspaceSilent(w, m) => DispatchTypeView::MoveToWorkspaceSilent(
                w@,
                match m {
                    Some(m) => Some(m@),
                    None => None,
                },
            ),
            DispatchType::Workspace(w) => DispatchTypeView::Workspace(w@),
            DispatchType::CycleWindow(c) => DispatchTypeView::CycleWindow(*c),
            DispatchType::MoveFocus(d) => DispatchTypeView::MoveFocus(*d),
            DispatchType::SwapWindow(d) => DispatchTypeView::SwapWindow(*d),
            DispatchType::FocusWindow(m) => DispatchTypeView::FocusWindow(m@),
            DispatchType::MoveWindow(t) => DispatchTypeView::MoveWindow(t@),
            DispatchType::ToggleFakeFullscreen => DispatchTypeView::ToggleFakeFullscreen,
            DispatchType::TogglePseudo => DispatchTypeView::TogglePseudo,
            DispatchType::TogglePin => DispatchTypeView::TogglePin,
            DispatchType::CenterWindow => DispatchTypeView::CenterWindow,
            DispatchType::BringActiveToTop => DispatchTypeView::BringActiveToTop,
            DispatchType::FocusUrgentOrLast => DispatchTypeView::FocusUrgentOrLast,
            DispatchType::FocusCurrentOrLast => DispatchTypeView::FocusCurrentOrLast,
            DispatchType::ForceRendererReload => DispatchTypeView::ForceRendererReload,
            DispatchType::Exit => DispatchTypeView::Exit,
            DispatchType::ResizeActive(p) => DispatchTypeView::ResizeActive(*p),
            DispatchType::ResizeWindowPixel(p, m) => DispatchTypeView::ResizeWindowPixel(*p, m@),
        }
    }
}

impl Clone for DispatchType {
    fn clone(&self) -> (r: Self)
        ensures
            r@ == self@,
    {
        match self {
            DispatchType::Exec(c) => DispatchType::Exec(c.clone()),
            DispatchType::KillActiveWindow => DispatchType::KillActiveWindow,
            DispatchType::ToggleFloating(w) => DispatchType::ToggleFloating(
                match w {
                    Some(m) => Some(m.clone()),
                    None => None,
                },
            ),
            DispatchType::ToggleSplit => DispatchType::ToggleSplit,
            DispatchType::ToggleOpaque => DispatchType::ToggleOpaque,
            DispatchType::MoveCursorToCorner(c) => DispatchType::MoveCursorToCorner(*c),
            DispatchType::MoveCursor(x, y) => DispatchType::MoveCursor(*x, *y),
            DispatchType::ToggleFullscreen(f) => DispatchType::ToggleFullscreen(*f),
            DispatchType::MoveToWorkspace(w) => DispatchType::MoveToWorkspace(w.clone()),
            DispatchType::MoveToWorkspaceSilent(w, m) => DispatchType::MoveToWorkspaceSilent(
                w.clone(),
                match m {
                    Some(m) => Some(m.clone()),
                    None => None,
                },
            ),
            DispatchType::Workspace(w) => DispatchType::Workspace(w.clone()),
            DispatchType::CycleWindow(c) => DispatchType::CycleWindow(*c),
            DispatchType::MoveFocus(d) => DispatchType::MoveFocus(*d),
            DispatchType::SwapWindow(d) => DispatchType::SwapWindow(*d),
            DispatchType::FocusWindow(m) => DispatchType::FocusWindow(m.clone()),
            DispatchType::MoveWindow(t) => DispatchType::MoveWindow(t.clone()),
            DispatchType::ToggleFakeFullscreen => DispatchType::ToggleFakeFullscreen,
            DispatchType::TogglePseudo => DispatchType::TogglePseudo,
            DispatchType::TogglePin => DispatchType::TogglePin,
            DispatchType::CenterWindow => DispatchType::CenterWindow,
            DispatchType::BringActiveToTop => DispatchType::BringActiveToTop,
            DispatchType::FocusUrgentOrLast => DispatchType::FocusUrgentOrLast,
            DispatchType::FocusCurrentOrLast => DispatchType::FocusCurrentOrLast,
            DispatchType::ForceRendererReload => DispatchType::ForceRendererReload,
            DispatchType::Exit => DispatchType::Exit,
            DispatchType::ResizeActive(p) => DispatchType::ResizeActive(*p),
            DispatchType::ResizeWindowPixel(p, m) => DispatchType::ResizeWindowPixel(
                *p,
                m.clone(),
            ),
        }
    }
}

// --- Dispatcher-name normalization ---

/// Is `c` one of the separators that dispatcher names ignore?
pub open spec fn is_sep(c: char) -> bool {
    c == '-' || c == '_'
}

/// `s` with every separator removed.
pub open spec fn strip_seps(s: Seq<char>) -> Seq<char>
    decreases s.len(),
{
    if s.len() == 0 {
        Seq::empty()
    } else {
        strip_seps(s.drop_last()) + (if is_sep(s.last()) {
            Seq::<char>::empty()
        } else {
            seq![s.last()]
        })
    }
}

/// The lookup key of a dispatcher name: lower case, separators removed.
pub open spec fn spec_norm_name(s: Seq<char>) -> Seq<char> {
    strip_seps(spec_lower(s))
}

/// Computes the lookup key of a dispatcher name.
fn normalize_name(s: &str) -> (r: Vec<char>)
    ensures
        r@ == spec_norm_name(s@),
{
    let l = lower_chars(&str_chars(s));
    let mut r: Vec<char> = Vec::new();
    let mut i: usize = 0;
    while i < l.len()
        invariant
            i <= l@.len(),
            l@ == spec_lower(s@),
            r@ == strip_seps(l@.take(i as int)),
        decreases l@.len() - i,
    {
        let c = l[i];
        if !(c == '-' || c == '_') {
            r.push(c);
        }
        i = i + 1;
        proof {
            assert(l@.take(i as int).drop_last() =~= l@.take(i - 1));
            assert(l@.take(i as int).last() == l@[i - 1]);
            if is_sep(l@[i - 1]) {
                assert(r@ =~= strip_seps(l@.take(i as int)));
            } else {
                assert(r@ =~= strip_seps(l@.take(i as int)));
            }
        }
    }
    proof {
        assert(l@.take(l@.len() as int) =~= l@);
    }
    r
}

// --- Building commands from name and arguments ---

/// How the resize parameters of `resize-active` are read: `exact` plus two
/// non-negative sizes, or exactly two signed deltas.
pub open spec fn spec_parse_resize(args: Seq<Seq<char>>) -> Result<ResizeCmd, ParseErrorView> {
    if args.len() == 0 {
        Err(ParseErrorView::MissingArgument { name: "resize parameters"@ })
    } else if args[0] == "exact"@ {
        if args.len() != 3 {
            Err(ParseErrorView::MissingArgument { name: "width and height"@ })
        } else {
            match spec_parse_i16(args[1]) {
                Some(w) => if w < 0 {
                    Err(ParseErrorView::InvalidArgument { index: 1, raw_value: args[1] })
                } else {
                    match spec_parse_i16(args[2]) {
                        Some(h) => if h < 0 {
                            Err(ParseErrorView::InvalidArgument { index: 2, raw_value: args[2] })
                        } else {
                            Ok(ResizeCmd::Exact { width: w, height: h })
                        },
                        None => Err(
                            ParseErrorView::InvalidArgument { index: 2, raw_value: args[2] },
                        ),
                    }
                },
                None => Err(ParseErrorView::InvalidArgument { index: 1, raw_value: args[1] }),
            }
        }
    } else {
        if args.len() != 2 {
            Err(ParseErrorView::MissingArgument { name: "dx and dy"@ })
        } else {
            match spec_parse_i16(args[0]) {
                Some(dx) => match spec_parse_i16(args[1]) {
                    Some(dy) => Ok(ResizeCmd::Delta { dx: dx, dy: dy }),
                    None => Err(ParseErrorView::InvalidArgument { index: 1, raw_value: args[1] }),
                },
                None => Err(ParseErrorView::InvalidArgument { index: 0, raw_value: args[0] }),
            }
        }
    }
}

/// How `resize-window-pixel` arguments are read: resize parameters as in
/// [`spec_parse_resize`], then the window identifier as the final argument.
pub open spec fn spec_parse_resize_window(args: Seq<Seq<char>>) -> Result<
    (ResizeCmd, WindowMatcherView),
    ParseErrorView,
> {
    if args.len() == 0 {
        Err(ParseErrorView::MissingArgument { name: "resize parameters"@ })
    } else if args[0] == "exact"@ {
        if args.len() != 4 {
            Err(ParseErrorView::MissingArgument { name: "width, height and window"@ })
        } else {
            match spec_parse_resize(args.take(3)) {
                Ok(p) => match spec_parse_window_matcher(args[3]) {
                    Ok(m) => Ok((p, m)),
                    Err(e) => Err(e),
                },
                Err(e) => Err(e),
            }
        }
    } else {
        if args.len() != 3 {
            Err(ParseErrorView::MissingArgument { name: "dx, dy and window"@ })
        } else {
            match spec_parse_resize(args.take(2)) {
                Ok(p) => match spec_parse_window_matcher(args[2]) {
                    Ok(m) => Ok((p, m)),
                    Err(e) => Err(e),
                },
                Err(e) => Err(e),
            }
        }
    }
}

/// How a command is built from a dispatcher name and its arguments.
///
/// The name is matched ignoring case and separators; each dispatcher then
/// validates its own arguments.  An optional window argument that is absent
/// or empty means "the focused window"; `cycle-window` defaults to `next`
/// when its argument is absent or empty; `toggle-fullscreen` defaults to
/// `noparam` when its argument is absent.
pub open spec fn spec_build_dispatch(name: Seq<char>, args: Seq<Seq<char>>) -> Result<
    DispatchTypeView,
    ParseErrorView,
> {
    let n = spec_norm_name(name);
    if n == "exec"@ {
        Ok(DispatchTypeView::Exec(spec_join(args, " "@)))
    } else if n == "killactivewindow"@ {
        Ok(DispatchTypeView::KillActiveWindow)
    } else if n == "togglefloating"@ {
        if args.len() == 0 || args[0].len() == 0 {
            Ok(DispatchTypeView::ToggleFloating(None))
        } else {
            match spec_parse_window_matcher(args[0]) {
                Ok(m) => Ok(DispatchTypeView::ToggleFloating(Some(m))),
                Err(e) => Err(e),
            }
        }
    } else if n == "togglesplit"@ {
        Ok(DispatchTypeView::ToggleSplit)
    } else if n == "toggleopaque"@ {
        Ok(DispatchTypeView::ToggleOpaque)
    } else if n == "movecursortocorner"@ {
        if args.len() == 0 {
            Err(ParseErrorView::MissingArgument { name: "corner"@ })
        } else {
            match spec_parse_corner(args[0]) {
                Ok(c) => Ok(DispatchTypeView::MoveCursorToCorner(c)),
                Err(e) => Err(e),
            }
        }
    } else if n == "movecursor"@ {
        if args.len() != 2 {
            Err(ParseErrorView::MissingArgument { name: "x and y"@ })
        } else {
            match spec_parse_i64(args[0]) {
                Some(x) => match spec_parse_i64(args[1]) {
                    Some(y) => Ok(DispatchTypeView::MoveCursor(x, y)),
                    None => Err(ParseErrorView::InvalidArgument { index: 1, raw_value: args[1] }),
                },
                None => Err(ParseErrorView::InvalidArgument { index: 0, raw_value: args[0] }),
            }
        }
    } else if n == "togglefullscreen"@ {
        match spec_parse_fullscreen(if args.len() == 0 { "noparam"@ } else { args[0] }) {
            Ok(f) => Ok(DispatchTypeView::ToggleFullscreen(f)),
            Err(e) => Err(e),
        }
    } else if n == "movetoworkspace"@ {
        if args.len() == 0 {
            Err(ParseErrorView::MissingArgument { name: "workspace"@ })
        } else {
            match spec_parse_workspace(args[0]) {
                Ok(w) => Ok(DispatchTypeView::MoveToWorkspace(w)),
                Err(e) => Err(e),
            }
        }
    } else if n == "movetoworkspacesilent"@ {
        if args.len() == 0 {
            Err(ParseErrorView::MissingArgument { name: "workspace"@ })
        } else {
            match spec_parse_workspace(args[0]) {
                Ok(w) => if args.len() >= 2 {
                    match spec_parse_window_matcher(args[1]) {
                        Ok(m) => Ok(DispatchTypeView::MoveToWorkspaceSilent(w, Some(m))),
                        Err(e) => Err(e),
                    }
                } else {
                    Ok(DispatchTypeView::MoveToWorkspaceSilent(w, None))
                },
                Err(e) => Err(e),
            }
        }
    } else if n == "workspace"@ {
        if args.len() == 0 {
            Err(ParseErrorView::MissingArgument { name: "workspace"@ })
        } else {
            match spec_parse_workspace(args[0]) {
                Ok(w) => Ok(DispatchTypeView::Workspace(w)),
                Err(e) => Err(e),
            }
        }
    } else if n == "cyclewindow"@ {
        if args.len() == 0 || args[0].len() == 0 {
            Ok(DispatchTypeView::CycleWindow(CycleDirection::Next))
        } else {
            match spec_parse_cycle(args[0]) {
                Ok(c) => Ok(DispatchTypeView::CycleWindow(c)),
                Err(e) => Err(e),
            }
        }
    } else if n == "movefocus"@ {
        if args.len() == 0 {
            Err(ParseErrorView::MissingArgument { name: "direction"@ })
        } else {
            match spec_parse_direction(args[0]) {
                Ok(d) => Ok(DispatchTypeView::MoveFocus(d)),
                Err(e) => Err(e),
            }
        }
    } else if n == "swapwindow"@ {
        if args.len() == 0 {
            Err(ParseErrorView::MissingArgument { name: "direction"@ })
        } else {
            match spec_parse_direction(args[0]) {
                Ok(d) => Ok(DispatchTypeView::SwapWindow(d)),
                Err(e) => Err(e),
            }
        }
    } else if n == "focuswindow"@ {
        if args.len() == 0 {
            Err(ParseErrorView::MissingArgument { name: "window"@ })
        } else {
            match spec_parse_window_matcher(args[0]) {
                Ok(m) => Ok(DispatchTypeView::FocusWindow(m)),
                Err(e) => Err(e),
            }
        }
    } else if n == "movewindow"@ {
        if args.len() == 0 {
            Err(ParseErrorView::MissingArgument { name: "target"@ })
        } else {
            match spec_parse_window_target(args[0]) {
                Ok(t) => Ok(DispatchTypeView::MoveWindow(t)),
                Err(e) => Err(e),
            }
        }
    } else if n == "togglefakefullscreen"@ {
        Ok(DispatchTypeView::ToggleFakeFullscreen)
    } else if n == "togglepseudo"@ {
        Ok(DispatchTypeView::TogglePseudo)
    } else if n == "togglepin"@ {
        Ok(DispatchTypeView::TogglePin)
    } else if n == "centerwindow"@ {
        Ok(DispatchTypeView::CenterWindow)
    } else if n == "bringactivetotop"@ {
        Ok(DispatchTypeView::BringActiveToTop)
    } else if n == "focusurgentorlast"@ {
        Ok(DispatchTypeView::FocusUrgentOrLast)
    } else if n == "focuscurrentorlast"@ {
        Ok(DispatchTypeView::FocusCurrentOrLast)
    } else if n == "forcerendererreload"@ {
        Ok(DispatchTypeView::ForceRendererReload)
    } else if n == "exit"@ {
        Ok(DispatchTypeView::Exit)
    } else if n == "resizeactive"@ {
        match spec_parse_resize(args) {
            Ok(p) => Ok(DispatchTypeView::ResizeActive(p)),
            Err(e) => Err(e),
        }
    } else if n == "resizewindowpixel"@ {
        match spec_parse_resize_window(args) {
            Ok((p, m)) => Ok(DispatchTypeView::ResizeWindowPixel(p, m)),
            Err(e) => Err(e),
        }
    } else {
        Err(ParseErrorView::UnknownDispatcher(name))
    }
}

/// Parses the argument list of `resize-active`.
fn parse_resize_args(args: &Vec<String>) -> (r: Result<ResizeCmd, ParseError>)
    ensures
        res_view(r) == spec_parse_resize(args.deep_view()),
{
    if args.len() == 0 {
        return Err(ParseError::MissingArgument { name: String::from_str("resize parameters") });
    }
    if chars_eq_lit(&str_chars(args[0].as_str()), "exact") {
        if args.len() != 3 {
            return Err(ParseError::MissingArgument { name: String::from_str("width and height") });
        }
        match crate::numbers::parse_i16_chars(&str_chars(args[1].as_str())) {
            Some(w) => {
                if w < 0 {
                    Err(ParseError::InvalidArgument { index: 1, raw_value: args[1].clone() })
                } else {
                    match crate::numbers::parse_i16_chars(&str_chars(args[2].as_str())) {
                        Some(h) => {
                            if h < 0 {
                                Err(
                                    ParseError::InvalidArgument {
                                        index: 2,
                                        raw_value: args[2].clone(),
                                    },
                                )
                            } else {
                                Ok(ResizeCmd::Exact { width: w, height: h })
                            }
                        },
                        None => Err(
                            ParseError::InvalidArgument { index: 2, raw_value: args[2].clone() },
                        ),
                    }
                }
            },
            None => Err(ParseError::InvalidArgument { index: 1, raw_value: args[1].clone() }),
        }
    } else {
        if args.len() != 2 {
            return Err(ParseError::MissingArgument { name: String::from_str("dx and dy") });
        }
        match crate::numbers::parse_i16_chars(&str_chars(args[0].as_str())) {
            Some(dx) => {
                match crate::numbers::parse_i16_chars(&str_chars(args[1].as_str())) {
                    Some(dy) => Ok(ResizeCmd::Delta { dx: dx, dy: dy }),
                    None => Err(
                        ParseError::InvalidArgument { index: 1, raw_value: args[1].clone() },
                    ),
                }
            },
            None => Err(ParseError::InvalidArgument { index: 0, raw_value: args[0].clone() }),
        }
    }
}

/// Parses the argument list of `resize-window-pixel`.
fn parse_resize_window_args(args: &Vec<String>) -> (r: Result<
    (ResizeCmd, WindowMatcher),
    ParseError,
>)
    ensures
        match (r, spec_parse_resize_window(args.deep_view())) {
            (Ok((p, m)), Ok((sp, sm))) => p == sp && m@ == sm,
            (Err(e), Err(se)) => e@ == se,
            _ => false,
        },
{
    let ghost av = args.deep_view();
    if args.len() == 0 {
        return Err(ParseError::MissingArgument { name: String::from_str("resize parameters") });
    }
    if chars_eq_lit(&str_chars(args[0].as_str()), "exact") {
        if args.len() != 4 {
            return Err(
                ParseError::MissingArgument { name: String::from_str("width, height and window") },
            );
        }
        let mut head: Vec<String> = Vec::new();
        head.push(args[0].clone());
        head.push(args[1].clone());
        head.push(args[2].clone());
        proof {
            assert(head.deep_view() =~= av.take(3));
        }
        match parse_resize_args(&head) {
            Ok(p) => {
                match parse_window_matcher(args[3].as_str()) {
                    Ok(m) => Ok((p, m)),
                    Err(e) => Err(e),
                }
            },
            Err(e) => Err(e),
        }
    } else {
        if args.len() != 3 {
            return Err(ParseError::MissingArgument { name: String::from_str("dx, dy and window") });
        }
        let mut head: Vec<String> = Vec::new();
        head.push(args[0].clone());
        head.push(args[1].clone());
        proof {
            assert(head.deep_view() =~= av.take(2));
        }
        match parse_resize_args(&head) {
            Ok(p) => {
                match parse_window_matcher(args[2].as_str()) {
                    Ok(m) => Ok((p, m)),
                    Err(e) => Err(e),
                }
            },
            Err(e) => Err(e),
        }
    }
}

/// Builds a validated command from a dispatcher name and its arguments.
///
/// The name is matched ignoring case and `-`/`_` separators.  Construction
/// is atomic: on any malformed argument the result is the error that
/// [`spec_build_dispatch`] assigns to that input, and no command exists.
pub fn build_dispatch_cmd(dispatcher: &str, args: &Vec<String>) -> (r: Result<
    DispatchType,
    ParseError,
>)
    ensures
        res_view(r) == spec_build_dispatch(dispatcher@, args.deep_view()),
{
    let norm = normalize_name(dispatcher);
    if chars_eq_lit(&norm, "exec") {
        Ok(DispatchType::Exec(join_spaces(args)))
    } else if chars_eq_lit(&norm, "killactivewindow") {
        Ok(DispatchType::KillActiveWindow)
    } else if chars_eq_lit(&norm, "togglefloating") {
        if args.len() == 0 || args[0].as_str().is_empty() {
            Ok(DispatchType::ToggleFloating(None))
        } else {
            match parse_window_matcher(args[0].as_str()) {
                Ok(m) => Ok(DispatchType::ToggleFloating(Some(m))),
                Err(e) => Err(e),
            }
        }
    } else if chars_eq_lit(&norm, "togglesplit") {
        Ok(DispatchType::ToggleSplit)
    } else if chars_eq_lit(&norm, "toggleopaque") {
        Ok(DispatchType::ToggleOpaque)
    } else if chars_eq_lit(&norm, "movecursortocorner") {
        if args.len() == 0 {
            Err(ParseError::MissingArgument { name: String::from_str("corner") })
        } else {
            match parse_corner(args[0].as_str()) {
                Ok(c) => Ok(DispatchType::MoveCursorToCorner(c)),
                Err(e) => Err(e),
            }
        }
    } else if chars_eq_lit(&norm, "movecursor") {
        if args.len() != 2 {
            Err(ParseError::MissingArgument { name: String::from_str("x and y") })
        } else {
            match crate::numbers::parse_i64_chars(&str_chars(args[0].as_str())) {
                Some(x) => {
                    match crate::numbers::parse_i64_chars(&str_chars(args[1].as_str())) {
                        Some(y) => Ok(DispatchType::MoveCursor(x, y)),
                        None => Err(
                            ParseError::InvalidArgument { index: 1, raw_value: args[1].clone() },
                        ),
                    }
                },
                None => Err(ParseError::InvalidArgument { index: 0, raw_value: args[0].clone() }),
            }
        }
    } else if chars_eq_lit(&norm, "togglefullscreen") {
        let parsed = if args.len() == 0 {
            parse_fullscreen_type("noparam")
        } else {
            parse_fullscreen_type(args[0].as_str())
        };
        match parsed {
            Ok(f) => Ok(DispatchType::ToggleFullscreen(f)),
            Err(e) => Err(e),
        }
    } else if chars_eq_lit(&norm, "movetoworkspace") {
        if args.len() == 0 {
            Err(ParseError::MissingArgument { name: String::from_str("workspace") })
        } else {
            match parse_workspace_specifier(args[0].as_str()) {
                Ok(w) => Ok(DispatchType::MoveToWorkspace(w)),
                Err(e) => Err(e),
            }
        }
    } else if chars_eq_lit(&norm, "movetoworkspacesilent") {
        if args.len() == 0 {
            Err(ParseError::MissingArgument { name: String::from_str("workspace") })
        } else {
            match parse_workspace_specifier(args[0].as_str()) {
                Ok(w) => {
                    if args.len() >= 2 {
                        match parse_window_matcher(args[1].as_str()) {
                            Ok(m) => Ok(DispatchType::MoveToWorkspaceSilent(w, Some(m))),
                            Err(e) => Err(e),
                        }
                    } else {
                        Ok(DispatchType::MoveToWorkspaceSilent(w, None))
                    }
                },
                Err(e) => Err(e),
            }
        }
    } else if chars_eq_lit(&norm, "workspace") {
        if args.len() == 0 {
            Err(ParseError::MissingArgument { name: String::from_str("workspace") })
        } else {
            match parse_workspace_specifier(args[0].as_str()) {
                Ok(w) => Ok(DispatchType::Workspace(w)),
                Err(e) => Err(e),
            }
        }
    } else if chars_eq_lit(&norm, "cyclewindow") {
        if args.len() == 0 || args[0].as_str().is_empty() {
            Ok(DispatchType::CycleWindow(CycleDirection::Next))
        } else {
            match parse_cycle_direction(args[0].as_str()) {
                Ok(c) => Ok(DispatchType::CycleWindow(c)),
                Err(e) => Err(e),
            }
        }
    } else if chars_eq_lit(&norm, "movefocus") {
        if args.len() == 0 {
            Err(ParseError::MissingArgument { name: String::from_str("direction") })
        } else {
            match parse_direction(args[0].as_str()) {
                Ok(d) => Ok(DispatchType::MoveFocus(d)),
                Err(e) => Err(e),
            }
        }
    } else if chars_eq_lit(&norm, "swapwindow") {
        if args.len() == 0 {
            Err(ParseError::MissingArgument { name: String::from_str("direction") })
        } else {
            match parse_direction(args[0].as_str()) {
                Ok(d) => Ok(DispatchType::SwapWindow(d)),
                Err(e) => Err(e),
            }
        }
    } else if chars_eq_lit(&norm, "focuswindow") {
        if args.len() == 0 {
            Err(ParseError::MissingArgument { name: String::from_str("window") })
        } else {
            match parse_window_matcher(args[0].as_str()) {
                Ok(m) => Ok(DispatchType::FocusWindow(m)),
                Err(e) => Err(e),
            }
        }
    } else if chars_eq_lit(&norm, "movewindow") {
        if args.len() == 0 {
            Err(ParseError::MissingArgument { name: String::from_str("target") })
        } else {
            match parse_window_target(args[0].as_str()) {
                Ok(t) => Ok(DispatchType::MoveWindow(t)),
                Err(e) => Err(e),
            }
        }
    } else if chars_eq_lit(&norm, "togglefakefullscreen") {
        Ok(DispatchType::ToggleFakeFullscreen)
    } else if chars_eq_lit(&norm, "togglepseudo") {
        Ok(DispatchType::TogglePseudo)
    } else if chars_eq_lit(&norm, "togglepin") {
        Ok(DispatchType::TogglePin)
    } else if chars_eq_lit(&norm, "centerwindow") {
        Ok(DispatchType::CenterWindow)
    } else if chars_eq_lit(&norm, "bringactivetotop") {
        Ok(DispatchType::BringActiveToTop)
    } else if chars_eq_lit(&norm, "focusurgentorlast") {
        Ok(DispatchType::FocusUrgentOrLast)
    } else if chars_eq_lit(&norm, "focuscurrentorlast") {
        Ok(DispatchType::FocusCurrentOrLast)
    } else if chars_eq_lit(&norm, "forcerendererreload") {
        Ok(DispatchType::ForceRendererReload)
    } else if chars_eq_lit(&norm, "exit") {
        Ok(DispatchType::Exit)
    } else if chars_eq_lit(&norm, "resizeactive") {
        match parse_resize_args(args) {
            Ok(p) => Ok(DispatchType::ResizeActive(p)),
            Err(e) => Err(e),
        }
    } else if chars_eq_lit(&norm, "resizewindowpixel") {
        match parse_resize_window_args(args) {
            Ok((p, m)) => Ok(DispatchType::ResizeWindowPixel(p, m)),
            Err(e) => Err(e),
        }
    } else {
        Err(ParseError::UnknownDispatcher(dispatcher.to_owned()))
    }
}

// --- Canonical form ---

/// The canonical dispatcher name of a command.
pub open spec fn spec_canon_name(d: DispatchTypeView) -> Seq<char> {
    match d {
        DispatchTypeView::Exec(_) => "exec"@,
        DispatchTypeView::KillActiveWindow => "kill-active-window"@,
        DispatchTypeView::ToggleFloating(_) => "toggle-floating"@,
        DispatchTypeView::ToggleSplit => "toggle-split"@,
        DispatchTypeView::ToggleOpaque => "toggle-opaque"@,
        DispatchTypeView::MoveCursorToCorner(_) => "move-cursor-to-corner"@,
        DispatchTypeView::MoveCursor(_, _) => "move-cursor"@,
        DispatchTypeView::ToggleFullscreen(_) => "toggle-fullscreen"@,
        DispatchTypeView::MoveToWorkspace(_) => "move-to-workspace"@,
        DispatchTypeView::MoveToWorkspaceSilent(_, _) => "move-to-workspace-silent"@,
        DispatchTypeView::Workspace(_) => "workspace"@,
        DispatchTypeView::CycleWindow(_) => "cycle-window"@,
        DispatchTypeView::MoveFocus(_) => "move-focus"@,
        DispatchTypeView::SwapWindow(_) => "swap-window"@,
        DispatchTypeView::FocusWindow(_) => "focus-window"@,
        DispatchTypeView::MoveWindow(_) => "move-window"@,
        DispatchTypeView::ToggleFakeFullscreen => "toggle-fake-fullscreen"@,
        DispatchTypeView::TogglePseudo => "toggle-pseudo"@,
        DispatchTypeView::TogglePin => "toggle-pin"@,
        DispatchTypeView::CenterWindow => "center-window"@,
        DispatchTypeView::BringActiveToTop => "bring-active-to-top"@,
        DispatchTypeView::FocusUrgentOrLast => "focus-urgent-or-last"@,
        DispatchTypeView::FocusCurrentOrLast => "focus-current-or-last"@,
        DispatchTypeView::ForceRendererReload => "force-renderer-reload"@,
        DispatchTypeView::Exit => "exit"@,
        DispatchTypeView::ResizeActive(_) => "resize-active"@,
        DispatchTypeView::ResizeWindowPixel(_, _) => "resize-window-pixel"@,
    }
}

/// The canonical arguments of resize parameters.
pub open spec fn spec_resize_canon_args(p: ResizeCmd) -> Seq<Seq<char>> {
    match p {
        ResizeCmd::Delta { dx, dy } => seq![spec_int_dec(dx as int), spec_int_dec(dy as int)],
        ResizeCmd::Exact { width, height } => seq![
            "exact"@,
            spec_int_dec(width as int),
            spec_int_dec(height as int),
        ],
    }
}

/// The canonical argument list of a command.
pub open spec fn spec_canon_args(d: DispatchTypeView) -> Seq<Seq<char>> {
    match d {
        DispatchTypeView::Exec(c) => seq![c],
        DispatchTypeView::ToggleFloating(w) => match w {
            Some(m) => seq![spec_matcher_canon(m)],
            None => Seq::empty(),
        },
        DispatchTypeView::MoveCursorToCorner(c) => seq![spec_corner_canon(c)],
        DispatchTypeView::MoveCursor(x, y) => seq![
            spec_int_dec(x as int),
            spec_int_dec(y as int),
        ],
        DispatchTypeView::ToggleFullscreen(f) => seq![spec_fullscreen_canon(f)],
        DispatchTypeView::MoveToWorkspace(w) => seq![spec_workspace_canon(w)],
        DispatchTypeView::MoveToWorkspaceSilent(w, m) => match m {
            Some(m) => seq![spec_workspace_canon(w), spec_matcher_canon(m)],
            None => seq![spec_workspace_canon(w)],
        },
        DispatchTypeView::Workspace(w) => seq![spec_workspace_canon(w)],
        DispatchTypeView::CycleWindow(c) => seq![spec_cycle_canon(c)],
        DispatchTypeView::MoveFocus(dir) => seq![spec_direction_canon(dir)],
        DispatchTypeView::SwapWindow(dir) => seq![spec_direction_canon(dir)],
        DispatchTypeView::FocusWindow(m) => seq![spec_matcher_canon(m)],
        DispatchTypeView::MoveWindow(t) => seq![spec_window_target_canon(t)],
        DispatchTypeView::ResizeActive(p) => spec_resize_canon_args(p),
        DispatchTypeView::ResizeWindowPixel(p, m) => spec_resize_canon_args(p).push(
            spec_matcher_canon(m),
        ),
        _ => Seq::empty(),
    }
}

/// Exact resize parameters must carry non-negative sizes; deltas are free.
pub open spec fn spec_resize_wf(p: ResizeCmd) -> bool {
    match p {
        ResizeCmd::Delta { .. } => true,
        ResizeCmd::Exact { width, height } => width >= 0 && height >= 0,
    }
}

/// The validity invariant of a command: what its constructors enforce.
pub open spec fn spec_dispatch_wf(d: DispatchTypeView) -> bool {
    match d {
        DispatchTypeView::ResizeActive(p) => spec_resize_wf(p),
        DispatchTypeView::ResizeWindowPixel(p, _) => spec_resize_wf(p),
        _ => true,
    }
}

impl DispatchType {
    /// The canonical dispatcher name that builds this command back.
    pub fn to_canonical_name(&self) -> (r: String)
        ensures
            r@ == spec_canon_name(self@),
    {
        match self {
            DispatchType::Exec(_) => String::from_str("exec"),
            DispatchType::KillActiveWindow => String::from_str("kill-active-window"),
            DispatchType::ToggleFloating(_) => String::from_str("toggle-floating"),
            DispatchType::ToggleSplit => String::from_str("toggle-split"),
            DispatchType::ToggleOpaque => String::from_str("toggle-opaque"),
            DispatchType::MoveCursorToCorner(_) => String::from_str("move-cursor-to-corner"),
            DispatchType::MoveCursor(_, _) => String::from_str("move-cursor"),
            DispatchType::ToggleFullscreen(_) => String::from_str("toggle-fullscreen"),
            DispatchType::MoveToWorkspace(_) => String::from_str("move-to-workspace"),
            DispatchType::MoveToWorkspaceSilent(_, _) => String::from_str(
                "move-to-workspace-silent",
            ),
            DispatchType::Workspace(_) => String::from_str("workspace"),
            DispatchType::CycleWindow(_) => String::from_str("cycle-window"),
            DispatchType::MoveFocus(_) => String::from_str("move-focus"),
            DispatchType::SwapWindow(_) => String::from_str("swap-window"),
            DispatchType::FocusWindow(_) => String::from_str("focus-window"),
            DispatchType::MoveWindow(_) => String::from_str("move-window"),
            DispatchType::ToggleFakeFullscreen => String::from_str("toggle-fake-fullscreen"),
            DispatchType::TogglePseudo => String::from_str("toggle-pseudo"),
            DispatchType::TogglePin => String::from_str("toggle-pin"),
            DispatchType::CenterWindow => String::from_str("center-window"),
            DispatchType::BringActiveToTop => String::from_str("bring-active-to-top"),
            DispatchType::FocusUrgentOrLast => String::from_str("focus-urgent-or-last"),
            DispatchType::FocusCurrentOrLast => String::from_str("focus-current-or-last"),
            DispatchType::ForceRendererReload => String::from_str("force-renderer-reload"),
            DispatchType::Exit => String::from_str("exit"),
            DispatchType::ResizeActive(_) => String::from_str("resize-active"),
            DispatchType::ResizeWindowPixel(_, _) => String::from_str("resize-window-pixel"),
        }
    }

    /// The canonical arguments that build this command back.
    pub fn to_canonical_args(&self) -> (r: Vec<String>)
        ensures
            r.deep_view() == spec_canon_args(self@),
    {
        let mut r: Vec<String> = Vec::new();
        match self {
            DispatchType::Exec(c) => {
                r.push(c.clone());
            },
            DispatchType::ToggleFloating(w) => {
                if let Some(m) = w {
                    r.push(m.to_canonical_string());
                }
            },
            DispatchType::MoveCursorToCorner(c) => {
                r.push(corner_canonical(*c));
            },
            DispatchType::MoveCursor(x, y) => {
                r.push(chars_to_string(&int_dec_chars_i64(*x)));
                r.push(chars_to_string(&int_dec_chars_i64(*y)));
            },
            DispatchType::ToggleFullscreen(f) => {
                r.push(fullscreen_canonical(*f));
            },
            DispatchType::MoveToWorkspace(w) => {
                r.push(w.to_canonical_string());
            },
            DispatchType::MoveToWorkspaceSilent(w, m) => {
                r.push(w.to_canonical_string());
                if let Some(m) = m {
                    r.push(m.to_canonical_string());
                }
            },
            DispatchType::Workspace(w) => {
                r.push(w.to_canonical_string());
            },
            DispatchType::CycleWindow(c) => {
                r.push(cycle_canonical(*c));
            },
            DispatchType::MoveFocus(d) => {
                r.push(direction_canonical(*d));
            },
            DispatchType::SwapWindow(d) => {
                r.push(direction_canonical(*d));
            },
            DispatchType::FocusWindow(m) => {
                r.push(m.to_canonical_string());
            },
            DispatchType::MoveWindow(t) => {
                r.push(t.to_canonical_string());
            },
            DispatchType::ResizeActive(p) => {
                push_resize_args(&mut r, *p);
            },
            DispatchType::ResizeWindowPixel(p, m) => {
                push_resize_args(&mut r, *p);
                r.push(m.to_canonical_string());
            },
            _ => {},
        }
        proof {
            assert(r.deep_view() =~= spec_canon_args(self@));
        }
        r
    }
}

/// Appends the canonical arguments of resize parameters.
fn push_resize_args(r: &mut Vec<String>, p: ResizeCmd)
    ensures
        final(r).deep_view() == old(r).deep_view() + spec_resize_canon_args(p),
{
    match p {
        ResizeCmd::Delta { dx, dy } => {
            r.push(chars_to_string(&int_dec_chars_i64(dx as i64)));
            r.push(chars_to_string(&int_dec_chars_i64(dy as i64)));
        },
        ResizeCmd::Exact { width, height } => {
            r.push(String::from_str("exact"));
            r.push(chars_to_string(&int_dec_chars_i64(width as i64)));
            r.push(chars_to_string(&int_dec_chars_i64(height as i64)));
        },
    }
    proof {
        assert(r.deep_view() =~= old(r).deep_view() + spec_resize_canon_args(p));
    }
}

// --- From the CLI command tree ---

/// How a CLI-level [`Dispatch`] command validates into a [`DispatchType`].
///
/// Typed fields pass through; string fields go through the same parsers as
/// [`spec_build_dispatch`].  Window identifiers are read from the first set
/// flag of the [`crate::flags::WindowId`], in the order class, title, pid,
/// address.
pub open spec fn spec_parse_dispatcher(c: DispatchView) -> Result<
    DispatchTypeView,
    ParseErrorView,
> {
    match c {
        DispatchView::Exec { command } => Ok(
            DispatchTypeView::Exec(spec_join(command, " "@)),
        ),
        DispatchView::KillActiveWindow => Ok(DispatchTypeView::KillActiveWindow),
        DispatchView::ToggleFloating { window } => match spec_window_id_string(window) {
            Some(s) => match spec_parse_window_matcher(s) {
                Ok(m) => Ok(DispatchTypeView::ToggleFloating(Some(m))),
                Err(e) => Err(e),
            },
            None => Ok(DispatchTypeView::ToggleFloating(None)),
        },
        DispatchView::ToggleSplit => Ok(DispatchTypeView::ToggleSplit),
        DispatchView::ToggleOpaque => Ok(DispatchTypeView::ToggleOpaque),
        DispatchView::MoveCursorToCorner { corner } => match spec_parse_corner(corner) {
            Ok(c) => Ok(DispatchTypeView::MoveCursorToCorner(c)),
            Err(e) => Err(e),
        },
        DispatchView::MoveCursor { x, y } => Ok(DispatchTypeView::MoveCursor(x, y)),
        DispatchView::ToggleFullscreen { mode } => match spec_parse_fullscreen(mode) {
            Ok(f) => Ok(DispatchTypeView::ToggleFullscreen(f)),
            Err(e) => Err(e),
        },
        DispatchView::MoveToWorkspace { workspace } => match spec_parse_workspace(workspace) {
            Ok(w) => Ok(DispatchTypeView::MoveToWorkspace(w)),
            Err(e) => Err(e),
        },
        DispatchView::MoveToWorkspaceSilent { workspace, window } => match spec_parse_workspace(
            workspace,
        ) {
            Ok(w) => match spec_window_id_string(window) {
                Some(s) => match spec_parse_window_matcher(s) {
                    Ok(m) => Ok(DispatchTypeView::MoveToWorkspaceSilent(w, Some(m))),
                    Err(e) => Err(e),
                },
                None => Ok(DispatchTypeView::MoveToWorkspaceSilent(w, None)),
            },
            Err(e) => Err(e),
        },
        DispatchView::Workspace { workspace } => match spec_parse_workspace(workspace) {
            Ok(w) => Ok(DispatchTypeView::Workspace(w)),
            Err(e) => Err(e),
        },
        DispatchView::CycleWindow { direction } => match spec_parse_cycle(direction) {
            Ok(cd) => Ok(DispatchTypeView::CycleWindow(cd)),
            Err(e) => Err(e),
        },
        DispatchView::MoveFocus { direction } => match spec_parse_direction(direction) {
            Ok(d) => Ok(DispatchTypeView::MoveFocus(d)),
            Err(e) => Err(e),
        },
        DispatchView::MoveWindow { target } => match spec_parse_window_target(target) {
            Ok(t) => Ok(DispatchTypeView::MoveWindow(t)),
            Err(e) => Err(e),
        },
        DispatchView::SwapWindow { direction } => match spec_parse_direction(direction) {
            Ok(d) => Ok(DispatchTypeView::SwapWindow(d)),
            Err(e) => Err(e),
        },
        DispatchView::FocusWindow { window } => match spec_window_id_string(window) {
            Some(s) => match spec_parse_window_matcher(s) {
                Ok(m) => Ok(DispatchTypeView::FocusWindow(m)),
                Err(e) => Err(e),
            },
            None => Err(ParseErrorView::MissingArgument { name: "window"@ }),
        },
        DispatchView::ToggleFakeFullscreen => Ok(DispatchTypeView::ToggleFakeFullscreen),
        DispatchView::TogglePseudo => Ok(DispatchTypeView::TogglePseudo),
        DispatchView::TogglePin => Ok(DispatchTypeView::TogglePin),
        DispatchView::CenterWindow => Ok(DispatchTypeView::CenterWindow),
        DispatchView::BringActiveToTop => Ok(DispatchTypeView::BringActiveToTop),
        DispatchView::FocusUrgentOrLast => Ok(DispatchTypeView::FocusUrgentOrLast),
        DispatchView::FocusCurrentOrLast => Ok(DispatchTypeView::FocusCurrentOrLast),
        DispatchView::ForceRendererReload => Ok(DispatchTypeView::ForceRendererReload),
        DispatchView::Exit => Ok(DispatchTypeView::Exit),
        DispatchView::ResizeActive { params } => Ok(DispatchTypeView::ResizeActive(params)),
        DispatchView::ResizeWindowPixel { params, window } => match spec_window_id_string(
            window,
        ) {
            Some(s) => match spec_parse_window_matcher(s) {
                Ok(m) => Ok(DispatchTypeView::ResizeWindowPixel(params, m)),
                Err(e) => Err(e),
            },
            None => Err(ParseErrorView::MissingArgument { name: "window"@ }),
        },
    }
}

/// Validates a CLI-level dispatcher command into a [`DispatchType`].
pub fn parse_dispatcher(command: &Dispatch) -> (r: Result<DispatchType, ParseError>)
    ensures
        res_view(r) == spec_parse_dispatcher(command@),
{
    match command {
        Dispatch::Exec { command } => Ok(DispatchType::Exec(join_spaces(command))),
        Dispatch::KillActiveWindow => Ok(DispatchType::KillActiveWindow),
        Dispatch::ToggleFloating { window } => match window.to_identifier_string() {
            Some(s) => match parse_window_matcher(s.as_str()) {
                Ok(m) => Ok(DispatchType::ToggleFloating(Some(m))),
                Err(e) => Err(e),
            },
            None => Ok(DispatchType::ToggleFloating(None)),
        },
        Dispatch::ToggleSplit => Ok(DispatchType::ToggleSplit),
        Dispatch::ToggleOpaque => Ok(DispatchType::ToggleOpaque),
        Dispatch::MoveCursorToCorner { corner } => match parse_corner(corner.as_str()) {
            Ok(c) => Ok(DispatchType::MoveCursorToCorner(c)),
            Err(e) => Err(e),
        },
        Dispatch::MoveCursor { x, y } => Ok(DispatchType::MoveCursor(*x, *y)),
        Dispatch::ToggleFullscreen { mode } => match parse_fullscreen_type(mode.as_str()) {
            Ok(f) => Ok(DispatchType::ToggleFullscreen(f)),
            Err(e) => Err(e),
        },
        Dispatch::MoveToWorkspace { workspace } => {
            match parse_workspace_specifier(workspace.as_str()) {
                Ok(w) => Ok(DispatchType::MoveToWorkspace(w)),
                Err(e) => Err(e),
            }
        },
        Dispatch::MoveToWorkspaceSilent { workspace, window } => {
            match parse_workspace_specifier(workspace.as_str()) {
                Ok(w) => match window.to_identifier_string() {
                    Some(s) => match parse_window_matcher(s.as_str()) {
                        Ok(m) => Ok(DispatchType::MoveToWorkspaceSilent(w, Some(m))),
                        Err(e) => Err(e),
                    },
                    None => Ok(DispatchType::MoveToWorkspaceSilent(w, None)),
                },
                Err(e) => Err(e),
            }
        },
        Dispatch::Workspace { workspace } => {
            match parse_workspace_specifier(workspace.as_str()) {
                Ok(w) => Ok(DispatchType::Workspace(w)),
                Err(e) => Err(e),
            }
        },
        Dispatch::CycleWindow { direction } => match parse_cycle_direction(direction.as_str()) {
            Ok(cd) => Ok(DispatchType::CycleWindow(cd)),
            Err(e) => Err(e),
        },
        Dispatch::MoveFocus { direction } => match parse_direction(direction.as_str()) {
            Ok(d) => Ok(DispatchType::MoveFocus(d)),
            Err(e) => Err(e),
        },
        Dispatch::MoveWindow { target } => match parse_window_target(target.as_str()) {
            Ok(t) => Ok(DispatchType::MoveWindow(t)),
            Err(e) => Err(e),
        },
        Dispatch::SwapWindow { direction } => match parse_direction(direction.as_str()) {
            Ok(d) => Ok(DispatchType::SwapWindow(d)),
            Err(e) => Err(e),
        },
        Dispatch::FocusWindow { window } => match window.to_identifier_string() {
            Some(s) => match parse_window_matcher(s.as_str()) {
                Ok(m) => Ok(DispatchType::FocusWindow(m)),
                Err(e) => Err(e),
            },
            None => Err(ParseError::MissingArgument { name: String::from_str("window") }),
        },
        Dispatch::ToggleFakeFullscreen => Ok(DispatchType::ToggleFakeFullscreen),
        Dispatch::TogglePseudo => Ok(DispatchType::TogglePseudo),
        Dispatch::TogglePin => Ok(DispatchType::TogglePin),
        Dispatch::CenterWindow => Ok(DispatchType::CenterWindow),
        Dispatch::BringActiveToTop => Ok(DispatchType::BringActiveToTop),
        Dispatch::FocusUrgentOrLast => Ok(DispatchType::FocusUrgentOrLast),
        Dispatch::FocusCurrentOrLast => Ok(DispatchType::FocusCurrentOrLast),
        Dispatch::ForceRendererReload => Ok(DispatchType::ForceRendererReload),
        Dispatch::Exit => Ok(DispatchType::Exit),
        Dispatch::ResizeActive { params } => Ok(DispatchType::ResizeActive(*params)),
        Dispatch::ResizeWindowPixel { params, window } => match window.to_identifier_string() {
            Some(s) => match parse_window_matcher(s.as_str()) {
                Ok(m) => Ok(DispatchType::ResizeWindowPixel(*params, m)),
                Err(e) => Err(e),
            },
            None => Err(ParseError::MissingArgument { name: String::from_str("window") }),
        },
    }
}

// --- The round trip ---

/// A canonical numeral is never the keyword `exact`.
proof fn lemma_dec_not_exact(v: int)
    ensures
        spec_int_dec(v) != "exact"@,
{
    reveal_strlit("exact");
    lemma_int_dec_head(v);
    if spec_int_dec(v) == "exact"@ {
        assert(spec_int_dec(v)[0] == 'e');
        assert(!crate::numbers::is_digit('e') && 'e' != '-');
    }
}

/// Round trip for resize parameters: canonical arguments parse back.
proof fn lemma_resize_round_trip(p: ResizeCmd)
    requires
        spec_resize_wf(p),
    ensures
        spec_parse_resize(spec_resize_canon_args(p)) == Ok::<ResizeCmd, ParseErrorView>(p),
{
    reveal_strlit("exact");
    let args = spec_resize_canon_args(p);
    match p {
        ResizeCmd::Delta { dx, dy } => {
            assert(args.len() == 2);
            assert(args[0] == spec_int_dec(dx as int));
            assert(args[1] == spec_int_dec(dy as int));
            lemma_dec_not_exact(dx as int);
            lemma_parse_int_dec(dx as int);
            lemma_parse_int_dec(dy as int);
        },
        ResizeCmd::Exact { width, height } => {
            assert(args.len() == 3);
            assert(args[0] == "exact"@);
            assert(args[1] == spec_int_dec(width as int));
            assert(args[2] == spec_int_dec(height as int));
            lemma_parse_int_dec(width as int);
            lemma_parse_int_dec(height as int);
        },
    }
}

/// The canonical string of a matcher is never empty.
proof fn lemma_matcher_canon_nonempty(m: WindowMatcherView)
    ensures
        spec_matcher_canon(m).len() > 0,
{
    reveal_strlit("class:");
    reveal_strlit("title:");
    reveal_strlit("pid:");
    reveal_strlit("address:");
    match m {
        WindowMatcherView::ClassPattern(_) => {},
        WindowMatcherView::TitlePattern(_) => {},
        WindowMatcherView::ProcessId(_) => {},
        WindowMatcherView::Address(_) => {},
    }
}

/// The normalized lookup key of each command's canonical name.
pub open spec fn spec_canon_key(d: DispatchTypeView) -> Seq<char> {
    match d {
        DispatchTypeView::Exec(_) => "exec"@,
        DispatchTypeView::KillActiveWindow => "killactivewindow"@,
        DispatchTypeView::ToggleFloating(_) => "togglefloating"@,
        DispatchTypeView::ToggleSplit => "togglesplit"@,
        DispatchTypeView::ToggleOpaque => "toggleopaque"@,
        DispatchTypeView::MoveCursorToCorner(_) => "movecursortocorner"@,
        DispatchTypeView::MoveCursor(_, _) => "movecursor"@,
        DispatchTypeView::ToggleFullscreen(_) => "togglefullscreen"@,
        DispatchTypeView::MoveToWorkspace(_) => "movetoworkspace"@,
        DispatchTypeView::MoveToWorkspaceSilent(_, _) => "movetoworkspacesilent"@,
        DispatchTypeView::Workspace(_) => "workspace"@,
        DispatchTypeView::CycleWindow(_) => "cyclewindow"@,
        DispatchTypeView::MoveFocus(_) => "movefocus"@,
        DispatchTypeView::SwapWindow(_) => "swapwindow"@,
        DispatchTypeView::FocusWindow(_) => "focuswindow"@,
        DispatchTypeView::MoveWindow(_) => "movewindow"@,
        DispatchTypeView::ToggleFakeFullscreen => "togglefakefullscreen"@,
        DispatchTypeView::TogglePseudo => "togglepseudo"@,
        DispatchTypeView::TogglePin => "togglepin"@,
        DispatchTypeView::CenterWindow => "centerwindow"@,
        DispatchTypeView::BringActiveToTop => "bringactivetotop"@,
        DispatchTypeView::FocusUrgentOrLast => "focusurgentorlast"@,
        DispatchTypeView::FocusCurrentOrLast => "focuscurrentorlast"@,
        DispatchTypeView::ForceRendererReload => "forcerendererreload"@,
        DispatchTypeView::Exit => "exit"@,
        DispatchTypeView::ResizeActive(_) => "resizeactive"@,
        DispatchTypeView::ResizeWindowPixel(_, _) => "resizewindowpixel"@,
    }
}

/// Normalizing `exec` yields its lookup key.
proof fn lemma_norm_exec()
    ensures
        spec_norm_name("exec"@) == "exec"@,
{
    reveal_strlit("exec");
    reveal_with_fuel(strip_seps, 26);
    assert(spec_lower("exec"@) =~= "exec"@);
    assert(strip_seps("exec"@) =~= "exec"@);
}

/// Normalizing `kill-active-window` yields its lookup key.
proof fn lemma_norm_killactivewindow()
    ensures
        spec_norm_name("kill-active-window"@) == "killactivewindow"@,
{
    reveal_strlit("kill-active-window");
    reveal_strlit("killactivewindow");
    reveal_with_fuel(strip_seps, 26);
    assert(spec_lower("kill-active-window"@) =~= "kill-active-window"@);
    assert(strip_seps("kill-active-window"@) =~= "killactivewindow"@);
}

/// Normalizing `toggle-floating` yields its lookup key.
proof fn lemma_norm_togglefloating()
    ensures
        spec_norm_name("toggle-floating"@) == "togglefloating"@,
{
    reveal_strlit("toggle-floating");
    reveal_strlit("togglefloating");
    reveal_with_fuel(strip_seps, 26);
    assert(spec_lower("toggle-floating"@) =~= "toggle-floating"@);
    assert(strip_seps("toggle-floating"@) =~= "togglefloating"@);
}

/// Normalizing `toggle-split` yields its lookup key.
proof fn lemma_norm_togglesplit()
    ensures
        spec_norm_name("toggle-split"@) == "togglesplit"@,
{
    reveal_strlit("toggle-split");
    reveal_strlit("togglesplit");
    reveal_with_fuel(strip_seps, 26);
    assert(spec_lower("toggle-split"@) =~= "toggle-split"@);
    assert(strip_seps("toggle-split"@) =~= "togglesplit"@);
}

/// Normalizing `toggle-opaque` yields its lookup key.
proof fn lemma_norm_toggleopaque()
    ensures
        spec_norm_name("toggle-opaque"@) == "toggleopaque"@,
{
    reveal_strlit("toggle-opaque");
    reveal_strlit("toggleopaque");
    reveal_with_fuel(strip_seps, 26);
    assert(spec_lower("toggle-opaque"@) =~= "toggle-opaque"@);
    assert(strip_seps("toggle-opaque"@) =~= "toggleopaque"@);
}

/// Normalizing `move-cursor-to-corner` yields its lookup key.
proof fn lemma_norm_movecursortocorner()
    ensures
        spec_norm_name("move-cursor-to-corner"@) == "movecursortocorner"@,
{
    reveal_strlit("move-cursor-to-corner");
    reveal_strlit("movecursortocorner");
    reveal_with_fuel(strip_seps, 26);
    assert(spec_lower("move-cursor-to-corner"@) =~= "move-cursor-to-corner"@);
    assert(strip_seps("move-cursor-to-corner"@) =~= "movecursortocorner"@);
}

/// Normalizing `move-cursor` yields its lookup key.
proof fn lemma_norm_movecursor()
    ensures
        spec_norm_name("move-cursor"@) == "movecursor"@,
{
    reveal_strlit("move-cursor");
    reveal_strlit("movecursor");
    reveal_with_fuel(strip_seps, 26);
    assert(spec_lower("move-cursor"@) =~= "move-cursor"@);
    assert(strip_seps("move-cursor"@) =~= "movecursor"@);
}

/// Normalizing `toggle-fullscreen` yields its lookup key.
proof fn lemma_norm_togglefullscreen()
    ensures
        spec_norm_name("toggle-fullscreen"@) == "togglefullscreen"@,
{
    reveal_strlit("toggle-fullscreen");
    reveal_strlit("togglefullscreen");
    reveal_with_fuel(strip_seps, 26);
    assert(spec_lower("toggle-fullscreen"@) =~= "toggle-fullscreen"@);
    assert(strip_seps("toggle-fullscreen"@) =~= "togglefullscreen"@);
}

/// Normalizing `move-to-workspace` yields its lookup key.
proof fn lemma_norm_movetoworkspace()
    ensures
        spec_norm_name("move-to-workspace"@) == "movetoworkspace"@,
{
    reveal_strlit("move-to-workspace");
    reveal_strlit("movetoworkspace");
    reveal_with_fuel(strip_seps, 26);
    assert(spec_lower("move-to-workspace"@) =~= "move-to-workspace"@);
    assert(strip_seps("move-to-workspace"@) =~= "movetoworkspace"@);
}

/// Normalizing `move-to-workspace-silent` yields its lookup key.
proof fn lemma_norm_movetoworkspacesilent()
    ensures
        spec_norm_name("move-to-workspace-silent"@) == "movetoworkspacesilent"@,
{
    reveal_strlit("move-to-workspace-silent");
    reveal_strlit("movetoworkspacesilent");
    reveal_with_fuel(strip_seps, 26);
    assert(spec_lower("move-to-workspace-silent"@) =~= "move-to-workspace-silent"@);
    assert(strip_seps("move-to-workspace-silent"@) =~= "movetoworkspacesilent"@);
}

/// Normalizing `workspace` yields its lookup key.
proof fn lemma_norm_workspace()
    ensures
        spec_norm_name("workspace"@) == "workspace"@,
{
    reveal_strlit("workspace");
    reveal_with_fuel(strip_seps, 26);
    assert(spec_lower("workspace"@) =~= "workspace"@);
    assert(strip_seps("workspace"@) =~= "workspace"@);
}

/// Normalizing `cycle-window` yields its lookup key.
proof fn lemma_norm_cyclewindow()
    ensures
        spec_norm_name("cycle-window"@) == "cyclewindow"@,
{
    reveal_strlit("cycle-window");
    reveal_strlit("cyclewindow");
    reveal_with_fuel(strip_seps, 26);
    assert(spec_lower("cycle-window"@) =~= "cycle-window"@);
    assert(strip_seps("cycle-window"@) =~= "cyclewindow"@);
}

/// Normalizing `move-focus` yields its lookup key.
proof fn lemma_norm_movefocus()
    ensures
        spec_norm_name("move-focus"@) == "movefocus"@,
{
    reveal_strlit("move-focus");
    reveal_strlit("movefocus");
    reveal_with_fuel(strip_seps, 26);
    assert(spec_lower("move-focus"@) =~= "move-focus"@);
    assert(strip_seps("move-focus"@) =~= "movefocus"@);
}

/// Normalizing `swap-window` yields its lookup key.
proof fn lemma_norm_swapwindow()
    ensures
        spec_norm_name("swap-window"@) == "swapwindow"@,
{
    reveal_strlit("swap-window");
    reveal_strlit("swapwindow");
    reveal_with_fuel(strip_seps, 26);
    assert(spec_lower("swap-window"@) =~= "swap-window"@);
    assert(strip_seps("swap-window"@) =~= "swapwindow"@);
}

/// Normalizing `focus-window` yields its lookup key.
proof fn lemma_norm_focuswindow()
    ensures
        spec_norm_name("focus-window"@) == "focuswindow"@,
{
    reveal_strlit("focus-window");
    reveal_strlit("focuswindow");
    reveal_with_fuel(strip_seps, 26);
    assert(spec_lower("focus-window"@) =~= "focus-window"@);
    assert(strip_seps("focus-window"@) =~= "focuswindow"@);
}

/// Normalizing `move-window` yields its lookup key.
proof fn lemma_norm_movewindow()
    ensures
        spec_norm_name("move-window"@) == "movewindow"@,
{
    reveal_strlit("move-window");
    reveal_strlit("movewindow");
    reveal_with_fuel(strip_seps, 26);
    assert(spec_lower("move-window"@) =~= "move-window"@);
    assert(strip_seps("move-window"@) =~= "movewindow"@);
}

/// Normalizing `toggle-fake-fullscreen` yields its lookup key.
proof fn lemma_norm_togglefakefullscreen()
    ensures
        spec_norm_name("toggle-fake-fullscreen"@) == "togglefakefullscreen"@,
{
    reveal_strlit("toggle-fake-fullscreen");
    reveal_strlit("togglefakefullscreen");
    reveal_with_fuel(strip_seps, 26);
    assert(spec_lower("toggle-fake-fullscreen"@) =~= "toggle-fake-fullscreen"@);
    assert(strip_seps("toggle-fake-fullscreen"@) =~= "togglefakefullscreen"@);
}

/// Normalizing `toggle-pseudo` yields its lookup key.
proof fn lemma_norm_togglepseudo()
    ensures
        spec_norm_name("toggle-pseudo"@) == "togglepseudo"@,
{
    reveal_strlit("toggle-pseudo");
    reveal_strlit("togglepseudo");
    reveal_with_fuel(strip_seps, 26);
    assert(spec_lower("toggle-pseudo"@) =~= "toggle-pseudo"@);
    assert(strip_seps("toggle-pseudo"@) =~= "togglepseudo"@);
}

/// Normalizing `toggle-pin` yields its lookup key.
proof fn lemma_norm_togglepin()
    ensures
        spec_norm_name("toggle-pin"@) == "togglepin"@,
{
    reveal_strlit("toggle-pin");
    reveal_strlit("togglepin");
    reveal_with_fuel(strip_seps, 26);
    assert(spec_lower("toggle-pin"@) =~= "toggle-pin"@);
    assert(strip_seps("toggle-pin"@) =~= "togglepin"@);
}

/// Normalizing `center-window` yields its lookup key.
proof fn lemma_norm_centerwindow()
    ensures
        spec_norm_name("center-window"@) == "centerwindow"@,
{
    reveal_strlit("center-window");
    reveal_strlit("centerwindow");
    reveal_with_fuel(strip_seps, 26);
    assert(spec_lower("center-window"@) =~= "center-window"@);
    assert(strip_seps("center-window"@) =~= "centerwindow"@);
}

/// Normalizing `bring-active-to-top` yields its lookup key.
proof fn lemma_norm_bringactivetotop()
    ensures
        spec_norm_name("bring-active-to-top"@) == "bringactivetotop"@,
{
    reveal_strlit("bring-active-to-top");
    reveal_strlit("bringactivetotop");
    reveal_with_fuel(strip_seps, 26);
    assert(spec_lower("bring-active-to-top"@) =~= "bring-active-to-top"@);
    assert(strip_seps("bring-active-to-top"@) =~= "bringactivetotop"@);
}

/// Normalizing `focus-urgent-or-last` yields its lookup key.
proof fn lemma_norm_focusurgentorlast()
    ensures
        spec_norm_name("focus-urgent-or-last"@) == "focusurgentorlast"@,
{
    reveal_strlit("focus-urgent-or-last");
    reveal_strlit("focusurgentorlast");
    reveal_with_fuel(strip_seps, 26);
    assert(spec_lower("focus-urgent-or-last"@) =~= "focus-urgent-or-last"@);
    assert(strip_seps("focus-urgent-or-last"@) =~= "focusurgentorlast"@);
}

/// Normalizing `focus-current-or-last` yields its lookup key.
proof fn lemma_norm_focuscurrentorlast()
    ensures
        spec_norm_name("focus-current-or-last"@) == "focuscurrentorlast"@,
{
    reveal_strlit("focus-current-or-last");
    reveal_strlit("focuscurrentorlast");
    reveal_with_fuel(strip_seps, 26);
    assert(spec_lower("focus-current-or-last"@) =~= "focus-current-or-last"@);
    assert(strip_seps("focus-current-or-last"@) =~= "focuscurrentorlast"@);
}

/// Normalizing `force-renderer-reload` yields its lookup key.
proof fn lemma_norm_forcerendererreload()
    ensures
        spec_norm_name("force-renderer-reload"@) == "forcerendererreload"@,
{
    reveal_strlit("force-renderer-reload");
    reveal_strlit("forcerendererreload");
    reveal_with_fuel(strip_seps, 26);
    assert(spec_lower("force-renderer-reload"@) =~= "force-renderer-reload"@);
    assert(strip_seps("force-renderer-reload"@) =~= "forcerendererreload"@);
}

/// Normalizing `exit` yields its lookup key.
proof fn lemma_norm_exit()
    ensures
        spec_norm_name("exit"@) == "exit"@,
{
    reveal_strlit("exit");
    reveal_with_fuel(strip_seps, 26);
    assert(spec_lower("exit"@) =~= "exit"@);
    assert(strip_seps("exit"@) =~= "exit"@);
}

/// Normalizing `resize-active` yields its lookup key.
proof fn lemma_norm_resizeactive()
    ensures
        spec_norm_name("resize-active"@) == "resizeactive"@,
{
    reveal_strlit("resize-active");
    reveal_strlit("resizeactive");
    reveal_with_fuel(strip_seps, 26);
    assert(spec_lower("resize-active"@) =~= "resize-active"@);
    assert(strip_seps("resize-active"@) =~= "resizeactive"@);
}

/// Normalizing `resize-window-pixel` yields its lookup key.
proof fn lemma_norm_resizewindowpixel()
    ensures
        spec_norm_name("resize-window-pixel"@) == "resizewindowpixel"@,
{
    reveal_strlit("resize-window-pixel");
    reveal_strlit("resizewindowpixel");
    reveal_with_fuel(strip_seps, 26);
    assert(spec_lower("resize-window-pixel"@) =~= "resize-window-pixel"@);
    assert(strip_seps("resize-window-pixel"@) =~= "resizewindowpixel"@);
}

/// Normalizing any canonical name yields that command's lookup key.
proof fn lemma_canon_norm(d: DispatchTypeView)
    ensures
        spec_norm_name(spec_canon_name(d)) == spec_canon_key(d),
{
    match d {
        DispatchTypeView::Exec(_) => {
            lemma_norm_exec();
        },
        DispatchTypeView::KillActiveWindow => {
            lemma_norm_killactivewindow();
        },
        DispatchTypeView::ToggleFloating(_) => {
            lemma_norm_togglefloating();
        },
        DispatchTypeView::ToggleSplit => {
            lemma_norm_togglesplit();
        },
        DispatchTypeView::ToggleOpaque => {
            lemma_norm_toggleopaque();
        },
        DispatchTypeView::MoveCursorToCorner(_) => {
            lemma_norm_movecursortocorner();
        },
        DispatchTypeView::MoveCursor(_, _) => {
            lemma_norm_movecursor();
        },
        DispatchTypeView::ToggleFullscreen(_) => {
            lemma_norm_togglefullscreen();
        },
        DispatchTypeView::MoveToWorkspace(_) => {
            lemma_norm_movetoworkspace();
        },
        DispatchTypeView::MoveToWorkspaceSilent(_, _) => {
            lemma_norm_movetoworkspacesilent();
        },
        DispatchTypeView::Workspace(_) => {
            lemma_norm_workspace();
        },
        DispatchTypeView::CycleWindow(_) => {
            lemma_norm_cyclewindow();
        },
        DispatchTypeView::MoveFocus(_) => {
            lemma_norm_movefocus();
        },
        DispatchTypeView::SwapWindow(_) => {
            lemma_norm_swapwindow();
        },
        DispatchTypeView::FocusWindow(_) => {
            lemma_norm_focuswindow();
        },
        DispatchTypeView::MoveWindow(_) => {
            lemma_norm_movewindow();
        },
        DispatchTypeView::ToggleFakeFullscreen => {
            lemma_norm_togglefakefullscreen();
        },
        DispatchTypeView::TogglePseudo => {
            lemma_norm_togglepseudo();
        },
        DispatchTypeView::TogglePin => {
            lemma_norm_togglepin();
        },
        DispatchTypeView::CenterWindow => {
            lemma_norm_centerwindow();
        },
        DispatchTypeView::BringActiveToTop => {
            lemma_norm_bringactivetotop();
        },
        DispatchTypeView::FocusUrgentOrLast => {
            lemma_norm_focusurgentorlast();
        },
        DispatchTypeView::FocusCurrentOrLast => {
            lemma_norm_focuscurrentorlast();
        },
        DispatchTypeView::ForceRendererReload => {
            lemma_norm_forcerendererreload();
        },
        DispatchTypeView::Exit => {
            lemma_norm_exit();
        },
        DispatchTypeView::ResizeActive(_) => {
            lemma_norm_resizeactive();
        },
        DispatchTypeView::ResizeWindowPixel(_, _) => {
            lemma_norm_resizewindowpixel();
        },
    }
}

/// Lengths and distinguishing characters of the lookup keys, enough to
/// tell any two keys apart.
proof fn lemma_key_facts()
    ensures
        "exec"@.len() == 4,
        "exit"@.len() == 4,
        "exec"@[2] == 'e',
        "exit"@[2] == 'i',
        "killactivewindow"@.len() == 16,
        "togglefullscreen"@.len() == 16,
        "bringactivetotop"@.len() == 16,
        "killactivewindow"@[0] == 'k',
        "togglefullscreen"@[0] == 't',
        "bringactivetotop"@[0] == 'b',
        "togglefullscreen"@[6] == 'f',
        "togglefloating"@.len() == 14,
        "togglesplit"@.len() == 11,
        "cyclewindow"@.len() == 11,
        "focuswindow"@.len() == 11,
        "togglesplit"@[0] == 't',
        "cyclewindow"@[0] == 'c',
        "focuswindow"@[0] == 'f',
        "toggleopaque"@.len() == 12,
        "togglepseudo"@.len() == 12,
        "centerwindow"@.len() == 12,
        "resizeactive"@.len() == 12,
        "toggleopaque"@[0] == 't',
        "toggleopaque"@[6] == 'o',
        "togglepseudo"@[6] == 'p',
        "togglepseudo"@[0] == 't',
        "centerwindow"@[0] == 'c',
        "resizeactive"@[0] == 'r',
        "movecursortocorner"@.len() == 18,
        "focuscurrentorlast"@.len() == 18,
        "movecursortocorner"@[0] == 'm',
        "focuscurrentorlast"@[0] == 'f',
        "movecursor"@.len() == 10,
        "swapwindow"@.len() == 10,
        "movewindow"@.len() == 10,
        "movecursor"@[0] == 'm',
        "movewindow"@[0] == 'm',
        "swapwindow"@[0] == 's',
        "movecursor"@[4] == 'c',
        "movewindow"@[4] == 'w',
        "movetoworkspace"@.len() == 15,
        "movetoworkspacesilent"@.len() == 21,
        "workspace"@.len() == 9,
        "movefocus"@.len() == 9,
        "togglepin"@.len() == 9,
        "workspace"@[0] == 'w',
        "movefocus"@[0] == 'm',
        "togglepin"@[0] == 't',
        "togglefakefullscreen"@.len() == 20,
        "focusurgentorlast"@.len() == 17,
        "resizewindowpixel"@.len() == 17,
        "focusurgentorlast"@[0] == 'f',
        "resizewindowpixel"@[0] == 'r',
        "forcerendererreload"@.len() == 19,
{
    reveal_strlit("bringactivetotop");
    reveal_strlit("centerwindow");
    reveal_strlit("cyclewindow");
    reveal_strlit("exec");
    reveal_strlit("exit");
    reveal_strlit("focuscurrentorlast");
    reveal_strlit("focusurgentorlast");
    reveal_strlit("focuswindow");
    reveal_strlit("forcerendererreload");
    reveal_strlit("killactivewindow");
    reveal_strlit("movecursor");
    reveal_strlit("movecursortocorner");
    reveal_strlit("movefocus");
    reveal_strlit("movetoworkspace");
    reveal_strlit("movetoworkspacesilent");
    reveal_strlit("movewindow");
    reveal_strlit("resizeactive");
    reveal_strlit("resizewindowpixel");
    reveal_strlit("swapwindow");
    reveal_strlit("togglefakefullscreen");
    reveal_strlit("togglefloating");
    reveal_strlit("togglefullscreen");
    reveal_strlit("toggleopaque");
    reveal_strlit("togglepin");
    reveal_strlit("togglepseudo");
    reveal_strlit("togglesplit");
    reveal_strlit("workspace");
}

/// Round trip: re-building any well-formed command from its canonical name
/// and arguments restores the command exactly.
#[verifier::rlimit(100)]
pub proof fn lemma_dispatch_round_trip(d: DispatchTypeView)
    requires
        spec_dispatch_wf(d),
    ensures
        spec_build_dispatch(spec_canon_name(d), spec_canon_args(d)) == Ok::<
            DispatchTypeView,
            ParseErrorView,
        >(d),
{
    lemma_canon_norm(d);
    lemma_key_facts();
    let name = spec_canon_name(d);
    let args = spec_canon_args(d);
    match d {
        DispatchTypeView::Exec(c) => {
            assert(spec_join(args, " "@) == c);
        },
        DispatchTypeView::KillActiveWindow => {},
        DispatchTypeView::ToggleFloating(w) => {
            match w {
                Some(m) => {
                    lemma_matcher_canon_nonempty(m);
                    lemma_matcher_round_trip(m);
                    assert(args[0] == spec_matcher_canon(m));
                },
                None => {
                    assert(args.len() == 0);
                },
            }
        },
        DispatchTypeView::ToggleSplit => {},
        DispatchTypeView::ToggleOpaque => {},
        DispatchTypeView::MoveCursorToCorner(c) => {
            lemma_corner_round_trip(c);
            assert(args[0] == spec_corner_canon(c));
        },
        DispatchTypeView::MoveCursor(x, y) => {
            lemma_parse_int_dec(x as int);
            lemma_parse_int_dec(y as int);
            assert(args[0] == spec_int_dec(x as int) && args[1] == spec_int_dec(y as int));
        },
        DispatchTypeView::ToggleFullscreen(f) => {
            lemma_fullscreen_round_trip(f);
            assert(args[0] == spec_fullscreen_canon(f));
        },
        DispatchTypeView::MoveToWorkspace(w) => {
            lemma_workspace_round_trip(w);
            assert(args[0] == spec_workspace_canon(w));
        },
        DispatchTypeView::MoveToWorkspaceSilent(w, m) => {
            lemma_workspace_round_trip(w);
            match m {
                Some(m) => {
                    lemma_matcher_round_trip(m);
                    assert(args.len() == 2 && args[0] == spec_workspace_canon(w) && args[1]
                        == spec_matcher_canon(m));
                },
                None => {
                    assert(args.len() == 1 && args[0] == spec_workspace_canon(w));
                },
            }
        },
        DispatchTypeView::Workspace(w) => {
            lemma_workspace_round_trip(w);
            assert(args[0] == spec_workspace_canon(w));
        },
        DispatchTypeView::CycleWindow(c) => {
            reveal_strlit("next");
            reveal_strlit("previous");
            assert(spec_cycle_canon(c).len() > 0);
            lemma_cycle_round_trip(c);
            assert(args[0] == spec_cycle_canon(c));
        },
        DispatchTypeView::MoveFocus(dir) => {
            lemma_direction_round_trip(dir);
            assert(args[0] == spec_direction_canon(dir));
        },
        DispatchTypeView::SwapWindow(dir) => {
            lemma_direction_round_trip(dir);
            assert(args[0] == spec_direction_canon(dir));
        },
        DispatchTypeView::FocusWindow(m) => {
            lemma_matcher_round_trip(m);
            assert(args[0] == spec_matcher_canon(m));
        },
        DispatchTypeView::MoveWindow(t) => {
            lemma_window_target_round_trip(t);
            assert(args[0] == spec_window_target_canon(t));
        },
        DispatchTypeView::ToggleFakeFullscreen => {},
        DispatchTypeView::TogglePseudo => {},
        DispatchTypeView::TogglePin => {},
        DispatchTypeView::CenterWindow => {},
        DispatchTypeView::BringActiveToTop => {},
        DispatchTypeView::FocusUrgentOrLast => {},
        DispatchTypeView::FocusCurrentOrLast => {},
        DispatchTypeView::ForceRendererReload => {},
        DispatchTypeView::Exit => {},
        DispatchTypeView::ResizeActive(p) => {
            lemma_resize_round_trip(p);
        },
        DispatchTypeView::ResizeWindowPixel(p, m) => {
            lemma_resize_round_trip(p);
            lemma_matcher_round_trip(m);
            reveal_strlit("exact");
            let ra = spec_resize_canon_args(p);
            match p {
                ResizeCmd::Delta { dx, dy } => {
                    lemma_dec_not_exact(dx as int);
                    assert(args.len() == 3);
                    assert(args[0] == spec_int_dec(dx as int));
                    assert(args[2] == spec_matcher_canon(m));
                    assert(args.take(2) =~= ra);
                },
                ResizeCmd::Exact { width, height } => {
                    assert(args.len() == 4);
                    assert(args[0] == "exact"@);
                    assert(args[3] == spec_matcher_canon(m));
                    assert(args.take(3) =~= ra);
                },
            }
        },
    }
}

} // verus!
