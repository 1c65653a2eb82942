//! Typed identifiers parsed from prefixed or keyword strings.
//!
//! Window matchers (`class:`, `title:`, `pid:`, `address:`), workspace
//! specifiers (absolute ids, `right:`/`left:` offsets, `previous`, `empty`,
//! `name:`), directions, corners, fullscreen modes, cycle directions and
//! window-move targets.  Each parser has a canonical printer and a proved
//! round-trip lemma.

use vstd::prelude::*;

use crate::errors::{ParseError, ParseErrorView};
use crate::numbers::{
    int_dec_chars_i64, lemma_int_dec_head, lemma_nat_dec_digits, lemma_parse_int_dec,
    lemma_parse_nat_dec, nat_dec_chars_u64, parse_i32_chars, parse_i64_chars, parse_u32_chars,
    spec_int_dec, spec_nat_dec, spec_parse_i32, spec_parse_i64, spec_parse_u32,
};
use crate::res_view;
use crate::text::{
    chars_eq_lit, chars_to_string, contains_chars, has_prefix, lower_chars,
    skip_chars, spec_contains, spec_has_prefix, spec_lower, str_chars,
};

verus! {

// --- Small keyword enums ---

/// A cardinal movement direction.
#[derive(Clone, Copy, PartialEq, Eq, Structural, Debug)]
pub enum Direction {
    Up,
    Down,
    Left,
    Right,
}

/// A screen corner.
#[derive(Clone, Copy, PartialEq, Eq, Structural, Debug)]
pub enum Corner {
    TopLeft,
    TopRight,
    BottomLeft,
    BottomRight,
}

/// A fullscreen mode.
#[derive(Clone, Copy, PartialEq, Eq, Structural, Debug)]
pub enum FullscreenType {
    Real,
    Maximize,
    NoParam,
}

/// A window-cycling direction.
#[derive(Clone, Copy, PartialEq, Eq, Structural, Debug)]
pub enum CycleDirection {
    Next,
    Previous,
}

impl View for Direction {
    type V = Direction;

    open spec fn view(&self) -> Direction {
        *self
    }
}

impl View for Corner {
    type V = Corner;

    open spec fn view(&self) -> Corner {
        *self
    }
}

impl View for FullscreenType {
    type V = FullscreenType;

    open spec fn view(&self) -> FullscreenType {
        *self
    }
}

impl View for CycleDirection {
    type V = CycleDirection;

    open spec fn view(&self) -> CycleDirection {
        *self
    }
}

/// The keyword of a direction, in canonical lower case.
pub open spec fn spec_direction_canon(d: Direction) -> Seq<char> {
    match d {
        Direction::Up => "up"@,
        Direction::Down => "down"@,
        Direction::Left => "left"@,
        Direction::Right => "right"@,
    }
}

/// Case-insensitive direction lookup.
pub open spec fn spec_parse_direction(s: Seq<char>) -> Result<Direction, ParseErrorView> {
    let l = spec_lower(s);
    if l == "up"@ {
        Ok(Direction::Up)
    } else if l == "down"@ {
        Ok(Direction::Down)
    } else if l == "left"@ {
        Ok(Direction::Left)
    } else if l == "right"@ {
        Ok(Direction::Right)
    } else {
        Err(ParseErrorView::UnknownDirection(s))
    }
}

/// Parses a direction keyword, ignoring case.
pub fn parse_direction(s: &str) -> (r: Result<Direction, ParseError>)
    ensures
        res_view(r) == spec_parse_direction(s@),
{
    let l = lower_chars(&str_chars(s));
    if chars_eq_lit(&l, "up") {
        Ok(Direction::Up)
    } else if chars_eq_lit(&l, "down") {
        Ok(Direction::Down)
    } else if chars_eq_lit(&l, "left") {
        Ok(Direction::Left)
    } else if chars_eq_lit(&l, "right") {
        Ok(Direction::Right)
    } else {
        Err(ParseError::UnknownDirection(s.to_owned()))
    }
}

/// The canonical keyword of `d`, as a string.
pub fn direction_canonical(d: Direction) -> (r: String)
    ensures
        r@ == spec_direction_canon(d),
{
    match d {
        Direction::Up => String::from_str("up"),
        Direction::Down => String::from_str("down"),
        Direction::Left => String::from_str("left"),
        Direction::Right => String::from_str("right"),
    }
}

/// Canonical direction keywords are already lower case.
pub proof fn lemma_direction_canon_lower(d: Direction)
    ensures
        spec_lower(spec_direction_canon(d)) == spec_direction_canon(d),
{
    reveal_strlit("up");
    reveal_strlit("down");
    reveal_strlit("left");
    reveal_strlit("right");
    match d {
        Direction::Up => {
            assert(spec_lower("up"@) =~= "up"@);
        },
        Direction::Down => {
            assert(spec_lower("down"@) =~= "down"@);
        },
        Direction::Left => {
            assert(spec_lower("left"@) =~= "left"@);
        },
        Direction::Right => {
            assert(spec_lower("right"@) =~= "right"@);
        },
    }
}

/// Round trip: printing a direction and parsing it back restores it.
pub proof fn lemma_direction_round_trip(d: Direction)
    ensures
        spec_parse_direction(spec_direction_canon(d)) == Ok::<Direction, ParseErrorView>(d),
{
    reveal_strlit("up");
    reveal_strlit("down");
    reveal_strlit("left");
    reveal_strlit("right");
    lemma_direction_canon_lower(d);
    match d {
        Direction::Up => {},
        Direction::Down => {
            assert("down"@ != "up"@);
        },
        Direction::Left => {
            assert("left"@.len() == 4);
            assert("up"@.len() == 2);
            assert("left"@[0] == 'l' && "down"@[0] == 'd');
            assert("left"@ != "up"@ && "left"@ != "down"@);
        },
        Direction::Right => {
            assert("right"@ != "up"@ && "right"@ != "down"@ && "right"@ != "left"@);
        },
    }
}

/// The keyword of a corner, in canonical lower case.
pub open spec fn spec_corner_canon(c: Corner) -> Seq<char> {
    match c {
        Corner::TopLeft => "topleft"@,
        Corner::TopRight => "topright"@,
        Corner::BottomLeft => "bottomleft"@,
        Corner::BottomRight => "bottomright"@,
    }
}

/// Case-insensitive corner lookup.
pub open spec fn spec_parse_corner(s: Seq<char>) -> Result<Corner, ParseErrorView> {
    let l = spec_lower(s);
    if l == "topleft"@ {
        Ok(Corner::TopLeft)
    } else if l == "topright"@ {
        Ok(Corner::TopRight)
    } else if l == "bottomleft"@ {
        Ok(Corner::BottomLeft)
    } else if l == "bottomright"@ {
        Ok(Corner::BottomRight)
    } else {
        Err(ParseErrorView::UnknownCorner(s))
    }
}

/// Parses a corner keyword, ignoring case.
pub fn parse_corner(s: &str) -> (r: Result<Corner, ParseError>)
    ensures
        res_view(r) == spec_parse_corner(s@),
{
    let l = lower_chars(&str_chars(s));
    if chars_eq_lit(&l, "topleft") {
        Ok(Corner::TopLeft)
    } else if chars_eq_lit(&l, "topright") {
        Ok(Corner::TopRight)
    } else if chars_eq_lit(&l, "bottomleft") {
        Ok(Corner::BottomLeft)
    } else if chars_eq_lit(&l, "bottomright") {
        Ok(Corner::BottomRight)
    } else {
        Err(ParseError::UnknownCorner(s.to_owned()))
    }
}

/// The canonical keyword of `c`, as a string.
pub fn corner_canonical(c: Corner) -> (r: String)
    ensures
        r@ == spec_corner_canon(c),
{
    match c {
        Corner::TopLeft => String::from_str("topleft"),
        Corner::TopRight => String::from_str("topright"),
        Corner::BottomLeft => String::from_str("bottomleft"),
        Corner::BottomRight => String::from_str("bottomright"),
    }
}

/// Round trip: printing a corner and parsing it back restores it.
pub proof fn lemma_corner_round_trip(c: Corner)
    ensures
        spec_parse_corner(spec_corner_canon(c)) == Ok::<Corner, ParseErrorView>(c),
{
    reveal_strlit("topleft");
    reveal_strlit("topright");
    reveal_strlit("bottomleft");
    reveal_strlit("bottomright");
    match c {
        Corner::TopLeft => {
            assert(spec_lower("topleft"@) =~= "topleft"@);
        },
        Corner::TopRight => {
            assert(spec_lower("topright"@) =~= "topright"@);
        },
        Corner::BottomLeft => {
            assert(spec_lower("bottomleft"@) =~= "bottomleft"@);
        },
        Corner::BottomRight => {
            assert(spec_lower("bottomright"@) =~= "bottomright"@);
        },
    }
}

/// The keyword of a fullscreen mode, in canonical lower case.
pub open spec fn spec_fullscreen_canon(f: FullscreenType) -> Seq<char> {
    match f {
        FullscreenType::Real => "real"@,
        FullscreenType::Maximize => "maximize"@,
        FullscreenType::NoParam => "noparam"@,
    }
}

/// Case-insensitive fullscreen-mode lookup.
pub open spec fn spec_parse_fullscreen(s: Seq<char>) -> Result<FullscreenType, ParseErrorView> {
    let l = spec_lower(s);
    if l == "real"@ {
        Ok(FullscreenType::Real)
    } else if l == "maximize"@ {
        Ok(FullscreenType::Maximize)
    } else if l == "noparam"@ {
        Ok(FullscreenType::NoParam)
    } else {
        Err(ParseErrorView::UnknownFullscreenType(s))
    }
}

/// Parses a fullscreen-mode keyword, ignoring case.
pub fn parse_fullscreen_type(s: &str) -> (r: Result<FullscreenType, ParseError>)
    ensures
        res_view(r) == spec_parse_fullscreen(s@),
{
    let l = lower_chars(&str_chars(s));
    if chars_eq_lit(&l, "real") {
        Ok(FullscreenType::Real)
    } else if chars_eq_lit(&l, "maximize") {
        Ok(FullscreenType::Maximize)
    } else if chars_eq_lit(&l, "noparam") {
        Ok(FullscreenType::NoParam)
    } else {
        Err(ParseError::UnknownFullscreenType(s.to_owned()))
    }
}

/// The canonical keyword of `f`, as a string.
pub fn fullscreen_canonical(f: FullscreenType) -> (r: String)
    ensures
        r@ == spec_fullscreen_canon(f),
{
    match f {
        FullscreenType::Real => String::from_str("real"),
        FullscreenType::Maximize => String::from_str("maximize"),
        FullscreenType::NoParam => String::from_str("noparam"),
    }
}

/// Round trip: printing a fullscreen mode and parsing it back restores it.
pub proof fn lemma_fullscreen_round_trip(f: FullscreenType)
    ensures
        spec_parse_fullscreen(spec_fullscreen_canon(f)) == Ok::<
            FullscreenType,
            ParseErrorView,
        >(f),
{
    reveal_strlit("real");
    reveal_strlit("maximize");
    reveal_strlit("noparam");
    match f {
        FullscreenType::Real => {
            assert(spec_lower("real"@) =~= "real"@);
        },
        FullscreenType::Maximize => {
            assert(spec_lower("maximize"@) =~= "maximize"@);
        },
        FullscreenType::NoParam => {
            assert(spec_lower("noparam"@) =~= "noparam"@);
        },
    }
}

/// The keyword of a cycle direction, in canonical lower case.
pub open spec fn spec_cycle_canon(c: CycleDirection) -> Seq<char> {
    match c {
        CycleDirection::Next => "next"@,
        CycleDirection::Previous => "previous"@,
    }
}

/// Case-insensitive cycle-direction lookup.
pub open spec fn spec_parse_cycle(s: Seq<char>) -> Result<CycleDirection, ParseErrorView> {
    let l = spec_lower(s);
    if l == "next"@ {
        Ok(CycleDirection::Next)
    } else if l == "previous"@ {
        Ok(CycleDirection::Previous)
    } else {
        Err(ParseErrorView::UnknownCycleDirection(s))
    }
}

/// Parses a cycle-direction keyword, ignoring case.
pub fn parse_cycle_direction(s: &str) -> (r: Result<CycleDirection, ParseError>)
    ensures
        res_view(r) == spec_parse_cycle(s@),
{
    let l = lower_chars(&str_chars(s));
    if chars_eq_lit(&l, "next") {
        Ok(CycleDirection::Next)
    } else if chars_eq_lit(&l, "previous") {
        Ok(CycleDirection::Previous)
    } else {
        Err(ParseError::UnknownCycleDirection(s.to_owned()))
    }
}

/// The canonical keyword of `c`, as a string.
pub fn cycle_canonical(c: CycleDirection) -> (r: String)
    ensures
        r@ == spec_cycle_canon(c),
{
    match c {
        CycleDirection::Next => String::from_str("next"),
        CycleDirection::Previous => String::from_str("previous"),
    }
}

/// Round trip: printing a cycle direction and parsing it back restores it.
pub proof fn lemma_cycle_round_trip(c: CycleDirection)
    ensures
        spec_parse_cycle(spec_cycle_canon(c)) == Ok::<CycleDirection, ParseErrorView>(c),
{
    reveal_strlit("next");
    reveal_strlit("previous");
    match c {
        CycleDirection::Next => {
            assert(spec_lower("next"@) =~= "next"@);
        },
        CycleDirection::Previous => {
            assert(spec_lower("previous"@) =~= "previous"@);
        },
    }
}

// --- Window matchers ---

/// A predicate over a window, parsed from a prefixed identifier string.
///
/// An unprefixed string is taken as a class pattern, for backward
/// compatibility with identifiers written before the prefixes existed.
#[derive(Debug, PartialEq, Eq)]
pub enum WindowMatcher {
    /// Matches windows whose class contains this pattern.
    ClassPattern(String),
    /// Matches windows whose title contains this pattern.
    TitlePattern(String),
    /// Matches a window by process id (not available in event payloads).
    ProcessId(u32),
    /// Matches a window by its opaque address (not available in event payloads).
    Address(String),
}

/// The mathematical shape of a [`WindowMatcher`].
pub enum WindowMatcherView {
    ClassPattern(Seq<char>),
    TitlePattern(Seq<char>),
    ProcessId(u32),
    Address(Seq<char>),
}

impl View for WindowMatcher {
    type V = WindowMatcherView;

    open spec fn view(&self) -> WindowMatcherView {
        match self {
            WindowMatcher::ClassPattern(p) => WindowMatcherView::ClassPattern(p@),
            WindowMatcher::TitlePattern(p) => WindowMatcherView::TitlePattern(p@),
            WindowMatcher::ProcessId(pid) => WindowMatcherView::ProcessId(*pid),
            WindowMatcher::Address(a) => WindowMatcherView::Address(a@),
        }
    }
}

impl Clone for WindowMatcher {
    fn clone(&self) -> (r: Self)
        ensures
            r@ == self@,
    {
        match self {
            WindowMatcher::ClassPattern(p) => WindowMatcher::ClassPattern(p.clone()),
            WindowMatcher::TitlePattern(p) => WindowMatcher::TitlePattern(p.clone()),
            WindowMatcher::ProcessId(pid) => WindowMatcher::ProcessId(*pid),
            WindowMatcher::Address(a) => WindowMatcher::Address(a.clone()),
        }
    }
}

/// How an identifier string is read: `class:`, `title:`, `pid:` and
/// `address:` prefixes, in that order; anything else is a class pattern.
pub open spec fn spec_parse_window_matcher(s: Seq<char>) -> Result<
    WindowMatcherView,
    ParseErrorView,
> {
    if spec_has_prefix(s, "class:"@) {
        Ok(WindowMatcherView::ClassPattern(s.skip("class:"@.len() as int)))
    } else if spec_has_prefix(s, "title:"@) {
        Ok(WindowMatcherView::TitlePattern(s.skip("title:"@.len() as int)))
    } else if spec_has_prefix(s, "pid:"@) {
        match spec_parse_u32(s.skip("pid:"@.len() as int)) {
            Some(pid) => Ok(WindowMatcherView::ProcessId(pid)),
            None => Err(ParseErrorView::InvalidPid),
        }
    } else if spec_has_prefix(s, "address:"@) {
        Ok(WindowMatcherView::Address(s.skip("address:"@.len() as int)))
    } else {
        Ok(WindowMatcherView::ClassPattern(s))
    }
}

/// Parses a window identifier string into a matcher.
pub fn parse_window_matcher(s: &str) -> (r: Result<WindowMatcher, ParseError>)
    ensures
        res_view(r) == spec_parse_window_matcher(s@),
{
    let cs = str_chars(s);
    let n = s.unicode_len();
    if has_prefix(&cs, "class:") {
        proof {
            reveal_strlit("class:");
        }
        let pat = s.substring_char(6, n).to_owned();
        proof {
            assert(pat@ =~= s@.skip(6));
        }
        Ok(WindowMatcher::ClassPattern(pat))
    } else if has_prefix(&cs, "title:") {
        proof {
            reveal_strlit("title:");
        }
        let pat = s.substring_char(6, n).to_owned();
        proof {
            assert(pat@ =~= s@.skip(6));
        }
        Ok(WindowMatcher::TitlePattern(pat))
    } else if has_prefix(&cs, "pid:") {
        proof {
            reveal_strlit("pid:");
        }
        let tail = skip_chars(&cs, 4);
        match parse_u32_chars(&tail) {
            Some(pid) => Ok(WindowMatcher::ProcessId(pid)),
            None => Err(ParseError::InvalidPid),
        }
    } else if has_prefix(&cs, "address:") {
        proof {
            reveal_strlit("address:");
        }
        let addr = s.substring_char(8, n).to_owned();
        proof {
            assert(addr@ =~= s@.skip(8));
        }
        Ok(WindowMatcher::Address(addr))
    } else {
        Ok(WindowMatcher::ClassPattern(s.to_owned()))
    }
}

/// The canonical identifier string of a matcher: its prefix, then its value.
pub open spec fn spec_matcher_canon(m: WindowMatcherView) -> Seq<char> {
    match m {
        WindowMatcherView::ClassPattern(p) => "class:"@ + p,
        WindowMatcherView::TitlePattern(p) => "title:"@ + p,
        WindowMatcherView::ProcessId(pid) => "pid:"@ + spec_nat_dec(pid as int),
        WindowMatcherView::Address(a) => "address:"@ + a,
    }
}

impl WindowMatcher {
    /// Prints the identifier string that parses back to this matcher.
    pub fn to_canonical_string(&self) -> (r: String)
        ensures
            r@ == spec_matcher_canon(self@),
    {
        match self {
            WindowMatcher::ClassPattern(p) => {
                let mut m = String::from_str("class:");
                m.append(p.as_str());
                m
            },
            WindowMatcher::TitlePattern(p) => {
                let mut m = String::from_str("title:");
                m.append(p.as_str());
                m
            },
            WindowMatcher::ProcessId(pid) => {
                let mut m = String::from_str("pid:");
                let digits = chars_to_string(&nat_dec_chars_u64(*pid as u64));
                m.append(digits.as_str());
                m
            },
            WindowMatcher::Address(a) => {
                let mut m = String::from_str("address:");
                m.append(a.as_str());
                m
            },
        }
    }
}

/// Round trip: the canonical string of any matcher parses back to it.
pub proof fn lemma_matcher_round_trip(m: WindowMatcherView)
    ensures
        spec_parse_window_matcher(spec_matcher_canon(m)) == Ok::<
            WindowMatcherView,
            ParseErrorView,
        >(m),
{
    reveal_strlit("class:");
    reveal_strlit("title:");
    reveal_strlit("pid:");
    reveal_strlit("address:");
    assert("class:"@.len() == 6 && "title:"@.len() == 6 && "pid:"@.len() == 4 && "address:"@.len()
        == 8);
    let s = spec_matcher_canon(m);
    match m {
        WindowMatcherView::ClassPattern(p) => {
            assert(s.take(6) =~= "class:"@);
            assert(s.skip(6) =~= p);
        },
        WindowMatcherView::TitlePattern(p) => {
            assert(s.take(6) =~= "title:"@);
            assert("title:"@[0] == 't' && "class:"@[0] == 'c');
            assert(!spec_has_prefix(s, "class:"@));
            assert(s.skip(6) =~= p);
        },
        WindowMatcherView::ProcessId(pid) => {
            lemma_nat_dec_digits(pid as int);
            lemma_parse_nat_dec(pid as int);
            let d = spec_nat_dec(pid as int);
            assert(s[0] == 'p');
            assert(!spec_has_prefix(s, "class:"@)) by {
                if spec_has_prefix(s, "class:"@) {
                    assert(s.take(6)[0] == s[0]);
                }
            }
            assert(!spec_has_prefix(s, "title:"@)) by {
                if spec_has_prefix(s, "title:"@) {
                    assert(s.take(6)[0] == s[0]);
                }
            }
            assert(s.take(4) =~= "pid:"@);
            assert(s.skip(4) =~= d);
            assert(spec_parse_u32(d) == Some(pid));
        },
        WindowMatcherView::Address(a) => {
            assert(s[0] == 'a');
            assert(!spec_has_prefix(s, "class:"@)) by {
                if spec_has_prefix(s, "class:"@) {
                    assert(s.take(6)[0] == s[0]);
                }
            }
            assert(!spec_has_prefix(s, "title:"@)) by {
                if spec_has_prefix(s, "title:"@) {
                    assert(s.take(6)[0] == s[0]);
                }
            }
            assert(!spec_has_prefix(s, "pid:"@)) by {
                if spec_has_prefix(s, "pid:"@) {
                    assert(s.take(4)[0] == s[0]);
                }
            }
            assert(s.take(8) =~= "address:"@);
            assert(s.skip(8) =~= a);
        },
    }
}

/// Whether a window with the given class and title satisfies `filter`.
///
/// No filter matches everything; class and title patterns are substring
/// containment tests; process-id and address filters never match, since
/// event payloads carry neither.
pub open spec fn spec_window_match(
    filter: Option<WindowMatcherView>,
    class: Seq<char>,
    title: Seq<char>,
) -> bool {
    match filter {
        None => true,
        Some(WindowMatcherView::ClassPattern(p)) => spec_contains(class, p),
        Some(WindowMatcherView::TitlePattern(p)) => spec_contains(title, p),
        Some(WindowMatcherView::ProcessId(_)) => false,
        Some(WindowMatcherView::Address(_)) => false,
    }
}

/// Evaluates a window filter against a window's class and title.
pub fn is_window_match(
    filter: Option<&WindowMatcher>,
    window_class: &str,
    window_title: &str,
) -> (b: bool)
    ensures
        b == spec_window_match(
            match filter {
                Some(m) => Some(m@),
                None => None,
            },
            window_class@,
            window_title@,
        ),
{
    match filter {
        None => true,
        Some(WindowMatcher::ClassPattern(p)) => contains_chars(
            &str_chars(window_class),
            &str_chars(p.as_str()),
        ),
        Some(WindowMatcher::TitlePattern(p)) => contains_chars(
            &str_chars(window_title),
            &str_chars(p.as_str()),
        ),
        Some(WindowMatcher::ProcessId(_)) => false,
        Some(WindowMatcher::Address(_)) => false,
    }
}

/// Absent filters match every window, whatever its class and title.
pub proof fn lemma_no_filter_always_matches(class: Seq<char>, title: Seq<char>)
    ensures
        spec_window_match(None, class, title),
{
}

// --- Workspace specifiers ---

/// Where a workspace command points.
///
/// An integer identifier parses as [`WorkspaceSpecifier::AbsoluteId`],
/// including `0`; no special meaning is attached to workspace `0`.
#[derive(Debug, PartialEq, Eq)]
pub enum WorkspaceSpecifier {
    /// A workspace with a fixed numeric id.
    AbsoluteId(i32),
    /// A workspace relative to the current one; `left:N` parses to `-N`.
    RelativeOffset(i32),
    /// The previously focused workspace.
    Previous,
    /// The first empty workspace.
    EmptySpecial,
    /// A workspace addressed by name.
    NamedWorkspace(String),
}

/// The mathematical shape of a [`WorkspaceSpecifier`].
pub enum WorkspaceSpecifierView {
    AbsoluteId(i32),
    RelativeOffset(i32),
    Previous,
    EmptySpecial,
    NamedWorkspace(Seq<char>),
}

impl View for WorkspaceSpecifier {
    type V = WorkspaceSpecifierView;

    open spec fn view(&self) -> WorkspaceSpecifierView {
        match self {
            WorkspaceSpecifier::AbsoluteId(id) => WorkspaceSpecifierView::AbsoluteId(*id),
            WorkspaceSpecifier::RelativeOffset(k) => WorkspaceSpecifierView::RelativeOffset(*k),
            WorkspaceSpecifier::Previous => WorkspaceSpecifierView::Previous,
            WorkspaceSpecifier::EmptySpecial => WorkspaceSpecifierView::EmptySpecial,
            WorkspaceSpecifier::NamedWorkspace(n) => WorkspaceSpecifierView::NamedWorkspace(n@),
        }
    }
}

impl Clone for WorkspaceSpecifier {
    fn clone(&self) -> (r: Self)
        ensures
            r@ == self@,
    {
        match self {
            WorkspaceSpecifier::AbsoluteId(id) => WorkspaceSpecifier::AbsoluteId(*id),
            WorkspaceSpecifier::RelativeOffset(k) => WorkspaceSpecifier::RelativeOffset(*k),
            WorkspaceSpecifier::Previous => WorkspaceSpecifier::Previous,
            WorkspaceSpecifier::EmptySpecial => WorkspaceSpecifier::EmptySpecial,
            WorkspaceSpecifier::NamedWorkspace(n) => WorkspaceSpecifier::NamedWorkspace(n.clone()),
        }
    }
}

/// How a workspace string is read: an integer first, then `right:`/`left:`
/// offsets, the keywords `previous` and `empty`, and `name:` last.
///
/// A `left:` offset of `i32::MIN` is rejected, since its negation does not
/// fit the offset type.
pub open spec fn spec_parse_workspace(s: Seq<char>) -> Result<
    WorkspaceSpecifierView,
    ParseErrorView,
> {
    if spec_parse_i32(s) is Some {
        Ok(WorkspaceSpecifierView::AbsoluteId(spec_parse_i32(s).unwrap()))
    } else if spec_has_prefix(s, "right:"@) {
        match spec_parse_i32(s.skip("right:"@.len() as int)) {
            Some(k) => Ok(WorkspaceSpecifierView::RelativeOffset(k)),
            None => Err(ParseErrorView::InvalidWorkspaceOffset(s.skip("right:"@.len() as int))),
        }
    } else if spec_has_prefix(s, "left:"@) {
        match spec_parse_i32(s.skip("left:"@.len() as int)) {
            Some(k) => if k == i32::MIN {
                Err(ParseErrorView::InvalidWorkspaceOffset(s.skip("left:"@.len() as int)))
            } else {
                Ok(WorkspaceSpecifierView::RelativeOffset((-k) as i32))
            },
            None => Err(ParseErrorView::InvalidWorkspaceOffset(s.skip("left:"@.len() as int))),
        }
    } else if s == "previous"@ {
        Ok(WorkspaceSpecifierView::Previous)
    } else if s == "empty"@ {
        Ok(WorkspaceSpecifierView::EmptySpecial)
    } else if spec_has_prefix(s, "name:"@) {
        Ok(WorkspaceSpecifierView::NamedWorkspace(s.skip("name:"@.len() as int)))
    } else {
        Err(ParseErrorView::UnknownWorkspaceIdentifier(s))
    }
}

/// Parses a workspace specifier string.
pub fn parse_workspace_specifier(s: &str) -> (r: Result<WorkspaceSpecifier, ParseError>)
    ensures
        res_view(r) == spec_parse_workspace(s@),
{
    let cs = str_chars(s);
    let n = s.unicode_len();
    if let Some(id) = parse_i32_chars(&cs) {
        return Ok(WorkspaceSpecifier::AbsoluteId(id));
    }
    if has_prefix(&cs, "right:") {
        proof {
            reveal_strlit("right:");
        }
        let tail = skip_chars(&cs, 6);
        return match parse_i32_chars(&tail) {
            Some(k) => Ok(WorkspaceSpecifier::RelativeOffset(k)),
            None => Err(ParseError::InvalidWorkspaceOffset(chars_to_string(&tail))),
        };
    }
    if has_prefix(&cs, "left:") {
        proof {
            reveal_strlit("left:");
        }
        let tail = skip_chars(&cs, 5);
        return match parse_i32_chars(&tail) {
            Some(k) => {
                if k == i32::MIN {
                    Err(ParseError::InvalidWorkspaceOffset(chars_to_string(&tail)))
                } else {
                    Ok(WorkspaceSpecifier::RelativeOffset(-k))
                }
            },
            None => Err(ParseError::InvalidWorkspaceOffset(chars_to_string(&tail))),
        };
    }
    if chars_eq_lit(&cs, "previous") {
        return Ok(WorkspaceSpecifier::Previous);
    }
    if chars_eq_lit(&cs, "empty") {
        return Ok(WorkspaceSpecifier::EmptySpecial);
    }
    if has_prefix(&cs, "name:") {
        proof {
            reveal_strlit("name:");
        }
        let name = s.substring_char(5, n).to_owned();
        proof {
            assert(name@ =~= s@.skip(5));
        }
        return Ok(WorkspaceSpecifier::NamedWorkspace(name));
    }
    Err(ParseError::UnknownWorkspaceIdentifier(s.to_owned()))
}

/// The canonical string of a workspace specifier.
///
/// Offsets always print with `right:`, carrying their sign, so that every
/// offset (including `i32::MIN`) parses back unchanged.
pub open spec fn spec_workspace_canon(w: WorkspaceSpecifierView) -> Seq<char> {
    match w {
        WorkspaceSpecifierView::AbsoluteId(id) => spec_int_dec(id as int),
        WorkspaceSpecifierView::RelativeOffset(k) => "right:"@ + spec_int_dec(k as int),
        WorkspaceSpecifierView::Previous => "previous"@,
        WorkspaceSpecifierView::EmptySpecial => "empty"@,
        WorkspaceSpecifierView::NamedWorkspace(nm) => "name:"@ + nm,
    }
}

impl WorkspaceSpecifier {
    /// Prints the specifier string that parses back to this specifier.
    pub fn to_canonical_string(&self) -> (r: String)
        ensures
            r@ == spec_workspace_canon(self@),
    {
        match self {
            WorkspaceSpecifier::AbsoluteId(id) => chars_to_string(&int_dec_chars_i64(*id as i64)),
            WorkspaceSpecifier::RelativeOffset(k) => {
                let mut m = String::from_str("right:");
                let digits = chars_to_string(&int_dec_chars_i64(*k as i64));
                m.append(digits.as_str());
                m
            },
            WorkspaceSpecifier::Previous => String::from_str("previous"),
            WorkspaceSpecifier::EmptySpecial => String::from_str("empty"),
            WorkspaceSpecifier::NamedWorkspace(nm) => {
                let mut m = String::from_str("name:");
                m.append(nm.as_str());
                m
            },
        }
    }
}

/// Round trip: the canonical string of any workspace specifier parses back
/// to it.
pub proof fn lemma_workspace_round_trip(w: WorkspaceSpecifierView)
    ensures
        spec_parse_workspace(spec_workspace_canon(w)) == Ok::<
            WorkspaceSpecifierView,
            ParseErrorView,
        >(w),
{
    reveal_strlit("right:");
    reveal_strlit("left:");
    reveal_strlit("previous");
    reveal_strlit("empty");
    reveal_strlit("name:");
    assert("right:"@.len() == 6 && "left:"@.len() == 5 && "previous"@.len() == 8 && "empty"@.len()
        == 5 && "name:"@.len() == 5);
    let s = spec_workspace_canon(w);
    match w {
        WorkspaceSpecifierView::AbsoluteId(id) => {
            lemma_parse_int_dec(id as int);
        },
        WorkspaceSpecifierView::RelativeOffset(k) => {
            lemma_int_dec_head(k as int);
            lemma_parse_int_dec(k as int);
            assert(s[0] == 'r');
            lemma_keyword_not_numeric(s);
            assert(s.take(6) =~= "right:"@);
            assert(s.skip(6) =~= spec_int_dec(k as int));
        },
        WorkspaceSpecifierView::Previous => {
            assert(s[0] == 'p');
            lemma_keyword_not_numeric(s);
            assert(!spec_has_prefix(s, "right:"@)) by {
                if spec_has_prefix(s, "right:"@) {
                    assert(s.take(6)[0] == s[0]);
                }
            }
            assert(!spec_has_prefix(s, "left:"@)) by {
                if spec_has_prefix(s, "left:"@) {
                    assert(s.take(5)[0] == s[0]);
                }
            }
        },
        WorkspaceSpecifierView::EmptySpecial => {
            assert(s[0] == 'e');
            lemma_keyword_not_numeric(s);
            assert(!spec_has_prefix(s, "right:"@)) by {
                if spec_has_prefix(s, "right:"@) {
                    assert(s.take(6)[0] == s[0]);
                }
            }
            assert(!spec_has_prefix(s, "left:"@)) by {
                if spec_has_prefix(s, "left:"@) {
                    assert(s.take(5)[0] == s[0]);
                }
            }
            assert(s != "previous"@);
        },
        WorkspaceSpecifierView::NamedWorkspace(nm) => {
            assert(s[0] == 'n');
            lemma_keyword_not_numeric(s);
            assert(!spec_has_prefix(s, "right:"@)) by {
                if spec_has_prefix(s, "right:"@) {
                    assert(s.take(6)[0] == s[0]);
                }
            }
            assert(!spec_has_prefix(s, "left:"@)) by {
                if spec_has_prefix(s, "left:"@) {
                    assert(s.take(5)[0] == s[0]);
                }
            }
            assert(s != "previous"@) by {
                assert("previous"@[0] == 'p');
            }
            assert(s != "empty"@) by {
                assert("empty"@[0] == 'e');
            }
            assert(s.take(5) =~= "name:"@);
            assert(s.skip(5) =~= nm);
        },
    }
}

// --- Window-move targets ---

/// Where a window-move command sends the active window.
///
/// Relative monitor targets cannot be written in the string grammar: a plain
/// number always reads as a monitor id, so only names, ids, `current` and
/// directions exist here.
#[derive(Debug, PartialEq, Eq)]
pub enum WindowTarget {
    /// A monitor addressed by name, written `mon:NAME`.
    MonitorName(String),
    /// A monitor addressed by numeric id.
    MonitorId(i64),
    /// The monitor the active window is on, written `current`.
    MonitorCurrent,
    /// A movement within the workspace, written `dir:DIRECTION`.
    Direction(Direction),
}

/// The mathematical shape of a [`WindowTarget`].
pub enum WindowTargetView {
    MonitorName(Seq<char>),
    MonitorId(i64),
    MonitorCurrent,
    Direction(Direction),
}

impl View for WindowTarget {
    type V = WindowTargetView;

    open spec fn view(&self) -> WindowTargetView {
        match self {
            WindowTarget::MonitorName(nm) => WindowTargetView::MonitorName(nm@),
            WindowTarget::MonitorId(id) => WindowTargetView::MonitorId(*id),
            WindowTarget::MonitorCurrent => WindowTargetView::MonitorCurrent,
            WindowTarget::Direction(d) => WindowTargetView::Direction(*d),
        }
    }
}

impl Clone for WindowTarget {
    fn clone(&self) -> (r: Self)
        ensures
            r@ == self@,
    {
        match self {
            WindowTarget::MonitorName(nm) => WindowTarget::MonitorName(nm.clone()),
            WindowTarget::MonitorId(id) => WindowTarget::MonitorId(*id),
            WindowTarget::MonitorCurrent => WindowTarget::MonitorCurrent,
            WindowTarget::Direction(d) => WindowTarget::Direction(*d),
        }
    }
}

/// How a window-move target is read: `mon:` first, then a numeric monitor
/// id, the keyword `current` (any case), and `dir:` (any case) last.
pub open spec fn spec_parse_window_target(s: Seq<char>) -> Result<
    WindowTargetView,
    ParseErrorView,
> {
    if spec_has_prefix(s, "mon:"@) {
        Ok(WindowTargetView::MonitorName(s.skip("mon:"@.len() as int)))
    } else if spec_parse_i64(s) is Some {
        Ok(WindowTargetView::MonitorId(spec_parse_i64(s).unwrap()))
    } else if spec_lower(s) == "current"@ {
        Ok(WindowTargetView::MonitorCurrent)
    } else if spec_has_prefix(spec_lower(s), "dir:"@) {
        match spec_parse_direction(spec_lower(s).skip("dir:"@.len() as int)) {
            Ok(d) => Ok(WindowTargetView::Direction(d)),
            Err(e) => Err(e),
        }
    } else {
        Err(ParseErrorView::UnknownWindowTarget(s))
    }
}

/// Parses a window-move target string.
pub fn parse_window_target(s: &str) -> (r: Result<WindowTarget, ParseError>)
    ensures
        res_view(r) == spec_parse_window_target(s@),
{
    let cs = str_chars(s);
    let n = s.unicode_len();
    if has_prefix(&cs, "mon:") {
        proof {
            reveal_strlit("mon:");
        }
        let name = s.substring_char(4, n).to_owned();
        proof {
            assert(name@ =~= s@.skip(4));
        }
        return Ok(WindowTarget::MonitorName(name));
    }
    if let Some(id) = parse_i64_chars(&cs) {
        return Ok(WindowTarget::MonitorId(id));
    }
    let l = lower_chars(&cs);
    if chars_eq_lit(&l, "current") {
        return Ok(WindowTarget::MonitorCurrent);
    }
    if has_prefix(&l, "dir:") {
        proof {
            reveal_strlit("dir:");
        }
        let tail = chars_to_string(&skip_chars(&l, 4));
        return match parse_direction(tail.as_str()) {
            Ok(d) => Ok(WindowTarget::Direction(d)),
            Err(e) => Err(e),
        };
    }
    Err(ParseError::UnknownWindowTarget(s.to_owned()))
}

/// The canonical string of a window-move target.
pub open spec fn spec_window_target_canon(t: WindowTargetView) -> Seq<char> {
    match t {
        WindowTargetView::MonitorName(nm) => "mon:"@ + nm,
        WindowTargetView::MonitorId(id) => spec_int_dec(id as int),
        WindowTargetView::MonitorCurrent => "current"@,
        WindowTargetView::Direction(d) => "dir:"@ + spec_direction_canon(d),
    }
}

impl WindowTarget {
    /// Prints the target string that parses back to this target.
    pub fn to_canonical_string(&self) -> (r: String)
        ensures
            r@ == spec_window_target_canon(self@),
    {
        match self {
            WindowTarget::MonitorName(nm) => {
                let mut m = String::from_str("mon:");
                m.append(nm.as_str());
                m
            },
            WindowTarget::MonitorId(id) => chars_to_string(&int_dec_chars_i64(*id)),
            WindowTarget::MonitorCurrent => String::from_str("current"),
            WindowTarget::Direction(d) => {
                let mut m = String::from_str("dir:");
                let dir = direction_canonical(*d);
                m.append(dir.as_str());
                m
            },
        }
    }
}

/// Lower-casing distributes over concatenation.
proof fn lemma_lower_concat(a: Seq<char>, b: Seq<char>)
    ensures
        spec_lower(a + b) == spec_lower(a) + spec_lower(b),
{
    assert(spec_lower(a + b) =~= spec_lower(a) + spec_lower(b));
}

/// Round trip: the canonical string of any window-move target parses back
/// to it.
pub proof fn lemma_window_target_round_trip(t: WindowTargetView)
    ensures
        spec_parse_window_target(spec_window_target_canon(t)) == Ok::<
            WindowTargetView,
            ParseErrorView,
        >(t),
{
    reveal_strlit("mon:");
    reveal_strlit("current");
    reveal_strlit("dir:");
    assert("mon:"@.len() == 4 && "current"@.len() == 7 && "dir:"@.len() == 4);
    let s = spec_window_target_canon(t);
    match t {
        WindowTargetView::MonitorName(nm) => {
            assert(s.take(4) =~= "mon:"@);
            assert(s.skip(4) =~= nm);
        },
        WindowTargetView::MonitorId(id) => {
            lemma_int_dec_head(id as int);
            lemma_parse_int_dec(id as int);
            assert(!spec_has_prefix(s, "mon:"@)) by {
                if spec_has_prefix(s, "mon:"@) {
                    assert(s.take(4)[0] == s[0]);
                    assert(s[0] == 'm');
                }
            }
        },
        WindowTargetView::MonitorCurrent => {
            assert(s[0] == 'c');
            assert(!spec_has_prefix(s, "mon:"@)) by {
                if spec_has_prefix(s, "mon:"@) {
                    assert(s.take(4)[0] == s[0]);
                }
            }
            lemma_keyword_not_numeric(s);
            assert(spec_lower("current"@) =~= "current"@);
        },
        WindowTargetView::Direction(d) => {
            let c = spec_direction_canon(d);
            reveal_strlit("up");
            reveal_strlit("down");
            reveal_strlit("left");
            reveal_strlit("right");
            assert(s[0] == 'd');
            assert(!spec_has_prefix(s, "mon:"@)) by {
                if spec_has_prefix(s, "mon:"@) {
                    assert(s.take(4)[0] == s[0]);
                }
            }
            lemma_keyword_not_numeric(s);
            lemma_lower_concat("dir:"@, c);
            lemma_direction_canon_lower(d);
            assert(spec_lower("dir:"@) =~= "dir:"@);
            assert(spec_lower(s) == "dir:"@ + c);
            assert(spec_lower(s) != "current"@) by {
                match d {
                    Direction::Up => {
                        assert(("dir:"@ + c).len() == 6);
                    },
                    Direction::Down => {
                        assert(("dir:"@ + c).len() == 8);
                    },
                    Direction::Left => {
                        assert(("dir:"@ + c).len() == 8);
                    },
                    Direction::Right => {
                        assert(("dir:"@ + c).len() == 9);
                    },
                }
            }
            assert(spec_lower(s).take(4) =~= "dir:"@);
            assert(spec_lower(s).skip(4) =~= c);
            lemma_direction_round_trip(d);
        },
    }
}

/// A sequence whose head is a letter other than a sign or digit is not a
/// numeral.
proof fn lemma_keyword_not_numeric(s: Seq<char>)
    requires
        s.len() > 0,
        !crate::numbers::is_digit(s[0]),
        s[0] != '-',
        s[0] != '+',
    ensures
        crate::numbers::spec_parse_int(s) == None::<int>,
        spec_parse_i32(s) == None::<i32>,
        spec_parse_i64(s) == None::<i64>,
{
    if crate::numbers::spec_parse_int(s) is Some {
        assert(crate::numbers::all_digits(s));
        assert(crate::numbers::is_digit(s[0]));
    }
}

} // verus!
