//! Reactions: event-to-command bindings with trigger limits.
//!
//! A [`Reaction`] binds an event type to an ordered chain of validated
//! commands, optionally scoped by a window filter and capped by a trigger
//! limit.  [`Reaction::try_trigger`] decides whether the chain runs; it
//! never touches the dispatch transport itself, so a reaction with an empty
//! chain provably causes no dispatch.

use vstd::prelude::*;

use crate::dispatch::{DispatchType, DispatchTypeView, spec_build_dispatch};
use crate::errors::ParseError;
use crate::events::EventType;
use crate::parsers::{WindowMatcher, WindowMatcherView};
use crate::res_view;

verus! {

/// A dispatcher as configuration files carry it: a name and raw arguments.
#[derive(Debug)]
pub struct Dispatcher {
    pub name: String,
    pub args: Vec<String>,
}

/// The mathematical shape of a [`Dispatcher`].
pub struct DispatcherView {
    pub name: Seq<char>,
    pub args: Seq<Seq<char>>,
}

impl View for Dispatcher {
    type V = DispatcherView;

    open spec fn view(&self) -> DispatcherView {
        DispatcherView { name: self.name@, args: self.args.deep_view() }
    }
}

impl Clone for Dispatcher {
    fn clone(&self) -> (r: Self)
        ensures
            r@ == self@,
    {
        let mut args: Vec<String> = Vec::new();
        let mut i: usize = 0;
        while i < self.args.len()
            invariant
                i <= self.args@.len(),
                args@.len() == i,
                forall|j: int| 0 <= j < i ==> args@[j]@ == self.args@[j]@,
            decreases self.args@.len() - i,
        {
            args.push(self.args[i].clone());
            i = i + 1;
        }
        proof {
            assert(args.deep_view() =~= self.args.deep_view());
        }
        Dispatcher { name: self.name.clone(), args }
    }
}

impl Dispatcher {
    /// Validates this dispatcher into a command.
    pub fn build(&self) -> (r: Result<DispatchType, ParseError>)
        ensures
            res_view(r) == spec_build_dispatch(self.name@, self.args.deep_view()),
    {
        crate::dispatch::build_dispatch_cmd(self.name.as_str(), &self.args)
    }
}

/// What one trigger attempt decided.
#[derive(Clone, Copy, PartialEq, Eq, Structural, Debug)]
pub enum TriggerResult {
    /// The chain should run now.
    Fired,
    /// The trigger limit was reached; nothing runs, now or ever again.
    SuppressedByLimit,
    /// The reaction has no dispatchers; there is nothing to run.
    NoDispatchers,
}

impl DeepView for DispatchType {
    type V = DispatchTypeView;

    open spec fn deep_view(&self) -> DispatchTypeView {
        self.view()
    }
}

/// A reaction: an event type bound to a chain of commands.
#[derive(Debug)]
pub struct Reaction {
    /// Which events this reaction listens for.
    pub event_type: EventType,
    /// The commands to run, in order, when the reaction fires.
    pub dispatch_chain: Vec<DispatchType>,
    /// Restricts window-scoped events to matching windows.
    pub window_filter: Option<WindowMatcher>,
    /// Fire at most this many times; `None` or zero means unlimited.
    pub max_trigger_count: Option<u64>,
    /// How many limited trigger attempts have been counted so far.
    pub trigger_counter: u64,
    /// Documentation only.
    pub name: Option<String>,
    /// Documentation only.
    pub description: Option<String>,
}

/// The mathematical shape of a [`Reaction`].
pub struct ReactionView {
    pub event_type: EventType,
    pub dispatch_chain: Seq<DispatchTypeView>,
    pub window_filter: Option<WindowMatcherView>,
    pub max_trigger_count: Option<u64>,
    pub trigger_counter: u64,
    pub name: Option<Seq<char>>,
    pub description: Option<Seq<char>>,
}

impl View for Reaction {
    type V = ReactionView;

    open spec fn view(&self) -> ReactionView {
        ReactionView {
            event_type: self.event_type,
            dispatch_chain: self.dispatch_chain.deep_view(),
            window_filter: match &self.window_filter {
                Some(m) => Some(m@),
                None => None,
            },
            max_trigger_count: self.max_trigger_count,
            trigger_counter: self.trigger_counter,
            name: match &self.name {
                Some(n) => Some(n@),
                None => None,
            },
            description: match &self.description {
                Some(d) => Some(d@),
                None => None,
            },
        }
    }
}

impl DeepView for Reaction {
    type V = ReactionView;

    open spec fn deep_view(&self) -> ReactionView {
        self.view()
    }
}

impl Clone for Reaction {
    fn clone(&self) -> (r: Self)
        ensures
            r@ == self@,
    {
        let mut chain: Vec<DispatchType> = Vec::new();
        let mut i: usize = 0;
        while i < self.dispatch_chain.len()
            invariant
                i <= self.dispatch_chain@.len(),
                chain@.len() == i,
                forall|j: int| 0 <= j < i ==> chain@[j]@ == self.dispatch_chain@[j]@,
            decreases self.dispatch_chain@.len() - i,
        {
            chain.push(self.dispatch_chain[i].clone());
            i = i + 1;
        }
        proof {
            assert(chain.deep_view() =~= self.dispatch_chain.deep_view());
        }
        Reaction {
            event_type: self.event_type,
            dispatch_chain: chain,
            window_filter: match &self.window_filter {
                Some(m) => Some(m.clone()),
                None => None,
            },
            max_trigger_count: self.max_trigger_count,
            trigger_counter: self.trigger_counter,
            name: match &self.name {
                Some(n) => Some(n.clone()),
                None => None,
            },
            description: match &self.description {
                Some(d) => Some(d.clone()),
                None => None,
            },
        }
    }
}

/// Does this limit setting limit anything?  `None` and zero do not.
pub open spec fn spec_limited(max: Option<u64>) -> bool {
    match max {
        Some(m) => m > 0,
        None => false,
    }
}

/// The counter after one trigger attempt: limited reactions count each
/// attempt, saturating at the counter's capacity; unlimited ones never
/// count.
pub open spec fn spec_next_counter(max: Option<u64>, c: u64) -> u64 {
    if spec_limited(max) {
        if c < u64::MAX {
            (c + 1) as u64
        } else {
            c
        }
    } else {
        c
    }
}

/// What one trigger attempt decides, given the limit, the attempts counted
/// so far, and the chain length.  The limit is checked first, so once
/// reached it suppresses even an empty chain.
pub open spec fn spec_trigger_result(max: Option<u64>, c: u64, chain_len: nat) -> TriggerResult {
    if spec_limited(max) && c >= max.unwrap() {
        TriggerResult::SuppressedByLimit
    } else if chain_len == 0 {
        TriggerResult::NoDispatchers
    } else {
        TriggerResult::Fired
    }
}

impl Reaction {
    /// A fresh reaction with its counter at zero.
    pub fn new(
        event_type: EventType,
        dispatch_chain: Vec<DispatchType>,
        window_filter: Option<WindowMatcher>,
        max_trigger_count: Option<u64>,
    ) -> (r: Reaction)
        ensures
            r@ == (ReactionView {
                event_type: event_type,
                dispatch_chain: dispatch_chain.deep_view(),
                window_filter: crate::opt_view(window_filter),
                max_trigger_count: max_trigger_count,
                trigger_counter: 0,
                name: None,
                description: None,
            }),
    {
        Reaction {
            event_type,
            dispatch_chain,
            window_filter,
            max_trigger_count,
            trigger_counter: 0,
            name: None,
            description: None,
        }
    }

    /// Decides one trigger attempt and counts it against the limit.
    ///
    /// Returns [`TriggerResult::Fired`] exactly when the limit has not been
    /// reached and the chain is non-empty; the caller then runs
    /// [`Reaction::dispatch_chain`] in order.  Nothing is run for the other
    /// two results.  The counter only grows, so a reaction suppressed once
    /// stays suppressed.
    pub fn try_trigger(&mut self) -> (r: TriggerResult)
        ensures
            r == spec_trigger_result(
                old(self).max_trigger_count,
                old(self).trigger_counter,
                old(self)@.dispatch_chain.len(),
            ),
            final(self)@ == (ReactionView {
                trigger_counter: spec_next_counter(
                    old(self).max_trigger_count,
                    old(self).trigger_counter,
                ),
                ..old(self)@
            }),
    {
        let mut suppressed = false;
        match self.max_trigger_count {
            Some(m) => {
                if m > 0 {
                    let c = self.trigger_counter;
                    if c < u64::MAX {
                        self.trigger_counter = c + 1;
                    }
                    if c >= m {
                        suppressed = true;
                    }
                }
            },
            None => {},
        }
        if suppressed {
            TriggerResult::SuppressedByLimit
        } else if self.dispatch_chain.len() == 0 {
            TriggerResult::NoDispatchers
        } else {
            TriggerResult::Fired
        }
    }
}

/// The counter after `k` trigger attempts, starting from zero.
pub open spec fn spec_counter_after(max: Option<u64>, k: nat) -> u64
    decreases k,
{
    if k == 0 {
        0
    } else {
        spec_next_counter(max, spec_counter_after(max, (k - 1) as nat))
    }
}

/// A reaction limited to `max` triggers with a non-empty chain fires on each
/// of its first `max` attempts and is suppressed on every attempt after
/// them: attempt `k` (counted from zero) fires exactly when `k < max`.
pub proof fn lemma_trigger_limit(max: u64, chain_len: nat, k: nat)
    requires
        max >= 1,
        chain_len >= 1,
        k <= u64::MAX,
    ensures
        spec_counter_after(Some(max), k) == k,
        spec_trigger_result(Some(max), spec_counter_after(Some(max), k), chain_len) == (if k < max {
            TriggerResult::Fired
        } else {
            TriggerResult::SuppressedByLimit
        }),
    decreases k,
{
    if k > 0 {
        lemma_trigger_limit(max, chain_len, (k - 1) as nat);
    }
}

/// A reaction with no limit (or a zero limit) and a non-empty chain fires on
/// every attempt, whatever its counter holds.
pub proof fn lemma_unlimited_always_fires(c: u64, chain_len: nat)
    requires
        chain_len >= 1,
    ensures
        spec_trigger_result(None, c, chain_len) == TriggerResult::Fired,
        spec_trigger_result(Some(0), c, chain_len) == TriggerResult::Fired,
        spec_next_counter(None, c) == c,
{
}

/// A reaction with an empty chain and no limit reports `NoDispatchers` on
/// every attempt; with a limit it reports `NoDispatchers` until the limit is
/// reached.  Neither outcome runs anything.
pub proof fn lemma_empty_chain(max: Option<u64>, c: u64)
    ensures
        !spec_limited(max) ==> spec_trigger_result(max, c, 0) == TriggerResult::NoDispatchers,
        spec_limited(max) && c < max.unwrap() ==> spec_trigger_result(max, c, 0)
            == TriggerResult::NoDispatchers,
        spec_trigger_result(max, c, 0) != TriggerResult::Fired,
{
}

} // verus!
