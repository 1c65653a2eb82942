//! The reaction manager: routes delivered events to registered reactions.
//!
//! Reactions are kept in registration order.  For each delivered event the
//! manager walks them in that order; a reaction whose event type matches and
//! whose window filter accepts the payload gets one trigger attempt, and the
//! chains of the reactions that fired are returned concatenated, still in
//! registration order.  The caller hands each returned command to the
//! dispatch transport.

use vstd::prelude::*;

use crate::dispatch::{DispatchType, DispatchTypeView};
use crate::events::{Event, EventType, EventView, WindowEventType};
use crate::parsers::{is_window_match, spec_window_match};
use crate::reaction::{
    Reaction, ReactionView, TriggerResult, spec_next_counter, spec_trigger_result,
};

verus! {

/// Do events of this type consult window filters?  Only the window events
/// that carry a class and title do; every other event ignores filters.
pub open spec fn spec_filter_applies(t: EventType) -> bool {
    t == EventType::Window(WindowEventType::Opened) || t == EventType::Window(
        WindowEventType::Active,
    )
}

/// Whether a reaction is triggered by an event: the event types must be
/// equal, and for filter-consulting events the payload must satisfy the
/// filter.  A filtered reaction does not match a focus change to no window;
/// an unfiltered one does.
pub open spec fn spec_event_matches(r: ReactionView, ev: EventView) -> bool {
    &&& r.event_type == ev.event_type
    &&& (spec_filter_applies(ev.event_type) ==> match ev.window {
        Some(w) => spec_window_match(r.window_filter, w.class, w.title),
        None => r.window_filter is None,
    })
}

/// One reaction's part in routing an event: the reaction afterwards, and
/// the commands it contributes.
pub open spec fn spec_step(r: ReactionView, ev: EventView) -> (ReactionView, Seq<
    DispatchTypeView,
>) {
    if spec_event_matches(r, ev) {
        let res = spec_trigger_result(r.max_trigger_count, r.trigger_counter, r.dispatch_chain.len());
        let after = ReactionView {
            trigger_counter: spec_next_counter(r.max_trigger_count, r.trigger_counter),
            ..r
        };
        (after, if res == TriggerResult::Fired {
            r.dispatch_chain
        } else {
            Seq::empty()
        })
    } else {
        (r, Seq::empty())
    }
}

/// Routing an event through a list of reactions, in order: the reactions
/// afterwards, and every fired chain concatenated in registration order.
pub open spec fn spec_route(rs: Seq<ReactionView>, ev: EventView) -> (Seq<ReactionView>, Seq<
    DispatchTypeView,
>)
    decreases rs.len(),
{
    if rs.len() == 0 {
        (Seq::empty(), Seq::empty())
    } else {
        let prev = spec_route(rs.drop_last(), ev);
        let step = spec_step(rs.last(), ev);
        (prev.0.push(step.0), prev.1 + step.1)
    }
}

/// Routing touches only matching reactions: the reaction list keeps its
/// length and order, and every reaction that does not match the event comes
/// out of the routing exactly as it went in, its counter included.
pub proof fn lemma_route_preserves_unmatched(rs: Seq<ReactionView>, ev: EventView)
    ensures
        spec_route(rs, ev).0.len() == rs.len(),
        forall|i: int|
            0 <= i < rs.len() && !spec_event_matches(rs[i], ev) ==> spec_route(rs, ev).0[i]
                == rs[i],
    decreases rs.len(),
{
    if rs.len() > 0 {
        lemma_route_preserves_unmatched(rs.drop_last(), ev);
        let prev = spec_route(rs.drop_last(), ev);
        assert forall|i: int|
            0 <= i < rs.len() && !spec_event_matches(rs[i], ev) implies spec_route(rs, ev).0[i]
            == rs[i] by {
            if i < rs.len() - 1 {
                assert(spec_route(rs, ev).0[i] == prev.0[i]);
                assert(rs.drop_last()[i] == rs[i]);
            }
        }
    }
}

/// Owns the registered reactions and decides, event by event, what runs.
pub struct ReactionManager {
    /// The reactions, in registration order.
    pub reactions: Vec<Reaction>,
}

impl View for ReactionManager {
    type V = Seq<ReactionView>;

    open spec fn view(&self) -> Seq<ReactionView> {
        self.reactions.deep_view()
    }
}

/// Appends a copy of every command of `chain` to `out`.
fn append_chain(out: &mut Vec<DispatchType>, chain: &Vec<DispatchType>)
    ensures
        final(out).deep_view() == old(out).deep_view() + chain.deep_view(),
{
    let mut i: usize = 0;
    while i < chain.len()
        invariant
            i <= chain@.len(),
            out@.len() == old(out)@.len() + i,
            forall|j: int| 0 <= j < old(out)@.len() ==> out@[j] == old(out)@[j],
            forall|j: int| 0 <= j < i ==> out@[old(out)@.len() + j]@ == chain@[j]@,
        decreases chain@.len() - i,
    {
        out.push(chain[i].clone());
        i = i + 1;
    }
    proof {
        assert(out.deep_view() =~= old(out).deep_view() + chain.deep_view());
    }
}

impl ReactionManager {
    /// A manager with no reactions.
    pub fn new() -> (r: ReactionManager)
        ensures
            r@ == Seq::<ReactionView>::empty(),
    {
        let r = ReactionManager { reactions: Vec::new() };
        proof {
            assert(r@ =~= Seq::<ReactionView>::empty());
        }
        r
    }

    /// How many reactions are registered.
    pub fn len(&self) -> (n: usize)
        ensures
            n == self@.len(),
    {
        self.reactions.len()
    }

    /// Registers a reaction after all earlier ones.
    pub fn add_reaction(&mut self, reaction: Reaction)
        ensures
            final(self)@ == old(self)@.push(reaction@),
    {
        self.reactions.push(reaction);
        proof {
            assert(self@ =~= old(self)@.push(reaction@));
        }
    }

    /// Routes one delivered event: gives every reaction whose type and
    /// filter match one trigger attempt, in registration order, and returns
    /// the fired chains concatenated in that order.  The caller runs each
    /// returned command through the dispatch transport; reactions that did
    /// not match keep their counters unchanged.
    pub fn handle_event(&mut self, event: &Event) -> (cmds: Vec<DispatchType>)
        ensures
            final(self)@ == spec_route(old(self)@, event@).0,
            cmds.deep_view() == spec_route(old(self)@, event@).1,
    {
        let ghost rs0 = self@;
        let ghost ev = event@;
        let mut cmds: Vec<DispatchType> = Vec::new();
        let mut i: usize = 0;
        let n = self.reactions.len();
        proof {
            assert(rs0.take(0) =~= Seq::<ReactionView>::empty());
        }
        while i < n
            invariant
                i <= n,
                n == self.reactions@.len(),
                self@.len() == rs0.len(),
                rs0 == old(self)@,
                ev == event@,
                self@.take(i as int) == spec_route(rs0.take(i as int), ev).0,
                forall|j: int| i <= j < n ==> self@[j] == rs0[j],
                cmds.deep_view() == spec_route(rs0.take(i as int), ev).1,
            decreases n - i,
        {
            let applies = match event.event_type {
                EventType::Window(WindowEventType::Opened) => true,
                EventType::Window(WindowEventType::Active) => true,
                _ => false,
            };
            let matches_event = self.reactions[i].event_type == event.event_type && (!applies
                || match &event.window {
                Some(w) => is_window_match(
                    self.reactions[i].window_filter.as_ref(),
                    w.class.as_str(),
                    w.title.as_str(),
                ),
                None => self.reactions[i].window_filter.is_none(),
            });
            proof {
                assert(matches_event == spec_event_matches(rs0[i as int], ev));
            }
            if matches_event {
                // The element is replaced wholesale: the counter update runs
                // on a copy, which then takes the original's slot.
                let mut r = self.reactions[i].clone();
                let res = r.try_trigger();
                if res == TriggerResult::Fired {
                    append_chain(&mut cmds, &self.reactions[i].dispatch_chain);
                }
                self.reactions.set(i, r);
            }
            i = i + 1;
            proof {
                assert(rs0.take(i as int).drop_last() =~= rs0.take(i - 1));
                assert(rs0.take(i as int).last() == rs0[i - 1]);
                assert(self@.take(i as int) =~= spec_route(rs0.take(i as int), ev).0);
                assert(cmds.deep_view() =~= spec_route(rs0.take(i as int), ev).1);
            }
        }
        proof {
            assert(rs0.take(n as int) =~= rs0);
            assert(self@.take(n as int) =~= self@);
        }
        cmds
    }
}

} // verus!
