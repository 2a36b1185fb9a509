//! The application controller: how each event-loop callback is answered.
//!
//! The controller owns the graphics context in an optional slot. The slot is
//! populated at construction and cleared exactly once, by the `exiting`
//! callback; no callback ever repopulates it. The `resumed` callback renders
//! the monitor report and always requests loop termination, so the program
//! never waits for further input; a wake-up user event also requests
//! termination.

use vstd::prelude::*;
use vstd::string::StringExecFns;
use crate::monitor::{MonitorInfo, report_spec};

verus! {

/// The signal a background timer posts into the event loop.
#[derive(Clone, Copy, Debug)]
pub enum UserEvent {
    WakeUp,
}

/// The line printed when a user event arrives.
pub open spec fn user_event_line(event: UserEvent) -> Seq<char> {
    match event {
        UserEvent::WakeUp => "User event: WakeUp\n"@,
    }
}

/// What a callback asks of its caller: text to print on standard output,
/// and whether the event loop should terminate.
pub struct Reaction {
    pub output: String,
    pub exit_requested: bool,
}

/// The kinds of event-loop callback the controller reacts to, in the order
/// they may arrive.
pub enum Callback {
    Resumed,
    User,
    Device,
    Window,
    Exiting,
}

/// Whether the context slot is populated after one callback, given whether
/// it was populated before: only `Exiting` clears it, and nothing
/// repopulates it.
pub open spec fn slot_after(populated: bool, c: Callback) -> bool {
    match c {
        Callback::Exiting => false,
        _ => populated,
    }
}

/// Whether the context slot is populated after a whole run of callbacks.
pub open spec fn slot_after_run(populated: bool, run: Seq<Callback>) -> bool
    decreases run.len(),
{
    if run.len() == 0 {
        populated
    } else {
        slot_after_run(slot_after(populated, run[0]), run.drop_first())
    }
}

/// The application controller. It holds the graphics context — whatever
/// type the surrounding program uses for it — in a slot that must stay
/// populated until the event loop is about to stop.
pub struct Controller<C> {
    context: Option<C>,
}

impl<C> Controller<C> {
    /// Whether the context slot is populated.
    pub closed spec fn populated(self) -> bool {
        self.context is Some
    }

    /// The context the slot holds.
    pub closed spec fn slot(self) -> Option<C> {
        self.context
    }

    /// A controller that owns the given graphics context.
    pub fn new(context: C) -> (r: Self)
        ensures
            r.populated(),
            r.slot() == Some(context),
    {
        Controller { context: Some(context) }
    }

    /// Whether the context slot is currently populated.
    pub fn is_populated(&self) -> (r: bool)
        ensures
            r == self.populated(),
    {
        self.context.is_some()
    }

    /// Answers the `resumed` callback: the monitor report is printed and
    /// loop termination is requested at once, whatever the platform
    /// reported. The slot is untouched.
    pub fn resumed(&mut self, primary: &Option<MonitorInfo>, monitors: &Vec<MonitorInfo>) -> (r:
        Reaction)
        ensures
            *final(self) == *old(self),
            final(self).populated() == slot_after(old(self).populated(), Callback::Resumed),
            r.exit_requested,
            r.output@ == report_spec(*primary, monitors@),
    {
        let output = crate::monitor::render_report(primary, monitors);
        Reaction { output, exit_requested: true }
    }

    /// Answers a user event: the event is reported and loop termination is
    /// requested. The slot is untouched.
    pub fn user_event(&mut self, event: UserEvent) -> (r: Reaction)
        ensures
            *final(self) == *old(self),
            final(self).populated() == slot_after(old(self).populated(), Callback::User),
            r.exit_requested,
            r.output@ == user_event_line(event),
    {
        let mut output = String::new();
        output.append("User event: WakeUp\n");
        Reaction { output, exit_requested: true }
    }

    /// Answers a device event: nothing is printed, nothing is requested,
    /// and the slot is untouched.
    pub fn device_event(&mut self) -> (r: Reaction)
        ensures
            *final(self) == *old(self),
            final(self).populated() == slot_after(old(self).populated(), Callback::Device),
            !r.exit_requested,
            r.output@ == Seq::<char>::empty(),
    {
        Reaction { output: String::new(), exit_requested: false }
    }

    /// Answers a window event: nothing is printed, nothing is requested,
    /// and the slot is untouched.
    pub fn window_event(&mut self) -> (r: Reaction)
        ensures
            *final(self) == *old(self),
            final(self).populated() == slot_after(old(self).populated(), Callback::Window),
            !r.exit_requested,
            r.output@ == Seq::<char>::empty(),
    {
        Reaction { output: String::new(), exit_requested: false }
    }

    /// Answers the `exiting` callback: the context slot is cleared, so the
    /// graphics context is dropped before the display handle dies with the
    /// event loop.
    pub fn exiting(&mut self)
        ensures
            !final(self).populated(),
            final(self).slot() is None,
            final(self).populated() == slot_after(old(self).populated(), Callback::Exiting),
    {
        self.context = None;
    }
}

/// The slot, populated at construction, stays populated through a run of
/// callbacks exactly until the first `Exiting`: it is cleared there and —
/// since nothing repopulates an empty slot — stays empty for good.
pub proof fn lemma_slot_cleared_only_by_exiting(run: Seq<Callback>)
    ensures
        slot_after_run(true, run) <==> (forall|i: int|
            0 <= i < run.len() ==> !(run[i] is Exiting)),
    decreases run.len(),
{
    if run.len() != 0 {
        let rest = run.drop_first();
        lemma_slot_cleared_only_by_exiting(rest);
        if run[0] is Exiting {
            lemma_empty_slot_stays_empty(rest);
            assert(run[0] is Exiting);
            assert(exists|i: int| 0 <= i < run.len() && run[i] is Exiting);
        } else {
            assert(slot_after_run(true, run) == slot_after_run(true, rest));
            if slot_after_run(true, rest) {
                assert forall|i: int| 0 <= i < run.len() implies !(run[i] is Exiting) by {
                    if i > 0 {
                        assert(run[i] == rest[i - 1]);
                    }
                }
            } else {
                let j = choose|i: int| 0 <= i < rest.len() && rest[i] is Exiting;
                assert(run[j + 1] == rest[j]);
                assert(exists|i: int| 0 <= i < run.len() && run[i] is Exiting);
            }
        }
    }
}

/// Once the slot is empty, no run of callbacks repopulates it.
pub proof fn lemma_empty_slot_stays_empty(run: Seq<Callback>)
    ensures
        !slot_after_run(false, run),
    decreases run.len(),
{
    if run.len() != 0 {
        lemma_empty_slot_stays_empty(run.drop_first());
    }
}

} // verus!
