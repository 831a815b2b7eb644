//! The decisions of the poll loop, apart from the network: when to knock, what
//! a poll's outcome does to the channel, what to hand to the event sink, and
//! when to stop. The caller performs each request and feeds back what came of
//! it.
use crate::comet::{poll_answer_of, CometView, PlurkComet};
use crate::content::{units_view, CometContentUnit, CometContentUnitView};
use crate::error::{PlurkError, PlurkErrorView};
use vstd::prelude::*;

verus! {

/// The loop knocks on the iteration that finds the counter above this.
pub const KNOCK_AFTER: u8 = 10;

/// What came of the poll of one iteration, or a cancellation.
#[derive(Debug, Clone)]
pub enum LoopEvent {
    /// The request failed on the network, timed out or had an error status.
    PollFailed(String),
    /// The server answered with this body.
    PollAnswered(String),
    /// The user asked to stop.
    Cancelled,
}

pub enum LoopEventView {
    PollFailed(Seq<char>),
    PollAnswered(Seq<char>),
    Cancelled,
}

impl View for LoopEvent {
    type V = LoopEventView;

    open spec fn view(&self) -> LoopEventView {
        match self {
            LoopEvent::PollFailed(s) => LoopEventView::PollFailed(s@),
            LoopEvent::PollAnswered(s) => LoopEventView::PollAnswered(s@),
            LoopEvent::Cancelled => LoopEventView::Cancelled,
        }
    }
}

/// What the caller is to do next.
#[derive(Debug, Clone)]
pub enum LoopAction {
    /// Show the error and go on polling from the same cursor.
    Report(PlurkError),
    /// Hand each event to the sink, in this order, then go on polling.
    Deliver(Vec<CometContentUnit>),
    /// Stop; nothing more is to be polled or delivered.
    Stop,
}

pub enum LoopActionView {
    Report(PlurkErrorView),
    Deliver(Seq<CometContentUnitView>),
    Stop,
}

impl View for LoopAction {
    type V = LoopActionView;

    open spec fn view(&self) -> LoopActionView {
        match self {
            LoopAction::Report(e) => LoopActionView::Report(e@),
            LoopAction::Deliver(units) => LoopActionView::Deliver(units_view(units@)),
            LoopAction::Stop => LoopActionView::Stop,
        }
    }
}

/// The state that the poll loop owns: its channel, its knock counter, and
/// whether it has stopped.
#[derive(Debug, Clone)]
pub struct CometLoop {
    comet: PlurkComet,
    count: u8,
    stopped: bool,
}

pub struct LoopView {
    pub comet: CometView,
    pub count: u8,
    pub stopped: bool,
}

impl View for CometLoop {
    type V = LoopView;

    closed spec fn view(&self) -> LoopView {
        LoopView { comet: self.comet@, count: self.count, stopped: self.stopped }
    }
}

/// The knock counter after one iteration that finds it at `count`, and whether
/// that iteration knocks.
pub open spec fn knock_step(count: u8) -> (u8, bool) {
    if count > KNOCK_AFTER {
        (0, true)
    } else {
        ((count + 1) as u8, false)
    }
}

/// The state after the start of an iteration, and whether it knocks.
pub open spec fn begin_spec(s: LoopView) -> (LoopView, bool) {
    if s.stopped {
        (s, false)
    } else {
        (LoopView { count: knock_step(s.count).0, ..s }, knock_step(s.count).1)
    }
}

/// The state after an event, and what the caller is to do.
pub open spec fn handle_spec(s: LoopView, ev: LoopEventView) -> (LoopView, LoopActionView) {
    if s.stopped {
        (s, LoopActionView::Stop)
    } else {
        match ev {
            LoopEventView::Cancelled => (LoopView { stopped: true, ..s }, LoopActionView::Stop),
            LoopEventView::PollFailed(m) => (s, LoopActionView::Report(PlurkErrorView::ReqwestError(m))),
            LoopEventView::PollAnswered(body) => match poll_answer_of(body) {
                Ok(v) => (
                    LoopView { comet: CometView { offset: v.new_offset, ..s.comet }, ..s },
                    LoopActionView::Deliver(
                        match v.data {
                            Some(units) => units,
                            None => Seq::empty(),
                        },
                    ),
                ),
                Err(e) => (s, LoopActionView::Report(e)),
            },
        }
    }
}

impl CometLoop {
    /// A loop on a freshly negotiated channel, with its counter at zero.
    pub fn new(comet: PlurkComet) -> (r: CometLoop)
        ensures
            r@ == (LoopView { comet: comet@, count: 0, stopped: false }),
    {
        CometLoop { comet, count: 0, stopped: false }
    }

    /// Starts an iteration: returns whether to knock before this poll. A
    /// knock resets the counter; an iteration without one advances it.
    pub fn begin_iteration(&mut self) -> (knock: bool)
        ensures
            (final(self)@, knock) == begin_spec(old(self)@),
    {
        if self.stopped {
            false
        } else if self.count > KNOCK_AFTER {
            self.count = 0;
            true
        } else {
            self.count = self.count + 1;
            false
        }
    }

    /// Takes in what came of this iteration's poll, or a cancellation.
    pub fn handle(&mut self, ev: LoopEvent) -> (r: LoopAction)
        ensures
            (final(self)@, r@) == handle_spec(old(self)@, ev@),
    {
        if self.stopped {
            return LoopAction::Stop;
        }
        match ev {
            LoopEvent::Cancelled => {
                self.stopped = true;
                LoopAction::Stop
            },
            LoopEvent::PollFailed(m) => LoopAction::Report(PlurkError::ReqwestError(m)),
            LoopEvent::PollAnswered(body) => match self.comet.poll_once_mut(body.as_str()) {
                Ok(Some(units)) => LoopAction::Deliver(units),
                Ok(None) => {
                    let empty: Vec<CometContentUnit> = Vec::new();
                    assert(units_view(empty@) =~= Seq::empty());
                    LoopAction::Deliver(empty)
                },
                Err(e) => LoopAction::Report(e),
            },
        }
    }

    /// The channel.
    pub fn comet(&self) -> (r: &PlurkComet)
        ensures
            r@ == self@.comet,
    {
        &self.comet
    }

    /// The knock counter.
    pub fn count(&self) -> (r: u8)
        ensures
            r == self@.count,
    {
        self.count
    }

    /// Whether the loop has stopped.
    pub fn is_stopped(&self) -> (r: bool)
        ensures
            r == self@.stopped,
    {
        self.stopped
    }
}

/// The knock counter after `n` iterations from zero.
pub open spec fn counter_after(n: nat) -> u8
    decreases n,
{
    if n == 0 {
        0
    } else {
        knock_step(counter_after((n - 1) as nat)).0
    }
}

/// The knock cadence is fixed: after `n` iterations from zero the counter is
/// `n % 12`, and the next iteration knocks exactly when `n % 12 == 11`, that
/// is on every twelfth iteration, after eleven without a knock.
pub proof fn lemma_knock_cadence(n: nat)
    ensures
        counter_after(n) == n % 12,
        knock_step(counter_after(n)).1 <==> n % 12 == 11,
    decreases n,
{
    if n > 0 {
        lemma_knock_cadence((n - 1) as nat);
    }
}

/// From a zero counter, the first eleven iterations do not knock and leave the
/// counter at eleven; the twelfth knocks and resets it to zero.
pub proof fn lemma_first_knock()
    ensures
        forall|n: nat| n < 11 ==> !(#[trigger] knock_step(counter_after(n))).1,
        counter_after(11) == 11,
        knock_step(counter_after(11)) == (0u8, true),
{
    assert forall|n: nat| n < 11 implies !(#[trigger] knock_step(counter_after(n))).1 by {
        lemma_knock_cadence(n);
    }
    lemma_knock_cadence(11);
}

/// A poll whose answer repeats the current cursor and carries no events
/// changes nothing and delivers nothing: over a whole iteration, the knock
/// counter is the only part of the state that moves.
pub proof fn lemma_idle_poll(s: LoopView, body: Seq<char>)
    requires
        !s.stopped,
        poll_answer_of(body) is Ok,
        poll_answer_of(body)->Ok_0.new_offset == s.comet.offset,
        poll_answer_of(body)->Ok_0.data is None || poll_answer_of(body)->Ok_0.data == Some(
            Seq::<CometContentUnitView>::empty(),
        ),
    ensures
        begin_spec(s).0 == (LoopView { count: knock_step(s.count).0, ..s }),
        handle_spec(begin_spec(s).0, LoopEventView::PollAnswered(body)) == (
            begin_spec(s).0,
            LoopActionView::Deliver(Seq::empty()),
        ),
{
}

/// The state and the actions after a run of events.
pub open spec fn run_spec(s: LoopView, evs: Seq<LoopEventView>) -> (LoopView, Seq<LoopActionView>)
    decreases evs.len(),
{
    if evs.len() == 0 {
        (s, Seq::empty())
    } else {
        let (s1, a) = handle_spec(s, evs[0]);
        let (s2, rest) = run_spec(s1, evs.drop_first());
        (s2, seq![a] + rest)
    }
}

/// Once cancelled, the loop stays stopped: whatever events follow, it starts
/// no iteration that knocks, changes no state, and hands nothing to the sink.
pub proof fn lemma_cancel_is_final(s: LoopView, evs: Seq<LoopEventView>)
    ensures
        handle_spec(s, LoopEventView::Cancelled).1 == LoopActionView::Stop,
        handle_spec(s, LoopEventView::Cancelled).0.stopped,
        begin_spec(handle_spec(s, LoopEventView::Cancelled).0) == (
            handle_spec(s, LoopEventView::Cancelled).0,
            false,
        ),
        run_spec(handle_spec(s, LoopEventView::Cancelled).0, evs).0 == handle_spec(
            s,
            LoopEventView::Cancelled,
        ).0,
        forall|i: int|
            0 <= i < evs.len() ==> #[trigger] run_spec(
                handle_spec(s, LoopEventView::Cancelled).0,
                evs,
            ).1[i] == LoopActionView::Stop,
{
    lemma_stopped_run(handle_spec(s, LoopEventView::Cancelled).0, evs);
}

proof fn lemma_stopped_run(s: LoopView, evs: Seq<LoopEventView>)
    requires
        s.stopped,
    ensures
        run_spec(s, evs).0 == s,
        run_spec(s, evs).1.len() == evs.len(),
        forall|i: int| 0 <= i < evs.len() ==> #[trigger] run_spec(s, evs).1[i] == LoopActionView::Stop,
    decreases evs.len(),
{
    if evs.len() > 0 {
        lemma_stopped_run(s, evs.drop_first());
        let rest = run_spec(s, evs.drop_first()).1;
        assert forall|i: int| 0 <= i < evs.len() implies #[trigger] run_spec(s, evs).1[i]
            == LoopActionView::Stop by {
            if i > 0 {
                assert(run_spec(s, evs).1[i] == rest[i - 1]);
            }
        }
    }
}

} // verus!
