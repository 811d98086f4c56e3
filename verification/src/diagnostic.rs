use vstd::prelude::*;

use crate::msg::{LspMessage, MessageView, merge_message};

verus! {

/// Diagnostics bookkeeping of the middleware. The task that merges
/// diagnostics runs outside the library; `submit_diagnostics` records
/// whether one was started and not reset since.
pub struct DgnPublisher {
    pub num_servers: usize,
    pub merged_diagnostics: Option<LspMessage>,
    pub submit_diagnostics: bool,
}

/// What starting a new diagnostics task asks of the caller.
pub struct DiagnosticSpawn {
    /// The task started before must be aborted.
    pub abort_previous: bool,
    /// How many more diagnostics notifications the new task waits for.
    pub outstanding: usize,
}

impl DgnPublisher {
    /// Bookkeeping for `num_servers` servers, with no task started.
    pub fn new(num_servers: usize) -> (r: Self)
        ensures
            r.num_servers == num_servers,
            !r.submit_diagnostics,
            r.merged_diagnostics is None,
    {
        DgnPublisher { num_servers, merged_diagnostics: None, submit_diagnostics: false }
    }

    /// Removes all diagnostics data; returns whether a running task must
    /// be aborted.
    pub fn reset(&mut self) -> (abort: bool)
        ensures
            abort == old(self).submit_diagnostics,
            !final(self).submit_diagnostics,
            final(self).merged_diagnostics is None,
            final(self).num_servers == old(self).num_servers,
    {
        self.merged_diagnostics = None;
        let abort = self.submit_diagnostics;
        self.submit_diagnostics = false;
        abort
    }

    /// Resets, then records that a new task merging diagnostics starts:
    /// it waits for one notification from every other server.
    pub fn spawn_diagnostic_tracker(&mut self) -> (r: DiagnosticSpawn)
        requires
            old(self).num_servers >= 1,
        ensures
            r.abort_previous == old(self).submit_diagnostics,
            r.outstanding == old(self).num_servers - 1,
            final(self).submit_diagnostics,
            final(self).merged_diagnostics is None,
            final(self).num_servers == old(self).num_servers,
    {
        let abort_previous = self.reset();
        let num_outstanding_notifs = self.num_servers - 1;
        self.submit_diagnostics = true;
        DiagnosticSpawn { abort_previous, outstanding: num_outstanding_notifs }
    }
}

/// What the task merging diagnostics learns while it waits.
pub enum DiagnosticEvent {
    /// Another server's diagnostics arrived.
    Received(LspMessage),
    /// No more diagnostics will arrive.
    Closed,
    /// Nothing arrived in time: what was merged so far is published.
    TimedOut,
}

/// The task that merges the diagnostics of several servers before they
/// are published: it starts from one notification and waits for
/// `outstanding` more, or until waiting for the next one times out.
pub struct DiagnosticMerge {
    pub merged: LspMessage,
    pub outstanding: usize,
}

/// The mathematical state of a `DiagnosticMerge`.
pub struct MergeView {
    pub merged: MessageView,
    pub outstanding: nat,
}

impl View for DiagnosticMerge {
    type V = MergeView;

    open spec fn view(&self) -> MergeView {
        MergeView { merged: self.merged@, outstanding: self.outstanding as nat }
    }
}

/// The mathematical value of a `DiagnosticEvent`.
pub enum EventView {
    Received(MessageView),
    Closed,
    TimedOut,
}

impl View for DiagnosticEvent {
    type V = EventView;

    open spec fn view(&self) -> EventView {
        match self {
            DiagnosticEvent::Received(m) => EventView::Received(m@),
            DiagnosticEvent::Closed => EventView::Closed,
            DiagnosticEvent::TimedOut => EventView::TimedOut,
        }
    }
}

/// One event for a task that still waits: the new state, and whether the
/// merged diagnostics are published now. A received notification is
/// merged in and counted; publication comes with the last one awaited,
/// as soon as no more can arrive, or when waiting times out.
pub open spec fn merge_step(s: MergeView, e: EventView) -> (MergeView, bool) {
    match e {
        EventView::Received(m) => {
            let left = (s.outstanding - 1) as nat;
            (MergeView { merged: merge_message(s.merged, m), outstanding: left }, left == 0)
        },
        EventView::Closed => (s, true),
        EventView::TimedOut => (s, true),
    }
}

impl DiagnosticMerge {
    /// A task that starts from the notification `merged` and waits for
    /// `outstanding` more.
    pub fn new(merged: LspMessage, outstanding: usize) -> (r: Self)
        ensures
            r@ == (MergeView { merged: merged@, outstanding: outstanding as nat }),
    {
        DiagnosticMerge { merged, outstanding }
    }

    /// Whether the task has nothing to wait for and publishes at once.
    pub fn finished(&self) -> (r: bool)
        ensures
            r == (self.outstanding == 0),
    {
        self.outstanding == 0
    }

    /// Handles one event (see `merge_step`); returns whether the merged
    /// diagnostics are to be published now.
    pub fn step(&mut self, event: DiagnosticEvent) -> (publish: bool)
        requires
            old(self).outstanding > 0,
        ensures
            (final(self)@, publish) == merge_step(old(self)@, event@),
    {
        match event {
            DiagnosticEvent::Received(nxt_diag) => {
                self.merged.merge(nxt_diag);
                self.outstanding = self.outstanding - 1;
                self.outstanding == 0
            },
            DiagnosticEvent::Closed => true,
            DiagnosticEvent::TimedOut => true,
        }
    }

    /// The diagnostics to publish.
    pub fn into_message(self) -> (r: LspMessage)
        ensures
            r@ == self@.merged,
    {
        self.merged
    }
}

/// `first` merged with each of `more`, in order.
pub open spec fn merge_all(first: MessageView, more: Seq<MessageView>) -> MessageView
    decreases more.len(),
{
    if more.len() == 0 {
        first
    } else {
        merge_all(merge_message(first, more[0]), more.subrange(1, more.len() as int))
    }
}

/// The state after receiving each of `msgs`, in order.
pub open spec fn receive_all(s: MergeView, msgs: Seq<MessageView>) -> MergeView
    decreases msgs.len(),
{
    if msgs.len() == 0 {
        s
    } else {
        receive_all(merge_step(s, EventView::Received(msgs[0])).0, msgs.subrange(1, msgs.len() as int))
    }
}

/// A task waiting for `n` notifications that all arrive in time
/// publishes with the `n`-th one received and not before, and what it
/// publishes is its first notification merged with the others in the
/// order they arrived.
pub proof fn law_publish_after_all_received(s: MergeView, msgs: Seq<MessageView>)
    requires
        s.outstanding == msgs.len(),
    ensures
        receive_all(s, msgs) == (MergeView { merged: merge_all(s.merged, msgs), outstanding: 0 }),
        forall|i: int|
            0 <= i < msgs.len() ==> #[trigger] merge_step(
                receive_all(s, msgs.subrange(0, i)),
                EventView::Received(msgs[i]),
            ).1 == (i == msgs.len() - 1),
    decreases msgs.len(),
{
    if msgs.len() > 0 {
        let s1 = merge_step(s, EventView::Received(msgs[0])).0;
        let rest = msgs.subrange(1, msgs.len() as int);
        law_publish_after_all_received(s1, rest);
        assert forall|i: int| 0 <= i < msgs.len() implies #[trigger] merge_step(
            receive_all(s, msgs.subrange(0, i)),
            EventView::Received(msgs[i]),
        ).1 == (i == msgs.len() - 1) by {
            if i > 0 {
                let p = msgs.subrange(0, i);
                assert(p.subrange(1, p.len() as int) =~= rest.subrange(0, i - 1));
                assert(p[0] == msgs[0]);
                assert(receive_all(s, p) == receive_all(s1, rest.subrange(0, i - 1)));
                assert(msgs[i] == rest[i - 1]);
            } else {
                assert(msgs.subrange(0, 0) =~= Seq::<MessageView>::empty());
            }
        }
    }
}

/// A task that times out publishes at once what it merged so far.
pub proof fn law_timeout_publishes(s: MergeView)
    ensures
        merge_step(s, EventView::TimedOut) == (s, true),
{
}

} // verus!
