use crate::registry::{
    drain_filter, lemma_select_contained, lemma_select_distinct, lemma_select_same_length, select,
};
use vstd::prelude::*;

verus! {

/// Where a worker stands in handling the message it received last.
#[derive(Clone, Copy, Debug, PartialEq, Eq, Structural)]
pub enum Phase {
    /// No message in hand: the worker drains ready completers, pumps the
    /// engine or waits for the next message.
    Idle,
    /// The message carries a module, which is being loaded under a timeout.
    Loading,
    /// The message's continuation is being invoked against the engine.
    Invoking,
}

/// How a timed module load ended.
#[derive(Clone, Copy, Debug, PartialEq, Eq, Structural)]
pub enum LoadOutcome {
    Loaded,
    Failed,
    TimedOut,
}

/// Why a message was dropped without running its continuation; each reason
/// has its own log line.
#[derive(Clone, Copy, Debug, PartialEq, Eq, Structural)]
pub enum AbandonReason {
    LoadFailed,
    LoadTimedOut,
}

/// What became of a received message.
#[derive(Clone, Copy, Debug, PartialEq, Eq, Structural)]
pub enum Fate {
    /// Its continuation ran; it owns the response channel and either answered
    /// it or parked a completer.
    Invoked,
    /// It was dropped with its response channel, and the reason was logged.
    Abandoned(AbandonReason),
}

/// What the driver of the loop must do next with the message in hand.
#[derive(Clone, Copy, Debug, PartialEq, Eq, Structural)]
pub enum Step {
    /// Load the attached module under the timeout, then report the outcome.
    LoadModule,
    /// Invoke the continuation, then report whether it parked a completer.
    Invoke,
    /// Drop the message and log the reason.
    Abandon(AbandonReason),
}

/// The abstract state of one worker's loop. Messages are numbered in the
/// order the worker receives them; `fates[t]` is what became of message `t`.
pub struct LoopModel {
    pub phase: Phase,
    pub received: nat,
    pub fates: Seq<Fate>,
    /// The message of each parked completer, in registry order.
    pub parked: Seq<nat>,
    /// The messages whose completer was taken out to be resolved.
    pub resolved: Set<nat>,
}

/// At most one message is in hand, and it is the one received last; every
/// earlier message has its fate. Each parked completer belongs to a distinct
/// invoked message whose completer has not been resolved yet, and only
/// invoked messages have had a completer resolved.
pub open spec fn model_wf(m: LoopModel) -> bool {
    &&& if m.phase == Phase::Idle {
        m.received == m.fates.len()
    } else {
        m.received == m.fates.len() + 1
    }
    &&& m.parked.no_duplicates()
    &&& forall|k: int|
        0 <= k < m.parked.len() ==> #[trigger] m.parked[k] < m.fates.len() && m.fates[m.parked[k] as int]
            == Fate::Invoked && !m.resolved.contains(m.parked[k])
    &&& forall|t: nat|
        #[trigger] m.resolved.contains(t) ==> t < m.fates.len() && m.fates[t as int] == Fate::Invoked
}

pub open spec fn initial_model() -> LoopModel {
    LoopModel {
        phase: Phase::Idle,
        received: 0,
        fates: Seq::empty(),
        parked: Seq::empty(),
        resolved: Set::empty(),
    }
}

pub open spec fn after_receive(m: LoopModel, has_module: bool) -> LoopModel {
    LoopModel {
        phase: if has_module {
            Phase::Loading
        } else {
            Phase::Invoking
        },
        received: m.received + 1,
        ..m
    }
}

pub open spec fn abandon_reason(outcome: LoadOutcome) -> AbandonReason {
    if outcome == LoadOutcome::TimedOut {
        AbandonReason::LoadTimedOut
    } else {
        AbandonReason::LoadFailed
    }
}

pub open spec fn after_load(m: LoopModel, outcome: LoadOutcome) -> LoopModel {
    if outcome == LoadOutcome::Loaded {
        LoopModel { phase: Phase::Invoking, ..m }
    } else {
        LoopModel {
            phase: Phase::Idle,
            fates: m.fates.push(Fate::Abandoned(abandon_reason(outcome))),
            ..m
        }
    }
}

pub open spec fn after_continuation(m: LoopModel, parked: bool) -> LoopModel {
    LoopModel {
        phase: Phase::Idle,
        fates: m.fates.push(Fate::Invoked),
        parked: if parked {
            m.parked.push(m.fates.len())
        } else {
            m.parked
        },
        ..m
    }
}

/// The parked completers flagged `true` are taken out to be resolved; the
/// others stay parked.
pub open spec fn after_drain(m: LoopModel, flags: Seq<bool>) -> LoopModel {
    LoopModel {
        parked: select(m.parked, flags, false),
        resolved: m.resolved + select(m.parked, flags, true).to_set(),
        ..m
    }
}

/// The numbers of the messages whose continuation ran, in the order in which
/// they ran.
pub open spec fn invoked_tickets(fates: Seq<Fate>) -> Seq<int>
    decreases fates.len(),
{
    if fates.len() == 0 {
        Seq::empty()
    } else {
        let earlier = invoked_tickets(fates.drop_last());
        if fates.last() == Fate::Invoked {
            earlier.push(fates.len() - 1)
        } else {
            earlier
        }
    }
}

/// The decision logic of one worker's event loop. It owns the registry of
/// parked completers; the driver owns the engine and the channels, performs
/// each `Step` and reports back.
pub struct WorkerLoop<C> {
    completers: Vec<C>,
    phase: Phase,
    received: Ghost<nat>,
    fates: Ghost<Seq<Fate>>,
    parked: Ghost<Seq<nat>>,
    resolved: Ghost<Set<nat>>,
}

impl<C> WorkerLoop<C> {
    pub closed spec fn model(&self) -> LoopModel {
        LoopModel {
            phase: self.phase,
            received: self.received@,
            fates: self.fates@,
            parked: self.parked@,
            resolved: self.resolved@,
        }
    }

    /// The completers parked and not yet resolved.
    pub closed spec fn pending(&self) -> Seq<C> {
        self.completers@
    }

    pub open spec fn wf(&self) -> bool {
        model_wf(self.model()) && self.model().parked.len() == self.pending().len()
    }

    pub fn new() -> (w: Self)
        ensures
            w.wf(),
            w.model() == initial_model(),
            w.pending() == Seq::<C>::empty(),
    {
        WorkerLoop {
            completers: Vec::new(),
            phase: Phase::Idle,
            received: Ghost(0),
            fates: Ghost(Seq::empty()),
            parked: Ghost(Seq::empty()),
            resolved: Ghost(Set::empty()),
        }
    }

    pub fn phase(&self) -> (p: Phase)
        ensures
            p == self.model().phase,
    {
        self.phase
    }

    /// Whether the engine's event loop must be pumped: exactly when a parked
    /// promise still waits to settle.
    pub fn pump_enabled(&self) -> (r: bool)
        requires
            self.wf(),
        ensures
            r == (self.model().parked.len() > 0),
    {
        self.completers.len() > 0
    }

    /// First step of each iteration: takes out every parked completer that
    /// `ready` reports ready, for the driver to resolve. The others stay.
    pub fn take_ready<F: Fn(&C) -> bool>(&mut self, ready: F) -> (r: Vec<C>)
        requires
            old(self).wf(),
            old(self).model().phase == Phase::Idle,
            forall|c: &C| ready.requires((c,)),
        ensures
            final(self).wf(),
            exists|flags: Seq<bool>|
                #![trigger after_drain(old(self).model(), flags)]
                flags.len() == old(self).pending().len() && (forall|j: int|
                    0 <= j < flags.len() ==> ready.ensures(
                        (&old(self).pending()[j],),
                        #[trigger] flags[j],
                    )) && final(self).model() == after_drain(old(self).model(), flags)
                    && final(self).pending() == select(old(self).pending(), flags, false) && r@
                    == select(old(self).pending(), flags, true),
            old(self).pending().to_multiset() == final(self).pending().to_multiset().add(
                r@.to_multiset(),
            ),
            forall|i: int| 0 <= i < r@.len() ==> ready.ensures((&r@[i],), true),
            forall|i: int|
                0 <= i < final(self).pending().len() ==> ready.ensures(
                    (&final(self).pending()[i],),
                    false,
                ),
    {
        let ghost before = self.completers@;
        let r = drain_filter(&mut self.completers, ready);
        proof {
            let flags = choose|flags: Seq<bool>|
                #![trigger select(before, flags, true)]
                flags.len() == before.len() && (forall|j: int|
                    0 <= j < flags.len() ==> ready.ensures((&before[j],), #[trigger] flags[j]))
                    && self.completers@ == select(before, flags, false) && r@ == select(
                    before,
                    flags,
                    true,
                );
            let m = after_drain(old(self).model(), flags);
            let parked = old(self).model().parked;
            lemma_select_contained(parked, flags, true);
            lemma_select_contained(parked, flags, false);
            lemma_select_distinct(parked, flags);
            lemma_select_same_length(parked, before, flags, false);
            self.parked = Ghost(m.parked);
            self.resolved = Ghost(m.resolved);
            assert forall|k: int| 0 <= k < m.parked.len() implies #[trigger] m.parked[k] < m.fates.len()
                && m.fates[m.parked[k] as int] == Fate::Invoked && !m.resolved.contains(
                m.parked[k],
            ) by {
                assert(m.parked.contains(m.parked[k]));
                assert(parked.contains(m.parked[k]));
                let q = choose|q: int| 0 <= q < parked.len() && parked[q] == m.parked[k];
                assert(!select(parked, flags, true).contains(m.parked[k]));
                assert(!select(parked, flags, true).to_set().contains(m.parked[k]));
            }
            assert forall|t: nat| #[trigger] m.resolved.contains(t) implies t < m.fates.len()
                && m.fates[t as int] == Fate::Invoked by {
                if !old(self).model().resolved.contains(t) {
                    assert(select(parked, flags, true).contains(t));
                    assert(parked.contains(t));
                    let q = choose|q: int| 0 <= q < parked.len() && parked[q] == t;
                }
            }
            assert(self.model() == m);
        }
        r
    }

    /// A message was received. It is numbered next; with a module attached
    /// the module is loaded first, else the continuation runs at once,
    /// whatever completers are parked.
    pub fn receive(&mut self, has_module: bool) -> (s: Step)
        requires
            old(self).wf(),
            old(self).model().phase == Phase::Idle,
        ensures
            final(self).wf(),
            final(self).model() == after_receive(old(self).model(), has_module),
            final(self).pending() == old(self).pending(),
            s == (if has_module {
                Step::LoadModule
            } else {
                Step::Invoke
            }),
    {
        self.received = Ghost(self.received@ + 1);
        if has_module {
            self.phase = Phase::Loading;
            Step::LoadModule
        } else {
            self.phase = Phase::Invoking;
            Step::Invoke
        }
    }

    /// The module of the message in hand finished loading, failed, or ran out
    /// of time. Only a loaded module lets the continuation run.
    pub fn module_loaded(&mut self, outcome: LoadOutcome) -> (s: Step)
        requires
            old(self).wf(),
            old(self).model().phase == Phase::Loading,
        ensures
            final(self).wf(),
            final(self).model() == after_load(old(self).model(), outcome),
            final(self).pending() == old(self).pending(),
            s == (if outcome == LoadOutcome::Loaded {
                Step::Invoke
            } else {
                Step::Abandon(abandon_reason(outcome))
            }),
    {
        match outcome {
            LoadOutcome::Loaded => {
                self.phase = Phase::Invoking;
                Step::Invoke
            },
            LoadOutcome::Failed => {
                self.phase = Phase::Idle;
                self.fates = Ghost(self.fates@.push(Fate::Abandoned(AbandonReason::LoadFailed)));
                Step::Abandon(AbandonReason::LoadFailed)
            },
            LoadOutcome::TimedOut => {
                self.phase = Phase::Idle;
                self.fates = Ghost(
                    self.fates@.push(Fate::Abandoned(AbandonReason::LoadTimedOut)),
                );
                Step::Abandon(AbandonReason::LoadTimedOut)
            },
        }
    }

    /// The continuation of the message in hand returned; a completer it
    /// handed back is parked until its promise settles.
    pub fn continuation_returned(&mut self, completer: Option<C>)
        requires
            old(self).wf(),
            old(self).model().phase == Phase::Invoking,
        ensures
            final(self).wf(),
            final(self).model() == after_continuation(old(self).model(), completer.is_some()),
            final(self).pending() == (match completer {
                Some(c) => old(self).pending().push(c),
                None => old(self).pending(),
            }),
    {
        let ghost ticket = self.fates@.len();
        self.phase = Phase::Idle;
        self.fates = Ghost(self.fates@.push(Fate::Invoked));
        if let Some(c) = completer {
            self.completers.push(c);
            self.parked = Ghost(self.parked@.push(ticket));
        }
        proof {
            let m = self.model();
            assert forall|k: int| 0 <= k < m.parked.len() implies #[trigger] m.parked[k] < m.fates.len()
                && m.fates[m.parked[k] as int] == Fate::Invoked && !m.resolved.contains(
                m.parked[k],
            ) by {
                if k < old(self).model().parked.len() {
                    assert(m.parked[k] == old(self).model().parked[k]);
                }
            }
            assert forall|t: nat| #[trigger] m.resolved.contains(t) implies t < m.fates.len()
                && m.fates[t as int] == Fate::Invoked by {
                assert(old(self).model().resolved.contains(t));
            }
            if completer is Some {
                assert forall|k: int| 0 <= k < old(self).model().parked.len() implies
                    #[trigger] old(self).model().parked[k] != ticket by {}
            }
        }
    }
}

/// Each message a worker has received is either the one in hand or has
/// exactly one fate: its continuation ran (and owns the response channel), or
/// it was abandoned, which drops the channel and logs the reason. An
/// abandoned message has no completer; an invoked one has at most one, which
/// is parked at one place in the registry or was taken out to be resolved,
/// never both.
pub proof fn lemma_every_message_has_one_fate(m: LoopModel)
    requires
        model_wf(m),
    ensures
        forall|t: int|
            0 <= t < m.received ==> (t < m.fates.len() && (m.fates[t] is Invoked) != (
            m.fates[t] is Abandoned)) || (m.phase != Phase::Idle && t == m.fates.len()),
        forall|t: nat|
            t < m.fates.len() && m.fates[t as int] is Abandoned ==> !m.parked.contains(t)
                && !m.resolved.contains(t),
        forall|t: nat| !(m.parked.contains(t) && m.resolved.contains(t)),
        forall|i: int, j: int|
            0 <= i < m.parked.len() && 0 <= j < m.parked.len() && i != j ==> m.parked[i]
                != m.parked[j],
{
    assert forall|t: nat| !(m.parked.contains(t) && m.resolved.contains(t)) by {
        if m.parked.contains(t) {
            let k = choose|k: int| 0 <= k < m.parked.len() && m.parked[k] == t;
        }
    }
    assert forall|t: nat|
        t < m.fates.len() && m.fates[t as int] is Abandoned implies !m.parked.contains(t)
            && !m.resolved.contains(t) by {
        if m.parked.contains(t) {
            let k = choose|k: int| 0 <= k < m.parked.len() && m.parked[k] == t;
        }
    }
}

/// No step of the loop changes the fate of a message once it is decided, and
/// each step decides at most one. A completer taken out to be resolved stays
/// resolved, and a newly parked completer belongs to the message just
/// invoked, which had none: so no message's response is resolved twice.
pub proof fn lemma_fates_are_final(
    m: LoopModel,
    has_module: bool,
    outcome: LoadOutcome,
    parked: bool,
    flags: Seq<bool>,
)
    requires
        model_wf(m),
    ensures
        m.phase == Phase::Idle ==> after_receive(m, has_module).fates == m.fates,
        m.phase == Phase::Idle ==> after_drain(m, flags).fates == m.fates,
        m.resolved.subset_of(after_drain(m, flags).resolved),
        m.phase == Phase::Loading ==> m.fates.is_prefix_of(after_load(m, outcome).fates)
            && after_load(m, outcome).fates.len() <= m.fates.len() + 1,
        m.phase == Phase::Invoking ==> after_continuation(m, parked).fates == m.fates.push(
            Fate::Invoked,
        ),
        !m.parked.contains(m.fates.len()) && !m.resolved.contains(m.fates.len()),
{
    if m.phase == Phase::Loading {
        let n = after_load(m, outcome).fates;
        assert(m.fates =~= n.subrange(0, m.fates.len() as int));
    }
    if m.parked.contains(m.fates.len()) {
        let k = choose|k: int| 0 <= k < m.parked.len() && m.parked[k] == m.fates.len();
    }
}

/// A worker runs the continuations of its messages in the order in which it
/// received them: the message numbers of the invoked continuations strictly
/// increase. With a channel that delivers in the order of sending, a message
/// sent before another on one sender has its continuation run first.
pub proof fn lemma_continuations_run_in_receipt_order(fates: Seq<Fate>)
    ensures
        forall|t: int|
            0 <= t < invoked_tickets(fates).len() ==> 0 <= #[trigger] invoked_tickets(fates)[t]
                < fates.len(),
        forall|i: int, j: int|
            0 <= i < j < invoked_tickets(fates).len() ==> invoked_tickets(fates)[i]
                < invoked_tickets(fates)[j],
    decreases fates.len(),
{
    if fates.len() > 0 {
        let earlier = fates.drop_last();
        lemma_continuations_run_in_receipt_order(earlier);
        let e = invoked_tickets(earlier);
        let all = invoked_tickets(fates);
        assert(forall|t: int| 0 <= t < e.len() ==> all[t] == e[t] && 0 <= #[trigger] e[t] < earlier.len());
        if fates.last() == Fate::Invoked {
            assert(all == e.push(fates.len() - 1));
        } else {
            assert(all == e);
        }
    }
}

/// While a parked promise waits (say, a guest async function awaiting a host
/// promise), a new message on the same worker is still received and its
/// continuation runs, with or without a module to load; the parked completer
/// stays parked, and the engine is still pumped for it.
pub proof fn lemma_parked_promise_does_not_block_dispatch(m: LoopModel)
    requires
        model_wf(m),
        m.phase == Phase::Idle,
        m.parked.len() > 0,
    ensures
        after_receive(m, false).phase == Phase::Invoking,
        after_receive(m, false).parked == m.parked,
        after_load(after_receive(m, true), LoadOutcome::Loaded).phase == Phase::Invoking,
        after_load(after_receive(m, true), LoadOutcome::Loaded).parked == m.parked,
        after_continuation(after_receive(m, false), false).fates == m.fates.push(Fate::Invoked),
        after_continuation(after_receive(m, false), false).parked == m.parked,
        after_continuation(after_receive(m, false), false).phase == Phase::Idle,
        after_continuation(
            after_load(after_receive(m, true), LoadOutcome::Loaded),
            false,
        ).fates == m.fates.push(Fate::Invoked),
        after_continuation(
            after_load(after_receive(m, true), LoadOutcome::Loaded),
            false,
        ).parked == m.parked,
{
}

} // verus!
