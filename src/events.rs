use vstd::prelude::*;

use crate::text::same_text;

verus! {

/// How long `register` waits for the engine thread to install the callback.
pub const REGISTER_WAIT_MS: u64 = 200;

/// Bound on the wait of `unregister` for its teardown job on the engine thread.
pub const UNREGISTER_WAIT_MS: u64 = 500;

/// Classification of an engine event.
#[derive(Debug, Clone, PartialEq, Eq)]
pub enum EventKind {
    Registering,
    RegisterOk,
    RegisterFail,
    Unregistering,
    FallbackOk,
    FallbackFail,
    Create,
    Shutdown,
    Exit,
    Module,
    Custom,
    /// Any other kind, under the engine's own name for it.
    Other(String),
}

/// One engine occurrence: the engine's event code and its optional text.
#[derive(Debug, Clone, PartialEq, Eq)]
pub struct Event {
    pub code: i32,
    pub text: Option<String>,
}

/// The kind that an engine name stands for, when it is one of the fixed kinds.
pub open spec fn fixed_kind(name: Seq<char>) -> Option<EventKind> {
    if name == "REGISTERING"@ {
        Some(EventKind::Registering)
    } else if name == "REGISTER_OK"@ {
        Some(EventKind::RegisterOk)
    } else if name == "REGISTER_FAIL"@ {
        Some(EventKind::RegisterFail)
    } else if name == "UNREGISTERING"@ {
        Some(EventKind::Unregistering)
    } else if name == "FALLBACK_OK"@ {
        Some(EventKind::FallbackOk)
    } else if name == "FALLBACK_FAIL"@ {
        Some(EventKind::FallbackFail)
    } else if name == "CREATE"@ {
        Some(EventKind::Create)
    } else if name == "SHUTDOWN"@ {
        Some(EventKind::Shutdown)
    } else if name == "EXIT"@ {
        Some(EventKind::Exit)
    } else if name == "MODULE"@ {
        Some(EventKind::Module)
    } else if name == "CUSTOM"@ {
        Some(EventKind::Custom)
    } else {
        None
    }
}

/// Whether `k` is `Other` carrying the name `name`.
pub open spec fn is_other_named(k: EventKind, name: Seq<char>) -> bool {
    match k {
        EventKind::Other(s) => s@ == name,
        _ => false,
    }
}

/// The engine name of a kind other than `Other`.
pub open spec fn fixed_name(k: EventKind) -> Seq<char> {
    match k {
        EventKind::Registering => "REGISTERING"@,
        EventKind::RegisterOk => "REGISTER_OK"@,
        EventKind::RegisterFail => "REGISTER_FAIL"@,
        EventKind::Unregistering => "UNREGISTERING"@,
        EventKind::FallbackOk => "FALLBACK_OK"@,
        EventKind::FallbackFail => "FALLBACK_FAIL"@,
        EventKind::Create => "CREATE"@,
        EventKind::Shutdown => "SHUTDOWN"@,
        EventKind::Exit => "EXIT"@,
        EventKind::Module => "MODULE"@,
        EventKind::Custom => "CUSTOM"@,
        EventKind::Other(s) => s@,
    }
}

/// Every fixed kind is recognised from its own engine name, so naming a kind
/// and classifying the name gives the kind back.
pub proof fn lemma_fixed_names_round_trip(k: EventKind)
    requires
        !(k is Other),
    ensures
        fixed_kind(fixed_name(k)) == Some(k),
{
    reveal_strlit("REGISTERING");
    reveal_strlit("REGISTER_OK");
    reveal_strlit("REGISTER_FAIL");
    reveal_strlit("UNREGISTERING");
    reveal_strlit("FALLBACK_OK");
    reveal_strlit("FALLBACK_FAIL");
    reveal_strlit("CREATE");
    reveal_strlit("SHUTDOWN");
    reveal_strlit("EXIT");
    reveal_strlit("MODULE");
    reveal_strlit("CUSTOM");
    let n = fixed_name(k);
    match k {
        EventKind::Registering => {},
        EventKind::RegisterOk => {
            assert(n[8] != "REGISTERING"@[8]);
        },
        EventKind::RegisterFail => {
            assert(n.len() != "REGISTERING"@.len());
            assert(n.len() != "REGISTER_OK"@.len());
        },
        EventKind::Unregistering => {
            assert(n.len() != "REGISTERING"@.len());
            assert(n.len() != "REGISTER_OK"@.len());
            assert(n[0] != "REGISTER_FAIL"@[0]);
        },
        EventKind::FallbackOk => {
            assert(n[0] != "REGISTERING"@[0]);
            assert(n[0] != "REGISTER_OK"@[0]);
            assert(n.len() != "REGISTER_FAIL"@.len());
            assert(n.len() != "UNREGISTERING"@.len());
        },
        EventKind::FallbackFail => {
            assert(n.len() != "REGISTERING"@.len());
            assert(n.len() != "REGISTER_OK"@.len());
            assert(n[0] != "REGISTER_FAIL"@[0]);
            assert(n[0] != "UNREGISTERING"@[0]);
            assert(n.len() != "FALLBACK_OK"@.len());
        },
        EventKind::Create => {
            assert(n.len() != "REGISTERING"@.len());
            assert(n.len() != "REGISTER_OK"@.len());
            assert(n.len() != "REGISTER_FAIL"@.len());
            assert(n.len() != "UNREGISTERING"@.len());
            assert(n.len() != "FALLBACK_OK"@.len());
            assert(n.len() != "FALLBACK_FAIL"@.len());
        },
        EventKind::Shutdown => {
            assert(n.len() != "REGISTERING"@.len());
            assert(n.len() != "REGISTER_OK"@.len());
            assert(n.len() != "REGISTER_FAIL"@.len());
            assert(n.len() != "UNREGISTERING"@.len());
            assert(n.len() != "FALLBACK_OK"@.len());
            assert(n.len() != "FALLBACK_FAIL"@.len());
            assert(n.len() != "CREATE"@.len());
        },
        EventKind::Exit => {
            assert(n.len() != "REGISTERING"@.len());
            assert(n.len() != "REGISTER_OK"@.len());
            assert(n.len() != "REGISTER_FAIL"@.len());
            assert(n.len() != "UNREGISTERING"@.len());
            assert(n.len() != "FALLBACK_OK"@.len());
            assert(n.len() != "FALLBACK_FAIL"@.len());
            assert(n.len() != "CREATE"@.len());
            assert(n.len() != "SHUTDOWN"@.len());
        },
        EventKind::Module => {
            assert(n.len() != "REGISTERING"@.len());
            assert(n.len() != "REGISTER_OK"@.len());
            assert(n.len() != "REGISTER_FAIL"@.len());
            assert(n.len() != "UNREGISTERING"@.len());
            assert(n.len() != "FALLBACK_OK"@.len());
            assert(n.len() != "FALLBACK_FAIL"@.len());
            assert(n[0] != "CREATE"@[0]);
            assert(n.len() != "SHUTDOWN"@.len());
            assert(n.len() != "EXIT"@.len());
        },
        EventKind::Custom => {
            assert(n.len() != "REGISTERING"@.len());
            assert(n.len() != "REGISTER_OK"@.len());
            assert(n.len() != "REGISTER_FAIL"@.len());
            assert(n.len() != "UNREGISTERING"@.len());
            assert(n.len() != "FALLBACK_OK"@.len());
            assert(n.len() != "FALLBACK_FAIL"@.len());
            assert(n[1] != "CREATE"@[1]);
            assert(n.len() != "SHUTDOWN"@.len());
            assert(n.len() != "EXIT"@.len());
            assert(n[0] != "MODULE"@[0]);
        },
        EventKind::Other(_) => {},
    }
}

impl EventKind {
    /// Classifies an event by the name the engine gives its code. A name that
    /// is none of the fixed kinds becomes `Other` with that name; a missing name
    /// becomes `Other("?")`.
    pub fn from_name(name: Option<&str>) -> (r: EventKind)
        ensures
            name is None ==> is_other_named(r, "?"@),
            name matches Some(n) ==> (match fixed_kind(n@) {
                Some(k) => r == k,
                None => is_other_named(r, n@),
            }),
    {
        match name {
            None => EventKind::Other(String::from_str("?")),
            Some(n) => {
                if same_text(n, "REGISTERING") {
                    EventKind::Registering
                } else if same_text(n, "REGISTER_OK") {
                    EventKind::RegisterOk
                } else if same_text(n, "REGISTER_FAIL") {
                    EventKind::RegisterFail
                } else if same_text(n, "UNREGISTERING") {
                    EventKind::Unregistering
                } else if same_text(n, "FALLBACK_OK") {
                    EventKind::FallbackOk
                } else if same_text(n, "FALLBACK_FAIL") {
                    EventKind::FallbackFail
                } else if same_text(n, "CREATE") {
                    EventKind::Create
                } else if same_text(n, "SHUTDOWN") {
                    EventKind::Shutdown
                } else if same_text(n, "EXIT") {
                    EventKind::Exit
                } else if same_text(n, "MODULE") {
                    EventKind::Module
                } else if same_text(n, "CUSTOM") {
                    EventKind::Custom
                } else {
                    EventKind::Other(String::from_str(n))
                }
            },
        }
    }

    /// The engine's name for this kind.
    pub fn name(&self) -> (r: String)
        ensures
            r@ == fixed_name(*self),
    {
        match self {
            EventKind::Registering => String::from_str("REGISTERING"),
            EventKind::RegisterOk => String::from_str("REGISTER_OK"),
            EventKind::RegisterFail => String::from_str("REGISTER_FAIL"),
            EventKind::Unregistering => String::from_str("UNREGISTERING"),
            EventKind::FallbackOk => String::from_str("FALLBACK_OK"),
            EventKind::FallbackFail => String::from_str("FALLBACK_FAIL"),
            EventKind::Create => String::from_str("CREATE"),
            EventKind::Shutdown => String::from_str("SHUTDOWN"),
            EventKind::Exit => String::from_str("EXIT"),
            EventKind::Module => String::from_str("MODULE"),
            EventKind::Custom => String::from_str("CUSTOM"),
            EventKind::Other(s) => s.clone(),
        }
    }
}

/// How a subscription's channel treats events when its reader falls behind.
#[derive(Debug, Clone, Copy, PartialEq, Eq, Structural)]
pub enum DeliveryMode {
    /// Never drops; grows without limit.
    Unbounded,
    /// Holds at most this many events; an event that arrives when it is full
    /// is dropped, so that the engine thread never blocks.
    Bounded(usize),
}

/// The delivery mode chosen at registration: capacity zero asks for an
/// unbounded channel, any other capacity for a bounded one of that size.
pub fn delivery_mode(capacity: usize) -> (r: DeliveryMode)
    ensures
        capacity == 0 ==> r == DeliveryMode::Unbounded,
        capacity > 0 ==> r == DeliveryMode::Bounded(capacity),
{
    if capacity == 0 {
        DeliveryMode::Unbounded
    } else {
        DeliveryMode::Bounded(capacity)
    }
}

/// The events delivered to one subscriber and not read yet.
pub struct EventQueue {
    mode: DeliveryMode,
    items: Vec<Event>,
}

/// Mathematical model of an event queue.
pub ghost struct EventQueueModel {
    pub mode: DeliveryMode,
    pub items: Seq<Event>,
}

impl View for EventQueue {
    type V = EventQueueModel;

    closed spec fn view(&self) -> EventQueueModel {
        EventQueueModel { mode: self.mode, items: self.items@ }
    }
}

/// Whether a queue has no room for one more event.
pub open spec fn is_full(q: EventQueueModel) -> bool {
    match q.mode {
        DeliveryMode::Unbounded => false,
        DeliveryMode::Bounded(cap) => q.items.len() >= cap,
    }
}

/// The queue after the engine thread hands it an event, and whether the event
/// was kept.
pub open spec fn deliver_step(q: EventQueueModel, ev: Event) -> (EventQueueModel, bool) {
    if is_full(q) {
        (q, false)
    } else {
        (EventQueueModel { mode: q.mode, items: q.items.push(ev) }, true)
    }
}

impl EventQueue {
    /// An empty queue with the given delivery mode.
    pub fn new(mode: DeliveryMode) -> (r: EventQueue)
        ensures
            r@.mode == mode,
            r@.items.len() == 0,
    {
        EventQueue { mode, items: Vec::new() }
    }

    /// Number of events waiting to be read.
    pub fn len(&self) -> (r: usize)
        ensures
            r == self@.items.len(),
    {
        self.items.len()
    }

    /// Hands an event to the subscriber without ever waiting: in bounded mode
    /// a full queue drops the new event and `false` is returned.
    pub fn deliver(&mut self, ev: Event) -> (r: bool)
        ensures
            (final(self)@, r) == deliver_step(old(self)@, ev),
    {
        let full = match self.mode {
            DeliveryMode::Unbounded => false,
            DeliveryMode::Bounded(cap) => self.items.len() >= cap,
        };
        if full {
            false
        } else {
            self.items.push(ev);
            true
        }
    }

    /// The oldest event not read yet, in the order the engine emitted them.
    pub fn receive(&mut self) -> (r: Option<Event>)
        ensures
            old(self)@.items.len() > 0 ==> r == Some(old(self)@.items[0]) && final(self)@ == (
            EventQueueModel { mode: old(self)@.mode, items: old(self)@.items.drop_first() }),
            old(self)@.items.len() == 0 ==> r is None && final(self)@ == old(self)@,
    {
        if self.items.len() > 0 {
            let ev = self.items.remove(0);
            proof {
                assert(self.items@ =~= old(self)@.items.drop_first());
            }
            Some(ev)
        } else {
            None
        }
    }
}

/// Life cycle of a subscription's native registration.
#[derive(Debug, Clone, Copy, PartialEq, Eq, Structural)]
pub enum SubscriptionPhase {
    /// The callback is installed and may be invoked with the context block.
    Live,
    /// The teardown job was queued on the engine thread and has not reported
    /// back yet.
    TeardownScheduled,
    /// The native registration is known to be reversed.
    TornDown,
    /// The bounded wait for the teardown passed without confirmation; the
    /// registration is reversed by the queued job before the engine thread
    /// dispatches another event.
    WaitElapsed,
    /// The context block and the channel end were freed.
    Released,
}

/// What the unregistering caller does next.
#[derive(Debug, Clone, Copy, PartialEq, Eq, Structural)]
pub enum UnregisterStep {
    /// Keep waiting for the engine thread to confirm the teardown.
    Wait,
    /// Stop waiting and free the subscription's memory.
    Release,
}

/// Phase after `unregister` tried to queue its teardown job: when the job
/// could not be queued the engine is gone and the teardown runs at once in
/// the caller.
pub open spec fn unregister_begin_step(p: SubscriptionPhase, scheduled: bool) -> SubscriptionPhase {
    if p == SubscriptionPhase::Live {
        if scheduled {
            SubscriptionPhase::TeardownScheduled
        } else {
            SubscriptionPhase::TornDown
        }
    } else {
        p
    }
}

/// Phase and decision of the unregistering caller after `waited_ms` of
/// waiting, given whether the engine thread confirmed the teardown.
pub open spec fn unregister_poll_step(p: SubscriptionPhase, confirmed: bool, waited_ms: u64) -> (
    SubscriptionPhase,
    UnregisterStep,
) {
    if p == SubscriptionPhase::TeardownScheduled {
        if confirmed {
            (SubscriptionPhase::TornDown, UnregisterStep::Release)
        } else if waited_ms >= UNREGISTER_WAIT_MS {
            (SubscriptionPhase::WaitElapsed, UnregisterStep::Release)
        } else {
            (p, UnregisterStep::Wait)
        }
    } else {
        (p, UnregisterStep::Release)
    }
}

/// Whether the memory of a subscription in this phase may be freed.
pub open spec fn may_release(p: SubscriptionPhase) -> bool {
    p == SubscriptionPhase::TornDown || p == SubscriptionPhase::WaitElapsed
}

/// One listener's claim on the engine's event stream.
pub struct Subscription {
    phase: SubscriptionPhase,
    mode: DeliveryMode,
}

/// Mathematical model of a subscription.
pub ghost struct SubscriptionModel {
    pub phase: SubscriptionPhase,
    pub mode: DeliveryMode,
}

impl View for Subscription {
    type V = SubscriptionModel;

    closed spec fn view(&self) -> SubscriptionModel {
        SubscriptionModel { phase: self.phase, mode: self.mode }
    }
}

impl Subscription {
    /// A live subscription whose channel has the given capacity (zero for an
    /// unbounded one).
    pub fn new(capacity: usize) -> (r: Subscription)
        ensures
            r@.phase == SubscriptionPhase::Live,
            capacity == 0 ==> r@.mode == DeliveryMode::Unbounded,
            capacity > 0 ==> r@.mode == DeliveryMode::Bounded(capacity),
    {
        Subscription { phase: SubscriptionPhase::Live, mode: delivery_mode(capacity) }
    }

    /// The current phase.
    pub fn phase(&self) -> (r: SubscriptionPhase)
        ensures
            r == self@.phase,
    {
        self.phase
    }

    /// The delivery mode of the subscription's channel.
    pub fn mode(&self) -> (r: DeliveryMode)
        ensures
            r == self@.mode,
    {
        self.mode
    }

    /// Records whether the teardown job could be queued on the engine thread.
    pub fn begin_unregister(&mut self, scheduled: bool)
        ensures
            final(self)@.phase == unregister_begin_step(old(self)@.phase, scheduled),
            final(self)@.mode == old(self)@.mode,
    {
        if let SubscriptionPhase::Live = self.phase {
            self.phase = if scheduled {
                SubscriptionPhase::TeardownScheduled
            } else {
                SubscriptionPhase::TornDown
            };
        }
    }

    /// Decides, after `waited_ms` of waiting, whether the caller of
    /// `unregister` stops waiting. The wait ends on confirmation, and in any
    /// case once `UNREGISTER_WAIT_MS` have passed, however busy the engine
    /// thread is.
    pub fn poll_unregister(&mut self, confirmed: bool, waited_ms: u64) -> (r: UnregisterStep)
        ensures
            (final(self)@.phase, r) == unregister_poll_step(old(self)@.phase, confirmed, waited_ms),
            final(self)@.mode == old(self)@.mode,
    {
        match self.phase {
            SubscriptionPhase::TeardownScheduled => {
                if confirmed {
                    self.phase = SubscriptionPhase::TornDown;
                    UnregisterStep::Release
                } else if waited_ms >= UNREGISTER_WAIT_MS {
                    self.phase = SubscriptionPhase::WaitElapsed;
                    UnregisterStep::Release
                } else {
                    UnregisterStep::Wait
                }
            },
            _ => UnregisterStep::Release,
        }
    }

    /// Marks the context block and channel end as freed. That is allowed only
    /// once the teardown is confirmed (or ran in the caller), or once the
    /// bounded wait for it has elapsed; otherwise nothing changes and `false`
    /// is returned.
    pub fn release(&mut self) -> (r: bool)
        ensures
            r == may_release(old(self)@.phase),
            r ==> final(self)@.phase == SubscriptionPhase::Released,
            !r ==> final(self)@ == old(self)@,
            final(self)@.mode == old(self)@.mode,
    {
        match self.phase {
            SubscriptionPhase::TornDown | SubscriptionPhase::WaitElapsed => {
                self.phase = SubscriptionPhase::Released;
                true
            },
            _ => false,
        }
    }
}

/// `unregister` never waits longer than its bound: once `UNREGISTER_WAIT_MS`
/// have passed the caller is told to release, even when the engine thread is
/// busy with another job and has not confirmed the teardown.
pub proof fn lemma_unregister_wait_is_bounded(p: SubscriptionPhase, confirmed: bool, waited_ms: u64)
    requires
        waited_ms >= UNREGISTER_WAIT_MS,
    ensures
        unregister_poll_step(p, confirmed, waited_ms).1 == UnregisterStep::Release,
{
}

/// From a live subscription, the memory can be freed only along one of the
/// paths the unregister protocol allows: the teardown ran in the caller
/// because the engine was gone, the engine thread confirmed it, or
/// `UNREGISTER_WAIT_MS` passed. While the teardown job is queued and the bound
/// has not passed, release is refused.
pub proof fn lemma_release_waits_for_teardown(scheduled: bool, confirmed: bool, waited_ms: u64)
    ensures
        !may_release(SubscriptionPhase::Live),
        !may_release(SubscriptionPhase::TeardownScheduled),
        scheduled && !confirmed && waited_ms < UNREGISTER_WAIT_MS ==> !may_release(
            unregister_poll_step(
                unregister_begin_step(SubscriptionPhase::Live, scheduled),
                confirmed,
                waited_ms,
            ).0,
        ),
        scheduled && (confirmed || waited_ms >= UNREGISTER_WAIT_MS) ==> may_release(
            unregister_poll_step(
                unregister_begin_step(SubscriptionPhase::Live, scheduled),
                confirmed,
                waited_ms,
            ).0,
        ),
        !scheduled ==> may_release(unregister_begin_step(SubscriptionPhase::Live, scheduled)),
{
}

/// A live subscription released after its teardown was confirmed, or after
/// the engine thread was found gone, has its native registration reversed
/// before its memory is freed.
pub proof fn lemma_teardown_precedes_release(scheduled: bool, waited_ms: u64)
    ensures
        !scheduled ==> unregister_begin_step(SubscriptionPhase::Live, scheduled)
            == SubscriptionPhase::TornDown,
        scheduled ==> unregister_poll_step(
            unregister_begin_step(SubscriptionPhase::Live, scheduled),
            true,
            waited_ms,
        ) == (SubscriptionPhase::TornDown, UnregisterStep::Release),
{
}

} // verus!
