use vstd::prelude::*;

use crate::channel::NotificationChannel;
use crate::ids::{EntityId, ObjectHandle};
use crate::registry::Registry;

verus! {

/// Whether a contact began or ended.
#[derive(Clone, Copy, Debug, PartialEq, Eq, Structural)]
pub enum CollisionKind {
    Started,
    Stopped,
}

/// Raw record reported by the physics engine, addressed by its handles.
/// `flags` is the engine's qualifier bitset, passed through untouched.
#[derive(Clone, Copy, Debug, PartialEq, Eq, Structural)]
pub struct CollisionNotification {
    pub handle1: ObjectHandle,
    pub handle2: ObjectHandle,
    pub kind: CollisionKind,
    pub flags: u32,
}

/// The entities of a contact, with the engine's qualifier bitset.
#[derive(Clone, Copy, Debug, PartialEq, Eq, Structural)]
pub struct CollisionData {
    pub entity1: EntityId,
    pub entity2: EntityId,
    pub flag: u32,
}

/// Host-facing collision event, addressed by entities.
#[derive(Clone, Copy, Debug, PartialEq, Eq, Structural)]
pub enum CollisionEvent {
    CollisionStarted(CollisionData),
    CollisionStopped(CollisionData),
}

/// Why an engine hook gave no result.
#[derive(Clone, Copy, Debug, PartialEq, Eq, Structural)]
pub enum HookError {
    /// Continuous contact-force reporting is not provided.
    NotSupported,
}

/// The event for a notification whose two handles resolve in `reg`, if they do.
pub open spec fn translate_spec(reg: Map<u64, u64>, n: CollisionNotification) -> Option<
    CollisionEvent,
> {
    if reg.contains_key(n.handle1.raw) && reg.contains_key(n.handle2.raw) {
        let data = CollisionData {
            entity1: EntityId { bits: reg[n.handle1.raw] },
            entity2: EntityId { bits: reg[n.handle2.raw] },
            flag: n.flags,
        };
        Some(
            match n.kind {
                CollisionKind::Started => CollisionEvent::CollisionStarted(data),
                CollisionKind::Stopped => CollisionEvent::CollisionStopped(data),
            },
        )
    } else {
        None
    }
}

/// The events for a sequence of notifications, in order, leaving out those
/// that do not resolve.
pub open spec fn translate_all_spec(reg: Map<u64, u64>, ns: Seq<CollisionNotification>) -> Seq<
    CollisionEvent,
>
    decreases ns.len(),
{
    if ns.len() == 0 {
        Seq::empty()
    } else {
        let prev = translate_all_spec(reg, ns.drop_last());
        match translate_spec(reg, ns.last()) {
            Some(e) => prev.push(e),
            None => prev,
        }
    }
}

/// Translates one notification; it is dropped when either handle no longer
/// names a live object.
pub fn translate(reg: &Registry, n: &CollisionNotification) -> (r: Option<CollisionEvent>)
    requires
        reg.wf(),
    ensures
        r == translate_spec(reg@, *n),
{
    match (reg.entity_of(n.handle1), reg.entity_of(n.handle2)) {
        (Some(entity1), Some(entity2)) => {
            let data = CollisionData { entity1, entity2, flag: n.flags };
            match n.kind {
                CollisionKind::Started => Some(CollisionEvent::CollisionStarted(data)),
                CollisionKind::Stopped => Some(CollisionEvent::CollisionStopped(data)),
            }
        },
        _ => None,
    }
}

/// Translates a sequence of notifications in order.
pub fn translate_all(reg: &Registry, ns: &Vec<CollisionNotification>) -> (r: Vec<CollisionEvent>)
    requires
        reg.wf(),
    ensures
        r@ == translate_all_spec(reg@, ns@),
{
    let mut out: Vec<CollisionEvent> = Vec::new();
    let mut i: usize = 0;
    while i < ns.len()
        invariant
            reg.wf(),
            i <= ns@.len(),
            out@ == translate_all_spec(reg@, ns@.take(i as int)),
        decreases ns@.len() - i,
    {
        assert(ns@.take(i + 1).drop_last() =~= ns@.take(i as int));
        if let Some(e) = translate(reg, &ns[i]) {
            out.push(e);
        }
        i = i + 1;
    }
    assert(ns@.take(i as int) =~= ns@);
    out
}

/// Receives the engine's collision callbacks and buffers them until the
/// dispatch stage turns them into host events.
pub struct CollisionEventHandler {
    channel: NotificationChannel,
}

impl View for CollisionEventHandler {
    type V = Seq<CollisionNotification>;

    closed spec fn view(&self) -> Seq<CollisionNotification> {
        self.channel@
    }
}

impl CollisionEventHandler {
    pub fn new() -> (r: CollisionEventHandler)
        ensures
            r@ == Seq::<CollisionNotification>::empty(),
    {
        CollisionEventHandler { channel: NotificationChannel::new() }
    }

    /// Callback for a contact that started or stopped: queues it without blocking.
    pub fn handle_collision_event(&mut self, n: CollisionNotification)
        ensures
            final(self)@ == old(self)@.push(n),
    {
        self.channel.send(n);
    }

    /// Callback for continuous contact forces, which this bridge does not report.
    pub fn handle_contact_force_event(&self, handle1: ObjectHandle, handle2: ObjectHandle) -> (r:
        Result<(), HookError>)
        ensures
            r == Err::<(), HookError>(HookError::NotSupported),
    {
        Err(HookError::NotSupported)
    }

    /// Takes every buffered notification, in arrival order.
    pub fn drain_all(&mut self) -> (r: Vec<CollisionNotification>)
        ensures
            r@ == old(self)@,
            final(self)@ == Seq::<CollisionNotification>::empty(),
    {
        self.channel.drain_all()
    }

    /// Empties the buffer and returns the host events for what it held, in
    /// arrival order, leaving out notifications whose handles no longer resolve.
    pub fn send_events(&mut self, reg: &Registry) -> (r: Vec<CollisionEvent>)
        requires
            reg.wf(),
        ensures
            r@ == translate_all_spec(reg@, old(self)@),
            final(self)@ == Seq::<CollisionNotification>::empty(),
    {
        let mut out: Vec<CollisionEvent> = Vec::new();
        let ghost done: Seq<CollisionNotification> = Seq::empty();
        loop
            invariant
                reg.wf(),
                done + self@ == old(self)@,
                out@ == translate_all_spec(reg@, done),
            decreases self@.len(),
        {
            let ghost before = self@;
            match self.channel.try_recv() {
                Some(n) => {
                    proof {
                        assert(done.push(n).drop_last() =~= done);
                        assert(done.push(n) + self@ =~= old(self)@) by {
                            assert(before =~= seq![n] + self@);
                        }
                        done = done.push(n);
                    }
                    if let Some(e) = translate(reg, &n) {
                        out.push(e);
                    }
                },
                None => {
                    assert(done =~= old(self)@);
                    return out;
                },
            }
        }
    }
}

} // verus!
