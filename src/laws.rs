use vstd::prelude::*;

use crate::collision::{
    translate_all_spec, translate_spec, CollisionData, CollisionEvent, CollisionKind,
    CollisionNotification,
};
use crate::control::{
    apply_request, run_requests, BodyState, CommandError, ControlModel, ControlRequest,
    MotorCommand, MotorForward, ResponseView,
};
use crate::ids::{EntityId, ObjectHandle};
use crate::registry::{has_entity, Registry};

verus! {

/// A notification whose two handles resolve yields exactly one event, with
/// the entity pair of those handles, the same flags and the same kind.
pub proof fn lemma_translate_resolved(reg: Map<u64, u64>, n: CollisionNotification)
    requires
        reg.contains_key(n.handle1.raw),
        reg.contains_key(n.handle2.raw),
    ensures
        ({
            let data = CollisionData {
                entity1: EntityId { bits: reg[n.handle1.raw] },
                entity2: EntityId { bits: reg[n.handle2.raw] },
                flag: n.flags,
            };
            translate_spec(reg, n) == Some(
                match n.kind {
                    CollisionKind::Started => CollisionEvent::CollisionStarted(data),
                    CollisionKind::Stopped => CollisionEvent::CollisionStopped(data),
                },
            )
        }),
        translate_all_spec(reg, seq![n]) == seq![translate_spec(reg, n).unwrap()],
{
    assert(seq![n].drop_last() =~= Seq::<CollisionNotification>::empty());
    assert(seq![n].last() == n);
    assert(translate_all_spec(reg, Seq::<CollisionNotification>::empty()) == Seq::<
        CollisionEvent,
    >::empty());
    assert(Seq::<CollisionEvent>::empty().push(translate_spec(reg, n).unwrap()) =~= seq![
        translate_spec(reg, n).unwrap(),
    ]);
}

/// Translating a queue piecewise gives the same events, in the same order, as
/// translating it whole.
pub proof fn lemma_translate_concat(
    reg: Map<u64, u64>,
    a: Seq<CollisionNotification>,
    b: Seq<CollisionNotification>,
)
    ensures
        translate_all_spec(reg, a + b) == translate_all_spec(reg, a) + translate_all_spec(reg, b),
    decreases b.len(),
{
    if b.len() == 0 {
        assert(a + b =~= a);
        assert(translate_all_spec(reg, a) + translate_all_spec(reg, b) =~= translate_all_spec(
            reg,
            a,
        ));
    } else {
        lemma_translate_concat(reg, a, b.drop_last());
        assert((a + b).drop_last() =~= a + b.drop_last());
        assert((a + b).last() == b.last());
        match translate_spec(reg, b.last()) {
            Some(e) => {
                assert(translate_all_spec(reg, a) + translate_all_spec(reg, b.drop_last()).push(e)
                    =~= (translate_all_spec(reg, a) + translate_all_spec(reg, b.drop_last())).push(
                    e,
                ));
            },
            None => {},
        }
    }
}

/// When every handle of a queue resolves, translation gives one event per
/// notification, the i-th event coming from the i-th notification.
pub proof fn lemma_translate_all_resolved(reg: Map<u64, u64>, ns: Seq<CollisionNotification>)
    requires
        forall|i: int|
            0 <= i < ns.len() ==> reg.contains_key(#[trigger] ns[i].handle1.raw) && reg.contains_key(
                ns[i].handle2.raw,
            ),
    ensures
        translate_all_spec(reg, ns).len() == ns.len(),
        forall|i: int|
            0 <= i < ns.len() ==> Some(#[trigger] translate_all_spec(reg, ns)[i]) == translate_spec(
                reg,
                ns[i],
            ),
    decreases ns.len(),
{
    if ns.len() > 0 {
        let p = ns.drop_last();
        assert forall|i: int| 0 <= i < p.len() implies reg.contains_key(
            #[trigger] p[i].handle1.raw,
        ) && reg.contains_key(p[i].handle2.raw) by {
            assert(p[i] == ns[i]);
        }
        lemma_translate_all_resolved(reg, p);
        assert(reg.contains_key(ns[ns.len() - 1].handle1.raw));
        assert forall|i: int| 0 <= i < ns.len() implies Some(
            #[trigger] translate_all_spec(reg, ns)[i],
        ) == translate_spec(reg, ns[i]) by {
            if i < p.len() {
                assert(ns[i] == p[i]);
                assert(translate_all_spec(reg, p)[i] == translate_all_spec(reg, ns)[i]);
            }
        }
    }
}

/// A notification with a handle that no longer resolves yields no event, and
/// queueing it changes nothing in what a queue translates to.
pub proof fn lemma_translate_unresolved(
    reg: Map<u64, u64>,
    ns: Seq<CollisionNotification>,
    n: CollisionNotification,
)
    requires
        !reg.contains_key(n.handle1.raw) || !reg.contains_key(n.handle2.raw),
    ensures
        translate_spec(reg, n) is None,
        translate_all_spec(reg, ns.push(n)) == translate_all_spec(reg, ns),
{
    assert(ns.push(n).drop_last() =~= ns);
}

/// Two toggles in a row answer opposite states and leave the running state
/// as it was.
pub proof fn lemma_toggle_twice(s: ControlModel, reg: Map<u64, u64>, bodies: Seq<BodyState>)
    ensures
        ({
            let (s1, r1) = apply_request(s, reg, bodies, ControlRequest::TogglePhysics);
            let (s2, r2) = apply_request(s1, reg, bodies, ControlRequest::TogglePhysics);
            &&& r1 == ResponseView::PhysicsToggled(!s.running)
            &&& r2 == ResponseView::PhysicsToggled(s.running)
            &&& s2 == s
        }),
{
}

/// Every request processed in a tick gets its response in that tick, and a
/// toggle's response is of the toggle's kind.
pub proof fn lemma_one_response_per_request(
    s: ControlModel,
    reg: Map<u64, u64>,
    bodies: Seq<BodyState>,
    reqs: Seq<ControlRequest>,
)
    ensures
        run_requests(s, reg, bodies, reqs).1.len() == reqs.len(),
        forall|i: int|
            0 <= i < reqs.len() && reqs[i] == ControlRequest::TogglePhysics ==> (
            #[trigger] run_requests(s, reg, bodies, reqs).1[i]) is PhysicsToggled,
    decreases reqs.len(),
{
    if reqs.len() > 0 {
        let p = reqs.drop_last();
        lemma_one_response_per_request(s, reg, bodies, p);
        assert forall|i: int|
            0 <= i < reqs.len() && reqs[i] == ControlRequest::TogglePhysics implies (
            #[trigger] run_requests(s, reg, bodies, reqs).1[i]) is PhysicsToggled by {
            if i < p.len() {
                assert(reqs[i] == p[i]);
                assert(run_requests(s, reg, bodies, p).1[i] == run_requests(
                    s,
                    reg,
                    bodies,
                    reqs,
                ).1[i]);
            }
        }
    }
}

/// A motor command for an entity without a live object is refused with
/// `TargetNotFound` and forwards nothing; one for an entity with a live object
/// is acknowledged and forwards the command to that object exactly once.
pub proof fn lemma_motor_command(
    s: ControlModel,
    reg: &Registry,
    bodies: Seq<BodyState>,
    target: EntityId,
    command: MotorCommand,
)
    requires
        reg.wf(),
    ensures
        ({
            let (s1, r) = apply_request(
                s,
                reg@,
                bodies,
                ControlRequest::ApplyMotorCommand(target, command),
            );
            &&& !has_entity(reg@, target.bits) ==> r == ResponseView::MotorCommandAck(
                Err(CommandError::TargetNotFound),
            ) && s1 == s
            &&& forall|h: u64|
                reg@.contains_key(h) && reg@[h] == target.bits ==> r
                    == ResponseView::MotorCommandAck(Ok(())) && s1 == (ControlModel {
                    running: s.running,
                    forwarded: s.forwarded.push(
                        MotorForward { handle: ObjectHandle { raw: h }, command },
                    ),
                })
        }),
{
    assert forall|h: u64| reg@.contains_key(h) && reg@[h] == target.bits implies {
        let h0 = choose|h0: u64| reg@.contains_key(h0) && reg@[h0] == target.bits;
        h0 == h
    } by {
        let h0 = choose|h0: u64| reg@.contains_key(h0) && reg@[h0] == target.bits;
        reg.lemma_one_handle_per_entity(h0, h);
    }
}

} // verus!
