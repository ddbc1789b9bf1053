use vstd::prelude::*;

use crate::collision::{translate_all_spec, CollisionEvent, CollisionEventHandler};
use crate::control::{
    run_requests, views_of, BodyState, ControlRequest, ControlResponse, SimulationControl,
};
use crate::registry::Registry;

verus! {

/// What one tick of the dispatch stage publishes: first the collision events,
/// then one response per control request.
pub struct TickOutput {
    pub collision_events: Vec<CollisionEvent>,
    pub responses: Vec<ControlResponse>,
}

/// The bridge as the host owns it: the handle registry, the buffered engine
/// notifications and the simulation-control state.
pub struct PhysicsBridge {
    pub registry: Registry,
    pub collisions: CollisionEventHandler,
    pub control: SimulationControl,
}

impl PhysicsBridge {
    pub open spec fn wf(&self) -> bool {
        self.registry.wf()
    }

    /// The dispatch stage, run once per tick after the physics step: drains the
    /// notification buffer into host events, then answers the pending requests
    /// in publication order against the tracked `bodies`.
    pub fn tick(&mut self, bodies: &Vec<BodyState>, requests: &Vec<ControlRequest>) -> (r:
        TickOutput)
        requires
            old(self).wf(),
        ensures
            final(self).wf(),
            final(self).registry@ == old(self).registry@,
            final(self).collisions@ == Seq::<crate::collision::CollisionNotification>::empty(),
            r.collision_events@ == translate_all_spec(old(self).registry@, old(self).collisions@),
            (final(self).control@, views_of(r.responses@)) == run_requests(
                old(self).control@,
                old(self).registry@,
                bodies@,
                requests@,
            ),
    {
        let collision_events = self.collisions.send_events(&self.registry);
        let responses = self.control.process_requests(&self.registry, bodies, requests);
        TickOutput { collision_events, responses }
    }
}

/// Sets up the physics side of the simulation.
#[derive(Default)]
pub struct DefaultPhysicsPlugin;

impl DefaultPhysicsPlugin {
    /// A bridge with no registered object, no pending notification and the
    /// physics step running.
    pub fn build(&self) -> (r: PhysicsBridge)
        ensures
            r.wf(),
            r.registry@ == Map::<u64, u64>::empty(),
            r.collisions@ == Seq::<crate::collision::CollisionNotification>::empty(),
            r.control@.running,
            r.control@.forwarded == Seq::<crate::control::MotorForward>::empty(),
    {
        PhysicsBridge {
            registry: Registry::new(),
            collisions: CollisionEventHandler::new(),
            control: SimulationControl::new(true),
        }
    }
}

/// The request that a press of the pause key issues: a toggle when the key was
/// just pressed, nothing otherwise.
pub fn change_physic_state_on_space(space_just_pressed: bool) -> (r: Option<ControlRequest>)
    ensures
        r == (if space_just_pressed {
            Some(ControlRequest::TogglePhysics)
        } else {
            None
        }),
{
    if space_just_pressed {
        Some(ControlRequest::TogglePhysics)
    } else {
        None
    }
}

} // verus!
