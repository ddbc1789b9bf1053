use vstd::prelude::*;

use crate::ids::{EntityId, ObjectHandle};
use crate::registry::{has_entity, Registry};

verus! {

/// Kinematic state of one tracked body. Each component is the IEEE-754 bit
/// pattern of an `f32`, so the record is exact and engine-agnostic.
#[derive(Clone, Copy, Debug, PartialEq, Eq)]
pub struct BodyState {
    pub entity: EntityId,
    pub position: [u32; 3],
    pub orientation: [u32; 4],
    pub linear_velocity: [u32; 3],
    pub angular_velocity: [u32; 3],
}

/// Actuator command for a joint motor: target position and velocity, as
/// IEEE-754 bit patterns of `f32` values.
#[derive(Clone, Copy, Debug, PartialEq, Eq, Structural)]
pub struct MotorCommand {
    pub position: u32,
    pub velocity: u32,
}

/// A motor command accepted for the physics engine, addressed by handle. It
/// takes effect at the next physics step.
#[derive(Clone, Copy, Debug, PartialEq, Eq, Structural)]
pub struct MotorForward {
    pub handle: ObjectHandle,
    pub command: MotorCommand,
}

#[derive(Clone, Copy, Debug, PartialEq, Eq, Structural)]
pub enum CommandError {
    /// The target entity owns no live physics object.
    TargetNotFound,
}

/// Request from an external caller to the simulation.
#[derive(Clone, Copy, Debug, PartialEq, Eq, Structural)]
pub enum ControlRequest {
    TogglePhysics,
    QuerySerializableState,
    ApplyMotorCommand(EntityId, MotorCommand),
}

/// Answer to a request, of the variant matching the request's kind.
#[derive(Debug, PartialEq, Eq)]
pub enum ControlResponse {
    /// The running state after the toggle.
    PhysicsToggled(bool),
    /// The tracked bodies at the time the request was answered.
    SerializableState(Vec<BodyState>),
    MotorCommandAck(Result<(), CommandError>),
}

/// What a response says, with the state blob as a sequence.
pub enum ResponseView {
    PhysicsToggled(bool),
    SerializableState(Seq<BodyState>),
    MotorCommandAck(Result<(), CommandError>),
}

impl View for ControlResponse {
    type V = ResponseView;

    open spec fn view(&self) -> ResponseView {
        match self {
            ControlResponse::PhysicsToggled(b) => ResponseView::PhysicsToggled(*b),
            ControlResponse::SerializableState(v) => ResponseView::SerializableState(v@),
            ControlResponse::MotorCommandAck(r) => ResponseView::MotorCommandAck(*r),
        }
    }
}

pub open spec fn views_of(rs: Seq<ControlResponse>) -> Seq<ResponseView> {
    rs.map_values(|r: ControlResponse| r@)
}

/// The state of the control protocol: whether physics steps, and the motor
/// commands handed to the engine so far, oldest first.
pub struct ControlModel {
    pub running: bool,
    pub forwarded: Seq<MotorForward>,
}

/// Answers one request against the registry `reg` and the tracked `bodies`.
pub open spec fn apply_request(
    s: ControlModel,
    reg: Map<u64, u64>,
    bodies: Seq<BodyState>,
    req: ControlRequest,
) -> (ControlModel, ResponseView) {
    match req {
        ControlRequest::TogglePhysics => (
            ControlModel { running: !s.running, forwarded: s.forwarded },
            ResponseView::PhysicsToggled(!s.running),
        ),
        ControlRequest::QuerySerializableState => (s, ResponseView::SerializableState(bodies)),
        ControlRequest::ApplyMotorCommand(target, command) => {
            if has_entity(reg, target.bits) {
                let h = choose|h: u64| reg.contains_key(h) && reg[h] == target.bits;
                (
                    ControlModel {
                        running: s.running,
                        forwarded: s.forwarded.push(
                            MotorForward { handle: ObjectHandle { raw: h }, command },
                        ),
                    },
                    ResponseView::MotorCommandAck(Ok(())),
                )
            } else {
                (s, ResponseView::MotorCommandAck(Err(CommandError::TargetNotFound)))
            }
        },
    }
}

/// Answers requests in order, each against the state the previous ones left.
pub open spec fn run_requests(
    s: ControlModel,
    reg: Map<u64, u64>,
    bodies: Seq<BodyState>,
    reqs: Seq<ControlRequest>,
) -> (ControlModel, Seq<ResponseView>)
    decreases reqs.len(),
{
    if reqs.len() == 0 {
        (s, Seq::empty())
    } else {
        let (s1, rs) = run_requests(s, reg, bodies, reqs.drop_last());
        let (s2, r) = apply_request(s1, reg, bodies, reqs.last());
        (s2, rs.push(r))
    }
}

/// The simulation-control component: the run/pause flag of the physics step
/// and the motor commands waiting for the engine.
pub struct SimulationControl {
    pub physics_running: bool,
    pub forwarded: Vec<MotorForward>,
}

impl View for SimulationControl {
    type V = ControlModel;

    open spec fn view(&self) -> ControlModel {
        ControlModel { running: self.physics_running, forwarded: self.forwarded@ }
    }
}

/// Copies the tracked bodies into a state blob.
fn snapshot(bodies: &Vec<BodyState>) -> (r: Vec<BodyState>)
    ensures
        r@ == bodies@,
{
    let mut out: Vec<BodyState> = Vec::new();
    let mut i: usize = 0;
    while i < bodies.len()
        invariant
            i <= bodies@.len(),
            out@ == bodies@.take(i as int),
        decreases bodies@.len() - i,
    {
        out.push(bodies[i]);
        i = i + 1;
        assert(out@ =~= bodies@.take(i as int));
    }
    assert(bodies@.take(i as int) =~= bodies@);
    out
}

impl SimulationControl {
    pub fn new(physics_running: bool) -> (r: SimulationControl)
        ensures
            r@.running == physics_running,
            r@.forwarded == Seq::<MotorForward>::empty(),
    {
        SimulationControl { physics_running, forwarded: Vec::new() }
    }

    /// Answers one request, updating the control state.
    pub fn handle_request(
        &mut self,
        reg: &Registry,
        bodies: &Vec<BodyState>,
        req: ControlRequest,
    ) -> (r: ControlResponse)
        requires
            reg.wf(),
        ensures
            (final(self)@, r@) == apply_request(old(self)@, reg@, bodies@, req),
    {
        match req {
            ControlRequest::TogglePhysics => {
                self.physics_running = !self.physics_running;
                ControlResponse::PhysicsToggled(self.physics_running)
            },
            ControlRequest::QuerySerializableState => {
                ControlResponse::SerializableState(snapshot(bodies))
            },
            ControlRequest::ApplyMotorCommand(target, command) => {
                match reg.handle_of(target) {
                    Some(handle) => {
                        proof {
                            let h = choose|h: u64| reg@.contains_key(h) && reg@[h] == target.bits;
                            reg.lemma_one_handle_per_entity(h, handle.raw);
                        }
                        self.forwarded.push(MotorForward { handle, command });
                        ControlResponse::MotorCommandAck(Ok(()))
                    },
                    None => ControlResponse::MotorCommandAck(Err(CommandError::TargetNotFound)),
                }
            },
        }
    }

    /// Answers every pending request in publication order, one response each.
    pub fn process_requests(
        &mut self,
        reg: &Registry,
        bodies: &Vec<BodyState>,
        reqs: &Vec<ControlRequest>,
    ) -> (r: Vec<ControlResponse>)
        requires
            reg.wf(),
        ensures
            (final(self)@, views_of(r@)) == run_requests(old(self)@, reg@, bodies@, reqs@),
    {
        let mut out: Vec<ControlResponse> = Vec::new();
        let mut i: usize = 0;
        while i < reqs.len()
            invariant
                reg.wf(),
                i <= reqs@.len(),
                (self@, views_of(out@)) == run_requests(
                    old(self)@,
                    reg@,
                    bodies@,
                    reqs@.take(i as int),
                ),
            decreases reqs@.len() - i,
        {
            assert(reqs@.take(i + 1).drop_last() =~= reqs@.take(i as int));
            let ghost prev = out@;
            let r = self.handle_request(reg, bodies, reqs[i]);
            out.push(r);
            assert(views_of(out@) =~= views_of(prev).push(r@));
            i = i + 1;
        }
        assert(reqs@.take(i as int) =~= reqs@);
        out
    }
}

} // verus!
