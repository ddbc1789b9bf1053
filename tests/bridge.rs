use physics_bridge::channel::NotificationChannel;
use physics_bridge::collision::{
    translate, translate_all, CollisionData, CollisionEvent, CollisionEventHandler, CollisionKind,
    CollisionNotification, HookError,
};
use physics_bridge::control::{
    BodyState, CommandError, ControlRequest, ControlResponse, MotorCommand, MotorForward,
    SimulationControl,
};
use physics_bridge::dispatch::{change_physic_state_on_space, DefaultPhysicsPlugin, PhysicsBridge};
use physics_bridge::ids::{EntityId, ObjectHandle};
use physics_bridge::registry::{Registry, RegistryError};

fn h(raw: u64) -> ObjectHandle {
    ObjectHandle::from_raw(raw)
}

fn e(bits: u64) -> EntityId {
    EntityId::from_bits(bits)
}

fn note(a: u64, b: u64, kind: CollisionKind, flags: u32) -> CollisionNotification {
    CollisionNotification { handle1: h(a), handle2: h(b), kind, flags }
}

fn data(a: u64, b: u64, flag: u32) -> CollisionData {
    CollisionData { entity1: e(a), entity2: e(b), flag }
}

fn two_objects() -> PhysicsBridge {
    let mut bridge = DefaultPhysicsPlugin.build();
    assert_eq!(bridge.registry.register(h(1), e(100)), Ok(()));
    assert_eq!(bridge.registry.register(h(2), e(200)), Ok(()));
    bridge
}

fn body(entity: u64, x: f32, y: f32, z: f32) -> BodyState {
    BodyState {
        entity: e(entity),
        position: [x.to_bits(), y.to_bits(), z.to_bits()],
        orientation: [0.0f32.to_bits(), 0.0f32.to_bits(), 0.0f32.to_bits(), 1.0f32.to_bits()],
        linear_velocity: [0; 3],
        angular_velocity: [0; 3],
    }
}

#[test]
fn entity_bits_round_trip() {
    let id = EntityId::from_bits(0x0000_0003_0000_0007);
    assert_eq!(id.to_bits(), 0x0000_0003_0000_0007);
    assert_eq!(EntityId::from_bits(id.to_bits()), id);
}

#[test]
fn registry_resolves_both_directions() {
    let mut reg = Registry::new();
    assert_eq!(reg.register(h(5), e(50)), Ok(()));
    assert_eq!(reg.entity_of(h(5)), Some(e(50)));
    assert_eq!(reg.handle_of(e(50)), Some(h(5)));
    assert_eq!(reg.entity_of(h(6)), None);
    assert_eq!(reg.handle_of(e(60)), None);
}

#[test]
fn registry_refuses_reused_handle_or_entity() {
    let mut reg = Registry::new();
    assert_eq!(reg.register(h(5), e(50)), Ok(()));
    assert_eq!(reg.register(h(5), e(51)), Err(RegistryError::HandleInUse));
    assert_eq!(reg.register(h(6), e(50)), Err(RegistryError::EntityInUse));
    assert_eq!(reg.entity_of(h(5)), Some(e(50)));
    assert_eq!(reg.entity_of(h(6)), None);
}

#[test]
fn registry_unregister_forgets_both_directions() {
    let mut reg = Registry::new();
    assert_eq!(reg.register(h(5), e(50)), Ok(()));
    assert_eq!(reg.unregister(h(5)), Some(e(50)));
    assert_eq!(reg.unregister(h(5)), None);
    assert_eq!(reg.entity_of(h(5)), None);
    assert_eq!(reg.handle_of(e(50)), None);
    assert_eq!(reg.register(h(6), e(50)), Ok(()));
}

#[test]
fn translate_resolved_notification_keeps_pair_kind_and_flags() {
    let mut reg = Registry::new();
    reg.register(h(1), e(100)).unwrap();
    reg.register(h(2), e(200)).unwrap();
    assert_eq!(
        translate(&reg, &note(1, 2, CollisionKind::Started, 3)),
        Some(CollisionEvent::CollisionStarted(data(100, 200, 3)))
    );
    assert_eq!(
        translate(&reg, &note(2, 1, CollisionKind::Stopped, 1)),
        Some(CollisionEvent::CollisionStopped(data(200, 100, 1)))
    );
}

#[test]
fn translate_drops_unresolved_handle() {
    let mut reg = Registry::new();
    reg.register(h(1), e(100)).unwrap();
    assert_eq!(translate(&reg, &note(1, 9, CollisionKind::Started, 0)), None);
    assert_eq!(translate(&reg, &note(9, 1, CollisionKind::Stopped, 0)), None);
}

#[test]
fn translate_all_keeps_order_and_duplicates() {
    let mut reg = Registry::new();
    reg.register(h(1), e(100)).unwrap();
    reg.register(h(2), e(200)).unwrap();
    let ns = vec![
        note(1, 2, CollisionKind::Started, 0),
        note(1, 7, CollisionKind::Started, 0),
        note(1, 2, CollisionKind::Stopped, 2),
        note(1, 2, CollisionKind::Started, 0),
    ];
    assert_eq!(
        translate_all(&reg, &ns),
        vec![
            CollisionEvent::CollisionStarted(data(100, 200, 0)),
            CollisionEvent::CollisionStopped(data(100, 200, 2)),
            CollisionEvent::CollisionStarted(data(100, 200, 0)),
        ]
    );
}

#[test]
fn drain_on_empty_channel_is_empty() {
    let mut ch = NotificationChannel::new();
    assert!(ch.drain_all().is_empty());
    assert!(ch.drain_all().is_empty());
    assert_eq!(ch.try_recv(), None);
}

#[test]
fn drain_returns_every_send_in_order() {
    let mut ch = NotificationChannel::new();
    let sent: Vec<CollisionNotification> =
        (0..50u64).map(|i| note(i, i + 1, CollisionKind::Started, (i % 4) as u32)).collect();
    for n in &sent {
        ch.send(*n);
    }
    assert_eq!(ch.drain_all(), sent);
    assert!(ch.drain_all().is_empty());
}

#[test]
fn try_recv_takes_oldest_first() {
    let mut ch = NotificationChannel::new();
    ch.send(note(1, 2, CollisionKind::Started, 0));
    ch.send(note(3, 4, CollisionKind::Stopped, 0));
    assert_eq!(ch.try_recv(), Some(note(1, 2, CollisionKind::Started, 0)));
    assert_eq!(ch.try_recv(), Some(note(3, 4, CollisionKind::Stopped, 0)));
    assert_eq!(ch.try_recv(), None);
}

#[test]
fn handler_buffers_and_drains() {
    let mut handler = CollisionEventHandler::new();
    handler.handle_collision_event(note(1, 2, CollisionKind::Started, 0));
    handler.handle_collision_event(note(1, 2, CollisionKind::Stopped, 0));
    assert_eq!(
        handler.drain_all(),
        vec![note(1, 2, CollisionKind::Started, 0), note(1, 2, CollisionKind::Stopped, 0)]
    );
    assert!(handler.drain_all().is_empty());
}

#[test]
fn contact_force_hook_is_not_supported() {
    let handler = CollisionEventHandler::new();
    assert_eq!(handler.handle_contact_force_event(h(1), h(2)), Err(HookError::NotSupported));
}

#[test]
fn started_then_stopped_two_ticks_later() {
    let mut bridge = two_objects();
    let bodies: Vec<BodyState> = Vec::new();
    let none: Vec<ControlRequest> = Vec::new();

    bridge.collisions.handle_collision_event(note(1, 2, CollisionKind::Started, 0));
    let k = bridge.tick(&bodies, &none);
    assert_eq!(k.collision_events, vec![CollisionEvent::CollisionStarted(data(100, 200, 0))]);

    let k1 = bridge.tick(&bodies, &none);
    assert!(k1.collision_events.is_empty());

    bridge.collisions.handle_collision_event(note(1, 2, CollisionKind::Stopped, 0));
    let k2 = bridge.tick(&bodies, &none);
    assert_eq!(k2.collision_events, vec![CollisionEvent::CollisionStopped(data(100, 200, 0))]);
}

#[test]
fn destroyed_entity_drops_stopped_notification() {
    let mut bridge = two_objects();
    let bodies: Vec<BodyState> = Vec::new();
    let none: Vec<ControlRequest> = Vec::new();
    bridge.collisions.handle_collision_event(note(1, 2, CollisionKind::Stopped, 2));
    assert_eq!(bridge.registry.unregister(h(2)), Some(e(200)));
    let out = bridge.tick(&bodies, &none);
    assert!(out.collision_events.is_empty());
    assert!(out.responses.is_empty());
}

#[test]
fn two_toggles_answer_opposite_states() {
    let mut bridge = two_objects();
    let bodies: Vec<BodyState> = Vec::new();
    assert!(bridge.control.physics_running);
    let reqs = vec![ControlRequest::TogglePhysics, ControlRequest::TogglePhysics];
    let out = bridge.tick(&bodies, &reqs);
    assert_eq!(
        out.responses,
        vec![ControlResponse::PhysicsToggled(false), ControlResponse::PhysicsToggled(true)]
    );
    assert!(bridge.control.physics_running);
    let out = bridge.tick(&bodies, &vec![ControlRequest::TogglePhysics]);
    assert_eq!(out.responses, vec![ControlResponse::PhysicsToggled(false)]);
    assert!(!bridge.control.physics_running);
}

#[test]
fn motor_command_to_unknown_target_is_refused() {
    let mut bridge = two_objects();
    let bodies: Vec<BodyState> = Vec::new();
    let cmd = MotorCommand { position: 1.5f32.to_bits(), velocity: 0 };
    let out = bridge.tick(&bodies, &vec![ControlRequest::ApplyMotorCommand(e(999), cmd)]);
    assert_eq!(
        out.responses,
        vec![ControlResponse::MotorCommandAck(Err(CommandError::TargetNotFound))]
    );
    assert!(bridge.control.forwarded.is_empty());
}

#[test]
fn motor_command_to_destroyed_target_is_refused() {
    let mut bridge = two_objects();
    let bodies: Vec<BodyState> = Vec::new();
    bridge.registry.unregister(h(2));
    let cmd = MotorCommand { position: 0, velocity: 2.0f32.to_bits() };
    let out = bridge.tick(&bodies, &vec![ControlRequest::ApplyMotorCommand(e(200), cmd)]);
    assert_eq!(
        out.responses,
        vec![ControlResponse::MotorCommandAck(Err(CommandError::TargetNotFound))]
    );
    assert!(bridge.control.forwarded.is_empty());
}

#[test]
fn motor_command_to_live_target_is_forwarded_once() {
    let mut bridge = two_objects();
    let bodies: Vec<BodyState> = Vec::new();
    let cmd = MotorCommand { position: 1.5f32.to_bits(), velocity: 0.5f32.to_bits() };
    let out = bridge.tick(&bodies, &vec![ControlRequest::ApplyMotorCommand(e(200), cmd)]);
    assert_eq!(out.responses, vec![ControlResponse::MotorCommandAck(Ok(()))]);
    assert_eq!(bridge.control.forwarded, vec![MotorForward { handle: h(2), command: cmd }]);
}

#[test]
fn query_returns_three_tracked_bodies() {
    let mut bridge = two_objects();
    let bodies = vec![body(100, 1.0, 2.0, 3.0), body(200, -1.0, 0.5, 0.0), body(300, 0.0, 9.0, 0.25)];
    let out = bridge.tick(&bodies, &vec![ControlRequest::QuerySerializableState]);
    assert_eq!(out.responses.len(), 1);
    match &out.responses[0] {
        ControlResponse::SerializableState(blob) => {
            assert_eq!(blob.len(), 3);
            assert_eq!(blob, &bodies);
            assert_eq!(f32::from_bits(blob[1].position[0]), -1.0);
        },
        other => panic!("unexpected response {:?}", other),
    }
}

#[test]
fn responses_follow_publication_order() {
    let mut control = SimulationControl::new(false);
    let mut reg = Registry::new();
    reg.register(h(1), e(100)).unwrap();
    let bodies = vec![body(100, 0.0, 0.0, 0.0)];
    let cmd = MotorCommand { position: 0, velocity: 0 };
    let reqs = vec![
        ControlRequest::ApplyMotorCommand(e(100), cmd),
        ControlRequest::TogglePhysics,
        ControlRequest::QuerySerializableState,
        ControlRequest::ApplyMotorCommand(e(5), cmd),
    ];
    let out = control.process_requests(&reg, &bodies, &reqs);
    assert_eq!(
        out,
        vec![
            ControlResponse::MotorCommandAck(Ok(())),
            ControlResponse::PhysicsToggled(true),
            ControlResponse::SerializableState(bodies.clone()),
            ControlResponse::MotorCommandAck(Err(CommandError::TargetNotFound)),
        ]
    );
    assert!(control.physics_running);
}

#[test]
fn space_key_issues_toggle() {
    assert_eq!(change_physic_state_on_space(true), Some(ControlRequest::TogglePhysics));
    assert_eq!(change_physic_state_on_space(false), None);
}
