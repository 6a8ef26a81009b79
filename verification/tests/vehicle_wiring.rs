use last_beacon::vehicle::hierarchy::{
    LastBeaconVehicleModuleSocket, VehicleEntity, VehicleHierarchy, VehicleModuleInstance,
};
use last_beacon::vehicle::wiring::{
    connection_needs_wiring, connections_needing_wiring, wire_last_beacon_vehicle_connections, ConnectionState,
    FailureMarker, LastBeaconVehicleConnection,
    PendingConnection, PlannedConnection,
};

fn vehicle_root() -> VehicleEntity {
    VehicleEntity {
        parent: None,
        module_instance: None,
        socket: None,
        has_rigid_body: false,
        has_transform: true,
    }
}

fn module(parent: usize, name: &str) -> VehicleEntity {
    VehicleEntity {
        parent: Some(parent),
        module_instance: Some(VehicleModuleInstance {
            name: name.to_string(),
            is_pending: false,
        }),
        socket: None,
        has_rigid_body: true,
        has_transform: true,
    }
}

fn socket(parent: usize, name: &str, fixed: bool, hinge: bool) -> VehicleEntity {
    VehicleEntity {
        parent: Some(parent),
        module_instance: None,
        socket: Some(LastBeaconVehicleModuleSocket {
            socket_name: name.to_string(),
            has_fixed_joint: fixed,
            has_hinge_joint: hinge,
        }),
        has_rigid_body: false,
        has_transform: true,
    }
}

fn connection(module_a: &str, socket_a: &str, module_b: &str, socket_b: &str) -> PendingConnection {
    PendingConnection {
        vehicle_root: 0,
        connection: LastBeaconVehicleConnection {
            module_a: module_a.to_string(),
            socket_a: socket_a.to_string(),
            module_b: module_b.to_string(),
            socket_b: socket_b.to_string(),
        },
    }
}

#[test]
fn a_fixed_connection_fuses_the_absorbed_module_under_the_surviving_one() {
    let hierarchy = VehicleHierarchy {
        entities: vec![
            vehicle_root(),
            module(0, "ModuleA"),
            module(0, "ModuleB"),
            socket(1, "front", true, false),
            socket(2, "root", true, false),
        ],
    };
    let plan = wire_last_beacon_vehicle_connections(
        &hierarchy,
        &vec![connection("ModuleA", "front", "ModuleB", "root")],
    );
    assert_eq!(
        plan.connections,
        vec![PlannedConnection::Welded {
            survivor: 1,
            absorbed: 2,
            survivor_socket: 3,
            absorbed_socket: 4,
        }]
    );
    assert_eq!(plan.fusions, vec![None, None, Some(1), None, None]);
}

#[test]
fn a_connection_naming_a_nonexistent_module_is_marked_failed_with_available_tags_listed() {
    let hierarchy = VehicleHierarchy {
        entities: vec![vehicle_root(), module(0, "ModuleA"), socket(1, "front", true, false)],
    };
    let plan = wire_last_beacon_vehicle_connections(
        &hierarchy,
        &vec![connection("ModuleA", "front", "Ghost", "whatever")],
    );
    match &plan.connections[0] {
        PlannedConnection::Failed { reason, marker } => {
            assert!(reason.contains("Ghost"), "reason should name the missing tag, got: {}", reason);
            assert!(
                reason.contains("ModuleA"),
                "reason should list the module tag that does exist, got: {}",
                reason
            );
            assert_eq!(
                reason,
                "module `Ghost` not found (available modules: ModuleA)"
            );
            assert_eq!(*marker, FailureMarker::AtModule(1));
        }
        other => panic!("expected a failure, got {other:?}"),
    }
}

fn absorbed_module(parent: usize, name: &str) -> VehicleEntity {
    VehicleEntity {
        parent: Some(parent),
        module_instance: Some(VehicleModuleInstance {
            name: name.to_string(),
            is_pending: false,
        }),
        socket: None,
        has_rigid_body: false,
        has_transform: true,
    }
}

#[test]
fn a_connection_naming_a_nonexistent_socket_is_marked_failed_with_available_sockets_listed() {
    let hierarchy = VehicleHierarchy {
        entities: vec![
            vehicle_root(),
            module(0, "ModuleA"),
            module(0, "ModuleB"),
            socket(1, "front", true, false),
            socket(2, "root", true, false),
        ],
    };
    let plan = wire_last_beacon_vehicle_connections(
        &hierarchy,
        &vec![connection("ModuleA", "nonexistent", "ModuleB", "root")],
    );
    match &plan.connections[0] {
        PlannedConnection::Failed { reason, marker } => {
            assert!(reason.contains("nonexistent"), "got: {}", reason);
            assert!(reason.contains("front"), "got: {}", reason);
            assert_eq!(
                reason,
                "socket `nonexistent` not found on module `ModuleA` (available sockets: front)"
            );
            assert_eq!(*marker, FailureMarker::BetweenModules(1, 2));
        }
        other => panic!("expected a failure, got {other:?}"),
    }
    assert_eq!(plan.fusions, vec![None; 5]);
}

#[test]
fn a_module_absorbed_by_fusion_is_still_findable_by_a_later_connection() {
    // ModuleB was welded under ModuleA in an earlier frame: it lost its own
    // rigid body and now sits below ModuleA.
    let hierarchy = VehicleHierarchy {
        entities: vec![
            vehicle_root(),
            module(0, "ModuleA"),
            module(0, "ModuleC"),
            socket(1, "front", true, false),
            absorbed_module(1, "ModuleB"),
            socket(2, "root", true, false),
            socket(4, "back", true, false),
            socket(4, "side", true, false),
        ],
    };
    let plan = wire_last_beacon_vehicle_connections(
        &hierarchy,
        &vec![connection("ModuleB", "side", "ModuleC", "root")],
    );
    assert_eq!(
        plan.connections,
        vec![PlannedConnection::Welded {
            survivor: 1,
            absorbed: 2,
            survivor_socket: 7,
            absorbed_socket: 5,
        }]
    );
    assert_eq!(plan.fusions[2], Some(1));
}

#[test]
fn fixed_joint_no_longer_spawns_any_joint_entity() {
    let hierarchy = VehicleHierarchy {
        entities: vec![
            vehicle_root(),
            module(0, "ModuleA"),
            module(0, "ModuleB"),
            socket(1, "front", true, false),
            socket(2, "root", true, false),
        ],
    };
    let plan = wire_last_beacon_vehicle_connections(
        &hierarchy,
        &vec![connection("ModuleA", "front", "ModuleB", "root")],
    );
    assert!(plan
        .connections
        .iter()
        .all(|planned| !matches!(planned, PlannedConnection::Hinged { .. })));
    assert!(matches!(plan.connections[0], PlannedConnection::Welded { .. }));
}

#[test]
fn three_fixed_connections_to_the_same_hub_fuse_into_one_compound_body() {
    let hierarchy = VehicleHierarchy {
        entities: vec![
            vehicle_root(),
            module(0, "ModuleHub"),
            module(0, "ModuleB"),
            module(0, "ModuleC"),
            module(0, "ModuleD"),
            socket(1, "b", true, false),
            socket(1, "c", true, false),
            socket(1, "d", true, false),
            socket(2, "root", true, false),
            socket(3, "root", true, false),
            socket(4, "root", true, false),
        ],
    };
    let plan = wire_last_beacon_vehicle_connections(
        &hierarchy,
        &vec![
            connection("ModuleHub", "b", "ModuleB", "root"),
            connection("ModuleHub", "c", "ModuleC", "root"),
            connection("ModuleHub", "d", "ModuleD", "root"),
        ],
    );
    assert_eq!(
        plan.connections,
        vec![
            PlannedConnection::Welded { survivor: 1, absorbed: 2, survivor_socket: 5, absorbed_socket: 8 },
            PlannedConnection::Welded { survivor: 1, absorbed: 3, survivor_socket: 6, absorbed_socket: 9 },
            PlannedConnection::Welded { survivor: 1, absorbed: 4, survivor_socket: 7, absorbed_socket: 10 },
        ]
    );
    assert_eq!(plan.fusions[2], Some(1));
    assert_eq!(plan.fusions[3], Some(1));
    assert_eq!(plan.fusions[4], Some(1));
    assert_eq!(plan.fusions[1], None);
}

#[test]
fn a_chain_of_welds_in_one_frame_fuses_into_the_first_root() {
    // B joins A, then C joins B: C's body goes to A, B's fusion root this frame.
    let hierarchy = VehicleHierarchy {
        entities: vec![
            vehicle_root(),
            module(0, "A"),
            module(0, "B"),
            module(0, "C"),
            socket(1, "front", true, false),
            socket(2, "back", true, false),
            socket(2, "front", true, false),
            socket(3, "back", true, false),
        ],
    };
    let plan = wire_last_beacon_vehicle_connections(
        &hierarchy,
        &vec![connection("A", "front", "B", "back"), connection("B", "front", "C", "back")],
    );
    assert_eq!(
        plan.connections,
        vec![
            PlannedConnection::Welded { survivor: 1, absorbed: 2, survivor_socket: 4, absorbed_socket: 5 },
            PlannedConnection::Welded { survivor: 1, absorbed: 3, survivor_socket: 6, absorbed_socket: 7 },
        ]
    );
}

#[test]
fn welding_two_modules_of_one_body_is_already_fused() {
    let hierarchy = VehicleHierarchy {
        entities: vec![
            vehicle_root(),
            module(0, "A"),
            socket(1, "front", true, false),
            absorbed_module(1, "B"),
            socket(3, "back", true, false),
        ],
    };
    let plan = wire_last_beacon_vehicle_connections(
        &hierarchy,
        &vec![connection("A", "front", "B", "back")],
    );
    assert_eq!(plan.connections, vec![PlannedConnection::AlreadyFused]);
    assert_eq!(plan.fusions, vec![None; 5]);
}

#[test]
fn a_socket_naming_neither_fixed_nor_hinge_joint_does_not_fuse_or_spawn_a_joint() {
    let hierarchy = VehicleHierarchy {
        entities: vec![
            vehicle_root(),
            module(0, "ModuleA"),
            module(0, "ModuleB"),
            socket(1, "front", false, false),
            socket(2, "root", true, false),
        ],
    };
    let plan = wire_last_beacon_vehicle_connections(
        &hierarchy,
        &vec![connection("ModuleA", "front", "ModuleB", "root")],
    );
    match &plan.connections[0] {
        PlannedConnection::Failed { reason, marker } => {
            assert_eq!(
                reason,
                "socket `front` on module `ModuleA`: it carries neither LastBeaconVehicleFixedJoint nor LastBeaconVehicleHingeJoint"
            );
            assert_eq!(*marker, FailureMarker::BetweenModules(1, 2));
        }
        other => panic!("expected a failure, got {other:?}"),
    }
    assert_eq!(plan.fusions, vec![None; 5]);
}

#[test]
fn a_socket_carrying_both_joint_types_is_refused() {
    let hierarchy = VehicleHierarchy {
        entities: vec![
            vehicle_root(),
            module(0, "ModuleA"),
            module(0, "ModuleB"),
            socket(1, "front", true, false),
            socket(2, "root", true, true),
        ],
    };
    let plan = wire_last_beacon_vehicle_connections(
        &hierarchy,
        &vec![connection("ModuleA", "front", "ModuleB", "root")],
    );
    match &plan.connections[0] {
        PlannedConnection::Failed { reason, .. } => assert_eq!(
            reason,
            "socket `root` on module `ModuleB`: it carries both LastBeaconVehicleFixedJoint and LastBeaconVehicleHingeJoint"
        ),
        other => panic!("expected a failure, got {other:?}"),
    }
}

#[test]
fn both_unusable_sockets_are_reported_together() {
    let hierarchy = VehicleHierarchy {
        entities: vec![
            vehicle_root(),
            module(0, "ModuleA"),
            module(0, "ModuleB"),
            socket(1, "front", true, false),
            socket(2, "root", true, false),
        ],
    };
    let plan = wire_last_beacon_vehicle_connections(
        &hierarchy,
        &vec![connection("ModuleA", "x", "ModuleB", "y")],
    );
    match &plan.connections[0] {
        PlannedConnection::Failed { reason, .. } => assert_eq!(
            reason,
            "socket `x` not found on module `ModuleA` (available sockets: front); socket `y` not found on module `ModuleB` (available sockets: root)"
        ),
        other => panic!("expected a failure, got {other:?}"),
    }
}

#[test]
fn a_connection_naming_two_missing_modules_lists_none_available_and_has_no_marker() {
    let hierarchy = VehicleHierarchy { entities: vec![vehicle_root()] };
    let plan = wire_last_beacon_vehicle_connections(
        &hierarchy,
        &vec![connection("Ghost", "a", "Phantom", "b")],
    );
    match &plan.connections[0] {
        PlannedConnection::Failed { reason, marker } => {
            assert_eq!(
                reason,
                "module `Ghost` not found (available modules: none); module `Phantom` not found (available modules: none)"
            );
            assert_eq!(*marker, FailureMarker::Nowhere);
        }
        other => panic!("expected a failure, got {other:?}"),
    }
}

#[test]
fn a_hinge_connection_spawns_a_revolute_joint_referencing_the_fusion_root() {
    // The chassis-side module B was welded under A earlier; the hinge must
    // join A, the compound body's root, and the wheel.
    let hierarchy = VehicleHierarchy {
        entities: vec![
            vehicle_root(),
            module(0, "A"),
            module(0, "Wheel"),
            socket(1, "front", true, false),
            absorbed_module(1, "B"),
            socket(2, "hub", false, true),
            socket(4, "axle", true, false),
        ],
    };
    let plan = wire_last_beacon_vehicle_connections(
        &hierarchy,
        &vec![connection("B", "axle", "Wheel", "hub")],
    );
    assert_eq!(
        plan.connections,
        vec![PlannedConnection::Hinged {
            chassis_root: 1,
            wheel_root: 2,
            chassis_socket: 6,
            wheel_socket: 5,
            chassis_is_body1: true,
        }]
    );
    assert_eq!(plan.fusions, vec![None; 7]);
}

#[test]
fn a_hinge_connection_still_spawns_a_revolute_joint_when_the_wheel_is_named_first() {
    let hierarchy = VehicleHierarchy {
        entities: vec![
            vehicle_root(),
            module(0, "Chassis"),
            module(0, "Wheel"),
            socket(1, "axle", true, false),
            socket(2, "hub", false, true),
        ],
    };
    let plan = wire_last_beacon_vehicle_connections(
        &hierarchy,
        &vec![connection("Wheel", "hub", "Chassis", "axle")],
    );
    assert_eq!(
        plan.connections,
        vec![PlannedConnection::Hinged {
            chassis_root: 1,
            wheel_root: 2,
            chassis_socket: 3,
            wheel_socket: 4,
            chassis_is_body1: false,
        }]
    );
}

#[test]
fn a_hinge_waits_while_a_weld_is_decided_in_the_same_frame() {
    let hierarchy = VehicleHierarchy {
        entities: vec![
            vehicle_root(),
            module(0, "A"),
            module(0, "B"),
            module(0, "Wheel"),
            socket(1, "front", true, false),
            socket(2, "back", true, false),
            socket(2, "axle", true, false),
            socket(3, "hub", false, true),
        ],
    };
    let plan = wire_last_beacon_vehicle_connections(
        &hierarchy,
        &vec![connection("B", "axle", "Wheel", "hub"), connection("A", "front", "B", "back")],
    );
    assert_eq!(plan.connections[0], PlannedConnection::Unresolved);
    assert!(matches!(plan.connections[1], PlannedConnection::Welded { survivor: 1, absorbed: 2, .. }));
}

#[test]
fn a_connection_referencing_a_still_pending_module_does_not_resolve_yet() {
    let mut pending = module(0, "ModuleB");
    pending.module_instance = Some(VehicleModuleInstance {
        name: "ModuleB".to_string(),
        is_pending: true,
    });
    let hierarchy = VehicleHierarchy {
        entities: vec![
            vehicle_root(),
            module(0, "ModuleA"),
            pending,
            socket(1, "front", true, false),
            socket(2, "root", true, false),
        ],
    };
    let plan = wire_last_beacon_vehicle_connections(
        &hierarchy,
        &vec![connection("ModuleA", "front", "ModuleB", "root")],
    );
    assert_eq!(plan.connections, vec![PlannedConnection::Unresolved]);
    assert_eq!(plan.fusions, vec![None; 5]);
}

#[test]
fn a_module_without_a_transform_chain_is_left_for_a_later_frame() {
    let mut unplaced = module(0, "ModuleB");
    unplaced.has_transform = false;
    let hierarchy = VehicleHierarchy {
        entities: vec![
            vehicle_root(),
            module(0, "ModuleA"),
            unplaced,
            socket(1, "front", true, false),
            socket(2, "root", true, false),
        ],
    };
    let plan = wire_last_beacon_vehicle_connections(
        &hierarchy,
        &vec![connection("ModuleA", "front", "ModuleB", "root")],
    );
    assert_eq!(plan.connections, vec![PlannedConnection::Unresolved]);
}

#[test]
fn resolved_and_failed_connections_are_not_wired_again() {
    let states = vec![
        ConnectionState::Pending,
        ConnectionState::Resolved,
        ConnectionState::Failed,
        ConnectionState::Pending,
    ];
    assert_eq!(connections_needing_wiring(&states), vec![0, 3]);
    assert_eq!(connections_needing_wiring(&vec![ConnectionState::Failed]), Vec::<usize>::new());
}

#[test]
fn only_pending_connections_need_wiring() {
    assert!(connection_needs_wiring(ConnectionState::Pending));
    assert!(!connection_needs_wiring(ConnectionState::Resolved));
    assert!(!connection_needs_wiring(ConnectionState::Failed));
}
