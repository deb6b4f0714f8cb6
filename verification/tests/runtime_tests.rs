use hamh::matter::{
    bind_failure, build_entity_map, device_name, map_io_error, persist_file_name, serial_number, EntityState,
    MatterError, RsMatterAdapter, PERSIST_DIR_NAME,
};
use hamh::models::BridgeDevice;
use hamh::network::{
    bonjour_candidates, find_ipv4, path_with_dir, select_mdns_interface, InterfaceAddress,
    InterfaceIp, BONJOUR_LIBRARY, MDNS_HOSTNAME,
};
use hamh::runtime::{
    bridged_endpoint_id, endpoint_layout, is_bridged, route_invoke, route_read, route_write,
    startup_actions, BridgeCommand, EndpointPlan, OnOffUpdate, Route, RuntimeAction, RuntimeEvent,
    RuntimeState, RuntimeTask, StartupAction, AGGREGATOR_ENDPOINT_ID, BRIDGED_INFO_CLUSTER_ID,
    DESCRIPTOR_CLUSTER_ID, MAX_COMM_WINDOW_TIMEOUT_SECS, ON_OFF_CLUSTER_ID, ROOT_ENDPOINT_ID,
};

const ID: u128 = 0x550e8400_e29b_41d4_a716_446655440000;

fn device(entity_id: &str, endpoint_id: u16) -> BridgeDevice {
    BridgeDevice {
        entity_id: entity_id.to_string(),
        device_type: "OnOffLight".to_string(),
        endpoint_id,
        display_name: String::new(),
        area: None,
        capabilities: Vec::new(),
        reachable: endpoint_id % 2 == 1,
    }
}

fn on(entity_id: &str, on: bool) -> EntityState {
    EntityState { entity_id: entity_id.to_string(), on }
}

fn address(name: &str, ip: InterfaceIp) -> InterfaceAddress {
    InterfaceAddress {
        name: name.to_string(),
        up: true,
        broadcast: true,
        loopback: false,
        point_to_point: false,
        ip,
    }
}

fn plan() -> Vec<EndpointPlan> {
    endpoint_layout(&vec![device("light.a", 1), device("light.b", 2)]).expect("in range")
}

#[test]
fn matter_error_messages() {
    assert_eq!(MatterError::PortInUse(5540).message(), "bridge port 5540 already in use");
    assert_eq!(MatterError::PortInUse(0).message(), "bridge port 0 already in use");
    assert_eq!(MatterError::PortInUse(65535).message(), "bridge port 65535 already in use");
    assert_eq!(MatterError::PortInUse(7).message(), "bridge port 7 already in use");
    assert_eq!(MatterError::Io("broken pipe".to_string()).message(), "io error: broken pipe");
    assert_eq!(MatterError::Runtime("NoSpace".to_string()).message(), "runtime error: NoSpace");
    assert_eq!(MatterError::NotImplemented.message(), "not implemented");
}

#[test]
fn io_errors_of_a_bind() {
    let busy = std::io::Error::new(std::io::ErrorKind::AddrInUse, "busy");
    assert!(matches!(map_io_error(busy, 5540), MatterError::PortInUse(5540)));
    let denied = std::io::Error::new(std::io::ErrorKind::PermissionDenied, "denied");
    match map_io_error(denied, 5540) {
        MatterError::Io(text) => assert_eq!(text, "denied"),
        _ => panic!("any other failure is an I/O error"),
    }
}

#[test]
fn bind_failures() {
    assert!(matches!(bind_failure(true, "busy".to_string(), 1), MatterError::PortInUse(1)));
    match bind_failure(false, "denied".to_string(), 1) {
        MatterError::Io(text) => assert_eq!(text, "denied"),
        _ => panic!("any other failure is an I/O error"),
    }
}

#[test]
fn names_of_a_bridge() {
    assert_eq!(PERSIST_DIR_NAME, "matter");
    assert_eq!(persist_file_name(ID), "bridge-550e8400-e29b-41d4-a716-446655440000.psm");
    assert_eq!(device_name(ID), "HAMH 550e8400-e29b-41d4-a716-446655440000");
    assert_eq!(serial_number(0), "hamh-00000000-0000-0000-0000-000000000000");
    assert_eq!(serial_number(u128::MAX), "hamh-ffffffff-ffff-ffff-ffff-ffffffffffff");
    assert_eq!(RsMatterAdapter::default(), RsMatterAdapter);
}

#[test]
fn entity_map_takes_the_last_device_of_an_entity() {
    let map = build_entity_map(&vec![device("a", 1), device("b", 2), device("a", 3)]);
    assert_eq!(map.get("a"), Some(3));
    assert_eq!(map.get("b"), Some(2));
    assert_eq!(map.get("c"), None);
    assert_eq!(build_entity_map(&Vec::new()).get("a"), None);
}

#[test]
fn layout_puts_devices_after_root_and_aggregator() {
    let plan = plan();
    assert_eq!(plan.len(), 4);
    assert!(matches!(plan[0], EndpointPlan::Root));
    assert!(matches!(plan[1], EndpointPlan::Aggregator));
    match &plan[2] {
        EndpointPlan::Bridged { id, entity_id, device_type, reachable } => {
            assert_eq!(*id, 2);
            assert_eq!(entity_id, "light.a");
            assert_eq!(device_type, "OnOffLight");
            assert!(*reachable);
        }
        _ => panic!("the third endpoint is the first device"),
    }
    match &plan[3] {
        EndpointPlan::Bridged { id, entity_id, reachable, .. } => {
            assert_eq!(*id, 3);
            assert_eq!(entity_id, "light.b");
            assert!(!*reachable);
        }
        _ => panic!("the fourth endpoint is the second device"),
    }
    assert_eq!((ROOT_ENDPOINT_ID, AGGREGATOR_ENDPOINT_ID), (0, 1));
    assert_eq!(endpoint_layout(&Vec::new()).expect("empty").len(), 2);
}

#[test]
fn layout_refuses_numbers_without_an_endpoint() {
    assert_eq!(bridged_endpoint_id(0), None);
    assert_eq!(bridged_endpoint_id(1), Some(2));
    assert_eq!(bridged_endpoint_id(65534), Some(65535));
    assert_eq!(bridged_endpoint_id(65535), None);
    for bad in [0u16, 65535] {
        match endpoint_layout(&vec![device("a", 1), device("b", bad)]) {
            Err(MatterError::Runtime(text)) => assert_eq!(text, "endpoint id out of range"),
            _ => panic!("a device without an endpoint fails the layout"),
        }
    }
}

#[test]
fn reads_are_routed_by_cluster_and_endpoint() {
    let plan = plan();
    assert!(is_bridged(&plan, 2) && is_bridged(&plan, 3));
    assert!(!is_bridged(&plan, 0) && !is_bridged(&plan, 1) && !is_bridged(&plan, 4));
    assert_eq!(route_read(&plan, 1, DESCRIPTOR_CLUSTER_ID), Route::AggregatorDescriptor);
    assert_eq!(route_read(&plan, 2, DESCRIPTOR_CLUSTER_ID), Route::Descriptor { endpoint_id: 2 });
    assert_eq!(
        route_read(&plan, 3, BRIDGED_INFO_CLUSTER_ID),
        Route::BridgedInfo { endpoint_id: 3 }
    );
    assert_eq!(route_read(&plan, 3, ON_OFF_CLUSTER_ID), Route::OnOff { endpoint_id: 3 });
    assert_eq!(route_read(&plan, 4, DESCRIPTOR_CLUSTER_ID), Route::AttributeNotFound);
    assert_eq!(route_read(&plan, 1, ON_OFF_CLUSTER_ID), Route::AttributeNotFound);
    assert_eq!(route_read(&plan, 0, DESCRIPTOR_CLUSTER_ID), Route::AttributeNotFound);
    assert_eq!(route_read(&plan, 2, 0x0008), Route::AttributeNotFound);
    assert_eq!((DESCRIPTOR_CLUSTER_ID, BRIDGED_INFO_CLUSTER_ID, ON_OFF_CLUSTER_ID), (29, 57, 6));
}

#[test]
fn writes_and_commands_are_routed() {
    let plan = plan();
    assert_eq!(route_write(&plan, 2, ON_OFF_CLUSTER_ID), Route::OnOff { endpoint_id: 2 });
    assert_eq!(route_write(&plan, 2, DESCRIPTOR_CLUSTER_ID), Route::AttributeNotFound);
    assert_eq!(route_write(&plan, 2, BRIDGED_INFO_CLUSTER_ID), Route::AttributeNotFound);
    assert_eq!(route_write(&plan, 9, ON_OFF_CLUSTER_ID), Route::AttributeNotFound);
    assert_eq!(route_invoke(&plan, 3, ON_OFF_CLUSTER_ID), Route::OnOff { endpoint_id: 3 });
    assert_eq!(
        route_invoke(&plan, 3, BRIDGED_INFO_CLUSTER_ID),
        Route::BridgedInfo { endpoint_id: 3 }
    );
    assert_eq!(route_invoke(&plan, 3, DESCRIPTOR_CLUSTER_ID), Route::CommandNotFound);
    assert_eq!(route_invoke(&plan, 1, ON_OFF_CLUSTER_ID), Route::CommandNotFound);
}

#[test]
fn a_fresh_node_opens_for_commissioning() {
    assert!(startup_actions(true).is_empty());
    assert_eq!(
        startup_actions(false),
        vec![
            StartupAction::PrintQrText,
            StartupAction::PrintQrCode,
            StartupAction::OpenCommissioningWindow { timeout_secs: 900 },
        ]
    );
    assert_eq!(MAX_COMM_WINDOW_TIMEOUT_SECS, 900);
}

#[test]
fn state_updates_reach_known_entities_only() {
    let mut state = RuntimeState::new(&vec![device("light.a", 1), device("light.b", 2)]);
    assert!(state.mdns_running && state.persist_running);
    let states =
        vec![on("light.b", true), on("light.zzz", true), on("light.a", false), on("light.b", false)];
    match state.step(RuntimeEvent::Command(Some(BridgeCommand::UpdateStates(states)))) {
        RuntimeAction::ApplyStates(updates) => assert_eq!(
            updates,
            vec![
                OnOffUpdate { endpoint_id: 3, on: true },
                OnOffUpdate { endpoint_id: 2, on: false },
                OnOffUpdate { endpoint_id: 3, on: false },
            ]
        ),
        _ => panic!("states are applied"),
    }
}

#[test]
fn update_devices_replaces_the_entity_map() {
    let mut state = RuntimeState::new(&vec![device("light.a", 1)]);
    let action =
        state.step(RuntimeEvent::Command(Some(BridgeCommand::UpdateDevices(vec![device(
            "light.n", 5,
        )]))));
    assert!(matches!(action, RuntimeAction::Continue));
    assert_eq!(state.entity_to_endpoint.get("light.a"), None);
    assert_eq!(state.entity_to_endpoint.get("light.n"), Some(5));
    let states = vec![on("light.a", true), on("light.n", true)];
    match state.step(RuntimeEvent::Command(Some(BridgeCommand::UpdateStates(states)))) {
        RuntimeAction::ApplyStates(updates) => {
            assert_eq!(updates, vec![OnOffUpdate { endpoint_id: 6, on: true }])
        }
        _ => panic!("states are applied"),
    }
}

#[test]
fn shutdown_and_reset_commands() {
    let mut state = RuntimeState::new(&Vec::new());
    assert!(matches!(
        state.step(RuntimeEvent::Command(Some(BridgeCommand::FactoryReset))),
        RuntimeAction::FactoryReset { timeout_secs: 900 }
    ));
    assert!(matches!(
        state.step(RuntimeEvent::Command(Some(BridgeCommand::Shutdown))),
        RuntimeAction::Exit(Ok(()))
    ));
    assert!(matches!(state.step(RuntimeEvent::Command(None)), RuntimeAction::Exit(Ok(()))));
}

#[test]
fn only_vital_tasks_end_the_node() {
    let mut state = RuntimeState::new(&Vec::new());
    let ended = RuntimeEvent::TaskEnded {
        task: RuntimeTask::Mdns,
        result: Err("no interface".to_string()),
    };
    assert!(matches!(state.step(ended), RuntimeAction::Continue));
    assert!(!state.mdns_running && state.persist_running);
    let ended = RuntimeEvent::TaskEnded { task: RuntimeTask::Persistence, result: Ok(()) };
    assert!(matches!(state.step(ended), RuntimeAction::Continue));
    assert!(!state.mdns_running && !state.persist_running);
    for task in [RuntimeTask::Transport, RuntimeTask::Responder, RuntimeTask::DataModel] {
        let ended = RuntimeEvent::TaskEnded { task, result: Ok(()) };
        assert!(matches!(state.step(ended), RuntimeAction::Exit(Ok(()))));
        let ended = RuntimeEvent::TaskEnded { task, result: Err("Invalid".to_string()) };
        match state.step(ended) {
            RuntimeAction::Exit(Err(MatterError::Runtime(text))) => assert_eq!(text, "Invalid"),
            _ => panic!("the failure of a vital task ends the node with its error"),
        }
    }
}

#[test]
fn mdns_interface_needs_both_address_families() {
    let v6 = InterfaceIp::V6(0xfe80_0000_0000_0000_0000_0000_0000_0001);
    let mut lo = address("lo", InterfaceIp::V4(0x7f00_0001));
    lo.loopback = true;
    lo.broadcast = false;
    let mut lo6 = address("lo", InterfaceIp::V6(1));
    lo6.loopback = true;
    let mut tun = address("tun0", v6);
    tun.point_to_point = true;
    let mut down = address("eth9", v6);
    down.up = false;
    let list = vec![
        lo,
        lo6,
        tun,
        down,
        address("eth9", InterfaceIp::V4(9)),
        address("wlan0", v6),
        address("eth0", InterfaceIp::Other),
        address("eth0", InterfaceIp::V6(77)),
        address("eth0", InterfaceIp::V4(0xc0a8_0102)),
        address("eth0", InterfaceIp::V4(0xc0a8_0103)),
        address("eth1", InterfaceIp::V6(88)),
        address("eth1", InterfaceIp::V4(5)),
    ];
    let chosen = select_mdns_interface(&list).expect("eth0 has both");
    assert_eq!(chosen.name, "eth0");
    assert_eq!(chosen.ipv6, 77);
    assert_eq!(chosen.ipv4, 0xc0a8_0102);
    assert_eq!(find_ipv4(&list, "eth1"), Some(5));
    assert_eq!(find_ipv4(&list, "wlan0"), None);
    assert_eq!(find_ipv4(&list, "lo"), None);
    assert_eq!(MDNS_HOSTNAME, "hamh");
}

#[test]
fn mdns_interface_may_be_missing() {
    assert!(select_mdns_interface(&Vec::new()).is_none());
    let only_v4 = vec![address("eth0", InterfaceIp::V4(1))];
    assert!(select_mdns_interface(&only_v4).is_none());
    let split = vec![address("eth0", InterfaceIp::V6(1)), address("eth1", InterfaceIp::V4(1))];
    assert!(select_mdns_interface(&split).is_none());
    let mut unusable_v4 = address("eth0", InterfaceIp::V4(1));
    unusable_v4.broadcast = false;
    let list = vec![address("eth0", InterfaceIp::V6(1)), unusable_v4];
    assert!(select_mdns_interface(&list).is_none());
}

#[test]
fn bonjour_directories_in_order() {
    let fixed = vec![
        "C:\\Program Files\\Bonjour SDK\\lib\\x64".to_string(),
        "C:\\Program Files (x86)\\Bonjour SDK\\lib\\x64".to_string(),
        "C:\\Program Files\\Bonjour SDK\\lib".to_string(),
        "C:\\Program Files (x86)\\Bonjour SDK\\lib".to_string(),
    ];
    assert_eq!(bonjour_candidates(None), fixed);
    let with_sdk = bonjour_candidates(Some("D:\\sdk".to_string()));
    assert_eq!(with_sdk.len(), 5);
    assert_eq!(with_sdk[0], "D:\\sdk");
    assert_eq!(with_sdk[1..].to_vec(), fixed);
    assert_eq!(BONJOUR_LIBRARY, "dns_sd.dll");
}

#[test]
fn search_path_gets_a_directory_once() {
    assert_eq!(path_with_dir("C:\\a;C:\\b", "C:\\sdk").as_deref(), Some("C:\\sdk;C:\\a;C:\\b"));
    assert_eq!(path_with_dir("", "C:\\sdk").as_deref(), Some("C:\\sdk;"));
    assert_eq!(path_with_dir("C:\\a;c:\\SDK;C:\\b", "C:\\sdk"), None);
    assert_eq!(path_with_dir("C:\\sdk", "C:\\sdk"), None);
    assert_eq!(path_with_dir("C:\\a;C:\\sdk", "c:\\sdk"), None);
    assert_eq!(path_with_dir("C:\\sdk2;C:\\sd", "C:\\sdk").as_deref(), Some("C:\\sdk;C:\\sdk2;C:\\sd"));
    assert_eq!(path_with_dir("a;;b", ""), None);
    assert_eq!(path_with_dir("a;b", "").as_deref(), Some(";a;b"));
    assert_eq!(path_with_dir("", ""), None);
}
