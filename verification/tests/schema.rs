use std::collections::HashMap;
use vmbus_proxy_task::vmgs_json::Device;
use vmbus_proxy_task::vmgs_json::NvramVariable;
use vmbus_proxy_task::vmgs_json::NvramVendor;
use vmbus_proxy_task::vmgs_json::RuntimeState;
use vmbus_proxy_task::vmgs_json::State;
use vmbus_proxy_task::vmgs_json::Version;
use vmbus_proxy_task::vmgs_json::BIOS_LOADER_DEVICE_ID;

#[test]
fn runtime_state_holds_devices_states_and_variables() {
    let variable = NvramVariable {
        attributes: 7,
        data: vec![1, 2, 3],
    };
    let vendor = NvramVendor {
        variables: HashMap::from([("Boot0000".to_string(), variable)]),
    };
    let nvram = State::Nvram {
        vendors: HashMap::from([("vendor".to_string(), vendor)]),
        last_update_time: "2020".to_string(),
    };
    let other = State::Other(serde_json::Value::Bool(true));
    let device = Device {
        version: Version { major: 1, minor: 0 },
        device_type: "loader".to_string(),
        states: HashMap::from([("nvram".to_string(), nvram), ("other".to_string(), other)]),
    };
    let state = RuntimeState {
        version: Version { major: 2, minor: 5 },
        devices: HashMap::from([(BIOS_LOADER_DEVICE_ID.to_string(), device)]),
    };
    assert_eq!(state.version.minor, 5);
    let device = &state.devices["ac6b8dc1-3257-4a70-b1b2-a9c9215659ad"];
    match &device.states["nvram"] {
        State::Nvram { vendors, .. } => {
            assert_eq!(vendors["vendor"].variables["Boot0000"].data, vec![1, 2, 3]);
        }
        State::Other(_) => panic!("not the state that was put in"),
    }
    assert!(matches!(&device.states["other"], State::Other(serde_json::Value::Bool(true))));
}
