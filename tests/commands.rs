use huectl::command::{
    assignment_line, bridge_variables, exec, select_bridge, ConfigArg, GetConfig, Register,
    Request, Subcommand, CLIENT_NAME, VAR_BRIDGE_IP, VAR_BRIDGE_USERNAME,
};
use huectl::light::{Arg, Delete, Get, LightColor, Search, SetArgs};
use huectl::value::{Adjust, Brightness, ColorCoordinates, ColorHex, ColorRgb};

fn empty_set(id: &str) -> SetArgs {
    SetArgs {
        id: id.to_string(),
        on: false,
        off: false,
        brightness: None,
        hue: None,
        saturation: None,
        color_temperature: None,
        color_space_coordinates: None,
        color_rgb: None,
        color_hex: None,
        alert: None,
        effect: None,
        transition_time: None,
        name: None,
    }
}

#[test]
fn set_without_flags_sends_nothing() {
    let set = empty_set("1");
    assert!(set.to_state_modifier().is_empty());
    assert!(set.to_attribute_modifier().is_empty());
    assert!(exec(&Subcommand::Light(Arg::Change(set))).is_empty());
}

#[test]
fn on_and_off_turns_on() {
    let mut set = empty_set("1");
    set.on = true;
    set.off = true;
    assert_eq!(set.to_state_modifier().on, Some(true));
    set.on = false;
    assert_eq!(set.to_state_modifier().on, Some(false));
}

#[test]
fn set_state_only() {
    let mut set = empty_set("3");
    set.brightness = Some(Brightness(10, Adjust::Increment));
    let requests = exec(&Subcommand::Light(Arg::Change(set)));
    assert_eq!(requests.len(), 1);
    match &requests[0] {
        Request::SetLightState { id, modifier } => {
            assert_eq!(id, "3");
            assert_eq!(modifier.brightness, Some(Brightness(10, Adjust::Increment)));
            assert_eq!(modifier.on, None);
            assert!(modifier.color.is_none());
        }
        other => panic!("unexpected request {:?}", other),
    }
}

#[test]
fn set_state_and_name() {
    let mut set = empty_set("3");
    set.on = true;
    set.name = Some("Desk".to_string());
    let requests = exec(&Subcommand::Light(Arg::Change(set)));
    assert_eq!(requests.len(), 2);
    assert!(matches!(&requests[0], Request::SetLightState { .. }));
    match &requests[1] {
        Request::SetLightAttribute { id, modifier } => {
            assert_eq!(id, "3");
            assert_eq!(modifier.name.as_deref(), Some("Desk"));
        }
        other => panic!("unexpected request {:?}", other),
    }
}

#[test]
fn set_name_only() {
    let mut set = empty_set("4");
    set.name = Some("Hall".to_string());
    let requests = exec(&Subcommand::Light(Arg::Change(set)));
    assert_eq!(requests.len(), 1);
    assert!(matches!(&requests[0], Request::SetLightAttribute { .. }));
}

#[test]
fn coordinates_give_coordinate_color() {
    let mut set = empty_set("1");
    let values = vec!["0.1".to_string(), "0.2".to_string()];
    set.color_space_coordinates = Some(ColorCoordinates::from_values(&values).unwrap());
    match set.to_state_modifier().color {
        Some(LightColor::Coordinates(c)) => {
            assert_eq!(c.x, "0.1");
            assert_eq!(c.y, "0.2");
        }
        other => panic!("unexpected color {:?}", other),
    }
}

#[test]
fn hex_color_takes_precedence() {
    let mut set = empty_set("1");
    set.color_rgb = Some(ColorRgb { red: 1, green: 2, blue: 3 });
    set.color_hex = Some(ColorHex::parse("0A0b0C").unwrap());
    match set.to_state_modifier().color {
        Some(LightColor::Rgb(c)) => assert_eq!(c, ColorRgb { red: 10, green: 11, blue: 12 }),
        other => panic!("unexpected color {:?}", other),
    }
    set.color_hex = None;
    match set.to_state_modifier().color {
        Some(LightColor::Rgb(c)) => assert_eq!(c, ColorRgb { red: 1, green: 2, blue: 3 }),
        other => panic!("unexpected color {:?}", other),
    }
}

#[test]
fn search_get_only_reads() {
    let requests = exec(&Subcommand::Light(Arg::Search(Search { get: true })));
    assert_eq!(requests.len(), 1);
    assert!(matches!(requests[0], Request::GetNewLights));
}

#[test]
fn search_starts_scan() {
    let requests = exec(&Subcommand::Light(Arg::Search(Search { get: false })));
    assert_eq!(requests.len(), 1);
    assert!(matches!(requests[0], Request::SearchNewLights));
}

#[test]
fn get_one_or_all_lights() {
    let one = exec(&Subcommand::Light(Arg::Get(Get { id: Some("7".to_string()) })));
    match &one[..] {
        [Request::GetLight { id }] => assert_eq!(id, "7"),
        other => panic!("unexpected requests {:?}", other),
    }
    let all = exec(&Subcommand::Light(Arg::Get(Get { id: None })));
    assert!(matches!(&all[..], [Request::GetAllLights]));
}

#[test]
fn delete_light_request() {
    let requests = exec(&Subcommand::Light(Arg::Delete(Delete { id: "9".to_string() })));
    match &requests[..] {
        [Request::DeleteLight { id }] => assert_eq!(id, "9"),
        other => panic!("unexpected requests {:?}", other),
    }
}

#[test]
fn discover_and_config() {
    assert!(matches!(&exec(&Subcommand::Discover)[..], [Request::Discover]));
    let config = exec(&Subcommand::Config(ConfigArg::Get(GetConfig { json: true })));
    assert!(matches!(&config[..], [Request::GetConfig]));
}

#[test]
fn register_with_address() {
    let arg = Register { ip_address: Some("192.168.1.2".to_string()), set_env: false };
    match &exec(&Subcommand::Register(arg))[..] {
        [Request::RegisterUser { ip }] => assert_eq!(ip, "192.168.1.2"),
        other => panic!("unexpected requests {:?}", other),
    }
}

#[test]
fn register_without_bridges() {
    let arg = Register { ip_address: None, set_env: true };
    assert!(matches!(&exec(&Subcommand::Register(arg))[..], [Request::Discover]));
    assert_eq!(select_bridge(&Vec::new()), None);
}

#[test]
fn register_takes_first_bridge() {
    let found = vec!["10.0.0.1".to_string(), "10.0.0.2".to_string()];
    assert_eq!(select_bridge(&found), Some("10.0.0.1".to_string()));
}

#[test]
fn registration_variables() {
    let vars = bridge_variables(&"10.0.0.1".to_string(), &"abc".to_string());
    assert_eq!(vars[0], (VAR_BRIDGE_IP.to_string(), "10.0.0.1".to_string()));
    assert_eq!(vars[1], (VAR_BRIDGE_USERNAME.to_string(), "abc".to_string()));
    assert_eq!(assignment_line(&vars[0].0, &vars[0].1), "HUE_BRIDGE_IP=10.0.0.1");
    assert_eq!(CLIENT_NAME, "huectl-rs");
}
