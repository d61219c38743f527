use envtrackernode::devices::DLight;
use envtrackernode::json::{JsonNumber, JsonValue};

/// An object from its members.
fn object(members: Vec<(&str, JsonValue)>) -> JsonValue {
    JsonValue::Object(members.into_iter().map(|(k, v)| (k.to_string(), v)).collect())
}

/// One EXECUTE action.
fn action(command: &str, params: JsonValue) -> JsonValue {
    object(vec![("command", JsonValue::String(command.to_string())), ("params", params)])
}

fn number(n: u64) -> JsonValue {
    JsonValue::Number(JsonNumber::PosInt(n))
}

fn status_of(v: &JsonValue) -> Option<(String, Option<String>)> {
    match v {
        JsonValue::Object(m) => {
            let status = m.iter().find(|(k, _)| k == "status").and_then(|(_, v)| match v {
                JsonValue::String(s) => Some(s.clone()),
                _ => None,
            })?;
            let code = m.iter().find(|(k, _)| k == "errorCode").and_then(|(_, v)| match v {
                JsonValue::String(s) => Some(s.clone()),
                _ => None,
            });
            Some((status, code))
        },
        _ => None,
    }
}

#[test]
fn lamp_takes_brightness_in_range() {
    let mut lamp = DLight::base("uuid-1");
    lamp.brightness = 50;
    lamp.temperature = 3000;
    let actions = vec![action("action.devices.commands.BrightnessAbsolute", object(vec![("brightness", number(80))]))];
    let (answer, command) = lamp.execute_actions(&actions);
    assert_eq!(status_of(&answer), Some(("SUCCESS".to_string(), None)));
    assert_eq!(lamp.brightness, 80);
    let command = command.expect("a command for the lamp");
    assert_eq!(command.brightness, Some(80));
    assert_eq!(command.temperature, None);
    assert_eq!(command.on, None);
}

#[test]
fn lamp_refuses_brightness_above_one_hundred() {
    let mut lamp = DLight::base("uuid-1");
    lamp.brightness = 50;
    let actions = vec![action("action.devices.commands.BrightnessAbsolute", object(vec![("brightness", number(150))]))];
    let (answer, command) = lamp.execute_actions(&actions);
    assert_eq!(status_of(&answer), Some(("ERROR".to_string(), Some("transientError".to_string()))));
    assert!(command.is_none());
    assert_eq!(lamp.brightness, 50);
}

#[test]
fn lamp_refuses_temperature_outside_its_range() {
    for t in [0u64, 2599, 6001, 10000] {
        let mut lamp = DLight::base("uuid-1");
        lamp.temperature = 4000;
        let color = object(vec![("temperature", number(t))]);
        let actions = vec![action("action.devices.commands.ColorAbsolute", object(vec![("color", color)]))];
        let (answer, command) = lamp.execute_actions(&actions);
        assert_eq!(status_of(&answer), Some(("ERROR".to_string(), Some("transientError".to_string()))));
        assert!(command.is_none());
        assert_eq!(lamp.temperature, 4000);
    }
}

#[test]
fn lamp_takes_temperature_at_the_ends_of_its_range() {
    for t in [2600u64, 6000] {
        let mut lamp = DLight::base("uuid-1");
        let color = object(vec![("temperature", number(t))]);
        let actions = vec![action("action.devices.commands.ColorAbsolute", object(vec![("color", color)]))];
        let (answer, command) = lamp.execute_actions(&actions);
        assert_eq!(status_of(&answer).map(|s| s.0), Some("SUCCESS".to_string()));
        assert_eq!(command.and_then(|c| c.temperature), Some(t));
        assert_eq!(lamp.temperature, t);
    }
}

#[test]
fn lamp_keeps_settings_changed_before_a_failing_action() {
    let mut lamp = DLight::base("uuid-1");
    let actions = vec![
        action("action.devices.commands.OnOff", object(vec![("on", JsonValue::Bool(true))])),
        action("action.devices.commands.BrightnessAbsolute", object(vec![("brightness", number(101))])),
        action("action.devices.commands.BrightnessAbsolute", object(vec![("brightness", number(10))])),
    ];
    let (answer, command) = lamp.execute_actions(&actions);
    assert_eq!(status_of(&answer), Some(("ERROR".to_string(), Some("transientError".to_string()))));
    assert!(command.is_none());
    assert!(lamp.on);
    assert_eq!(lamp.brightness, 0);
}
