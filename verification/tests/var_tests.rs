use rups::var::{DeviceType, Variable, VariableDefinition};

fn tags(words: &[&str]) -> Vec<String> {
    words.iter().map(|w| w.to_string()).collect()
}

#[test]
fn test_parse_variable_definition() {
    assert_eq!(
        VariableDefinition::parse("var0", &tags(&[])).unwrap(),
        VariableDefinition::new("var0", false, false, None, false, false)
    );

    assert_eq!(
        VariableDefinition::parse("var1", &tags(&["RW"])).unwrap(),
        VariableDefinition::new("var1", true, false, None, false, false)
    );

    assert_eq!(
        VariableDefinition::parse("var1", &tags(&["RW", "STRING:123"])).unwrap(),
        VariableDefinition::new("var1", true, false, Some(123), false, false)
    );

    assert!(VariableDefinition::parse("var1", &tags(&["RW", "STRING:123"]))
        .unwrap()
        .is_mutable());
    assert!(VariableDefinition::parse("var1", &tags(&["RW", "STRING:123"]))
        .unwrap()
        .is_string());
    assert!(!VariableDefinition::parse("var1", &tags(&["RW", "STRING:123"]))
        .unwrap()
        .is_enum());
    assert!(!VariableDefinition::parse("var1", &tags(&["RW", "STRING:123"]))
        .unwrap()
        .is_number());
    assert!(!VariableDefinition::parse("var1", &tags(&["RW", "STRING:123"]))
        .unwrap()
        .is_range());
    assert_eq!(
        VariableDefinition::parse("var1", &tags(&["RW", "STRING:123"]))
            .unwrap()
            .get_string_length(),
        Some(123)
    );
}

#[test]
fn variable_definition_rejects_unknown_tags() {
    assert!(VariableDefinition::parse("var2", &tags(&["WEIRD"])).is_err());
    assert!(VariableDefinition::parse("var2", &tags(&["STRING:"])).is_err());
    assert!(VariableDefinition::parse("var2", &tags(&["STRING:0"])).is_err());
    assert!(VariableDefinition::parse("var2", &tags(&["STRING:12a"])).is_err());
    let d = VariableDefinition::parse("var2", &tags(&["ENUM", "RANGE", "NUMBER"])).unwrap();
    assert!(d.is_enum() && d.is_range() && d.is_number() && !d.is_mutable());
}

#[test]
fn string_length_does_not_depend_on_tag_order() {
    let a = VariableDefinition::parse("var3", &tags(&["STRING:200", "STRING:123"])).unwrap();
    let b = VariableDefinition::parse("var3", &tags(&["STRING:123", "STRING:200"])).unwrap();
    assert_eq!(a.get_string_length(), Some(123));
    assert_eq!(b.get_string_length(), Some(123));
    assert_eq!(a, b);
}

#[test]
fn variable_parse_well_known_names() {
    assert_eq!(
        Variable::parse("device.model", "Smart-UPS".to_string()),
        Variable::DeviceModel("Smart-UPS".to_string())
    );
    assert_eq!(
        Variable::parse("device.uptime", "3600".to_string()),
        Variable::DeviceUptime(3600)
    );
    assert_eq!(
        Variable::parse("device.type", "ups".to_string()),
        Variable::DeviceType(DeviceType::Ups)
    );
    assert_eq!(
        Variable::parse("device.type", "fridge".to_string()),
        Variable::DeviceType(DeviceType::Other("fridge".to_string()))
    );
    assert_eq!(
        Variable::parse("ups.status", "OL".to_string()),
        Variable::Other("ups.status".to_string(), "OL".to_string())
    );
    // an unreadable uptime falls back to the opaque pair
    assert_eq!(
        Variable::parse("device.uptime", "soon".to_string()),
        Variable::Other("device.uptime".to_string(), "soon".to_string())
    );
}

#[test]
fn variable_name_and_value() {
    let v = Variable::parse("device.uptime", "3600".to_string());
    assert_eq!(v.name(), "device.uptime");
    assert_eq!(v.value(), "3600");
    let w = Variable::parse("device.type", "fridge".to_string());
    assert_eq!(w.value(), "other(fridge)");
    let o = Variable::parse("ups.load", "42".to_string());
    assert_eq!(o.name(), "ups.load");
    assert_eq!(o.value(), "42");
}
