use hc_ecowitt::battery::{
    battery_class, battery_fields, battery_members, BatteryClass, BatteryFields, SensorModel,
};
use hc_ecowitt::json::Json;

fn fields(model: SensorModel, value: i64) -> BatteryFields {
    battery_fields(Some(model), value)
}

fn known(battery: i64, low: bool, kind: &'static str) -> BatteryFields {
    BatteryFields { battery, battery_low: Some(low), battery_kind: Some(kind) }
}

#[test]
fn a_flag_means_low_when_it_is_set() {
    for model in [
        SensorModel::Wh25,
        SensorModel::Wh26,
        SensorModel::Wh65,
        SensorModel::Wh31,
        SensorModel::Pm25(5),
        SensorModel::Pm25(8),
    ] {
        assert_eq!(fields(model, 0), known(0, false, "binary"));
        assert_eq!(fields(model, 1000), known(1000, true, "binary"));
    }
}

#[test]
fn an_aa_battery_is_low_under_its_voltage() {
    for model in [
        SensorModel::Wh40,
        SensorModel::Wh68,
        SensorModel::Wh51,
        SensorModel::Wn34,
        SensorModel::Wn35,
        SensorModel::Lds,
    ] {
        assert_eq!(fields(model, 1200), known(1200, false, "voltage"));
        assert_eq!(fields(model, 1199), known(1199, true, "voltage"));
    }
}

#[test]
fn a_supercapacitor_is_low_under_its_voltage() {
    for model in [SensorModel::Wh80, SensorModel::Wh85, SensorModel::Wh90, SensorModel::Ws90] {
        assert_eq!(fields(model, 2400), known(2400, false, "voltage"));
        assert_eq!(fields(model, 2380), known(2380, true, "voltage"));
    }
}

#[test]
fn a_level_is_low_at_one() {
    for model in [
        SensorModel::Wh57,
        SensorModel::LeakDetector,
        SensorModel::Wh45,
        SensorModel::Pm25(1),
        SensorModel::Pm25(4),
    ] {
        assert_eq!(fields(model, 2000), known(2000, false, "level"));
        assert_eq!(fields(model, 1000), known(1000, true, "level"));
    }
    assert_eq!(battery_class(SensorModel::Wh57), Some(BatteryClass::LevelToFive));
    assert_eq!(battery_class(SensorModel::Wh45), Some(BatteryClass::LevelToSix));
}

#[test]
fn an_unknown_sensor_keeps_its_value_and_nothing_is_guessed() {
    let unknown = BatteryFields { battery: 1500, battery_low: None, battery_kind: None };
    assert_eq!(battery_fields(None, 1500), unknown);
    assert_eq!(fields(SensorModel::Pm25(0), 1500), unknown);
    assert_eq!(fields(SensorModel::Pm25(9), 1500), unknown);
}

#[test]
fn the_state_of_a_device_says_what_is_known_of_its_battery() {
    let raw = || Json::Number("1.18".to_string());
    assert_eq!(
        battery_members(&fields(SensorModel::Wh40, 1180), raw()),
        vec![
            ("battery".to_string(), raw()),
            ("battery_low".to_string(), Json::Bool(true)),
            ("battery_kind".to_string(), Json::Str("voltage".to_string())),
        ]
    );
    assert_eq!(
        battery_members(&battery_fields(None, 1180), raw()),
        vec![("battery".to_string(), raw())]
    );
}
