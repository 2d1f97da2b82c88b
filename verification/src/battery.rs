//! What the battery value of a sensor means. The sensors report no uniform percentage: the
//! meaning of the value depends on the family of the sensor.

use crate::json::{members, Json, JsonView};
use vstd::prelude::*;

verus! {

/// The sensors whose battery values are understood.
#[derive(Debug, Clone, Copy, PartialEq, Eq, Structural)]
pub enum SensorModel {
    Wh25,
    Wh26,
    Wh65,
    Wh31,
    /// A PM2.5 sensor on a channel.
    Pm25(u8),
    Wh40,
    Wh68,
    /// Soil moisture.
    Wh51,
    /// Soil temperature.
    Wn34,
    /// Leaf wetness.
    Wn35,
    /// Laser distance.
    Lds,
    Wh80,
    Wh85,
    Wh90,
    Ws90,
    /// Lightning.
    Wh57,
    LeakDetector,
    /// CO2 and more.
    Wh45,
}

/// The families of battery values.
#[derive(Debug, Clone, Copy, PartialEq, Eq, Structural)]
pub enum BatteryClass {
    /// Zero or one; one means low.
    Binary,
    /// The volts of an AA-class battery.
    VoltageAa,
    /// The volts of a supercapacitor.
    VoltageSupercap,
    /// A level from zero to five.
    LevelToFive,
    /// A level from zero to six.
    LevelToSix,
}

/// The battery fields of a device. Values are in thousandths.
#[derive(Debug, Clone, Copy, PartialEq, Eq)]
pub struct BatteryFields {
    /// The value as the sensor reported it.
    pub battery: i64,
    /// Whether the battery is low, where the family of the sensor is known.
    pub battery_low: Option<bool>,
    /// What the value is, where the family of the sensor is known.
    pub battery_kind: Option<&'static str>,
}

/// The family of a sensor's battery value; none for a channel that no sensor has.
pub open spec fn class_of(model: SensorModel) -> Option<BatteryClass> {
    match model {
        SensorModel::Wh25 | SensorModel::Wh26 | SensorModel::Wh65 | SensorModel::Wh31 => Some(
            BatteryClass::Binary,
        ),
        SensorModel::Pm25(channel) => if 1 <= channel <= 4 {
            Some(BatteryClass::LevelToFive)
        } else if 5 <= channel <= 8 {
            Some(BatteryClass::Binary)
        } else {
            None
        },
        SensorModel::Wh40 | SensorModel::Wh68 | SensorModel::Wh51 | SensorModel::Wn34
        | SensorModel::Wn35 | SensorModel::Lds => Some(BatteryClass::VoltageAa),
        SensorModel::Wh80 | SensorModel::Wh85 | SensorModel::Wh90 | SensorModel::Ws90 => Some(
            BatteryClass::VoltageSupercap,
        ),
        SensorModel::Wh57 | SensorModel::LeakDetector => Some(BatteryClass::LevelToFive),
        SensorModel::Wh45 => Some(BatteryClass::LevelToSix),
    }
}

/// Whether a value, in thousandths, means that the battery is low.
pub open spec fn means_low(class: BatteryClass, value: i64) -> bool {
    match class {
        BatteryClass::Binary => value >= 1000,
        BatteryClass::VoltageAa => value < 1200,
        BatteryClass::VoltageSupercap => value < 2400,
        BatteryClass::LevelToFive | BatteryClass::LevelToSix => value <= 1000,
    }
}

/// What a value is.
pub open spec fn kind_of(class: BatteryClass) -> Seq<char> {
    match class {
        BatteryClass::Binary => "binary"@,
        BatteryClass::VoltageAa | BatteryClass::VoltageSupercap => "voltage"@,
        BatteryClass::LevelToFive | BatteryClass::LevelToSix => "level"@,
    }
}

/// The family of a sensor's battery value.
pub fn battery_class(model: SensorModel) -> (class: Option<BatteryClass>)
    ensures
        class == class_of(model),
{
    match model {
        SensorModel::Wh25 | SensorModel::Wh26 | SensorModel::Wh65 | SensorModel::Wh31 => Some(
            BatteryClass::Binary,
        ),
        SensorModel::Pm25(channel) => if 1 <= channel && channel <= 4 {
            Some(BatteryClass::LevelToFive)
        } else if 5 <= channel && channel <= 8 {
            Some(BatteryClass::Binary)
        } else {
            None
        },
        SensorModel::Wh40 | SensorModel::Wh68 | SensorModel::Wh51 | SensorModel::Wn34
        | SensorModel::Wn35 | SensorModel::Lds => Some(BatteryClass::VoltageAa),
        SensorModel::Wh80 | SensorModel::Wh85 | SensorModel::Wh90 | SensorModel::Ws90 => Some(
            BatteryClass::VoltageSupercap,
        ),
        SensorModel::Wh57 | SensorModel::LeakDetector => Some(BatteryClass::LevelToFive),
        SensorModel::Wh45 => Some(BatteryClass::LevelToSix),
    }
}

/// Whether battery fields describe a value that a sensor of the given model reported, where the
/// report tells the model.
pub open spec fn describe(fields: BatteryFields, model: Option<SensorModel>, value: i64) -> bool {
    let class = match model {
        Some(model) => class_of(model),
        None => None,
    };
    &&& fields.battery == value
    &&& match class {
        Some(class) => {
            &&& fields.battery_low == Some(means_low(class, value))
            &&& fields.battery_kind matches Some(kind) && kind@ == kind_of(class)
        },
        None => fields.battery_low is None && fields.battery_kind is None,
    }
}

/// The battery fields of a device, given its model where the report tells it. Without one the
/// value is kept and nothing is guessed.
pub fn battery_fields(model: Option<SensorModel>, value: i64) -> (fields: BatteryFields)
    ensures
        fields.battery == value,
        match model {
            Some(model) => match class_of(model) {
                Some(class) => {
                    &&& fields.battery_low == Some(means_low(class, value))
                    &&& fields.battery_kind matches Some(kind) && kind@ == kind_of(class)
                },
                None => fields.battery_low is None && fields.battery_kind is None,
            },
            None => fields.battery_low is None && fields.battery_kind is None,
        },
        describe(fields, model, value),
        model matches Some(SensorModel::Pm25(channel)) ==> {
            &&& 1 <= channel <= 4 ==> fields.battery_low == Some(value <= 1000)
            &&& 5 <= channel <= 8 ==> fields.battery_low == Some(value >= 1000)
            &&& channel < 1 || channel > 8 ==> fields.battery_low is None
        },
{
    let class = match model {
        Some(model) => battery_class(model),
        None => None,
    };
    match class {
        Some(class) => {
            let (low, kind) = match class {
                BatteryClass::Binary => (value >= 1000, "binary"),
                BatteryClass::VoltageAa => (value < 1200, "voltage"),
                BatteryClass::VoltageSupercap => (value < 2400, "voltage"),
                BatteryClass::LevelToFive | BatteryClass::LevelToSix => (value <= 1000, "level"),
            };
            BatteryFields { battery: value, battery_low: Some(low), battery_kind: Some(kind) }
        },
        None => BatteryFields { battery: value, battery_low: None, battery_kind: None },
    }
}

/// The battery fields as they stand in the state of a device, with the value as it was reported:
/// what is not known is left out.
pub open spec fn battery_entries(fields: BatteryFields, raw: JsonView) -> Seq<
    (Seq<char>, JsonView),
> {
    let low = match fields.battery_low {
        Some(low) => seq![("battery_low"@, JsonView::Bool(low))],
        None => Seq::empty(),
    };
    let kind = match fields.battery_kind {
        Some(kind) => seq![("battery_kind"@, JsonView::Str(kind@))],
        None => Seq::empty(),
    };
    seq![("battery"@, raw)] + low + kind
}

/// The battery fields of a device for its state, with the value as it was reported.
pub fn battery_members(fields: &BatteryFields, raw: Json) -> (entries: Vec<(String, Json)>)
    ensures
        members(entries@) == battery_entries(*fields, raw@),
{
    let mut entries: Vec<(String, Json)> = vec![("battery".to_owned(), raw)];
    if let Some(low) = fields.battery_low {
        entries.push(("battery_low".to_owned(), Json::Bool(low)));
    }
    if let Some(kind) = fields.battery_kind {
        entries.push(("battery_kind".to_owned(), Json::text(kind)));
    }
    assert(members(entries@) =~= battery_entries(*fields, raw@));
    entries
}

/// The state of a device says whether its battery is low, and what the value is, if and only if
/// the report tells a model whose family is known. The value itself stands there in any case.
pub proof fn nothing_is_guessed_of_a_battery(fields: BatteryFields, raw: JsonView)
    ensures
        battery_entries(fields, raw).contains(("battery"@, raw)),
        forall|low: JsonView|
            #![trigger battery_entries(fields, raw).contains(("battery_low"@, low))]
            battery_entries(fields, raw).contains(("battery_low"@, low)) <==> (
            fields.battery_low is Some && low == JsonView::Bool(fields.battery_low->0)),
        forall|kind: JsonView|
            #![trigger battery_entries(fields, raw).contains(("battery_kind"@, kind))]
            battery_entries(fields, raw).contains(("battery_kind"@, kind)) <==> (
            fields.battery_kind is Some && kind == JsonView::Str(fields.battery_kind->0@)),
{
    reveal_strlit("battery");
    reveal_strlit("battery_low");
    reveal_strlit("battery_kind");
    assert("battery"@.len() == 7 && "battery_low"@.len() == 11 && "battery_kind"@.len() == 12);
    let entries = battery_entries(fields, raw);
    assert(entries[0] == ("battery"@, raw));
    if fields.battery_low is Some {
        assert(entries[1] == ("battery_low"@, JsonView::Bool(fields.battery_low->0)));
    }
    if fields.battery_kind is Some {
        let last = entries.len() - 1;
        assert(entries[last] == ("battery_kind"@, JsonView::Str(fields.battery_kind->0@)));
    }
}

/// A battery that is low stays low as it drains: a voltage or a level that falls further, or a
/// flag that stays set.
pub proof fn a_low_battery_stays_low(class: BatteryClass, value: i64, later: i64)
    requires
        means_low(class, value),
        class == BatteryClass::Binary ==> later >= value,
        class != BatteryClass::Binary ==> later <= value,
    ensures
        means_low(class, later),
{
}

/// A PM2.5 sensor on a channel from one to four reports a level, which is low at one and under it;
/// on a channel from five to eight it reports a flag, which means low at one and over it; and of
/// any other channel nothing is said. Values are in thousandths.
pub proof fn the_channel_of_a_pm25_sensor_decides(channel: u8, value: i64, fields: BatteryFields)
    requires
        describe(fields, Some(SensorModel::Pm25(channel)), value),
    ensures
        fields.battery == value,
        1 <= channel <= 4 ==> {
            &&& fields.battery_low == Some(value <= 1000)
            &&& fields.battery_kind is Some
            &&& (fields.battery_kind->0)@ == "level"@
        },
        5 <= channel <= 8 ==> {
            &&& fields.battery_low == Some(value >= 1000)
            &&& fields.battery_kind is Some
            &&& (fields.battery_kind->0)@ == "binary"@
        },
        channel < 1 || channel > 8 ==> fields.battery_low is None && fields.battery_kind is None,
{
}

/// The sensors that report a flag: one and over it means low. Values are in thousandths.
pub proof fn some_sensors_report_a_flag(
    model: SensorModel,
    value: i64,
    fields: BatteryFields,
)
    requires
        describe(fields, Some(model), value),
        model == SensorModel::Wh25 || model == SensorModel::Wh26 || model == SensorModel::Wh65
            || model == SensorModel::Wh31,
    ensures
        fields.battery == value,
        fields.battery_low == Some(value >= 1000),
        fields.battery_kind is Some,
        (fields.battery_kind->0)@ == "binary"@,
{
}

/// The sensors that report the volts of an AA-class battery: under 1.2 means low.
pub proof fn some_sensors_report_the_volts_of_a_battery(
    model: SensorModel,
    value: i64,
    fields: BatteryFields,
)
    requires
        describe(fields, Some(model), value),
        model == SensorModel::Wh40 || model == SensorModel::Wh68 || model == SensorModel::Wh51
            || model == SensorModel::Wn34 || model == SensorModel::Wn35 || model
            == SensorModel::Lds,
    ensures
        fields.battery == value,
        fields.battery_low == Some(value < 1200),
        fields.battery_kind is Some,
        (fields.battery_kind->0)@ == "voltage"@,
{
}

/// The sensors that report the volts of a supercapacitor: under 2.4 means low.
pub proof fn some_sensors_report_the_volts_of_a_supercapacitor(
    model: SensorModel,
    value: i64,
    fields: BatteryFields,
)
    requires
        describe(fields, Some(model), value),
        model == SensorModel::Wh80 || model == SensorModel::Wh85 || model == SensorModel::Wh90
            || model == SensorModel::Ws90,
    ensures
        fields.battery == value,
        fields.battery_low == Some(value < 2400),
        fields.battery_kind is Some,
        (fields.battery_kind->0)@ == "voltage"@,
{
}

/// The sensors that report a level: one and under it means low.
pub proof fn some_sensors_report_a_level(
    model: SensorModel,
    value: i64,
    fields: BatteryFields,
)
    requires
        describe(fields, Some(model), value),
        model == SensorModel::Wh57 || model == SensorModel::LeakDetector || model
            == SensorModel::Wh45,
    ensures
        fields.battery == value,
        fields.battery_low == Some(value <= 1000),
        fields.battery_kind is Some,
        (fields.battery_kind->0)@ == "level"@,
{
}

/// Of a sensor whose model the report does not tell, only the value is kept.
pub proof fn an_untold_model_tells_nothing(value: i64, fields: BatteryFields)
    requires
        describe(fields, None, value),
    ensures
        fields == (BatteryFields { battery: value, battery_low: None, battery_kind: None }),
{
}

/// The families of the sensors, written out.
pub proof fn the_families_of_the_sensors(channel: u8)
    ensures
        class_of(SensorModel::Wh25) == Some(BatteryClass::Binary),
        class_of(SensorModel::Wh26) == Some(BatteryClass::Binary),
        class_of(SensorModel::Wh65) == Some(BatteryClass::Binary),
        class_of(SensorModel::Wh31) == Some(BatteryClass::Binary),
        class_of(SensorModel::Wh40) == Some(BatteryClass::VoltageAa),
        class_of(SensorModel::Wh68) == Some(BatteryClass::VoltageAa),
        class_of(SensorModel::Wh51) == Some(BatteryClass::VoltageAa),
        class_of(SensorModel::Wn34) == Some(BatteryClass::VoltageAa),
        class_of(SensorModel::Wn35) == Some(BatteryClass::VoltageAa),
        class_of(SensorModel::Lds) == Some(BatteryClass::VoltageAa),
        class_of(SensorModel::Wh80) == Some(BatteryClass::VoltageSupercap),
        class_of(SensorModel::Wh85) == Some(BatteryClass::VoltageSupercap),
        class_of(SensorModel::Wh90) == Some(BatteryClass::VoltageSupercap),
        class_of(SensorModel::Ws90) == Some(BatteryClass::VoltageSupercap),
        class_of(SensorModel::Wh57) == Some(BatteryClass::LevelToFive),
        class_of(SensorModel::LeakDetector) == Some(BatteryClass::LevelToFive),
        class_of(SensorModel::Wh45) == Some(BatteryClass::LevelToSix),
        1 <= channel <= 4 ==> class_of(SensorModel::Pm25(channel)) == Some(
            BatteryClass::LevelToFive,
        ),
        5 <= channel <= 8 ==> class_of(SensorModel::Pm25(channel)) == Some(BatteryClass::Binary),
        channel < 1 || channel > 8 ==> class_of(SensorModel::Pm25(channel)) is None,
{
}

/// The entries of a battery in the state of a device, written out: the value as it was reported,
/// then whether it is low and what it is, each where it is known, and nothing else.
pub proof fn the_entries_of_a_battery(fields: BatteryFields, raw: JsonView)
    ensures
        battery_entries(fields, raw) == (match (fields.battery_low, fields.battery_kind) {
            (Some(low), Some(kind)) => seq![
                ("battery"@, raw),
                ("battery_low"@, JsonView::Bool(low)),
                ("battery_kind"@, JsonView::Str(kind@)),
            ],
            (Some(low), None) => seq![("battery"@, raw), ("battery_low"@, JsonView::Bool(low))],
            (None, Some(kind)) => seq![("battery"@, raw), ("battery_kind"@, JsonView::Str(kind@))],
            (None, None) => seq![("battery"@, raw)],
        }),
{
    let entries = battery_entries(fields, raw);
    if let Some(low) = fields.battery_low {
        if let Some(kind) = fields.battery_kind {
            assert(entries =~= seq![
                ("battery"@, raw),
                ("battery_low"@, JsonView::Bool(low)),
                ("battery_kind"@, JsonView::Str(kind@)),
            ]);
        } else {
            assert(entries =~= seq![("battery"@, raw), ("battery_low"@, JsonView::Bool(low))]);
        }
    } else if let Some(kind) = fields.battery_kind {
        assert(entries =~= seq![("battery"@, raw), ("battery_kind"@, JsonView::Str(kind@))]);
    } else {
        assert(entries =~= seq![("battery"@, raw)]);
    }
}

} // verus!
