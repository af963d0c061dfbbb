//! MQTT side of the gateway: the broker configuration, the Home Assistant
//! discovery configurations, and the decisions of the MQTT worker.

use vstd::prelude::*;
use crate::telemetry::{error_state_text, operating_mode_text, NepTelemetry};
use crate::text::{has_prefix, hex8, hex_text};

verus! {

/// Where the MQTT broker is reached.
#[derive(Debug, Clone)]
pub struct MqttConfig {
    pub host: String,
    pub port: u16,
}

/// The sensors that the gateway announces to Home Assistant, in
/// announcement order.
#[derive(Debug, Clone, Copy, PartialEq, Eq)]
pub enum HaSensor {
    AcPower,
    AcVoltage,
    AcFreq,
    DcVoltage,
    DcCurrent,
    DcPower,
    Efficiency,
    Temperature,
    DailyEnergy,
    ReactivePower,
    ErrorState,
    OperatingMode,
}

/// Number of sensors announced to Home Assistant.
pub const SENSOR_COUNT: usize = 12;

/// The announcement order of the sensors.
pub open spec fn sensor_order() -> Seq<HaSensor> {
    seq![
        HaSensor::AcPower,
        HaSensor::AcVoltage,
        HaSensor::AcFreq,
        HaSensor::DcVoltage,
        HaSensor::DcCurrent,
        HaSensor::DcPower,
        HaSensor::Efficiency,
        HaSensor::Temperature,
        HaSensor::DailyEnergy,
        HaSensor::ReactivePower,
        HaSensor::ErrorState,
        HaSensor::OperatingMode,
    ]
}

/// Identifier of a sensor within the device.
pub open spec fn sensor_id(s: HaSensor) -> Seq<char> {
    match s {
        HaSensor::AcPower => "ac_power"@,
        HaSensor::AcVoltage => "ac_voltage"@,
        HaSensor::AcFreq => "ac_freq"@,
        HaSensor::DcVoltage => "dc_voltage"@,
        HaSensor::DcCurrent => "dc_current"@,
        HaSensor::DcPower => "dc_power"@,
        HaSensor::Efficiency => "efficiency"@,
        HaSensor::Temperature => "temperature"@,
        HaSensor::DailyEnergy => "daily_energy"@,
        HaSensor::ReactivePower => "reactive_power"@,
        HaSensor::ErrorState => "error_state"@,
        HaSensor::OperatingMode => "operating_mode"@,
    }
}

/// Display name of a sensor.
pub open spec fn sensor_name(s: HaSensor) -> Seq<char> {
    match s {
        HaSensor::AcPower => "AC Output Power"@,
        HaSensor::AcVoltage => "AC Grid Voltage"@,
        HaSensor::AcFreq => "AC Grid Frequency"@,
        HaSensor::DcVoltage => "DC PV Voltage"@,
        HaSensor::DcCurrent => "DC PV Current"@,
        HaSensor::DcPower => "DC PV Power"@,
        HaSensor::Efficiency => "Inverter Efficiency"@,
        HaSensor::Temperature => "DSP Temperature"@,
        HaSensor::DailyEnergy => "Daily Energy"@,
        HaSensor::ReactivePower => "Reactive Power"@,
        HaSensor::ErrorState => "Error State"@,
        HaSensor::OperatingMode => "Operating Mode"@,
    }
}

/// Home Assistant device class of a sensor (empty when it has none).
pub open spec fn sensor_device_class(s: HaSensor) -> Seq<char> {
    match s {
        HaSensor::AcPower => "power"@,
        HaSensor::AcVoltage => "voltage"@,
        HaSensor::AcFreq => "frequency"@,
        HaSensor::DcVoltage => "voltage"@,
        HaSensor::DcCurrent => "current"@,
        HaSensor::DcPower => "power"@,
        HaSensor::Efficiency => ""@,
        HaSensor::Temperature => "temperature"@,
        HaSensor::DailyEnergy => "energy"@,
        HaSensor::ReactivePower => "reactive_power"@,
        HaSensor::ErrorState => "enum"@,
        HaSensor::OperatingMode => "enum"@,
    }
}

/// Unit of measurement of a sensor (empty when it has none).
pub open spec fn sensor_unit(s: HaSensor) -> Seq<char> {
    match s {
        HaSensor::AcPower => "W"@,
        HaSensor::AcVoltage => "V"@,
        HaSensor::AcFreq => "Hz"@,
        HaSensor::DcVoltage => "V"@,
        HaSensor::DcCurrent => "A"@,
        HaSensor::DcPower => "W"@,
        HaSensor::Efficiency => "%"@,
        HaSensor::Temperature => "°C"@,
        HaSensor::DailyEnergy => "Wh"@,
        HaSensor::ReactivePower => "VAR"@,
        HaSensor::ErrorState => ""@,
        HaSensor::OperatingMode => ""@,
    }
}

/// Key of the sensor's value in the telemetry JSON.
pub open spec fn sensor_json_key(s: HaSensor) -> Seq<char> {
    match s {
        HaSensor::AcPower => "ac_power_w"@,
        HaSensor::AcVoltage => "ac_voltage_v"@,
        HaSensor::AcFreq => "ac_freq_hz"@,
        HaSensor::DcVoltage => "dc_voltage_v"@,
        HaSensor::DcCurrent => "dc_current_a"@,
        HaSensor::DcPower => "dc_power_w"@,
        HaSensor::Efficiency => "efficiency_percent"@,
        HaSensor::Temperature => "temperature_c"@,
        HaSensor::DailyEnergy => "daily_energy_wh"@,
        HaSensor::ReactivePower => "reactive_power_var"@,
        HaSensor::ErrorState => "error_state"@,
        HaSensor::OperatingMode => "operating_mode"@,
    }
}

/// State class of a sensor: energy totals only increase, the efficiency and
/// the two enumerations have none, every other sensor is a measurement.
pub open spec fn sensor_state_class(s: HaSensor) -> Option<Seq<char>> {
    match s {
        HaSensor::DailyEnergy => Some("total_increasing"@),
        HaSensor::Efficiency => None,
        HaSensor::ErrorState => None,
        HaSensor::OperatingMode => None,
        _ => Some("measurement"@),
    }
}

/// The values an enumeration sensor can take (empty for the others).
pub open spec fn sensor_options(s: HaSensor) -> Seq<Seq<char>> {
    match s {
        HaSensor::ErrorState => seq![
            "OK"@,
            "Grid Loss / Islanding"@,
            "Anti-Islanding Reconnection Sync Timer"@,
            "Unknown Error"@,
        ],
        HaSensor::OperatingMode => seq![
            "Deep Sleep"@,
            "Awake Standby"@,
            "Active Standby"@,
            "Generating"@,
            "Unknown State"@,
        ],
        _ => seq![],
    }
}

/// `Some(text)` when `text` is not empty, `None` otherwise.
pub open spec fn non_empty(text: Seq<char>) -> Option<Seq<char>> {
    if text.len() == 0 {
        None
    } else {
        Some(text)
    }
}

/// The view of an optional text.
pub open spec fn opt_view(o: Option<&str>) -> Option<Seq<char>> {
    match o {
        Some(s) => Some(s@),
        None => None,
    }
}

/// The topic on which the telemetry of inverter `serial` is published.
pub open spec fn telemetry_topic_text(serial: Seq<char>) -> Seq<char> {
    "nep/telemetry/"@ + serial
}

/// The topic on which the discovery configuration of a sensor is published.
pub open spec fn discovery_topic_text(serial: Seq<char>, s: HaSensor) -> Seq<char> {
    "homeassistant/sensor/nep_"@ + serial + "/"@ + sensor_id(s) + "/config"@
}

/// The Home Assistant device that groups the sensors of one inverter.
#[derive(Debug)]
pub struct DeviceInfo {
    pub identifier: String,
    pub name: String,
    pub model: &'static str,
    pub manufacturer: &'static str,
}

/// `d` describes the device of inverter `serial`.
pub open spec fn device_matches(d: DeviceInfo, serial: Seq<char>) -> bool {
    &&& d.identifier@ == "nep_bdm_"@ + serial
    &&& d.name@ == "NEP BDM-400 ("@ + serial + ")"@
    &&& d.model@ == "BDM-400"@
    &&& d.manufacturer@ == "Northern Electric Power (NEP)"@
}

/// The discovery configuration of one sensor of one inverter.
#[derive(Debug)]
pub struct DiscoveryConfig {
    /// Topic the configuration is published on (retained).
    pub topic: String,
    pub name: String,
    pub state_topic: String,
    pub value_template: String,
    pub unique_id: String,
    pub device: DeviceInfo,
    pub device_class: Option<&'static str>,
    pub unit_of_measurement: Option<&'static str>,
    pub state_class: Option<&'static str>,
    pub options: Vec<&'static str>,
}

/// `c` is the discovery configuration of sensor `s` of inverter `serial`.
pub open spec fn config_matches(c: DiscoveryConfig, serial: Seq<char>, s: HaSensor) -> bool {
    &&& c.topic@ == discovery_topic_text(serial, s)
    &&& c.name@ == "NEP "@ + serial + " "@ + sensor_name(s)
    &&& c.state_topic@ == telemetry_topic_text(serial)
    &&& c.value_template@ == "{{ value_json."@ + sensor_json_key(s) + " }}"@
    &&& c.unique_id@ == "nep_"@ + serial + "_"@ + sensor_id(s)
    &&& device_matches(c.device, serial)
    &&& opt_view(c.device_class) == non_empty(sensor_device_class(s))
    &&& opt_view(c.unit_of_measurement) == non_empty(sensor_unit(s))
    &&& opt_view(c.state_class) == sensor_state_class(s)
    &&& c.options@.map_values(|o: &str| o@) == sensor_options(s)
}

/// `cs` holds the configuration of every sensor of inverter `serial`, in
/// announcement order.
pub open spec fn configs_match(cs: Seq<DiscoveryConfig>, serial: Seq<char>) -> bool {
    &&& cs.len() == SENSOR_COUNT
    &&& forall|i: int| 0 <= i < SENSOR_COUNT ==> config_matches(#[trigger] cs[i], serial, sensor_order()[i])
}


impl HaSensor {
    /// The sensor at position `i` of the announcement order.
    pub fn at(i: usize) -> (s: HaSensor)
        requires
            i < SENSOR_COUNT,
        ensures
            s == sensor_order()[i as int],
    {
        match i {
            0 => HaSensor::AcPower,
            1 => HaSensor::AcVoltage,
            2 => HaSensor::AcFreq,
            3 => HaSensor::DcVoltage,
            4 => HaSensor::DcCurrent,
            5 => HaSensor::DcPower,
            6 => HaSensor::Efficiency,
            7 => HaSensor::Temperature,
            8 => HaSensor::DailyEnergy,
            9 => HaSensor::ReactivePower,
            10 => HaSensor::ErrorState,
            _ => HaSensor::OperatingMode,
        }
    }

    /// Identifier of the sensor within the device.
    pub fn id(self) -> (text: &'static str)
        ensures
            text@ == sensor_id(self),
    {
        match self {
            HaSensor::AcPower => "ac_power",
            HaSensor::AcVoltage => "ac_voltage",
            HaSensor::AcFreq => "ac_freq",
            HaSensor::DcVoltage => "dc_voltage",
            HaSensor::DcCurrent => "dc_current",
            HaSensor::DcPower => "dc_power",
            HaSensor::Efficiency => "efficiency",
            HaSensor::Temperature => "temperature",
            HaSensor::DailyEnergy => "daily_energy",
            HaSensor::ReactivePower => "reactive_power",
            HaSensor::ErrorState => "error_state",
            HaSensor::OperatingMode => "operating_mode",
        }
    }

    /// Display name of the sensor.
    pub fn name(self) -> (text: &'static str)
        ensures
            text@ == sensor_name(self),
    {
        match self {
            HaSensor::AcPower => "AC Output Power",
            HaSensor::AcVoltage => "AC Grid Voltage",
            HaSensor::AcFreq => "AC Grid Frequency",
            HaSensor::DcVoltage => "DC PV Voltage",
            HaSensor::DcCurrent => "DC PV Current",
            HaSensor::DcPower => "DC PV Power",
            HaSensor::Efficiency => "Inverter Efficiency",
            HaSensor::Temperature => "DSP Temperature",
            HaSensor::DailyEnergy => "Daily Energy",
            HaSensor::ReactivePower => "Reactive Power",
            HaSensor::ErrorState => "Error State",
            HaSensor::OperatingMode => "Operating Mode",
        }
    }

    /// Home Assistant device class of the sensor (empty when it has none).
    pub fn device_class(self) -> (text: &'static str)
        ensures
            text@ == sensor_device_class(self),
    {
        match self {
            HaSensor::AcPower => "power",
            HaSensor::AcVoltage => "voltage",
            HaSensor::AcFreq => "frequency",
            HaSensor::DcVoltage => "voltage",
            HaSensor::DcCurrent => "current",
            HaSensor::DcPower => "power",
            HaSensor::Efficiency => "",
            HaSensor::Temperature => "temperature",
            HaSensor::DailyEnergy => "energy",
            HaSensor::ReactivePower => "reactive_power",
            HaSensor::ErrorState => "enum",
            HaSensor::OperatingMode => "enum",
        }
    }

    /// Unit of measurement of the sensor (empty when it has none).
    pub fn unit(self) -> (text: &'static str)
        ensures
            text@ == sensor_unit(self),
    {
        match self {
            HaSensor::AcPower => "W",
            HaSensor::AcVoltage => "V",
            HaSensor::AcFreq => "Hz",
            HaSensor::DcVoltage => "V",
            HaSensor::DcCurrent => "A",
            HaSensor::DcPower => "W",
            HaSensor::Efficiency => "%",
            HaSensor::Temperature => "°C",
            HaSensor::DailyEnergy => "Wh",
            HaSensor::ReactivePower => "VAR",
            HaSensor::ErrorState => "",
            HaSensor::OperatingMode => "",
        }
    }

    /// Key of the sensor's value in the telemetry JSON.
    pub fn json_key(self) -> (text: &'static str)
        ensures
            text@ == sensor_json_key(self),
    {
        match self {
            HaSensor::AcPower => "ac_power_w",
            HaSensor::AcVoltage => "ac_voltage_v",
            HaSensor::AcFreq => "ac_freq_hz",
            HaSensor::DcVoltage => "dc_voltage_v",
            HaSensor::DcCurrent => "dc_current_a",
            HaSensor::DcPower => "dc_power_w",
            HaSensor::Efficiency => "efficiency_percent",
            HaSensor::Temperature => "temperature_c",
            HaSensor::DailyEnergy => "daily_energy_wh",
            HaSensor::ReactivePower => "reactive_power_var",
            HaSensor::ErrorState => "error_state",
            HaSensor::OperatingMode => "operating_mode",
        }
    }
}

/// `Some(text)` when `text` is not empty.
fn non_empty_str(text: &'static str) -> (o: Option<&'static str>)
    ensures
        opt_view(o) == non_empty(text@),
{
    if text.is_empty() {
        None
    } else {
        Some(text)
    }
}

/// State class of a sensor.
fn state_class(s: HaSensor) -> (o: Option<&'static str>)
    ensures
        opt_view(o) == sensor_state_class(s),
{
    match s {
        HaSensor::DailyEnergy => Some("total_increasing"),
        HaSensor::Efficiency => None,
        HaSensor::ErrorState => None,
        HaSensor::OperatingMode => None,
        _ => Some("measurement"),
    }
}

/// The values an enumeration sensor can take.
fn options(s: HaSensor) -> (v: Vec<&'static str>)
    ensures
        v@.map_values(|o: &str| o@) == sensor_options(s),
{
    let mut v: Vec<&'static str> = Vec::new();
    match s {
        HaSensor::ErrorState => {
            v.push("OK");
            v.push("Grid Loss / Islanding");
            v.push("Anti-Islanding Reconnection Sync Timer");
            v.push("Unknown Error");
        },
        HaSensor::OperatingMode => {
            v.push("Deep Sleep");
            v.push("Awake Standby");
            v.push("Active Standby");
            v.push("Generating");
            v.push("Unknown State");
        },
        _ => {},
    }
    assert(v@.map_values(|o: &str| o@) =~= sensor_options(s));
    v
}

/// The topic on which the telemetry of inverter `serial` is published.
pub fn telemetry_topic(serial: &str) -> (topic: String)
    ensures
        topic@ == telemetry_topic_text(serial@),
{
    let mut topic = String::from_str("nep/telemetry/");
    topic.append(serial);
    topic
}

/// The Home Assistant device of inverter `serial`.
pub fn device_info(serial: &str) -> (d: DeviceInfo)
    ensures
        device_matches(d, serial@),
{
    let mut identifier = String::from_str("nep_bdm_");
    identifier.append(serial);
    let mut name = String::from_str("NEP BDM-400 (");
    name.append(serial);
    name.append(")");
    DeviceInfo { identifier, name, model: "BDM-400", manufacturer: "Northern Electric Power (NEP)" }
}

/// The discovery configuration of sensor `s` of inverter `serial`.
pub fn discovery_config(serial: &str, s: HaSensor) -> (c: DiscoveryConfig)
    ensures
        config_matches(c, serial@, s),
{
    let id = s.id();
    let mut topic = String::from_str("homeassistant/sensor/nep_");
    topic.append(serial);
    topic.append("/");
    topic.append(id);
    topic.append("/config");
    let mut name = String::from_str("NEP ");
    name.append(serial);
    name.append(" ");
    name.append(s.name());
    let mut value_template = String::from_str("{{ value_json.");
    value_template.append(s.json_key());
    value_template.append(" }}");
    let mut unique_id = String::from_str("nep_");
    unique_id.append(serial);
    unique_id.append("_");
    unique_id.append(id);
    DiscoveryConfig {
        topic,
        name,
        state_topic: telemetry_topic(serial),
        value_template,
        unique_id,
        device: device_info(serial),
        device_class: non_empty_str(s.device_class()),
        unit_of_measurement: non_empty_str(s.unit()),
        state_class: state_class(s),
        options: options(s),
    }
}

/// The discovery configurations of every sensor of inverter `serial`, in
/// announcement order.
pub fn discovery_configs(serial: &str) -> (cs: Vec<DiscoveryConfig>)
    ensures
        configs_match(cs@, serial@),
{
    let mut cs: Vec<DiscoveryConfig> = Vec::new();
    let mut i: usize = 0;
    while i < SENSOR_COUNT
        invariant
            i <= SENSOR_COUNT,
            cs@.len() == i,
            forall|j: int| 0 <= j < i ==> config_matches(#[trigger] cs@[j], serial@, sensor_order()[j]),
        decreases SENSOR_COUNT - i,
    {
        cs.push(discovery_config(serial, HaSensor::at(i)));
        i = i + 1;
    }
    cs
}


/// What the MQTT worker does with one telemetry record.
#[derive(Debug)]
pub struct TelemetryPlan {
    /// The inverter's serial number as eight lower-case hex digits.
    pub serial: String,
    /// The topic the telemetry JSON is published on.
    pub topic: String,
    /// The discovery configurations to publish first, while the sensors of
    /// this inverter have not been announced successfully yet.
    pub discovery: Option<Vec<DiscoveryConfig>>,
}

/// The state of the MQTT worker: the serial numbers of the inverters whose
/// sensors have been announced to Home Assistant successfully.
#[derive(Debug)]
pub struct MqttWorker {
    discovered: Vec<u32>,
}

/// The announced serial numbers after a series of announcement outcomes
/// (serial number, whether publishing succeeded), starting from `start`.
pub open spec fn discovered_after(start: Set<u32>, outcomes: Seq<(u32, bool)>) -> Set<u32>
    decreases outcomes.len(),
{
    if outcomes.len() == 0 {
        start
    } else {
        let prev = discovered_after(start, outcomes.drop_last());
        if outcomes.last().1 {
            prev.insert(outcomes.last().0)
        } else {
            prev
        }
    }
}

impl MqttWorker {
    /// The serial numbers of the inverters announced successfully.
    pub closed spec fn discovered_serials(&self) -> Set<u32> {
        self.discovered@.to_set()
    }

    /// A worker that has announced nothing yet.
    pub fn new() -> (w: MqttWorker)
        ensures
            w.discovered_serials() == Set::<u32>::empty(),
    {
        let w = MqttWorker { discovered: Vec::new() };
        assert(w.discovered@.to_set() =~= Set::<u32>::empty());
        w
    }

    /// Whether the sensors of inverter `serial` have been announced.
    pub fn is_discovered(&self, serial: u32) -> (d: bool)
        ensures
            d == self.discovered_serials().contains(serial),
    {
        let mut i: usize = 0;
        while i < self.discovered.len()
            invariant
                i <= self.discovered@.len(),
                forall|j: int| 0 <= j < i ==> self.discovered@[j] != serial,
            decreases self.discovered@.len() - i,
        {
            if self.discovered[i] == serial {
                assert(self.discovered@.contains(serial));
                return true;
            }
            i = i + 1;
        }
        false
    }

    /// Plans the handling of one telemetry record: the serial text, the
    /// telemetry topic, and the discovery configurations while this
    /// inverter has not been announced successfully.
    pub fn on_telemetry(&self, telemetry: &NepTelemetry) -> (plan: TelemetryPlan)
        ensures
            plan.serial@ == hex_text(telemetry.serial_number as nat, 8),
            plan.topic@ == telemetry_topic_text(plan.serial@),
            plan.discovery is Some <==> !self.discovered_serials().contains(telemetry.serial_number),
            plan.discovery matches Some(cs) ==> configs_match(cs@, plan.serial@),
    {
        let serial = hex8(telemetry.serial_number);
        let topic = telemetry_topic(serial.as_str());
        let discovery = if self.is_discovered(telemetry.serial_number) {
            None
        } else {
            Some(discovery_configs(serial.as_str()))
        };
        TelemetryPlan { serial, topic, discovery }
    }

    /// Records whether publishing the discovery configurations of inverter
    /// `serial` succeeded.
    pub fn on_discovery_result(&mut self, serial: u32, published: bool)
        ensures
            final(self).discovered_serials() == if published {
                old(self).discovered_serials().insert(serial)
            } else {
                old(self).discovered_serials()
            },
    {
        if published {
            self.discovered.push(serial);
            proof {
                assert(self.discovered@ == old(self).discovered@.push(serial));
                assert(self.discovered@.to_set() =~= old(self).discovered@.to_set().insert(serial)) by {
                    assert forall|x: u32| #[trigger] self.discovered@.contains(x) implies old(self).discovered@.contains(x)
                        || x == serial by {
                        let k = choose|k: int| 0 <= k < self.discovered@.len() && self.discovered@[k] == x;
                        if k < old(self).discovered@.len() {
                            assert(old(self).discovered@[k] == x);
                        }
                    }
                    assert forall|x: u32| #[trigger] old(self).discovered@.contains(x) implies self.discovered@.contains(x) by {
                        let k = choose|k: int| 0 <= k < old(self).discovered@.len() && old(self).discovered@[k] == x;
                        assert(self.discovered@[k] == x);
                    }
                    assert(self.discovered@[self.discovered@.len() - 1] == serial);
                }
            }
        }
    }
}

/// Starting from a worker that has announced nothing, an inverter has been
/// announced after a series of announcement attempts exactly when one attempt
/// for its serial number succeeded: every new serial number is announced,
/// failures are retried, and a success is never repeated.
pub proof fn lemma_discovery_per_serial(outcomes: Seq<(u32, bool)>, serial: u32)
    ensures
        discovered_after(Set::empty(), outcomes).contains(serial) <==> outcomes.contains((serial, true)),
    decreases outcomes.len(),
{
    if outcomes.len() > 0 {
        let init = outcomes.drop_last();
        lemma_discovery_per_serial(init, serial);
        if init.contains((serial, true)) {
            let k = choose|k: int| 0 <= k < init.len() && init[k] == (serial, true);
            assert(outcomes[k] == (serial, true));
        }
        if outcomes.contains((serial, true)) {
            let k = choose|k: int| 0 <= k < outcomes.len() && outcomes[k] == (serial, true);
            if k < init.len() {
                assert(init[k] == (serial, true));
            }
        }
        if outcomes.last() == (serial, true) {
            assert(outcomes[outcomes.len() - 1] == (serial, true));
        }
    }
}

/// The keys of the telemetry JSON that the gateway publishes, in order.
#[derive(Debug, Clone, Copy, PartialEq, Eq)]
pub enum TelemetryKey {
    AcPowerW,
    AcVoltageV,
    AcFreqHz,
    DcVoltageV,
    DcCurrentA,
    DcPowerW,
    EfficiencyPercent,
    TemperatureC,
    DailyEnergyWh,
    ReactivePowerVar,
    Status,
    ErrorState,
    OperatingMode,
    Version,
}

/// Number of keys in the telemetry JSON.
pub const TELEMETRY_KEY_COUNT: usize = 14;

/// The order of the telemetry JSON keys.
pub open spec fn telemetry_key_order() -> Seq<TelemetryKey> {
    seq![
        TelemetryKey::AcPowerW,
        TelemetryKey::AcVoltageV,
        TelemetryKey::AcFreqHz,
        TelemetryKey::DcVoltageV,
        TelemetryKey::DcCurrentA,
        TelemetryKey::DcPowerW,
        TelemetryKey::EfficiencyPercent,
        TelemetryKey::TemperatureC,
        TelemetryKey::DailyEnergyWh,
        TelemetryKey::ReactivePowerVar,
        TelemetryKey::Status,
        TelemetryKey::ErrorState,
        TelemetryKey::OperatingMode,
        TelemetryKey::Version,
    ]
}

/// The text of a telemetry JSON key.
pub open spec fn telemetry_key_text(k: TelemetryKey) -> Seq<char> {
    match k {
        TelemetryKey::AcPowerW => "ac_power_w"@,
        TelemetryKey::AcVoltageV => "ac_voltage_v"@,
        TelemetryKey::AcFreqHz => "ac_freq_hz"@,
        TelemetryKey::DcVoltageV => "dc_voltage_v"@,
        TelemetryKey::DcCurrentA => "dc_current_a"@,
        TelemetryKey::DcPowerW => "dc_power_w"@,
        TelemetryKey::EfficiencyPercent => "efficiency_percent"@,
        TelemetryKey::TemperatureC => "temperature_c"@,
        TelemetryKey::DailyEnergyWh => "daily_energy_wh"@,
        TelemetryKey::ReactivePowerVar => "reactive_power_var"@,
        TelemetryKey::Status => "status"@,
        TelemetryKey::ErrorState => "error_state"@,
        TelemetryKey::OperatingMode => "operating_mode"@,
        TelemetryKey::Version => "version"@,
    }
}

impl TelemetryKey {
    /// The key at position `i` of the telemetry JSON.
    pub fn at(i: usize) -> (k: TelemetryKey)
        requires
            i < TELEMETRY_KEY_COUNT,
        ensures
            k == telemetry_key_order()[i as int],
    {
        match i {
            0 => TelemetryKey::AcPowerW,
            1 => TelemetryKey::AcVoltageV,
            2 => TelemetryKey::AcFreqHz,
            3 => TelemetryKey::DcVoltageV,
            4 => TelemetryKey::DcCurrentA,
            5 => TelemetryKey::DcPowerW,
            6 => TelemetryKey::EfficiencyPercent,
            7 => TelemetryKey::TemperatureC,
            8 => TelemetryKey::DailyEnergyWh,
            9 => TelemetryKey::ReactivePowerVar,
            10 => TelemetryKey::Status,
            11 => TelemetryKey::ErrorState,
            12 => TelemetryKey::OperatingMode,
            _ => TelemetryKey::Version,
        }
    }

    /// The text of the key.
    pub fn key(self) -> (text: &'static str)
        ensures
            text@ == telemetry_key_text(self),
    {
        match self {
            TelemetryKey::AcPowerW => "ac_power_w",
            TelemetryKey::AcVoltageV => "ac_voltage_v",
            TelemetryKey::AcFreqHz => "ac_freq_hz",
            TelemetryKey::DcVoltageV => "dc_voltage_v",
            TelemetryKey::DcCurrentA => "dc_current_a",
            TelemetryKey::DcPowerW => "dc_power_w",
            TelemetryKey::EfficiencyPercent => "efficiency_percent",
            TelemetryKey::TemperatureC => "temperature_c",
            TelemetryKey::DailyEnergyWh => "daily_energy_wh",
            TelemetryKey::ReactivePowerVar => "reactive_power_var",
            TelemetryKey::Status => "status",
            TelemetryKey::ErrorState => "error_state",
            TelemetryKey::OperatingMode => "operating_mode",
            TelemetryKey::Version => "version",
        }
    }
}

/// Every announced sensor reads a key that the telemetry JSON carries, so no
/// sensor's value template refers to a missing key.
pub proof fn lemma_sensor_keys_are_published(s: HaSensor)
    ensures
        exists|i: int| 0 <= i < TELEMETRY_KEY_COUNT && #[trigger] telemetry_key_text(telemetry_key_order()[i])
            == sensor_json_key(s),
{
    let i: int = match s {
        HaSensor::AcPower => 0,
        HaSensor::AcVoltage => 1,
        HaSensor::AcFreq => 2,
        HaSensor::DcVoltage => 3,
        HaSensor::DcCurrent => 4,
        HaSensor::DcPower => 5,
        HaSensor::Efficiency => 6,
        HaSensor::Temperature => 7,
        HaSensor::DailyEnergy => 8,
        HaSensor::ReactivePower => 9,
        HaSensor::ErrorState => 11,
        HaSensor::OperatingMode => 12,
    };
    assert(telemetry_key_text(telemetry_key_order()[i]) == sensor_json_key(s));
}

/// Every error state that a telemetry record can report is among the options
/// announced for the error-state sensor.
pub proof fn lemma_error_state_options_cover(status_code: u16)
    ensures
        sensor_options(HaSensor::ErrorState).contains(error_state_text(status_code)),
{
    let opts = sensor_options(HaSensor::ErrorState);
    if status_code == 0x0000 {
        assert(opts[0] == error_state_text(status_code));
    } else if status_code == 0x0020 {
        assert(opts[1] == error_state_text(status_code));
    } else if status_code == 0x0004 {
        assert(opts[2] == error_state_text(status_code));
    } else {
        assert(opts[3] == error_state_text(status_code));
    }
}

/// Every operating mode that a telemetry record can report is among the
/// options announced for the operating-mode sensor.
pub proof fn lemma_operating_mode_options_cover(version_raw: u16)
    ensures
        sensor_options(HaSensor::OperatingMode).contains(operating_mode_text(version_raw)),
{
    let opts = sensor_options(HaSensor::OperatingMode);
    let low = version_raw % 256;
    if low == 0x01 {
        assert(opts[0] == operating_mode_text(version_raw));
    } else if low == 0x04 {
        assert(opts[1] == operating_mode_text(version_raw));
    } else if low == 0x05 {
        assert(opts[2] == operating_mode_text(version_raw));
    } else if low == 0x06 {
        assert(opts[3] == operating_mode_text(version_raw));
    } else {
        assert(opts[4] == operating_mode_text(version_raw));
    }
}

/// Every sensor announced for an inverter reads its state from the topic on
/// which that inverter's telemetry is published, and the sensors have
/// distinct unique identifiers.
pub proof fn lemma_discovery_matches_telemetry(cs: Seq<DiscoveryConfig>, serial: Seq<char>)
    requires
        configs_match(cs, serial),
    ensures
        forall|i: int| 0 <= i < cs.len() ==> (#[trigger] cs[i]).state_topic@ == telemetry_topic_text(serial),
        forall|i: int, j: int| 0 <= i < j < cs.len() ==> (#[trigger] cs[i]).unique_id@ != (#[trigger] cs[j]).unique_id@,
{
    assert forall|i: int, j: int| 0 <= i < j < cs.len() implies (#[trigger] cs[i]).unique_id@ != (#[trigger] cs[j]).unique_id@ by {
        assert(config_matches(cs[i], serial, sensor_order()[i]));
        assert(config_matches(cs[j], serial, sensor_order()[j]));
        let prefix = "nep_"@ + serial + "_"@;
        assert(cs[i].unique_id@ == prefix + sensor_id(sensor_order()[i]));
        assert(cs[j].unique_id@ == prefix + sensor_id(sensor_order()[j]));
        lemma_sensor_ids_distinct(i, j);
        let a = sensor_id(sensor_order()[i]);
        let b = sensor_id(sensor_order()[j]);
        if cs[i].unique_id@ == cs[j].unique_id@ {
            assert((prefix + a).subrange(prefix.len() as int, (prefix + a).len() as int) =~= a);
            assert((prefix + b).subrange(prefix.len() as int, (prefix + b).len() as int) =~= b);
        }
    }
}

/// Distinct positions of the announcement order hold sensors with distinct
/// identifiers.
proof fn lemma_sensor_ids_distinct(i: int, j: int)
    requires
        0 <= i < j < SENSOR_COUNT,
    ensures
        sensor_id(sensor_order()[i]) != sensor_id(sensor_order()[j]),
{
    reveal_strlit("ac_power");
    reveal_strlit("ac_voltage");
    reveal_strlit("ac_freq");
    reveal_strlit("dc_voltage");
    reveal_strlit("dc_current");
    reveal_strlit("dc_power");
    reveal_strlit("efficiency");
    reveal_strlit("temperature");
    reveal_strlit("daily_energy");
    reveal_strlit("reactive_power");
    reveal_strlit("error_state");
    reveal_strlit("operating_mode");
    let a = sensor_id(sensor_order()[i]);
    let b = sensor_id(sensor_order()[j]);
    assert(a.len() != b.len() || a[0] != b[0] || a[3] != b[3]);
}

} // verus!

verus! {

/// The suffix that a telemetry key carries for a unit of measurement: the
/// unit in lower case after an underscore (`V` gives `_v`, `°C` gives `_c`,
/// `%` gives `_percent`); no suffix for a sensor without unit.
pub open spec fn unit_key_suffix(unit: Seq<char>) -> Seq<char> {
    if unit == "W"@ {
        "_w"@
    } else if unit == "V"@ {
        "_v"@
    } else if unit == "A"@ {
        "_a"@
    } else if unit == "Hz"@ {
        "_hz"@
    } else if unit == "%"@ {
        "_percent"@
    } else if unit == "°C"@ {
        "_c"@
    } else if unit == "Wh"@ {
        "_wh"@
    } else if unit == "VAR"@ {
        "_var"@
    } else {
        ""@
    }
}

/// Each sensor reads the telemetry key of its own quantity: the key is the
/// sensor's identifier followed by the suffix of the sensor's unit, so the
/// voltage sensor (unit V) reads `ac_voltage_v` and the frequency sensor
/// (unit Hz) reads `ac_freq_hz`; and distinct sensors read distinct keys.
pub proof fn lemma_sensor_reads_own_quantity(s: HaSensor, o: HaSensor)
    ensures
        sensor_json_key(s) == sensor_id(s) + unit_key_suffix(sensor_unit(s)),
        has_prefix(sensor_json_key(s), sensor_id(s)),
        s != o ==> sensor_json_key(s) != sensor_json_key(o),
{
    reveal_strlit("W");
    reveal_strlit("V");
    reveal_strlit("A");
    reveal_strlit("Hz");
    reveal_strlit("%");
    reveal_strlit("°C");
    reveal_strlit("Wh");
    reveal_strlit("VAR");
    reveal_strlit("");
    reveal_strlit("_w");
    reveal_strlit("_v");
    reveal_strlit("_a");
    reveal_strlit("_hz");
    reveal_strlit("_percent");
    reveal_strlit("_c");
    reveal_strlit("_wh");
    reveal_strlit("_var");
    reveal_strlit("ac_power");
    reveal_strlit("ac_voltage");
    reveal_strlit("ac_freq");
    reveal_strlit("dc_voltage");
    reveal_strlit("dc_current");
    reveal_strlit("dc_power");
    reveal_strlit("efficiency");
    reveal_strlit("temperature");
    reveal_strlit("daily_energy");
    reveal_strlit("reactive_power");
    reveal_strlit("error_state");
    reveal_strlit("operating_mode");
    reveal_strlit("ac_power_w");
    reveal_strlit("ac_voltage_v");
    reveal_strlit("ac_freq_hz");
    reveal_strlit("dc_voltage_v");
    reveal_strlit("dc_current_a");
    reveal_strlit("dc_power_w");
    reveal_strlit("efficiency_percent");
    reveal_strlit("temperature_c");
    reveal_strlit("daily_energy_wh");
    reveal_strlit("reactive_power_var");
    let key = sensor_json_key(s);
    let id = sensor_id(s);
    let unit = sensor_unit(s);
    match s {
        HaSensor::AcPower => {
            assert(unit_key_suffix(unit) == "_w"@);
            assert(key =~= id + "_w"@);
        },
        HaSensor::AcVoltage => {
            assert(unit[0] != "W"@[0]);
            assert(unit_key_suffix(unit) == "_v"@);
            assert(key =~= id + "_v"@);
        },
        HaSensor::AcFreq => {
            assert(unit.len() != "W"@.len());
            assert(unit.len() != "V"@.len());
            assert(unit.len() != "A"@.len());
            assert(unit_key_suffix(unit) == "_hz"@);
            assert(key =~= id + "_hz"@);
        },
        HaSensor::DcVoltage => {
            assert(unit[0] != "W"@[0]);
            assert(unit_key_suffix(unit) == "_v"@);
            assert(key =~= id + "_v"@);
        },
        HaSensor::DcCurrent => {
            assert(unit[0] != "W"@[0]);
            assert(unit[0] != "V"@[0]);
            assert(unit_key_suffix(unit) == "_a"@);
            assert(key =~= id + "_a"@);
        },
        HaSensor::DcPower => {
            assert(unit_key_suffix(unit) == "_w"@);
            assert(key =~= id + "_w"@);
        },
        HaSensor::Efficiency => {
            assert(unit[0] != "W"@[0]);
            assert(unit[0] != "V"@[0]);
            assert(unit[0] != "A"@[0]);
            assert(unit.len() != "Hz"@.len());
            assert(unit_key_suffix(unit) == "_percent"@);
            assert(key =~= id + "_percent"@);
        },
        HaSensor::Temperature => {
            assert(unit.len() != "W"@.len());
            assert(unit.len() != "V"@.len());
            assert(unit.len() != "A"@.len());
            assert(unit[0] != "Hz"@[0] || unit[1] != "Hz"@[1]);
            assert(unit.len() != "%"@.len());
            assert(unit_key_suffix(unit) == "_c"@);
            assert(key =~= id + "_c"@);
        },
        HaSensor::DailyEnergy => {
            assert(unit.len() != "W"@.len());
            assert(unit.len() != "V"@.len());
            assert(unit.len() != "A"@.len());
            assert(unit[0] != "Hz"@[0] || unit[1] != "Hz"@[1]);
            assert(unit.len() != "%"@.len());
            assert(unit[0] != "°C"@[0] || unit[1] != "°C"@[1]);
            assert(unit_key_suffix(unit) == "_wh"@);
            assert(key =~= id + "_wh"@);
        },
        HaSensor::ReactivePower => {
            assert(unit.len() != "W"@.len());
            assert(unit.len() != "V"@.len());
            assert(unit.len() != "A"@.len());
            assert(unit.len() != "Hz"@.len());
            assert(unit.len() != "%"@.len());
            assert(unit.len() != "°C"@.len());
            assert(unit.len() != "Wh"@.len());
            assert(unit_key_suffix(unit) == "_var"@);
            assert(key =~= id + "_var"@);
        },
        HaSensor::ErrorState => {
            assert(unit.len() != "W"@.len());
            assert(unit.len() != "V"@.len());
            assert(unit.len() != "A"@.len());
            assert(unit.len() != "Hz"@.len());
            assert(unit.len() != "%"@.len());
            assert(unit.len() != "°C"@.len());
            assert(unit.len() != "Wh"@.len());
            assert(unit.len() != "VAR"@.len());
            assert(unit_key_suffix(unit) == ""@);
            assert(key =~= id + ""@);
        },
        HaSensor::OperatingMode => {
            assert(unit.len() != "W"@.len());
            assert(unit.len() != "V"@.len());
            assert(unit.len() != "A"@.len());
            assert(unit.len() != "Hz"@.len());
            assert(unit.len() != "%"@.len());
            assert(unit.len() != "°C"@.len());
            assert(unit.len() != "Wh"@.len());
            assert(unit.len() != "VAR"@.len());
            assert(unit_key_suffix(unit) == ""@);
            assert(key =~= id + ""@);
        },
    }
    assert(key =~= id + unit_key_suffix(unit));
    assert(key.subrange(0, id.len() as int) =~= id);
    if s != o {
        let k2 = sensor_json_key(o);
        assert(key.len() != k2.len() || key[0] != k2[0] || key[3] != k2[3] || key[4] != k2[4]);
    }
}

} // verus!

verus! {

/// The options announced for the two enumeration sensors list the states in
/// the order of their codes: the error states of status codes 0x0000,
/// 0x0020 and 0x0004, then the state of every other code; the operating
/// modes of low bytes 0x01, 0x04, 0x05 and 0x06, then the mode of every other
/// low byte. The operating mode depends on the low byte of the version word
/// only.
pub proof fn lemma_options_follow_codes(other_status: u16, version_raw: u16)
    requires
        other_status != 0x0000 && other_status != 0x0020 && other_status != 0x0004,
    ensures
        sensor_options(HaSensor::ErrorState) == seq![
            error_state_text(0x0000),
            error_state_text(0x0020),
            error_state_text(0x0004),
            error_state_text(other_status),
        ],
        sensor_options(HaSensor::OperatingMode) == seq![
            operating_mode_text(0x01),
            operating_mode_text(0x04),
            operating_mode_text(0x05),
            operating_mode_text(0x06),
            operating_mode_text(0x00),
        ],
        operating_mode_text(version_raw) == operating_mode_text(version_raw % 256),
{
    assert(sensor_options(HaSensor::ErrorState) =~= seq![
        error_state_text(0x0000),
        error_state_text(0x0020),
        error_state_text(0x0004),
        error_state_text(other_status),
    ]);
    assert(sensor_options(HaSensor::OperatingMode) =~= seq![
        operating_mode_text(0x01),
        operating_mode_text(0x04),
        operating_mode_text(0x05),
        operating_mode_text(0x06),
        operating_mode_text(0x00),
    ]);
}

/// The Home Assistant device class of a sensor (empty for none) that goes
/// with its unit: W is power, V voltage, A current, Hz frequency, °C
/// temperature, Wh energy, VAR reactive power; a percentage has no class and
/// a sensor without unit is an enumeration.
pub open spec fn unit_device_class(unit: Seq<char>) -> Seq<char> {
    if unit == "W"@ {
        "power"@
    } else if unit == "V"@ {
        "voltage"@
    } else if unit == "A"@ {
        "current"@
    } else if unit == "Hz"@ {
        "frequency"@
    } else if unit == "°C"@ {
        "temperature"@
    } else if unit == "Wh"@ {
        "energy"@
    } else if unit == "VAR"@ {
        "reactive_power"@
    } else if unit == ""@ {
        "enum"@
    } else {
        ""@
    }
}

/// Every sensor is announced with the device class of its unit, so a sensor
/// cannot show one quantity under the class of another.
pub proof fn lemma_device_class_matches_unit(s: HaSensor)
    ensures
        sensor_device_class(s) == unit_device_class(sensor_unit(s)),
{
    reveal_strlit("W");
    reveal_strlit("V");
    reveal_strlit("A");
    reveal_strlit("Hz");
    reveal_strlit("%");
    reveal_strlit("°C");
    reveal_strlit("Wh");
    reveal_strlit("VAR");
    reveal_strlit("");
    let unit = sensor_unit(s);
    match s {
        HaSensor::AcPower | HaSensor::DcPower => {},
        HaSensor::AcVoltage | HaSensor::DcVoltage => {
            assert(unit[0] != "W"@[0]);
        },
        HaSensor::DcCurrent => {
            assert(unit[0] != "W"@[0]);
            assert(unit[0] != "V"@[0]);
        },
        HaSensor::AcFreq => {
            assert(unit.len() != "W"@.len());
            assert(unit.len() != "V"@.len());
            assert(unit.len() != "A"@.len());
        },
        HaSensor::Temperature => {
            assert(unit.len() != "W"@.len());
            assert(unit.len() != "V"@.len());
            assert(unit.len() != "A"@.len());
            assert(unit[0] != "Hz"@[0]);
        },
        HaSensor::DailyEnergy => {
            assert(unit.len() != "W"@.len());
            assert(unit.len() != "V"@.len());
            assert(unit.len() != "A"@.len());
            assert(unit[0] != "Hz"@[0]);
            assert(unit[0] != "°C"@[0]);
        },
        HaSensor::ReactivePower => {
            assert(unit.len() != "W"@.len());
            assert(unit.len() != "V"@.len());
            assert(unit.len() != "A"@.len());
            assert(unit.len() != "Hz"@.len());
            assert(unit.len() != "°C"@.len());
            assert(unit.len() != "Wh"@.len());
        },
        HaSensor::Efficiency => {
            assert(unit[0] != "W"@[0]);
            assert(unit[0] != "V"@[0]);
            assert(unit[0] != "A"@[0]);
            assert(unit.len() != "Hz"@.len());
            assert(unit.len() != "°C"@.len());
            assert(unit.len() != "Wh"@.len());
            assert(unit.len() != "VAR"@.len());
            assert(unit.len() != ""@.len());
        },
        HaSensor::ErrorState | HaSensor::OperatingMode => {
            assert(unit.len() != "W"@.len());
            assert(unit.len() != "V"@.len());
            assert(unit.len() != "A"@.len());
            assert(unit.len() != "Hz"@.len());
            assert(unit.len() != "°C"@.len());
            assert(unit.len() != "Wh"@.len());
            assert(unit.len() != "VAR"@.len());
        },
    }
}

} // verus!
