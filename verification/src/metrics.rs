//! The Prometheus collectors that the gateway exports, and their
//! registration.

use vstd::prelude::*;
use crate::mqtt::{sensor_id, sensor_unit, HaSensor};
use crate::text::{has_prefix, has_suffix};

verus! {

#[verifier::external_type_specification]
#[verifier::external_body]
pub struct ExRegistry(prometheus::Registry);

#[verifier::external_type_specification]
#[verifier::external_body]
pub struct ExPrometheusError(prometheus::Error);

/// The descriptor ids in a registry: the hashes of the fully-qualified
/// name and constant label values of every registered descriptor.
pub uninterp spec fn registry_descriptor_ids(registry: prometheus::Registry) -> Set<u64>;

/// The ids under which the registry keeps its collectors.
pub uninterp spec fn registry_collector_ids(registry: prometheus::Registry) -> Set<u64>;

/// The fully-qualified names that the registry has recorded a label
/// dimension for.
pub uninterp spec fn registry_names(registry: prometheus::Registry) -> Set<Seq<char>>;

/// The descriptor id that prometheus computes for a metric named `name`
/// without constant labels (a hash of the name alone).
pub uninterp spec fn descriptor_id(name: Seq<char>) -> u64;

/// A registry as it stands when every collector registered with it has a
/// single descriptor without labels: a collector is kept under the id of its
/// descriptor, and every recorded name has its descriptor registered.
pub open spec fn registry_consistent(registry: prometheus::Registry) -> bool {
    &&& registry_collector_ids(registry) == registry_descriptor_ids(registry)
    &&& forall|n: Seq<char>|
        #[trigger] registry_names(registry).contains(n) ==> registry_descriptor_ids(registry).contains(
            descriptor_id(n),
        )
}

/// A Prometheus gauge. Opaque: the collector types of prometheus are
/// generic over a trait of that crate that Verus cannot declare.
#[verifier::external_body]
pub struct GaugeCell {
    pub inner: prometheus::Gauge,
}

/// A Prometheus integer counter. Opaque for the same reason as [`GaugeCell`].
#[verifier::external_body]
pub struct CounterCell {
    pub inner: prometheus::IntCounter,
}

/// The prometheus collector inside a [`MetricCollector`].
pub enum CollectorCell {
    Counter(CounterCell),
    Gauge(GaugeCell),
}

/// One collector of the gateway, with the fully-qualified name it was
/// created with. Only the creating functions of this module build one, so
/// the name is always the collector's own.
pub struct MetricCollector {
    name: Ghost<Seq<char>>,
    cell: CollectorCell,
}

impl MetricCollector {
    /// The fully-qualified name the collector was created with.
    pub closed spec fn name(&self) -> Seq<char> {
        self.name@
    }

    /// The prometheus collector.
    pub closed spec fn spec_cell(&self) -> CollectorCell {
        self.cell
    }
}

/// A character that may start a metric name: `[a-zA-Z_:]`.
pub open spec fn name_start_char(c: char) -> bool {
    ('a' <= c <= 'z') || ('A' <= c <= 'Z') || c == '_' || c == ':'
}

/// A character that may continue a metric name: `[a-zA-Z0-9_:]`.
pub open spec fn name_char(c: char) -> bool {
    name_start_char(c) || ('0' <= c <= '9')
}

/// A valid Prometheus metric name: `[a-zA-Z_:][a-zA-Z0-9_:]*`.
pub open spec fn valid_metric_name(s: Seq<char>) -> bool {
    &&& s.len() > 0
    &&& name_start_char(s[0])
    &&& forall|i: int| 1 <= i < s.len() ==> name_char(#[trigger] s[i])
}

/// Creates a gauge; calls `prometheus::Gauge::new`. Claims that creation
/// succeeds exactly when the help text is not empty and the name is a valid
/// metric name, and that the gauge carries `name` as its fully-qualified
/// name (it is created without namespace, subsystem or labels).
#[verifier::external_body]
fn new_gauge(name: &str, help: &str) -> (res: Result<MetricCollector, prometheus::Error>)
    ensures
        (res is Ok) == (help@.len() > 0 && valid_metric_name(name@)),
        res matches Ok(c) ==> c.spec_cell() is Gauge && c.name() == name@,
{
    match prometheus::Gauge::new(name, help) {
        Ok(inner) => Ok(MetricCollector { name: Ghost(name@), cell: CollectorCell::Gauge(GaugeCell { inner }) }),
        Err(e) => Err(e),
    }
}

/// Creates an integer counter; calls `prometheus::IntCounter::new`. Claims
/// the same as [`new_gauge`]: success exactly for a non-empty help text and
/// a valid metric name, and a counter that carries `name`.
#[verifier::external_body]
fn new_counter(name: &str, help: &str) -> (res: Result<MetricCollector, prometheus::Error>)
    ensures
        (res is Ok) == (help@.len() > 0 && valid_metric_name(name@)),
        res matches Ok(c) ==> c.spec_cell() is Counter && c.name() == name@,
{
    match prometheus::IntCounter::new(name, help) {
        Ok(inner) => Ok(MetricCollector { name: Ghost(name@), cell: CollectorCell::Counter(CounterCell { inner }) }),
        Err(e) => Err(e),
    }
}

/// Reads the id of the collector's descriptor; calls
/// `prometheus::core::Collector::desc`. Claims that it is the descriptor id
/// of the collector's name (the collector has one descriptor, without
/// labels).
#[verifier::external_body]
fn descriptor_id_of(collector: &MetricCollector) -> (id: u64)
    ensures
        id == descriptor_id(collector.name()),
{
    match &collector.cell {
        CollectorCell::Counter(c) => prometheus::core::Collector::desc(&c.inner)[0].id,
        CollectorCell::Gauge(g) => prometheus::core::Collector::desc(&g.inner)[0].id,
    }
}

/// Creates an empty registry; calls `prometheus::Registry::new`.
#[verifier::external_body]
fn new_registry() -> (registry: prometheus::Registry)
    ensures
        registry_descriptor_ids(registry) == Set::<u64>::empty(),
        registry_collector_ids(registry) == Set::<u64>::empty(),
        registry_names(registry) == Set::<Seq<char>>::empty(),
{
    prometheus::Registry::new()
}

/// Registers a clone of the collector (clones share the collector's value);
/// calls `prometheus::Registry::register`. Claims, for a registry whose
/// collectors all have one descriptor without labels: registration succeeds
/// exactly when the collector's descriptor id is not registered yet; on
/// success the id and the name join the registry, on failure nothing changes.
#[verifier::external_body]
fn register_collector(registry: &mut prometheus::Registry, collector: &MetricCollector) -> (res: Result<(), prometheus::Error>)
    requires
        registry_consistent(*old(registry)),
    ensures
        (res is Ok) == !registry_descriptor_ids(*old(registry)).contains(descriptor_id(collector.name())),
        res is Ok ==> registry_descriptor_ids(*final(registry)) == registry_descriptor_ids(*old(registry)).insert(
            descriptor_id(collector.name()),
        ),
        res is Ok ==> registry_collector_ids(*final(registry)) == registry_collector_ids(*old(registry)).insert(
            descriptor_id(collector.name()),
        ),
        res is Ok ==> registry_names(*final(registry)) == registry_names(*old(registry)).insert(collector.name()),
        res is Err ==> registry_descriptor_ids(*final(registry)) == registry_descriptor_ids(*old(registry)),
        res is Err ==> registry_collector_ids(*final(registry)) == registry_collector_ids(*old(registry)),
        res is Err ==> registry_names(*final(registry)) == registry_names(*old(registry)),
{
    match &collector.cell {
        CollectorCell::Counter(c) => registry.register(Box::new(c.inner.clone())),
        CollectorCell::Gauge(g) => registry.register(Box::new(g.inner.clone())),
    }
}

/// The collectors that the gateway exports, in registration order.
#[derive(Debug, Clone, Copy, PartialEq, Eq)]
pub enum MetricId {
    PacketsReceived,
    UpstreamForwards,
    UpstreamForwardErrors,
    AcPower,
    AcVoltage,
    DcCurrent,
    DcCurrentCh1,
    DcCurrentCh2,
    AcFreq,
    DcVoltage,
    Temperature,
    DailyEnergy,
    ReactivePower,
}

/// Number of collectors that the gateway exports.
pub const METRIC_COUNT: usize = 13;

/// The registration order of the collectors.
pub open spec fn metric_order() -> Seq<MetricId> {
    seq![
        MetricId::PacketsReceived,
        MetricId::UpstreamForwards,
        MetricId::UpstreamForwardErrors,
        MetricId::AcPower,
        MetricId::AcVoltage,
        MetricId::DcCurrent,
        MetricId::DcCurrentCh1,
        MetricId::DcCurrentCh2,
        MetricId::AcFreq,
        MetricId::DcVoltage,
        MetricId::Temperature,
        MetricId::DailyEnergy,
        MetricId::ReactivePower,
    ]
}

/// Position of a collector in the registration order.
pub open spec fn metric_position(id: MetricId) -> int {
    match id {
        MetricId::PacketsReceived => 0,
        MetricId::UpstreamForwards => 1,
        MetricId::UpstreamForwardErrors => 2,
        MetricId::AcPower => 3,
        MetricId::AcVoltage => 4,
        MetricId::DcCurrent => 5,
        MetricId::DcCurrentCh1 => 6,
        MetricId::DcCurrentCh2 => 7,
        MetricId::AcFreq => 8,
        MetricId::DcVoltage => 9,
        MetricId::Temperature => 10,
        MetricId::DailyEnergy => 11,
        MetricId::ReactivePower => 12,
    }
}

/// Counters only ever go up; the other collectors are gauges.
pub open spec fn metric_is_counter(id: MetricId) -> bool {
    id == MetricId::PacketsReceived || id == MetricId::UpstreamForwards || id
        == MetricId::UpstreamForwardErrors
}

/// The exported name of each collector.
pub open spec fn metric_name(id: MetricId) -> Seq<char> {
    match id {
        MetricId::PacketsReceived => "nep_packets_received_total"@,
        MetricId::UpstreamForwards => "nep_upstream_forwards_total"@,
        MetricId::UpstreamForwardErrors => "nep_upstream_forward_errors_total"@,
        MetricId::AcPower => "nep_ac_power_watts"@,
        MetricId::AcVoltage => "nep_ac_voltage_volts"@,
        MetricId::DcCurrent => "nep_dc_current_amperes"@,
        MetricId::DcCurrentCh1 => "nep_inverter_dc_current_ch1_amperes"@,
        MetricId::DcCurrentCh2 => "nep_inverter_dc_current_ch2_amperes"@,
        MetricId::AcFreq => "nep_ac_frequency_hertz"@,
        MetricId::DcVoltage => "nep_dc_voltage_volts"@,
        MetricId::Temperature => "nep_temperature_celsius"@,
        MetricId::DailyEnergy => "nep_daily_energy_watthours"@,
        MetricId::ReactivePower => "nep_reactive_power_var"@,
    }
}

/// The help text of each collector.
pub open spec fn metric_help(id: MetricId) -> Seq<char> {
    match id {
        MetricId::PacketsReceived => "Total number of valid telemetry packets received from the inverter"@,
        MetricId::UpstreamForwards => "Packets successfully relayed to the real NEP cloud (dual-delivery mode)"@,
        MetricId::UpstreamForwardErrors => "Packets that failed to relay to the real NEP cloud (dual-delivery mode)"@,
        MetricId::AcPower => "AC output active power in Watts"@,
        MetricId::AcVoltage => "Grid AC Voltage in Volts"@,
        MetricId::DcCurrent => "Total DC Input Current in Amperes (sum of MPPT channels)"@,
        MetricId::DcCurrentCh1 => "DC Input Current, MPPT channel 1 in Amperes (BDM-800; always 0 on BDM-400)"@,
        MetricId::DcCurrentCh2 => "DC Input Current, MPPT channel 2 in Amperes (BDM-800; single string on BDM-400)"@,
        MetricId::AcFreq => "Grid Frequency in Hertz"@,
        MetricId::DcVoltage => "DC PV Input Voltage in Volts"@,
        MetricId::Temperature => "Inverter internal temperature in Celsius"@,
        MetricId::DailyEnergy => "Daily energy accumulated by the inverter in Watt-hours"@,
        MetricId::ReactivePower => "AC output reactive power in Volt-Amperes Reactive"@,
    }
}

/// Every collector of the gateway has a valid name and a help text.
proof fn lemma_metric_names_valid(id: MetricId)
    ensures
        valid_metric_name(metric_name(id)),
        metric_help(id).len() > 0,
{
    reveal_strlit("nep_packets_received_total");
    reveal_strlit("nep_upstream_forwards_total");
    reveal_strlit("nep_upstream_forward_errors_total");
    reveal_strlit("nep_ac_power_watts");
    reveal_strlit("nep_ac_voltage_volts");
    reveal_strlit("nep_dc_current_amperes");
    reveal_strlit("nep_inverter_dc_current_ch1_amperes");
    reveal_strlit("nep_inverter_dc_current_ch2_amperes");
    reveal_strlit("nep_ac_frequency_hertz");
    reveal_strlit("nep_dc_voltage_volts");
    reveal_strlit("nep_temperature_celsius");
    reveal_strlit("nep_daily_energy_watthours");
    reveal_strlit("nep_reactive_power_var");
    reveal_strlit("Total number of valid telemetry packets received from the inverter");
    reveal_strlit("Packets successfully relayed to the real NEP cloud (dual-delivery mode)");
    reveal_strlit("Packets that failed to relay to the real NEP cloud (dual-delivery mode)");
    reveal_strlit("AC output active power in Watts");
    reveal_strlit("Grid AC Voltage in Volts");
    reveal_strlit("Total DC Input Current in Amperes (sum of MPPT channels)");
    reveal_strlit("DC Input Current, MPPT channel 1 in Amperes (BDM-800; always 0 on BDM-400)");
    reveal_strlit("DC Input Current, MPPT channel 2 in Amperes (BDM-800; single string on BDM-400)");
    reveal_strlit("Grid Frequency in Hertz");
    reveal_strlit("DC PV Input Voltage in Volts");
    reveal_strlit("Inverter internal temperature in Celsius");
    reveal_strlit("Daily energy accumulated by the inverter in Watt-hours");
    reveal_strlit("AC output reactive power in Volt-Amperes Reactive");
}

/// The descriptor id of the collector at position `i`.
pub open spec fn metric_descriptor_id(i: int) -> u64 {
    descriptor_id(metric_name(metric_order()[i]))
}

/// The descriptor ids of the first `k` collectors in registration order.
pub open spec fn ids_before(k: int) -> Set<u64> {
    Set::new(|x: u64| exists|i: int| 0 <= i < k && x == #[trigger] metric_descriptor_id(i))
}

/// The names of the first `k` collectors in registration order.
pub open spec fn names_before(k: int) -> Set<Seq<char>> {
    Set::new(|n: Seq<char>| exists|i: int| 0 <= i < k && n == metric_name(#[trigger] metric_order()[i]))
}

impl MetricId {
    /// The collector at position `i` of the registration order.
    pub fn at(i: usize) -> (id: MetricId)
        requires
            i < METRIC_COUNT,
        ensures
            id == metric_order()[i as int],
            metric_position(id) == i,
    {
        match i {
            0 => MetricId::PacketsReceived,
            1 => MetricId::UpstreamForwards,
            2 => MetricId::UpstreamForwardErrors,
            3 => MetricId::AcPower,
            4 => MetricId::AcVoltage,
            5 => MetricId::DcCurrent,
            6 => MetricId::DcCurrentCh1,
            7 => MetricId::DcCurrentCh2,
            8 => MetricId::AcFreq,
            9 => MetricId::DcVoltage,
            10 => MetricId::Temperature,
            11 => MetricId::DailyEnergy,
            _ => MetricId::ReactivePower,
        }
    }

    /// Position of the collector in the registration order.
    pub fn index(self) -> (i: usize)
        ensures
            i == metric_position(self),
            i < METRIC_COUNT,
            metric_order()[i as int] == self,
    {
        match self {
            MetricId::PacketsReceived => 0,
            MetricId::UpstreamForwards => 1,
            MetricId::UpstreamForwardErrors => 2,
            MetricId::AcPower => 3,
            MetricId::AcVoltage => 4,
            MetricId::DcCurrent => 5,
            MetricId::DcCurrentCh1 => 6,
            MetricId::DcCurrentCh2 => 7,
            MetricId::AcFreq => 8,
            MetricId::DcVoltage => 9,
            MetricId::Temperature => 10,
            MetricId::DailyEnergy => 11,
            MetricId::ReactivePower => 12,
        }
    }

    /// Whether the collector is a counter (as opposed to a gauge).
    pub fn is_counter(self) -> (counter: bool)
        ensures
            counter == metric_is_counter(self),
    {
        match self {
            MetricId::PacketsReceived | MetricId::UpstreamForwards | MetricId::UpstreamForwardErrors => true,
            _ => false,
        }
    }

    /// The exported name of the collector.
    pub fn name(self) -> (name: &'static str)
        ensures
            name@ == metric_name(self),
    {
        match self {
            MetricId::PacketsReceived => "nep_packets_received_total",
            MetricId::UpstreamForwards => "nep_upstream_forwards_total",
            MetricId::UpstreamForwardErrors => "nep_upstream_forward_errors_total",
            MetricId::AcPower => "nep_ac_power_watts",
            MetricId::AcVoltage => "nep_ac_voltage_volts",
            MetricId::DcCurrent => "nep_dc_current_amperes",
            MetricId::DcCurrentCh1 => "nep_inverter_dc_current_ch1_amperes",
            MetricId::DcCurrentCh2 => "nep_inverter_dc_current_ch2_amperes",
            MetricId::AcFreq => "nep_ac_frequency_hertz",
            MetricId::DcVoltage => "nep_dc_voltage_volts",
            MetricId::Temperature => "nep_temperature_celsius",
            MetricId::DailyEnergy => "nep_daily_energy_watthours",
            MetricId::ReactivePower => "nep_reactive_power_var",
        }
    }

    /// The help text of the collector.
    pub fn help(self) -> (help: &'static str)
        ensures
            help@ == metric_help(self),
    {
        match self {
            MetricId::PacketsReceived => "Total number of valid telemetry packets received from the inverter",
            MetricId::UpstreamForwards => "Packets successfully relayed to the real NEP cloud (dual-delivery mode)",
            MetricId::UpstreamForwardErrors => "Packets that failed to relay to the real NEP cloud (dual-delivery mode)",
            MetricId::AcPower => "AC output active power in Watts",
            MetricId::AcVoltage => "Grid AC Voltage in Volts",
            MetricId::DcCurrent => "Total DC Input Current in Amperes (sum of MPPT channels)",
            MetricId::DcCurrentCh1 => "DC Input Current, MPPT channel 1 in Amperes (BDM-800; always 0 on BDM-400)",
            MetricId::DcCurrentCh2 => "DC Input Current, MPPT channel 2 in Amperes (BDM-800; single string on BDM-400)",
            MetricId::AcFreq => "Grid Frequency in Hertz",
            MetricId::DcVoltage => "DC PV Input Voltage in Volts",
            MetricId::Temperature => "Inverter internal temperature in Celsius",
            MetricId::DailyEnergy => "Daily energy accumulated by the inverter in Watt-hours",
            MetricId::ReactivePower => "AC output reactive power in Volt-Amperes Reactive",
        }
    }
}

/// The counter that records the outcome of relaying a payload upstream: a
/// delivered request that the cloud accepted (2xx) counts as a forward, any
/// other outcome (not delivered, or refused) as a forward error.
pub fn relay_outcome_metric(delivered: bool, accepted: bool) -> (id: MetricId)
    ensures
        id == (if delivered && accepted {
            MetricId::UpstreamForwards
        } else {
            MetricId::UpstreamForwardErrors
        }),
{
    if delivered && accepted {
        MetricId::UpstreamForwards
    } else {
        MetricId::UpstreamForwardErrors
    }
}

/// Why the gateway's collectors could not be set up.
#[derive(Debug, Clone, Copy, PartialEq, Eq)]
pub enum MetricsError {
    /// Two collectors share a descriptor id, so a registry would refuse the
    /// second of them.
    DuplicateDescriptor { first: MetricId, second: MetricId },
}

/// The descriptor ids of the gateway's collectors are pairwise distinct.
pub open spec fn descriptor_ids_distinct() -> bool {
    forall|i: int, j: int|
        0 <= i < j < METRIC_COUNT ==> #[trigger] metric_descriptor_id(i) != #[trigger] metric_descriptor_id(j)
}

/// The registry and the collectors that the gateway exports.
pub struct GatewayMetrics {
    registry: prometheus::Registry,
    collectors: Vec<MetricCollector>,
    registered: bool,
}

impl GatewayMetrics {
    /// The collectors stand in registration order, each of the kind and
    /// with the name of its [`MetricId`], with distinct descriptor ids; the
    /// registry is empty before registration and holds exactly these
    /// collectors after it.
    pub closed spec fn wf(&self) -> bool {
        &&& self.collectors@.len() == METRIC_COUNT
        &&& forall|i: int|
            0 <= i < METRIC_COUNT ==> {
                &&& (#[trigger] self.collectors@[i]).name() == metric_name(metric_order()[i])
                &&& (self.collectors@[i].spec_cell() is Counter <==> metric_is_counter(metric_order()[i]))
            }
        &&& descriptor_ids_distinct()
        &&& registry_consistent(self.registry)
        &&& !self.registered ==> registry_descriptor_ids(self.registry) == Set::<u64>::empty()
            && registry_names(self.registry) == Set::<Seq<char>>::empty()
        &&& self.registered ==> registry_descriptor_ids(self.registry) == ids_before(METRIC_COUNT as int)
            && registry_names(self.registry) == names_before(METRIC_COUNT as int)
    }

    /// The registry the collectors are registered with.
    pub closed spec fn spec_registry(&self) -> prometheus::Registry {
        self.registry
    }

    /// The collector at position `i` of the registration order.
    pub closed spec fn collector_at(&self, i: int) -> MetricCollector {
        self.collectors@[i]
    }

    /// Whether the collectors have been registered.
    pub closed spec fn is_registered(&self) -> bool {
        self.registered
    }

    /// Creates the collectors, in registration order, and an empty registry.
    /// Creation itself cannot fail (every name and help text is valid); it
    /// refuses collectors whose descriptor ids collide, which no registry
    /// would accept together.
    pub fn new() -> (res: Result<GatewayMetrics, MetricsError>)
        ensures
            (res is Ok) == descriptor_ids_distinct(),
            res matches Ok(m) ==> m.wf() && !m.is_registered() && registry_names(m.spec_registry())
                == Set::<Seq<char>>::empty(),
            res matches Err(MetricsError::DuplicateDescriptor { first, second }) ==> metric_position(first)
                < metric_position(second) && metric_descriptor_id(metric_position(first))
                == metric_descriptor_id(metric_position(second)),
    {
        let registry = new_registry();
        let mut collectors: Vec<MetricCollector> = Vec::new();
        let mut ids: Vec<u64> = Vec::new();
        let mut i: usize = 0;
        while i < METRIC_COUNT
            invariant
                i <= METRIC_COUNT,
                collectors@.len() == i,
                ids@.len() == i,
                forall|j: int|
                    0 <= j < i ==> {
                        &&& (#[trigger] collectors@[j]).name() == metric_name(metric_order()[j])
                        &&& (collectors@[j].spec_cell() is Counter <==> metric_is_counter(metric_order()[j]))
                    },
                forall|j: int| 0 <= j < i ==> #[trigger] ids@[j] == metric_descriptor_id(j),
            decreases METRIC_COUNT - i,
        {
            let id = MetricId::at(i);
            proof {
                lemma_metric_names_valid(id);
            }
            let created = if id.is_counter() {
                new_counter(id.name(), id.help())
            } else {
                new_gauge(id.name(), id.help())
            };
            match created {
                Ok(c) => {
                    ids.push(descriptor_id_of(&c));
                    collectors.push(c);
                },
                Err(_) => return vstd::pervasive::unreached(),
            }
            i = i + 1;
        }
        let mut a: usize = 0;
        while a < METRIC_COUNT
            invariant
                a <= METRIC_COUNT,
                ids@.len() == METRIC_COUNT,
                forall|j: int| 0 <= j < METRIC_COUNT ==> #[trigger] ids@[j] == metric_descriptor_id(j),
                forall|x: int, y: int|
                    0 <= x < a && x < y < METRIC_COUNT ==> #[trigger] metric_descriptor_id(x)
                        != #[trigger] metric_descriptor_id(y),
            decreases METRIC_COUNT - a,
        {
            let mut b: usize = a + 1;
            while b < METRIC_COUNT
                invariant
                    a < METRIC_COUNT,
                    a < b <= METRIC_COUNT,
                    ids@.len() == METRIC_COUNT,
                    forall|j: int| 0 <= j < METRIC_COUNT ==> #[trigger] ids@[j] == metric_descriptor_id(j),
                    forall|x: int, y: int|
                        0 <= x < a && x < y < METRIC_COUNT ==> #[trigger] metric_descriptor_id(x)
                            != #[trigger] metric_descriptor_id(y),
                    forall|y: int| a < y < b ==> metric_descriptor_id(a as int) != #[trigger] metric_descriptor_id(y),
                decreases METRIC_COUNT - b,
            {
                if ids[a] == ids[b] {
                    assert(ids@[a as int] == metric_descriptor_id(a as int));
                    assert(ids@[b as int] == metric_descriptor_id(b as int));
                    assert(!descriptor_ids_distinct());
                    return Err(MetricsError::DuplicateDescriptor { first: MetricId::at(a), second: MetricId::at(b) });
                }
                b = b + 1;
            }
            a = a + 1;
        }
        proof {
            assert(registry_consistent(registry));
        }
        Ok(GatewayMetrics { registry, collectors, registered: false })
    }

    /// The registry, for gathering the exported values. What this library
    /// states of the registry holds as long as nothing else registers with
    /// it (prometheus registries share their contents between clones and
    /// register through a shared reference).
    pub fn registry(&self) -> (registry: &prometheus::Registry)
        ensures
            *registry == self.spec_registry(),
    {
        &self.registry
    }

    /// Whether the collectors have been registered.
    pub fn registered(&self) -> (r: bool)
        ensures
            r == self.is_registered(),
    {
        self.registered
    }

    /// The gauge of `id`; `None` when `id` names a counter.
    pub fn gauge(&self, id: MetricId) -> (cell: Option<&GaugeCell>)
        requires
            self.wf(),
        ensures
            cell is Some <==> !metric_is_counter(id),
            cell matches Some(g) ==> self.collector_at(metric_position(id)).spec_cell() == CollectorCell::Gauge(*g),
            self.collector_at(metric_position(id)).name() == metric_name(id),
    {
        match &self.collectors[id.index()].cell {
            CollectorCell::Gauge(g) => Some(g),
            CollectorCell::Counter(_) => None,
        }
    }

    /// The counter of `id`; `None` when `id` names a gauge.
    pub fn counter(&self, id: MetricId) -> (cell: Option<&CounterCell>)
        requires
            self.wf(),
        ensures
            cell is Some <==> metric_is_counter(id),
            cell matches Some(c) ==> self.collector_at(metric_position(id)).spec_cell() == CollectorCell::Counter(*c),
            self.collector_at(metric_position(id)).name() == metric_name(id),
    {
        match &self.collectors[id.index()].cell {
            CollectorCell::Counter(c) => Some(c),
            CollectorCell::Gauge(_) => None,
        }
    }
}

/// Registers every collector of the gateway, in order. The collectors must
/// not have been registered already (registering them twice is refused by
/// the registry).
pub fn register_metrics(metrics: &mut GatewayMetrics)
    requires
        old(metrics).wf(),
        !old(metrics).is_registered(),
    ensures
        final(metrics).wf(),
        final(metrics).is_registered(),
        registry_names(final(metrics).spec_registry()) == names_before(METRIC_COUNT as int),
        registry_descriptor_ids(final(metrics).spec_registry()) == ids_before(METRIC_COUNT as int),
        registry_collector_ids(final(metrics).spec_registry()) == ids_before(METRIC_COUNT as int),
        forall|i: int| 0 <= i < METRIC_COUNT ==> #[trigger] final(metrics).collector_at(i) == old(metrics).collector_at(i),
{
    let mut i: usize = 0;
    while i < METRIC_COUNT
        invariant
            i <= METRIC_COUNT,
            metrics.collectors@.len() == METRIC_COUNT,
            metrics.collectors@ == old(metrics).collectors@,
            !metrics.registered,
            forall|j: int|
                0 <= j < METRIC_COUNT ==> (#[trigger] metrics.collectors@[j]).name() == metric_name(metric_order()[j]),
            descriptor_ids_distinct(),
            registry_consistent(metrics.registry),
            registry_descriptor_ids(metrics.registry) == ids_before(i as int),
            registry_names(metrics.registry) == names_before(i as int),
        decreases METRIC_COUNT - i,
    {
        proof {
            if ids_before(i as int).contains(metric_descriptor_id(i as int)) {
                let j = choose|j: int| 0 <= j < i && metric_descriptor_id(i as int) == #[trigger] metric_descriptor_id(j);
                assert(metric_descriptor_id(j) != metric_descriptor_id(i as int));
            }
        }
        match register_collector(&mut metrics.registry, &metrics.collectors[i]) {
            Ok(()) => {},
            Err(_) => {
                return vstd::pervasive::unreached();
            },
        }
        assert(ids_before(i + 1) =~= ids_before(i as int).insert(metric_descriptor_id(i as int)));
        assert(names_before(i + 1) =~= names_before(i as int).insert(metric_name(metric_order()[i as int])));
        i = i + 1;
    }
    metrics.registered = true;
    proof {
        assert forall|n: Seq<char>| #[trigger] registry_names(metrics.registry).contains(n) implies
            registry_descriptor_ids(metrics.registry).contains(descriptor_id(n)) by {
            let k = choose|k: int| 0 <= k < METRIC_COUNT && n == metric_name(#[trigger] metric_order()[k]);
            assert(metric_descriptor_id(k) == descriptor_id(n));
        }
    }
}


/// The word of a unit of measurement in a metric name (`V` gives `volts`,
/// `°C` gives `celsius`, `Wh` gives `watthours`); empty for other units.
pub open spec fn unit_word(unit: Seq<char>) -> Seq<char> {
    if unit == "W"@ {
        "watts"@
    } else if unit == "V"@ {
        "volts"@
    } else if unit == "A"@ {
        "amperes"@
    } else if unit == "Hz"@ {
        "hertz"@
    } else if unit == "°C"@ {
        "celsius"@
    } else if unit == "Wh"@ {
        "watthours"@
    } else if unit == "VAR"@ {
        "var"@
    } else {
        ""@
    }
}

/// The Home Assistant sensor that shows the quantity a gauge exports.
pub open spec fn metric_sensor(id: MetricId) -> Option<HaSensor> {
    match id {
        MetricId::AcPower => Some(HaSensor::AcPower),
        MetricId::AcVoltage => Some(HaSensor::AcVoltage),
        MetricId::DcCurrent => Some(HaSensor::DcCurrent),
        MetricId::AcFreq => Some(HaSensor::AcFreq),
        MetricId::DcVoltage => Some(HaSensor::DcVoltage),
        MetricId::Temperature => Some(HaSensor::Temperature),
        MetricId::DailyEnergy => Some(HaSensor::DailyEnergy),
        MetricId::ReactivePower => Some(HaSensor::ReactivePower),
        _ => None,
    }
}

/// Each collector is exported under the name of its own quantity: the
/// gauge of a quantity is named `nep_` followed by the identifier of the
/// sensor that shows the same quantity, and ends with the word of that
/// sensor's unit (the temperature gauge starts with `nep_temperature` and
/// ends with `_celsius`, the daily-energy gauge starts with
/// `nep_daily_energy` and ends with `_watthours`); exactly the counters end
/// with `_total`.
pub proof fn lemma_metric_names_follow_quantities(id: MetricId)
    ensures
        metric_sensor(id) matches Some(s) ==> has_prefix(metric_name(id), "nep_"@ + sensor_id(s))
            && has_suffix(metric_name(id), "_"@ + unit_word(sensor_unit(s))),
        metric_is_counter(id) == has_suffix(metric_name(id), "_total"@),
{
    reveal_strlit("A");
    reveal_strlit("Hz");
    reveal_strlit("V");
    reveal_strlit("VAR");
    reveal_strlit("W");
    reveal_strlit("Wh");
    reveal_strlit("_");
    reveal_strlit("_amperes");
    reveal_strlit("_celsius");
    reveal_strlit("_hertz");
    reveal_strlit("_total");
    reveal_strlit("_var");
    reveal_strlit("_volts");
    reveal_strlit("_watthours");
    reveal_strlit("_watts");
    reveal_strlit("ac_freq");
    reveal_strlit("ac_power");
    reveal_strlit("ac_voltage");
    reveal_strlit("amperes");
    reveal_strlit("celsius");
    reveal_strlit("daily_energy");
    reveal_strlit("dc_current");
    reveal_strlit("dc_voltage");
    reveal_strlit("hertz");
    reveal_strlit("nep_");
    reveal_strlit("nep_ac_freq");
    reveal_strlit("nep_ac_frequency_hertz");
    reveal_strlit("nep_ac_power");
    reveal_strlit("nep_ac_power_watts");
    reveal_strlit("nep_ac_voltage");
    reveal_strlit("nep_ac_voltage_volts");
    reveal_strlit("nep_daily_energy");
    reveal_strlit("nep_daily_energy_watthours");
    reveal_strlit("nep_dc_current");
    reveal_strlit("nep_dc_current_amperes");
    reveal_strlit("nep_dc_voltage");
    reveal_strlit("nep_dc_voltage_volts");
    reveal_strlit("nep_inverter_dc_current_ch1_amperes");
    reveal_strlit("nep_inverter_dc_current_ch2_amperes");
    reveal_strlit("nep_packets_received_total");
    reveal_strlit("nep_reactive_power");
    reveal_strlit("nep_reactive_power_var");
    reveal_strlit("nep_temperature");
    reveal_strlit("nep_temperature_celsius");
    reveal_strlit("nep_upstream_forward_errors_total");
    reveal_strlit("nep_upstream_forwards_total");
    reveal_strlit("reactive_power");
    reveal_strlit("temperature");
    reveal_strlit("var");
    reveal_strlit("volts");
    reveal_strlit("watthours");
    reveal_strlit("watts");
    reveal_strlit("°C");
    let name = metric_name(id);
    match id {
        MetricId::AcPower => {
            let unit = sensor_unit(HaSensor::AcPower);
            assert(unit_word(unit) == "watts"@);
            assert(("nep_"@ + sensor_id(HaSensor::AcPower)) =~= "nep_ac_power"@);
            assert(name.subrange(0, 12) =~= "nep_ac_power"@);
            assert(("_"@ + unit_word(unit)) =~= "_watts"@);
            assert(name.subrange(12, 18) =~= "_watts"@);
            assert(name[17] != "_total"@[5]);
        },
        MetricId::AcVoltage => {
            let unit = sensor_unit(HaSensor::AcVoltage);
            assert(unit[0] != "W"@[0] || unit[0] != "W"@[0]);
            assert(unit_word(unit) == "volts"@);
            assert(("nep_"@ + sensor_id(HaSensor::AcVoltage)) =~= "nep_ac_voltage"@);
            assert(name.subrange(0, 14) =~= "nep_ac_voltage"@);
            assert(("_"@ + unit_word(unit)) =~= "_volts"@);
            assert(name.subrange(14, 20) =~= "_volts"@);
            assert(name[19] != "_total"@[5]);
        },
        MetricId::DcCurrent => {
            let unit = sensor_unit(HaSensor::DcCurrent);
            assert(unit[0] != "W"@[0] || unit[0] != "W"@[0]);
            assert(unit[0] != "V"@[0] || unit[0] != "V"@[0]);
            assert(unit_word(unit) == "amperes"@);
            assert(("nep_"@ + sensor_id(HaSensor::DcCurrent)) =~= "nep_dc_current"@);
            assert(name.subrange(0, 14) =~= "nep_dc_current"@);
            assert(("_"@ + unit_word(unit)) =~= "_amperes"@);
            assert(name.subrange(14, 22) =~= "_amperes"@);
            assert(name[21] != "_total"@[5]);
        },
        MetricId::AcFreq => {
            let unit = sensor_unit(HaSensor::AcFreq);
            assert(unit.len() != "W"@.len());
            assert(unit.len() != "V"@.len());
            assert(unit.len() != "A"@.len());
            assert(unit_word(unit) == "hertz"@);
            assert(("nep_"@ + sensor_id(HaSensor::AcFreq)) =~= "nep_ac_freq"@);
            assert(name.subrange(0, 11) =~= "nep_ac_freq"@);
            assert(("_"@ + unit_word(unit)) =~= "_hertz"@);
            assert(name.subrange(16, 22) =~= "_hertz"@);
            assert(name[21] != "_total"@[5]);
        },
        MetricId::DcVoltage => {
            let unit = sensor_unit(HaSensor::DcVoltage);
            assert(unit[0] != "W"@[0] || unit[0] != "W"@[0]);
            assert(unit_word(unit) == "volts"@);
            assert(("nep_"@ + sensor_id(HaSensor::DcVoltage)) =~= "nep_dc_voltage"@);
            assert(name.subrange(0, 14) =~= "nep_dc_voltage"@);
            assert(("_"@ + unit_word(unit)) =~= "_volts"@);
            assert(name.subrange(14, 20) =~= "_volts"@);
            assert(name[19] != "_total"@[5]);
        },
        MetricId::Temperature => {
            let unit = sensor_unit(HaSensor::Temperature);
            assert(unit.len() != "W"@.len());
            assert(unit.len() != "V"@.len());
            assert(unit.len() != "A"@.len());
            assert(unit[0] != "Hz"@[0] || unit[1] != "Hz"@[1]);
            assert(unit_word(unit) == "celsius"@);
            assert(("nep_"@ + sensor_id(HaSensor::Temperature)) =~= "nep_temperature"@);
            assert(name.subrange(0, 15) =~= "nep_temperature"@);
            assert(("_"@ + unit_word(unit)) =~= "_celsius"@);
            assert(name.subrange(15, 23) =~= "_celsius"@);
            assert(name[22] != "_total"@[5]);
        },
        MetricId::DailyEnergy => {
            let unit = sensor_unit(HaSensor::DailyEnergy);
            assert(unit.len() != "W"@.len());
            assert(unit.len() != "V"@.len());
            assert(unit.len() != "A"@.len());
            assert(unit[0] != "Hz"@[0] || unit[1] != "Hz"@[1]);
            assert(unit[0] != "°C"@[0] || unit[1] != "°C"@[1]);
            assert(unit_word(unit) == "watthours"@);
            assert(("nep_"@ + sensor_id(HaSensor::DailyEnergy)) =~= "nep_daily_energy"@);
            assert(name.subrange(0, 16) =~= "nep_daily_energy"@);
            assert(("_"@ + unit_word(unit)) =~= "_watthours"@);
            assert(name.subrange(16, 26) =~= "_watthours"@);
            assert(name[25] != "_total"@[5]);
        },
        MetricId::ReactivePower => {
            let unit = sensor_unit(HaSensor::ReactivePower);
            assert(unit.len() != "W"@.len());
            assert(unit.len() != "V"@.len());
            assert(unit.len() != "A"@.len());
            assert(unit.len() != "Hz"@.len());
            assert(unit.len() != "°C"@.len());
            assert(unit.len() != "Wh"@.len());
            assert(unit_word(unit) == "var"@);
            assert(("nep_"@ + sensor_id(HaSensor::ReactivePower)) =~= "nep_reactive_power"@);
            assert(name.subrange(0, 18) =~= "nep_reactive_power"@);
            assert(("_"@ + unit_word(unit)) =~= "_var"@);
            assert(name.subrange(18, 22) =~= "_var"@);
            assert(name[21] != "_total"@[5]);
        },
        MetricId::PacketsReceived => {
            assert(name.subrange(20, 26) =~= "_total"@);
        },
        MetricId::UpstreamForwards => {
            assert(name.subrange(21, 27) =~= "_total"@);
        },
        MetricId::UpstreamForwardErrors => {
            assert(name.subrange(27, 33) =~= "_total"@);
        },
        MetricId::DcCurrentCh1 => {
            assert(name[34] != "_total"@[5]);
        },
        MetricId::DcCurrentCh2 => {
            assert(name[34] != "_total"@[5]);
        },
    }
}

/// Once the collectors are registered, the registry holds the descriptor id
/// of every one of them and keeps exactly these collectors, so registering
/// any of them again is refused (a registration succeeds only for an id that
/// is not registered yet) and leaves the collector set unchanged.
pub proof fn lemma_registered_collectors_are_refused_again(m: GatewayMetrics)
    requires
        m.wf(),
        m.is_registered(),
    ensures
        registry_collector_ids(m.spec_registry()) == ids_before(METRIC_COUNT as int),
        forall|i: int|
            0 <= i < METRIC_COUNT ==> registry_descriptor_ids(m.spec_registry()).contains(
                descriptor_id(#[trigger] m.collector_at(i).name()),
            ),
{
    assert forall|i: int| 0 <= i < METRIC_COUNT implies registry_descriptor_ids(m.spec_registry()).contains(
        descriptor_id(#[trigger] m.collector_at(i).name()),
    ) by {
        assert(m.collector_at(i).name() == metric_name(metric_order()[i]));
        assert(descriptor_id(m.collector_at(i).name()) == metric_descriptor_id(i));
    }
}

} // verus!
