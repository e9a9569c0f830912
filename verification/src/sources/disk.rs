//! Disk I/O counters: throughput per device between two consecutive samples.

use vstd::prelude::*;
use vstd::hash_map::StringHashMap;
use crate::delta::{delta, delta_spec, rate_per_sec, rate_per_sec_spec};
use crate::text::{append_decimal, contains, decimal, str_contains};
use crate::types::{DiskMetrics, DiskMetricsView};

verus! {

/// The cumulative counters of one device.
#[derive(Debug, Clone, Copy, PartialEq, Eq, Structural)]
pub struct DiskSnapshot {
    pub read_bytes: u64,
    pub write_bytes: u64,
    pub read_ops: u64,
    pub write_ops: u64,
}

impl Default for DiskSnapshot {
    fn default() -> (snapshot: Self)
        ensures
            snapshot == (DiskSnapshot { read_bytes: 0, write_bytes: 0, read_ops: 0, write_ops: 0 }),
    {
        DiskSnapshot { read_bytes: 0, write_bytes: 0, read_ops: 0, write_ops: 0 }
    }
}

/// The counter that a number found in a driver's statistics stands for: the number
/// itself, its 64 bits read as unsigned.
pub open spec fn counter_of(number: Option<i64>) -> u64 {
    match number {
        Some(n) => if n >= 0 {
            n as u64
        } else {
            (n + 0x1_0000_0000_0000_0000) as u64
        },
        None => 0,
    }
}

fn counter(number: Option<i64>) -> (count: u64)
    ensures
        count == counter_of(number),
{
    match number {
        Some(n) => if n >= 0 {
            n as u64
        } else {
            // The bits of a negative number, read as unsigned.
            u64::MAX - ((-(n + 1)) as u64)
        },
        None => 0,
    }
}

impl DiskSnapshot {
    /// Builds the counters of a device from the numbers found in its driver's
    /// statistics. A number that is missing counts as zero.
    pub fn from_statistics(
        read_bytes: Option<i64>,
        write_bytes: Option<i64>,
        read_ops: Option<i64>,
        write_ops: Option<i64>,
    ) -> (snapshot: DiskSnapshot)
        ensures
            snapshot == (DiskSnapshot {
                read_bytes: counter_of(read_bytes),
                write_bytes: counter_of(write_bytes),
                read_ops: counter_of(read_ops),
                write_ops: counter_of(write_ops),
            }),
    {
        DiskSnapshot {
            read_bytes: counter(read_bytes),
            write_bytes: counter(write_bytes),
            read_ops: counter(read_ops),
            write_ops: counter(write_ops),
        }
    }
}

/// The name under which a storage driver is tracked.
///
/// A driver whose registry name mentions `Media` is the first disk. Any other is
/// numbered by how many devices were found before it.
pub open spec fn device_name_of(registry_name: Seq<char>, devices_found: nat) -> Seq<char> {
    if contains(registry_name, "Media"@) {
        "disk0"@
    } else {
        "disk"@ + decimal(devices_found)
    }
}

/// Names a storage driver, given how many devices were found before it.
pub fn device_name(registry_name: &str, devices_found: usize) -> (name: String)
    ensures
        name@ == device_name_of(registry_name@, devices_found as nat),
{
    if str_contains(registry_name, "Media") {
        "disk0".to_owned()
    } else {
        let mut name = "disk".to_owned();
        append_decimal(&mut name, devices_found);
        name
    }
}

/// One entry of a sample: a device's name and counters.
#[derive(Debug, Clone)]
pub struct DiskReading {
    pub name: String,
    pub counters: DiskSnapshot,
}

/// The mathematical content of a [`DiskReading`].
pub ghost struct DiskReadingView {
    pub name: Seq<char>,
    pub counters: DiskSnapshot,
}

impl View for DiskReading {
    type V = DiskReadingView;

    open spec fn view(&self) -> DiskReadingView {
        DiskReadingView { name: self.name@, counters: self.counters }
    }
}

impl DeepView for DiskReading {
    type V = DiskReadingView;

    open spec fn deep_view(&self) -> DiskReadingView {
        self@
    }
}

/// No two entries name the same device.
pub open spec fn names_distinct(readings: Seq<DiskReadingView>) -> bool {
    forall|i: int, j: int|
        0 <= i < j < readings.len() ==> (#[trigger] readings[i]).name != (
        #[trigger] readings[j]).name
}

/// A sample with the counters of one device set: in place where the sample holds the
/// device, at the end where it does not.
pub open spec fn with_device(
    readings: Seq<DiskReadingView>,
    name: Seq<char>,
    counters: DiskSnapshot,
) -> Seq<DiskReadingView> {
    if exists|i: int| 0 <= i < readings.len() && (#[trigger] readings[i]).name == name {
        let at = choose|i: int| 0 <= i < readings.len() && (#[trigger] readings[i]).name == name;
        readings.update(at, DiskReadingView { name, counters })
    } else {
        readings.push(DiskReadingView { name, counters })
    }
}

/// A sample in the making: the devices found so far, each once.
pub struct DiskSample {
    readings: Vec<DiskReading>,
}

impl View for DiskSample {
    type V = Seq<DiskReadingView>;

    closed spec fn view(&self) -> Seq<DiskReadingView> {
        self.readings.deep_view()
    }
}

impl DiskSample {
    /// The sample holds each device once. This holds of every sample there is.
    #[verifier::type_invariant]
    pub open spec fn well_formed(&self) -> bool {
        names_distinct(self@)
    }

    /// A sample of no devices.
    pub fn new() -> (sample: Self)
        ensures
            sample@ == Seq::<DiskReadingView>::empty(),
            sample.well_formed(),
    {
        let readings: Vec<DiskReading> = Vec::new();
        assert(readings.deep_view() =~= Seq::<DiskReadingView>::empty());
        Self { readings }
    }

    /// The number of devices in the sample.
    pub fn len(&self) -> (n: usize)
        ensures
            n == self@.len(),
    {
        self.readings.len()
    }

    /// Sets the counters of the device `name`, which the sample may hold already.
    pub fn insert(&mut self, name: String, counters: DiskSnapshot)
        ensures
            final(self)@ == with_device(old(self)@, name@, counters),
            final(self).well_formed(),
    {
        proof {
            use_type_invariant(&*self);
        }
        let ghost before = self.readings.deep_view();
        let ghost entry = DiskReadingView { name: name@, counters };
        let n: usize = self.readings.len();
        let mut at: usize = 0;
        while at < n && self.readings[at].name != name
            invariant
                before == self.readings.deep_view(),
                before == old(self)@,
                n == self.readings.len(),
                at <= n,
                forall|j: int| 0 <= j < at ==> (#[trigger] before[j]).name != name@,
            decreases n - at,
        {
            at = at + 1;
        }
        // The entries leave the sample while they change and come back as a whole.
        let mut readings: Vec<DiskReading> = Vec::new();
        assert(readings.deep_view() =~= Seq::<DiskReadingView>::empty());
        core::mem::swap(&mut self.readings, &mut readings);
        if at < n {
            readings.set(at, DiskReading { name, counters });
            proof {
                let after = before.update(at as int, entry);
                let found = choose|k: int|
                    0 <= k < before.len() && (#[trigger] before[k]).name == entry.name;
                assert(before[at as int].name == entry.name);
                assert(found == at) by {
                    if found < at {
                        assert(before[found].name != entry.name);
                    }
                    if found > at {
                        assert(before[at as int].name != before[found].name);
                    }
                }
                assert(readings.deep_view() =~= after);
                assert(after =~= with_device(before, entry.name, counters));
                assert forall|a: int, b: int| 0 <= a < b < after.len() implies (
                #[trigger] after[a]).name != (#[trigger] after[b]).name by {
                    assert(before[a].name != before[b].name);
                }
            }
        } else {
            readings.push(DiskReading { name, counters });
            proof {
                let after = before.push(entry);
                assert(readings.deep_view() =~= after);
                assert(after =~= with_device(before, entry.name, counters));
                assert forall|a: int, b: int| 0 <= a < b < after.len() implies (
                #[trigger] after[a]).name != (#[trigger] after[b]).name by {
                    if b < before.len() {
                        assert(before[a].name != before[b].name);
                    } else {
                        assert(before[a].name != entry.name);
                    }
                }
            }
        }
        self.readings = readings;
    }

    /// Adds the counters of a storage driver under the name that the driver is
    /// tracked by, given the devices found before it.
    pub fn record(&mut self, registry_name: &str, counters: DiskSnapshot)
        ensures
            final(self)@ == with_device(
                old(self)@,
                device_name_of(registry_name@, old(self)@.len()),
                counters,
            ),
            final(self).well_formed(),
    {
        let name = device_name(registry_name, self.len());
        self.insert(name, counters);
    }

    /// The entries of the sample, in the order in which the devices were first found.
    /// No two of them name the same device.
    pub fn into_readings(self) -> (readings: Vec<DiskReading>)
        ensures
            readings.deep_view() == self@,
            names_distinct(readings.deep_view()),
    {
        proof {
            use_type_invariant(&self);
        }
        self.readings
    }
}

/// The mapping from device names to counters that a sample stands for.
///
/// Where a name occurs more than once, its last entry counts.
pub open spec fn snapshot_map(readings: Seq<DiskReadingView>) -> Map<Seq<char>, DiskSnapshot>
    decreases readings.len(),
{
    if readings.len() == 0 {
        Map::empty()
    } else {
        snapshot_map(readings.drop_last()).insert(readings.last().name, readings.last().counters)
    }
}

/// The entry at `index` is the last one of its device in `readings`.
pub open spec fn is_final_reading(readings: Seq<DiskReadingView>, index: int) -> bool {
    forall|later: int|
        index < later < readings.len() ==> (#[trigger] readings[later]).name
            != readings[index].name
}

/// The rates of one device between its previous and its current counters.
pub open spec fn device_rates(
    name: Seq<char>,
    previous: DiskSnapshot,
    current: DiskSnapshot,
    interval_ns: u64,
) -> DiskMetricsView {
    DiskMetricsView {
        name,
        read_bytes_per_sec: rate_per_sec_spec(
            delta_spec(previous.read_bytes, current.read_bytes),
            interval_ns,
        ),
        write_bytes_per_sec: rate_per_sec_spec(
            delta_spec(previous.write_bytes, current.write_bytes),
            interval_ns,
        ),
        read_ops_per_sec: rate_per_sec_spec(
            delta_spec(previous.read_ops, current.read_ops),
            interval_ns,
        ),
        write_ops_per_sec: rate_per_sec_spec(
            delta_spec(previous.write_ops, current.write_ops),
            interval_ns,
        ),
    }
}

/// The disk list from the first `upto` entries of the current sample.
pub open spec fn disk_metrics_upto(
    previous: Map<Seq<char>, DiskSnapshot>,
    current: Seq<DiskReadingView>,
    interval_ns: u64,
    upto: nat,
) -> Seq<DiskMetricsView>
    decreases upto,
{
    if upto == 0 {
        Seq::empty()
    } else {
        let before = disk_metrics_upto(previous, current, interval_ns, (upto - 1) as nat);
        let reading = current[upto - 1];
        if is_final_reading(current, upto - 1) && previous.contains_key(reading.name) {
            before.push(
                device_rates(reading.name, previous[reading.name], reading.counters, interval_ns),
            )
        } else {
            before
        }
    }
}

/// The disk list of a tick: one entry for each device that is in the current sample
/// and was in the previous one, in the order of the current sample.
pub open spec fn disk_metrics(
    previous: Map<Seq<char>, DiskSnapshot>,
    current: Seq<DiskReadingView>,
    interval_ns: u64,
) -> Seq<DiskMetricsView> {
    disk_metrics_upto(previous, current, interval_ns, current.len())
}

/// The state that the disk source keeps between ticks: the previous sample, as a
/// mapping from device names to counters.
pub struct DiskStats {
    prev_snapshots: StringHashMap<DiskSnapshot>,
}

impl View for DiskStats {
    type V = Map<Seq<char>, DiskSnapshot>;

    closed spec fn view(&self) -> Map<Seq<char>, DiskSnapshot> {
        self.prev_snapshots@
    }
}

/// Builds the mapping that a sample stands for.
fn mapping_of(readings: &Vec<DiskReading>) -> (mapping: StringHashMap<DiskSnapshot>)
    ensures
        mapping@ == snapshot_map(readings.deep_view()),
{
    let ghost views = readings.deep_view();
    let mut mapping: StringHashMap<DiskSnapshot> = StringHashMap::new();
    let n: usize = readings.len();
    let mut i: usize = 0;
    proof {
        assert(views.take(0) =~= Seq::<DiskReadingView>::empty());
    }
    while i < n
        invariant
            views == readings.deep_view(),
            n == readings.len(),
            i <= n,
            mapping@ == snapshot_map(views.take(i as int)),
        decreases n - i,
    {
        proof {
            assert(views.take(i + 1).drop_last() =~= views.take(i as int));
            assert(views.take(i + 1).last() == readings[i as int]@);
        }
        mapping.insert(readings[i].name.clone(), readings[i].counters);
        i = i + 1;
    }
    proof {
        assert(views.take(n as int) =~= views);
    }
    mapping
}

/// Tells whether the device of the entry at `index` is named again further on.
fn named_later(readings: &Vec<DiskReading>, index: usize) -> (again: bool)
    requires
        index < readings.len(),
    ensures
        again == !is_final_reading(readings.deep_view(), index as int),
{
    let ghost views = readings.deep_view();
    let mut later: usize = index + 1;
    while later < readings.len()
        invariant
            views == readings.deep_view(),
            index < later <= readings.len(),
            forall|j: int|
                index < j < later ==> (#[trigger] views[j]).name != views[index as int].name,
        decreases readings.len() - later,
    {
        if readings[later].name == readings[index].name {
            assert(views[later as int].name == views[index as int].name);
            return true;
        }
        later = later + 1;
    }
    false
}

impl DiskStats {
    /// A source that has seen no sample yet.
    pub fn new() -> (stats: Self)
        ensures
            stats@ == Map::<Seq<char>, DiskSnapshot>::empty(),
    {
        Self { prev_snapshots: StringHashMap::new() }
    }

    /// Turns the sample of one tick into rates per device and keeps the sample.
    ///
    /// `interval_ns` is the time that passed since the previous sample. The sample
    /// replaces the previous one whole: a device that it lacks is forgotten.
    pub fn get_metrics(&mut self, current: Vec<DiskReading>, interval_ns: u64) -> (metrics: Vec<
        DiskMetrics,
    >)
        ensures
            metrics.deep_view() == disk_metrics(old(self)@, current.deep_view(), interval_ns),
            final(self)@ == snapshot_map(current.deep_view()),
    {
        let ghost previous = self@;
        let ghost views = current.deep_view();
        let mut metrics: Vec<DiskMetrics> = Vec::new();
        let n: usize = current.len();
        let mut i: usize = 0;
        proof {
            assert(metrics.deep_view() =~= Seq::<DiskMetricsView>::empty());
        }
        while i < n
            invariant
                previous == self@,
                views == current.deep_view(),
                n == current.len(),
                i <= n,
                metrics.deep_view() == disk_metrics_upto(previous, views, interval_ns, i as nat),
            decreases n - i,
        {
            let reading = &current[i];
            assert(views[i as int] == reading@);
            if !named_later(&current, i) {
                match self.prev_snapshots.get(reading.name.as_str()) {
                    Some(before) => {
                        let ghost listed = metrics.deep_view();
                        let entry = DiskMetrics {
                            name: reading.name.clone(),
                            read_bytes_per_sec: rate_per_sec(
                                delta(before.read_bytes, reading.counters.read_bytes),
                                interval_ns,
                            ),
                            write_bytes_per_sec: rate_per_sec(
                                delta(before.write_bytes, reading.counters.write_bytes),
                                interval_ns,
                            ),
                            read_ops_per_sec: rate_per_sec(
                                delta(before.read_ops, reading.counters.read_ops),
                                interval_ns,
                            ),
                            write_ops_per_sec: rate_per_sec(
                                delta(before.write_ops, reading.counters.write_ops),
                                interval_ns,
                            ),
                        };
                        let ghost entry_view = entry@;
                        metrics.push(entry);
                        assert(metrics.deep_view() =~= listed.push(entry_view));
                    },
                    None => {},
                }
            }
            i = i + 1;
        }
        self.prev_snapshots = mapping_of(&current);
        metrics
    }
}

/// A device is named by some entry of a sample.
pub open spec fn names_device(readings: Seq<DiskReadingView>, name: Seq<char>) -> bool {
    exists|i: int| 0 <= i < readings.len() && (#[trigger] readings[i]).name == name
}

/// A device is in the disk list.
pub open spec fn lists_device(metrics: Seq<DiskMetricsView>, name: Seq<char>) -> bool {
    exists|i: int| 0 <= i < metrics.len() && (#[trigger] metrics[i]).name == name
}

/// The mapping of a sample holds the devices that the sample names, each with the
/// counters of its last entry.
pub proof fn lemma_snapshot_map_holds(readings: Seq<DiskReadingView>, name: Seq<char>)
    ensures
        snapshot_map(readings).contains_key(name) <==> names_device(readings, name),
        forall|i: int|
            0 <= i < readings.len() && (#[trigger] readings[i]).name == name && is_final_reading(
                readings,
                i,
            ) ==> snapshot_map(readings)[name] == readings[i].counters,
    decreases readings.len(),
{
    if readings.len() > 0 {
        let before = readings.drop_last();
        let last = readings.len() - 1;
        lemma_snapshot_map_holds(before, name);
        if names_device(before, name) {
            let i = choose|i: int| 0 <= i < before.len() && (#[trigger] before[i]).name == name;
            assert(readings[i].name == name);
        }
        if names_device(readings, name) && readings[last].name != name {
            let i = choose|i: int| 0 <= i < readings.len() && (#[trigger] readings[i]).name == name;
            assert(before[i].name == name);
        }
        assert forall|i: int|
            0 <= i < readings.len() && (#[trigger] readings[i]).name == name && is_final_reading(
                readings,
                i,
            ) implies snapshot_map(readings)[name] == readings[i].counters by {
            if i < last {
                assert(readings[last].name != readings[i].name);
                assert(before[i].name == name);
                assert forall|later: int| i < later < before.len() implies (
                #[trigger] before[later]).name != before[i].name by {
                    assert(readings[later].name != readings[i].name);
                }
            }
        }
    }
}

/// Every entry of the disk list comes from a final entry of the current sample whose
/// device was in the previous sample, and carries the rates of that device.
pub proof fn lemma_disk_metrics_origin(
    previous: Map<Seq<char>, DiskSnapshot>,
    current: Seq<DiskReadingView>,
    interval_ns: u64,
    upto: nat,
)
    requires
        upto <= current.len(),
    ensures
        forall|k: int|
            0 <= k < disk_metrics_upto(previous, current, interval_ns, upto).len() ==> exists|
                i: int,
            |
                0 <= i < upto && is_final_reading(current, i) && previous.contains_key(
                    current[i].name,
                ) && #[trigger] disk_metrics_upto(previous, current, interval_ns, upto)[k]
                    == #[trigger] device_rates(
                    current[i].name,
                    previous[current[i].name],
                    current[i].counters,
                    interval_ns,
                ),
    decreases upto,
{
    if upto > 0 {
        lemma_disk_metrics_origin(previous, current, interval_ns, (upto - 1) as nat);
        let before = disk_metrics_upto(previous, current, interval_ns, (upto - 1) as nat);
        let now = disk_metrics_upto(previous, current, interval_ns, upto);
        assert forall|k: int| 0 <= k < now.len() implies exists|i: int|
            0 <= i < upto && is_final_reading(current, i) && previous.contains_key(
                current[i].name,
            ) && #[trigger] now[k] == #[trigger] device_rates(
                current[i].name,
                previous[current[i].name],
                current[i].counters,
                interval_ns,
            ) by {
            if k < before.len() {
                let i = choose|i: int|
                    0 <= i < upto - 1 && is_final_reading(current, i) && previous.contains_key(
                        current[i].name,
                    ) && #[trigger] before[k] == #[trigger] device_rates(
                        current[i].name,
                        previous[current[i].name],
                        current[i].counters,
                        interval_ns,
                    );
                assert(now[k] == device_rates(
                    current[i].name,
                    previous[current[i].name],
                    current[i].counters,
                    interval_ns,
                ));
            } else {
                let i = upto - 1;
                assert(now[k] == device_rates(
                    current[i].name,
                    previous[current[i].name],
                    current[i].counters,
                    interval_ns,
                ));
            }
        }
    }
}

/// No device is in the disk list twice, however often the current sample names it.
pub proof fn lemma_each_device_listed_once(
    previous: Map<Seq<char>, DiskSnapshot>,
    current: Seq<DiskReadingView>,
    interval_ns: u64,
)
    ensures
        forall|a: int, b: int|
            0 <= a < b < disk_metrics(previous, current, interval_ns).len() ==> (
            #[trigger] disk_metrics(previous, current, interval_ns)[a]).name != (
            #[trigger] disk_metrics(previous, current, interval_ns)[b]).name,
{
    lemma_listed_once_upto(previous, current, interval_ns, current.len());
}

proof fn lemma_listed_once_upto(
    previous: Map<Seq<char>, DiskSnapshot>,
    current: Seq<DiskReadingView>,
    interval_ns: u64,
    upto: nat,
)
    requires
        upto <= current.len(),
    ensures
        forall|a: int, b: int|
            0 <= a < b < disk_metrics_upto(previous, current, interval_ns, upto).len() ==> (
            #[trigger] disk_metrics_upto(previous, current, interval_ns, upto)[a]).name != (
            #[trigger] disk_metrics_upto(previous, current, interval_ns, upto)[b]).name,
    decreases upto,
{
    if upto > 0 {
        lemma_listed_once_upto(previous, current, interval_ns, (upto - 1) as nat);
        lemma_disk_metrics_origin(previous, current, interval_ns, (upto - 1) as nat);
        let before = disk_metrics_upto(previous, current, interval_ns, (upto - 1) as nat);
        let now = disk_metrics_upto(previous, current, interval_ns, upto);
        assert forall|a: int, b: int| 0 <= a < b < now.len() implies (#[trigger] now[a]).name != (
        #[trigger] now[b]).name by {
            if b < before.len() {
                assert(before[a].name != before[b].name);
            } else {
                let i = choose|i: int|
                    0 <= i < upto - 1 && is_final_reading(current, i) && previous.contains_key(
                        current[i].name,
                    ) && #[trigger] before[a] == #[trigger] device_rates(
                        current[i].name,
                        previous[current[i].name],
                        current[i].counters,
                        interval_ns,
                    );
                assert(current[upto - 1].name != current[i].name);
            }
        }
    }
}

/// A device is in the disk list of a tick only if both the previous and the current
/// sample hold it: one that has left the current sample is not listed, and one that
/// the current sample is the first to hold has no rate yet.
pub proof fn lemma_listed_device_in_both_samples(
    previous: Map<Seq<char>, DiskSnapshot>,
    current: Seq<DiskReadingView>,
    interval_ns: u64,
    name: Seq<char>,
)
    requires
        lists_device(disk_metrics(previous, current, interval_ns), name),
    ensures
        previous.contains_key(name),
        names_device(current, name),
{
    let metrics = disk_metrics(previous, current, interval_ns);
    lemma_disk_metrics_origin(previous, current, interval_ns, current.len());
    let k = choose|k: int| 0 <= k < metrics.len() && (#[trigger] metrics[k]).name == name;
    let i = choose|i: int|
        0 <= i < current.len() && is_final_reading(current, i) && previous.contains_key(
            current[i].name,
        ) && #[trigger] metrics[k] == #[trigger] device_rates(
            current[i].name,
            previous[current[i].name],
            current[i].counters,
            interval_ns,
        );
    assert(current[i].name == name);
}

/// Setting a device in a sample that holds each device once keeps it so, and sets the
/// device in the mapping that the sample stands for.
pub proof fn lemma_with_device_sets_mapping(
    readings: Seq<DiskReadingView>,
    name: Seq<char>,
    counters: DiskSnapshot,
)
    requires
        names_distinct(readings),
    ensures
        names_distinct(with_device(readings, name, counters)),
        snapshot_map(with_device(readings, name, counters)) == snapshot_map(readings).insert(
            name,
            counters,
        ),
{
    let after = with_device(readings, name, counters);
    let entry = DiskReadingView { name, counters };
    let held = exists|i: int| 0 <= i < readings.len() && (#[trigger] readings[i]).name == name;
    let at = choose|i: int| 0 <= i < readings.len() && (#[trigger] readings[i]).name == name;
    assert forall|a: int, b: int| 0 <= a < b < after.len() implies (#[trigger] after[a]).name != (
    #[trigger] after[b]).name by {
        if held {
            assert(readings[a].name != readings[b].name);
        } else if b < readings.len() {
            assert(readings[a].name != readings[b].name);
        } else {
            assert(readings[a].name != name);
        }
    }
    assert forall|key: Seq<char>|
        snapshot_map(after).contains_key(key) == snapshot_map(readings).insert(
            name,
            counters,
        ).contains_key(key) by {
        lemma_snapshot_map_holds(after, key);
        lemma_snapshot_map_holds(readings, key);
        if names_device(after, key) {
            let i = choose|i: int| 0 <= i < after.len() && (#[trigger] after[i]).name == key;
            if key != name {
                assert(readings[i].name == key);
            }
        }
        if names_device(readings, key) {
            let i = choose|i: int| 0 <= i < readings.len() && (#[trigger] readings[i]).name == key;
            assert(after[i].name == key);
        }
        if key == name {
            if held {
                assert(after[at].name == key);
            } else {
                assert(after[after.len() - 1].name == key);
            }
        }
    }
    assert forall|key: Seq<char>| snapshot_map(after).contains_key(key) implies snapshot_map(
        after,
    )[key] == snapshot_map(readings).insert(name, counters)[key] by {
        lemma_snapshot_map_holds(after, key);
        lemma_snapshot_map_holds(readings, key);
        let i = choose|i: int| 0 <= i < after.len() && (#[trigger] after[i]).name == key;
        assert(is_final_reading(after, i));
        if key != name {
            assert(readings[i].name == key);
            assert(is_final_reading(readings, i));
        } else if held {
            assert(after[at].name == key);
            assert(i == at) by {
                if i < at {
                    assert(after[i].name != after[at].name);
                }
                if at < i {
                    assert(after[at].name != after[i].name);
                }
            }
        } else {
            assert(i == after.len() - 1) by {
                if i < readings.len() {
                    assert(readings[i].name == name);
                }
            }
        }
    }
    assert(snapshot_map(after) =~= snapshot_map(readings).insert(name, counters));
}

/// With no previous sample the disk list is empty, whatever the current sample holds.
pub proof fn lemma_first_sample_lists_nothing(current: Seq<DiskReadingView>, interval_ns: u64)
    ensures
        disk_metrics(Map::empty(), current, interval_ns).len() == 0,
{
    lemma_no_previous_sample(current, interval_ns, current.len());
}

proof fn lemma_no_previous_sample(current: Seq<DiskReadingView>, interval_ns: u64, upto: nat)
    ensures
        disk_metrics_upto(Map::empty(), current, interval_ns, upto).len() == 0,
    decreases upto,
{
    if upto > 0 {
        lemma_no_previous_sample(current, interval_ns, (upto - 1) as nat);
    }
}

/// A device that a sample names has a last entry in it.
proof fn lemma_last_entry_exists(readings: Seq<DiskReadingView>, name: Seq<char>)
    requires
        names_device(readings, name),
    ensures
        exists|i: int|
            0 <= i < readings.len() && (#[trigger] readings[i]).name == name && is_final_reading(
                readings,
                i,
            ),
    decreases readings.len(),
{
    let last = readings.len() - 1;
    let some = choose|i: int| 0 <= i < readings.len() && (#[trigger] readings[i]).name == name;
    if readings[last].name == name {
        assert(is_final_reading(readings, last));
    } else {
        let before = readings.drop_last();
        assert(before[some].name == name);
        lemma_last_entry_exists(before, name);
        let i = choose|i: int|
            0 <= i < before.len() && (#[trigger] before[i]).name == name && is_final_reading(
                before,
                i,
            );
        assert(readings[i].name == name);
        assert forall|later: int| i < later < readings.len() implies (
        #[trigger] readings[later]).name != readings[i].name by {
            if later < last {
                assert(before[later].name != before[i].name);
            }
        }
        assert(is_final_reading(readings, i));
    }
}

/// The final entry of a device that was in the previous sample is in the disk list
/// once the list has reached it.
proof fn lemma_final_entry_listed(
    previous: Map<Seq<char>, DiskSnapshot>,
    current: Seq<DiskReadingView>,
    interval_ns: u64,
    upto: nat,
    index: int,
)
    requires
        0 <= index < upto <= current.len(),
        is_final_reading(current, index),
        previous.contains_key(current[index].name),
    ensures
        lists_device(disk_metrics_upto(previous, current, interval_ns, upto), current[index].name),
    decreases upto,
{
    let now = disk_metrics_upto(previous, current, interval_ns, upto);
    if index == upto - 1 {
        assert(now[now.len() - 1].name == current[index].name);
    } else {
        lemma_final_entry_listed(previous, current, interval_ns, (upto - 1) as nat, index);
        let before = disk_metrics_upto(previous, current, interval_ns, (upto - 1) as nat);
        let k = choose|k: int|
            0 <= k < before.len() && (#[trigger] before[k]).name == current[index].name;
        assert(now[k].name == current[index].name);
    }
}

/// A device that both the previous and the current sample hold is in the disk list.
pub proof fn lemma_device_in_both_samples_listed(
    previous: Map<Seq<char>, DiskSnapshot>,
    current: Seq<DiskReadingView>,
    interval_ns: u64,
    name: Seq<char>,
)
    requires
        previous.contains_key(name),
        names_device(current, name),
    ensures
        lists_device(disk_metrics(previous, current, interval_ns), name),
{
    lemma_last_entry_exists(current, name);
    let i = choose|i: int|
        0 <= i < current.len() && (#[trigger] current[i]).name == name && is_final_reading(
            current,
            i,
        );
    lemma_final_entry_listed(previous, current, interval_ns, current.len(), i);
}

/// A device that was in one sample and is absent from the next is not in the disk
/// list of the tick that took the next sample.
pub proof fn lemma_absent_device_not_listed(
    sample: Seq<DiskReadingView>,
    next_sample: Seq<DiskReadingView>,
    interval_ns: u64,
    name: Seq<char>,
)
    requires
        names_device(sample, name),
        !names_device(next_sample, name),
    ensures
        !lists_device(disk_metrics(snapshot_map(sample), next_sample, interval_ns), name),
{
    if lists_device(disk_metrics(snapshot_map(sample), next_sample, interval_ns), name) {
        lemma_listed_device_in_both_samples(snapshot_map(sample), next_sample, interval_ns, name);
    }
}

/// Where the current sample repeats the previous one, every rate in the disk list is
/// zero, whatever the interval.
pub proof fn lemma_repeated_sample_has_no_rate(sample: Seq<DiskReadingView>, interval_ns: u64)
    ensures
        forall|k: int|
            0 <= k < disk_metrics(snapshot_map(sample), sample, interval_ns).len() ==> {
                let entry = #[trigger] disk_metrics(snapshot_map(sample), sample, interval_ns)[k];
                &&& entry.read_bytes_per_sec == 0
                &&& entry.write_bytes_per_sec == 0
                &&& entry.read_ops_per_sec == 0
                &&& entry.write_ops_per_sec == 0
            },
{
    let previous = snapshot_map(sample);
    let metrics = disk_metrics(previous, sample, interval_ns);
    lemma_disk_metrics_origin(previous, sample, interval_ns, sample.len());
    assert forall|k: int| 0 <= k < metrics.len() implies {
        let entry = #[trigger] metrics[k];
        &&& entry.read_bytes_per_sec == 0
        &&& entry.write_bytes_per_sec == 0
        &&& entry.read_ops_per_sec == 0
        &&& entry.write_ops_per_sec == 0
    } by {
        let i = choose|i: int|
            0 <= i < sample.len() && is_final_reading(sample, i) && previous.contains_key(
                sample[i].name,
            ) && #[trigger] metrics[k] == #[trigger] device_rates(
                sample[i].name,
                previous[sample[i].name],
                sample[i].counters,
                interval_ns,
            );
        lemma_snapshot_map_holds(sample, sample[i].name);
        assert(previous[sample[i].name] == sample[i].counters);
    }
}

} // verus!
