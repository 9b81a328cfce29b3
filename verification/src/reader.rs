//! Turning one probe of the hardware monitoring chips into a snapshot.
//!
//! A probe records, for every chip, the chip's name and the outcome of the
//! read attempt on each of its temperature inputs. Building a snapshot from
//! a probe is pure and fully verified: a failed read omits that one sensor
//! and nothing else, order is kept, and enumeration failure yields an error
//! and no partial snapshot.

use vstd::prelude::*;

use crate::snapshot::{Monitor, MonitorView, Sensor, SensorView, Snapshot};

use libmedium::sensors::sync_sensors::temp::TempSensor;
use libmedium::sensors::sync_sensors::SyncSensor;

verus! {

/// The outcome of one read attempt on one temperature input:
/// its name, and the value in millidegrees Celsius if the read succeeded.
#[derive(Debug, Clone, PartialEq)]
pub struct Reading {
    pub name: String,
    pub millicelsius: Option<i32>,
}

/// The mathematical value of a [`Reading`].
pub struct ReadingView {
    pub name: Seq<char>,
    pub millicelsius: Option<int>,
}

impl View for Reading {
    type V = ReadingView;

    open spec fn view(&self) -> ReadingView {
        ReadingView {
            name: self.name@,
            millicelsius: match self.millicelsius {
                Some(mc) => Some(mc as int),
                None => None,
            },
        }
    }
}

/// Everything one probe learned about one chip: its display name and the
/// outcome of every temperature input read, in the chip's own order.
#[derive(Debug, Clone, PartialEq)]
pub struct ChipProbe {
    pub name: String,
    pub readings: Vec<Reading>,
}

/// The mathematical value of a [`ChipProbe`].
pub struct ChipProbeView {
    pub name: Seq<char>,
    pub readings: Seq<ReadingView>,
}

impl View for ChipProbe {
    type V = ChipProbeView;

    open spec fn view(&self) -> ChipProbeView {
        ChipProbeView {
            name: self.name@,
            readings: self.readings@.map_values(|r: Reading| r@),
        }
    }
}

/// Enumerating the monitoring chips failed altogether this cycle.
#[derive(Debug, Clone, PartialEq)]
pub struct EnumerationError {
    pub detail: String,
}

/// The sensors a monitor gets from a sequence of read outcomes: the
/// successful readings, in order; a failed reading is omitted and
/// contributes nothing else.
pub open spec fn sensors_of(readings: Seq<ReadingView>) -> Seq<SensorView>
    decreases readings.len(),
{
    if readings.len() == 0 {
        Seq::empty()
    } else {
        let rest = sensors_of(readings.drop_last());
        match readings.last().millicelsius {
            Some(mc) => rest.push(
                SensorView { name: readings.last().name, millicelsius: mc },
            ),
            None => rest,
        }
    }
}

/// The monitor one probed chip yields.
pub open spec fn monitor_of(chip: ChipProbeView) -> MonitorView {
    MonitorView { name: chip.name, sensors: sensors_of(chip.readings) }
}

/// The snapshot one probe yields: one monitor per chip, in probe order.
pub open spec fn snapshot_of(chips: Seq<ChipProbeView>) -> Seq<MonitorView> {
    chips.map_values(|c: ChipProbeView| monitor_of(c))
}

/// The mathematical value of a sequence of probed chips.
pub open spec fn probes_view(chips: Seq<ChipProbe>) -> Seq<ChipProbeView> {
    chips.map_values(|c: ChipProbe| c@)
}

/// How many of the read outcomes failed.
pub open spec fn failed_count(readings: Seq<ReadingView>) -> nat
    decreases readings.len(),
{
    if readings.len() == 0 {
        0
    } else {
        failed_count(readings.drop_last()) + if readings.last().millicelsius is None {
            1nat
        } else {
            0nat
        }
    }
}

/// Partial failure is partial: of `n` temperature inputs of which `k` fail
/// to read, exactly `n - k` sensors remain in the monitor, and (by the very
/// shape of `sensors_of`) the surviving ones keep their relative order.
pub proof fn lemma_partial_failure(readings: Seq<ReadingView>)
    ensures
        failed_count(readings) <= readings.len(),
        sensors_of(readings).len() == readings.len() - failed_count(readings),
    decreases readings.len(),
{
    if readings.len() > 0 {
        lemma_partial_failure(readings.drop_last());
    }
}

/// No value is ever invented: every sensor a monitor ends up with carries
/// the name and the millidegree reading of some input whose read
/// succeeded. A failed read contributes nothing — downstream it is
/// indistinguishable from an input that was never there — and since every
/// successful reading is an integer count of millidegrees, every sensor's
/// temperature is a finite value.
pub proof fn lemma_sensors_from_successful_reads(readings: Seq<ReadingView>)
    ensures
        forall|k: int| #![trigger sensors_of(readings)[k]]
            0 <= k < sensors_of(readings).len() ==> exists|j: int|
                #![trigger readings[j]]
                0 <= j < readings.len() && readings[j].name == sensors_of(readings)[k].name
                    && readings[j].millicelsius == Some(sensors_of(readings)[k].millicelsius),
    decreases readings.len(),
{
    if readings.len() > 0 {
        lemma_sensors_from_successful_reads(readings.drop_last());
        let rest = sensors_of(readings.drop_last());
        assert forall|k: int| #![trigger sensors_of(readings)[k]]
            0 <= k < sensors_of(readings).len() implies exists|j: int|
            #![trigger readings[j]]
            0 <= j < readings.len() && readings[j].name == sensors_of(readings)[k].name
                && readings[j].millicelsius == Some(sensors_of(readings)[k].millicelsius) by {
            if k < rest.len() {
                let j = choose|j: int|
                    #![trigger readings.drop_last()[j]]
                    0 <= j < readings.drop_last().len() && readings.drop_last()[j].name
                        == rest[k].name && readings.drop_last()[j].millicelsius == Some(
                        rest[k].millicelsius,
                    );
                assert(readings[j].name == sensors_of(readings)[k].name && readings[j].millicelsius
                    == Some(sensors_of(readings)[k].millicelsius));
            } else {
                let j = readings.len() - 1;
                assert(readings[j].name == sensors_of(readings)[k].name && readings[j].millicelsius
                    == Some(sensors_of(readings)[k].millicelsius));
            }
        }
    }
}

/// Builds the monitor for one probed chip, omitting every failed reading.
pub fn build_monitor(chip: &ChipProbe) -> (m: Monitor)
    ensures
        m@ == monitor_of(chip@),
{
    let mut sensors: Vec<Sensor> = Vec::new();
    let n = chip.readings.len();
    let mut i: usize = 0;
    while i < n
        invariant
            i <= n,
            n == chip.readings.len(),
            sensors@.map_values(|s: Sensor| s@) =~= sensors_of(
                chip@.readings.take(i as int),
            ),
        decreases n - i,
    {
        let ghost prefix = chip@.readings.take(i as int);
        let ghost next = chip@.readings.take(i + 1 as int);
        proof {
            assert(next.drop_last() =~= prefix);
            assert(next.last() == chip@.readings[i as int]);
        }
        let r = &chip.readings[i];
        match r.millicelsius {
            Some(mc) => {
                sensors.push(Sensor { name: r.name.clone(), millicelsius: mc });
            },
            None => {},
        }
        proof {
            assert(sensors@.map_values(|s: Sensor| s@) =~= sensors_of(next));
        }
        i = i + 1;
    }
    proof {
        assert(chip@.readings.take(n as int) =~= chip@.readings);
    }
    Monitor { name: chip.name.clone(), sensors }
}

/// Builds the snapshot for one probe: one monitor per chip, in order.
pub fn build_snapshot(chips: &Vec<ChipProbe>) -> (s: Snapshot)
    ensures
        s@ == snapshot_of(probes_view(chips@)),
{
    let mut monitors: Vec<Monitor> = Vec::new();
    let n = chips.len();
    let mut i: usize = 0;
    while i < n
        invariant
            i <= n,
            n == chips.len(),
            monitors@.map_values(|m: Monitor| m@) =~= snapshot_of(
                probes_view(chips@).take(i as int),
            ),
        decreases n - i,
    {
        let m = build_monitor(&chips[i]);
        monitors.push(m);
        proof {
            let mapped = probes_view(chips@);
            assert(mapped.take(i + 1 as int) =~= mapped.take(i as int).push(chips@[i as int]@));
            assert(snapshot_of(mapped.take(i as int).push(chips@[i as int]@)) =~= snapshot_of(
                mapped.take(i as int),
            ).push(monitor_of(chips@[i as int]@)));
            assert(monitors@.map_values(|m: Monitor| m@) =~= snapshot_of(
                mapped.take(i as int),
            ).push(m@));
            assert(monitors@.map_values(|m: Monitor| m@) =~= snapshot_of(
                mapped.take(i + 1 as int),
            ));
        }
        i = i + 1;
    }
    proof {
        assert(probes_view(chips@).take(n as int) =~= probes_view(chips@));
    }
    Snapshot { monitors }
}

/// Probes the hardware monitoring chips once.
///
/// Relies on libmedium: `parse_hwmons` enumerates the hwmon chips under
/// sysfs in index order; iterating a chip's `temps` visits its temperature
/// inputs in channel order; `SyncSensor::name` yields the input's label;
/// `TempSensor::read_input` reads one input and reports it in millidegrees
/// Celsius. What comes back depends on the machine's hardware at the moment
/// of the call, so nothing is promised of the result; the verified
/// [`build_snapshot`] takes it from here.
#[verifier::external_body]
pub(crate) fn probe_chips() -> (r: Result<Vec<ChipProbe>, EnumerationError>) {
    match libmedium::parse_hwmons() {
        Ok(hwmons) => Ok(
            (&hwmons).into_iter().map(|chip| ChipProbe {
                name: chip.name().to_string(),
                readings: chip.temps().iter().map(|(_, input)| Reading {
                    name: input.name(),
                    millicelsius: input.read_input().ok().map(|t| t.as_millidegrees_celsius()),
                }).collect(),
            }).collect(),
        ),
        Err(e) => Err(EnumerationError { detail: format!("{}", e) }),
    }
}

/// One full read of the sensor subsystem: enumerate the chips, read every
/// temperature input, and build the snapshot.
///
/// All-or-nothing at the top level: if enumeration fails, the error comes
/// back and no partial snapshot exists. Per sensor, failure is partial: a
/// failed read only omits that sensor. Whatever the probe returned, any
/// snapshot produced is the faithful image of some probe outcome under
/// [`snapshot_of`].
pub fn read_snapshot() -> (r: Result<Snapshot, EnumerationError>)
    ensures
        r matches Ok(s) ==> exists|chips: Seq<ChipProbeView>| s@ == snapshot_of(chips),
{
    match probe_chips() {
        Ok(chips) => {
            let s = build_snapshot(&chips);
            proof {
                let witness = probes_view(chips@);
                assert(s@ == snapshot_of(witness));
            }
            Ok(s)
        },
        Err(e) => Err(e),
    }
}

} // verus!

