//! The immutable data model of one poll cycle: sensors, monitors, snapshots.

use vstd::prelude::*;

verus! {

/// One successfully read temperature input at a point in time.
///
/// The temperature is held in integer millidegrees Celsius, the unit the
/// kernel's hwmon interface reports, so every stored value is finite.
#[derive(Debug, Clone, PartialEq)]
pub struct Sensor {
    pub name: String,
    pub millicelsius: i32,
}

/// The mathematical value of a [`Sensor`].
pub struct SensorView {
    pub name: Seq<char>,
    pub millicelsius: int,
}

impl View for Sensor {
    type V = SensorView;

    open spec fn view(&self) -> SensorView {
        SensorView { name: self.name@, millicelsius: self.millicelsius as int }
    }
}

/// One hardware monitoring chip and all of its successfully read
/// temperature inputs at a point in time.
///
/// A monitor may legitimately hold zero sensors: the chip was present but
/// had no readable temperature inputs, or every read failed this cycle.
#[derive(Debug, Clone, PartialEq)]
pub struct Monitor {
    pub name: String,
    pub sensors: Vec<Sensor>,
}

/// The mathematical value of a [`Monitor`].
pub struct MonitorView {
    pub name: Seq<char>,
    pub sensors: Seq<SensorView>,
}

impl View for Monitor {
    type V = MonitorView;

    open spec fn view(&self) -> MonitorView {
        MonitorView {
            name: self.name@,
            sensors: self.sensors@.map_values(|s: Sensor| s@),
        }
    }
}

/// The complete, ordered result of one poll cycle across all chips.
///
/// Monitors appear in platform enumeration order; a snapshot is never
/// mutated after it leaves the producer, ownership passes wholesale to the
/// consumer.
#[derive(Debug, Clone, PartialEq)]
pub struct Snapshot {
    pub monitors: Vec<Monitor>,
}

impl View for Snapshot {
    type V = Seq<MonitorView>;

    open spec fn view(&self) -> Seq<MonitorView> {
        self.monitors@.map_values(|m: Monitor| m@)
    }
}

impl Snapshot {
    /// A snapshot with no monitors: what a cycle yields when enumeration
    /// succeeds but finds no chips.
    pub fn empty() -> (s: Snapshot)
        ensures
            s@ == Seq::<MonitorView>::empty(),
    {
        let s = Snapshot { monitors: Vec::new() };
        proof {
            assert(s@ =~= Seq::<MonitorView>::empty());
        }
        s
    }

    /// How many monitors the snapshot holds.
    pub fn len(&self) -> (n: usize)
        ensures
            n == self@.len(),
    {
        self.monitors.len()
    }
}

} // verus!
