//! Flattening a snapshot into the rows a presenter displays.
//!
//! The consumer shows one row per sensor, walking the monitors in snapshot
//! order and each monitor's sensors in their order. A monitor with no
//! sensors carries nothing display-worthy and contributes no row. Rows are
//! keyed by their position in this flattened order — a simplification the
//! presenter accepts, since identity is not stable across cycles.

use vstd::prelude::*;

use crate::snapshot::{MonitorView, SensorView, Snapshot};

verus! {

/// One display row: a sensor's position in the flattened snapshot, its
/// name, and its temperature in millidegrees Celsius.
#[derive(Debug, Clone, PartialEq)]
pub struct DisplayRow {
    pub index: usize,
    pub name: String,
    pub millicelsius: i32,
}

/// The mathematical value of a [`DisplayRow`].
pub struct DisplayRowView {
    pub index: int,
    pub name: Seq<char>,
    pub millicelsius: int,
}

impl View for DisplayRow {
    type V = DisplayRowView;

    open spec fn view(&self) -> DisplayRowView {
        DisplayRowView {
            index: self.index as int,
            name: self.name@,
            millicelsius: self.millicelsius as int,
        }
    }
}

/// All sensors of a snapshot in display order: monitors first to last,
/// each monitor's sensors in their own order.
pub open spec fn flat_sensors(monitors: Seq<MonitorView>) -> Seq<SensorView>
    decreases monitors.len(),
{
    if monitors.len() == 0 {
        Seq::empty()
    } else {
        flat_sensors(monitors.drop_last()) + monitors.last().sensors
    }
}

/// The rows a flattened sequence of sensors yields: the sensor at position
/// `k` becomes the row with index `k`.
pub open spec fn rows_for(flat: Seq<SensorView>) -> Seq<DisplayRowView> {
    Seq::new(
        flat.len(),
        |k: int|
            DisplayRowView {
                index: k,
                name: flat[k].name,
                millicelsius: flat[k].millicelsius,
            },
    )
}

/// The display rows of a whole snapshot.
pub open spec fn rows_of(monitors: Seq<MonitorView>) -> Seq<DisplayRowView> {
    rows_for(flat_sensors(monitors))
}

/// Builds the display rows for one snapshot: one row per sensor, in
/// flattened order, indexed by position. Monitors without sensors
/// contribute nothing.
pub fn display_rows(snapshot: &Snapshot) -> (rows: Vec<DisplayRow>)
    ensures
        rows@.map_values(|r: DisplayRow| r@) == rows_of(snapshot@),
{
    let mut rows: Vec<DisplayRow> = Vec::new();
    let n = snapshot.monitors.len();
    let mut i: usize = 0;
    while i < n
        invariant
            i <= n,
            n == snapshot.monitors.len(),
            rows@.map_values(|r: DisplayRow| r@) =~= rows_for(
                flat_sensors(snapshot@.take(i as int)),
            ),
            rows@.len() == flat_sensors(snapshot@.take(i as int)).len(),
        decreases n - i,
    {
        let monitor = &snapshot.monitors[i];
        let m = monitor.sensors.len();
        let ghost before = flat_sensors(snapshot@.take(i as int));
        let mut j: usize = 0;
        while j < m
            invariant
                j <= m,
                i < n,
                n == snapshot.monitors.len(),
                m == snapshot.monitors@[i as int].sensors.len(),
                monitor == snapshot.monitors@[i as int],
                before == flat_sensors(snapshot@.take(i as int)),
                rows@.map_values(|r: DisplayRow| r@) =~= rows_for(
                    before + snapshot@[i as int].sensors.take(j as int),
                ),
                rows@.len() == before.len() + j,
            decreases m - j,
        {
            let sensor = &monitor.sensors[j];
            let index = rows.len();
            rows.push(
                DisplayRow { index, name: sensor.name.clone(), millicelsius: sensor.millicelsius },
            );
            proof {
                let flat = before + snapshot@[i as int].sensors.take(j as int);
                let next = before + snapshot@[i as int].sensors.take(j + 1 as int);
                assert(snapshot@[i as int].sensors[j as int] == sensor@);
                assert(next =~= flat.push(sensor@));
                assert(rows_for(flat.push(sensor@)) =~= rows_for(flat).push(
                    DisplayRowView {
                        index: flat.len() as int,
                        name: sensor@.name,
                        millicelsius: sensor@.millicelsius,
                    },
                ));
                assert(rows@.map_values(|r: DisplayRow| r@) =~= rows_for(next));
            }
            j = j + 1;
        }
        proof {
            assert(snapshot@.take(i + 1 as int).drop_last() =~= snapshot@.take(i as int));
            assert(snapshot@.take(i + 1 as int).last() == snapshot@[i as int]);
            assert(snapshot@[i as int].sensors.take(m as int) =~= snapshot@[i as int].sensors);
            assert(flat_sensors(snapshot@.take(i + 1 as int)) =~= before + snapshot@[i as
                int].sensors);
        }
        i = i + 1;
    }
    proof {
        assert(snapshot@.take(n as int) =~= snapshot@);
    }
    rows
}

} // verus!
