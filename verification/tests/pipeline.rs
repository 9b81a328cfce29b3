use swelter::channel::{ChannelClosedError, SnapshotChannel};
use swelter::poller::{poll_step, PollerStatus};
use swelter::reader::{build_monitor, build_snapshot, read_snapshot, ChipProbe, EnumerationError, Reading};
use swelter::rows::display_rows;
use swelter::snapshot::{Sensor, Snapshot};

fn reading(name: &str, millicelsius: Option<i32>) -> Reading {
    Reading { name: name.to_string(), millicelsius }
}

fn chip(name: &str, readings: Vec<Reading>) -> ChipProbe {
    ChipProbe { name: name.to_string(), readings }
}

#[test]
fn coretemp_scenario_omits_the_failed_read() {
    let probe = chip(
        "coretemp",
        vec![
            reading("Core 0", Some(45_000)),
            reading("Core 1", None),
            reading("Core 2", Some(52_500)),
        ],
    );
    let monitor = build_monitor(&probe);
    assert_eq!(monitor.name, "coretemp");
    assert_eq!(
        monitor.sensors,
        vec![
            Sensor { name: "Core 0".to_string(), millicelsius: 45_000 },
            Sensor { name: "Core 2".to_string(), millicelsius: 52_500 },
        ]
    );
}

#[test]
fn zero_chips_yield_an_empty_snapshot_not_an_error() {
    let snapshot = build_snapshot(&vec![]);
    assert_eq!(snapshot, Snapshot { monitors: vec![] });
    assert_eq!(Snapshot::empty(), snapshot);
    assert_eq!(snapshot.len(), 0);
}

#[test]
fn failed_reads_leave_exactly_the_others_in_order() {
    let probe = chip(
        "nvme",
        vec![
            reading("Composite", Some(31_850)),
            reading("Sensor 1", None),
            reading("Sensor 2", Some(29_000)),
            reading("Sensor 3", None),
            reading("Sensor 4", Some(-5_000)),
        ],
    );
    let monitor = build_monitor(&probe);
    assert_eq!(monitor.sensors.len(), 3);
    let names: Vec<&str> = monitor.sensors.iter().map(|s| s.name.as_str()).collect();
    assert_eq!(names, vec!["Composite", "Sensor 2", "Sensor 4"]);
    assert_eq!(monitor.sensors[2].millicelsius, -5_000);
}

#[test]
fn a_chip_whose_reads_all_fail_keeps_an_empty_monitor() {
    let probe = chip("acpitz", vec![reading("temp1", None), reading("temp2", None)]);
    let snapshot = build_snapshot(&vec![probe]);
    assert_eq!(snapshot.monitors.len(), 1);
    assert_eq!(snapshot.monitors[0].name, "acpitz");
    assert!(snapshot.monitors[0].sensors.is_empty());
}

#[test]
fn send_to_a_closed_channel_fails_and_changes_nothing() {
    let mut channel = SnapshotChannel::new();
    channel.close();
    assert!(!channel.is_connected());
    let result = channel.send(Snapshot::empty());
    assert_eq!(result, Err(ChannelClosedError));
    assert_eq!(channel.len(), 0);
    assert_eq!(channel.recv(), None);
}

#[test]
fn the_poller_stops_when_the_consumer_is_gone() {
    let mut channel = SnapshotChannel::new();
    channel.close();
    let probe = vec![chip("coretemp", vec![reading("Core 0", Some(40_000))])];
    let status = poll_step(&mut channel, Ok(probe));
    assert_eq!(status, PollerStatus::Stopped);
    assert_eq!(channel.len(), 0);
}

#[test]
fn a_failed_enumeration_skips_the_cycle_and_delivers_nothing() {
    let mut channel = SnapshotChannel::new();
    let error = EnumerationError { detail: "sysfs unavailable".to_string() };
    let status = poll_step(&mut channel, Err(error));
    assert_eq!(status, PollerStatus::Continue);
    assert!(channel.is_connected());
    assert_eq!(channel.len(), 0);
    assert_eq!(channel.recv(), None);
}

#[test]
fn a_successful_cycle_delivers_the_built_snapshot() {
    let mut channel = SnapshotChannel::new();
    let probe = vec![chip(
        "coretemp",
        vec![reading("Core 0", Some(45_000)), reading("Core 1", None)],
    )];
    let status = poll_step(&mut channel, Ok(probe));
    assert_eq!(status, PollerStatus::Continue);
    assert_eq!(channel.len(), 1);
    let delivered = channel.recv().expect("a snapshot was sent");
    assert_eq!(delivered.monitors.len(), 1);
    assert_eq!(delivered.monitors[0].name, "coretemp");
    assert_eq!(
        delivered.monitors[0].sensors,
        vec![Sensor { name: "Core 0".to_string(), millicelsius: 45_000 }]
    );
}

#[test]
fn snapshots_arrive_in_the_order_they_were_sent() {
    let mut channel = SnapshotChannel::new();
    let mut sent_names = Vec::new();
    for cycle in 0..3 {
        let name = format!("chip{}", cycle);
        let probe = vec![chip(&name, vec![reading("temp1", Some(20_000 + cycle))])];
        sent_names.push(name);
        let status = poll_step(&mut channel, Ok(probe));
        assert_eq!(status, PollerStatus::Continue);
    }
    assert_eq!(channel.len(), 3);
    for name in &sent_names {
        let received = channel.recv().expect("queued snapshot");
        assert_eq!(&received.monitors[0].name, name);
    }
    assert_eq!(channel.recv(), None);
}

#[test]
fn receiving_from_an_empty_channel_returns_none() {
    let mut channel = SnapshotChannel::new();
    assert_eq!(channel.recv(), None);
    assert!(channel.is_connected());
}

#[test]
fn unchanged_hardware_gives_equal_but_distinct_snapshots() {
    let probe = || {
        vec![chip(
            "coretemp",
            vec![reading("Core 0", Some(45_000)), reading("Core 1", Some(47_500))],
        )]
    };
    let first = build_snapshot(&probe());
    let mut second = build_snapshot(&probe());
    assert_eq!(first, second);
    second.monitors.clear();
    assert_eq!(first.monitors.len(), 1);
}

#[test]
fn display_rows_flatten_and_skip_empty_monitors() {
    let snapshot = build_snapshot(&vec![
        chip("coretemp", vec![reading("Core 0", Some(45_000)), reading("Core 1", Some(46_000))]),
        chip("acpitz", vec![reading("temp1", None)]),
        chip("nvme", vec![reading("Composite", Some(31_850))]),
    ]);
    let rows = display_rows(&snapshot);
    assert_eq!(rows.len(), 3);
    let listed: Vec<(usize, &str, i32)> =
        rows.iter().map(|r| (r.index, r.name.as_str(), r.millicelsius)).collect();
    assert_eq!(
        listed,
        vec![(0, "Core 0", 45_000), (1, "Core 1", 46_000), (2, "Composite", 31_850)]
    );
}

#[test]
fn an_empty_snapshot_has_no_display_rows() {
    let rows = display_rows(&Snapshot::empty());
    assert!(rows.is_empty());
}

#[test]
fn probing_this_machine_returns_a_snapshot_or_an_error() {
    match read_snapshot() {
        Ok(snapshot) => {
            let rows = display_rows(&snapshot);
            let total: usize = snapshot.monitors.iter().map(|m| m.sensors.len()).sum();
            assert_eq!(rows.len(), total);
        }
        Err(error) => {
            let _ = error.detail;
        }
    }
}

#[test]
fn extreme_millidegree_values_pass_through_unchanged() {
    let probe = chip(
        "edge",
        vec![reading("hottest", Some(i32::MAX)), reading("coldest", Some(i32::MIN))],
    );
    let monitor = build_monitor(&probe);
    assert_eq!(monitor.sensors.len(), 2);
    assert_eq!(monitor.sensors[0].millicelsius, i32::MAX);
    assert_eq!(monitor.sensors[1].millicelsius, i32::MIN);
}
