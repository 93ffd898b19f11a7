use pipe2serial::completion::Direction;
use pipe2serial::handles::HandleTable;
use pipe2serial::pair::{CloneFaults, OpenFaults, Pipe2Serial, SetupError};

fn no_open_faults() -> OpenFaults {
    OpenFaults {
        device_open: false,
        device_event: false,
        device_params: false,
        device_timeouts: false,
        channel_open: false,
        channel_event: false,
        channel_mode: false,
    }
}

fn no_clone_faults() -> CloneFaults {
    CloneFaults {
        device_duplicate: false,
        device_event: false,
        channel_duplicate: false,
        channel_event: false,
    }
}

fn open_fails_cleanly(faults: OpenFaults, expected: SetupError) {
    let mut table = HandleTable::new();
    let r = Pipe2Serial::open(&mut table, faults);
    assert_eq!(r, Err(expected));
    assert_eq!(table.open_count(), 0, "a failed open must release everything it acquired");
}

#[test]
fn open_without_faults_yields_four_open_handles() {
    let mut table = HandleTable::new();
    let p = Pipe2Serial::open(&mut table, no_open_faults()).unwrap();
    assert_eq!(table.open_count(), 4);
    assert!(table.is_open(p.comdev));
    assert!(table.is_open(p.comevent));
    assert!(table.is_open(p.pipedev));
    assert!(table.is_open(p.pipeevent));
}

#[test]
fn each_open_fault_unwinds_without_leaks() {
    open_fails_cleanly(OpenFaults { device_open: true, ..no_open_faults() }, SetupError::DeviceOpen);
    open_fails_cleanly(
        OpenFaults { device_event: true, ..no_open_faults() },
        SetupError::DeviceEvent,
    );
    open_fails_cleanly(
        OpenFaults { device_params: true, ..no_open_faults() },
        SetupError::DeviceParams,
    );
    open_fails_cleanly(
        OpenFaults { device_timeouts: true, ..no_open_faults() },
        SetupError::DeviceTimeouts,
    );
    open_fails_cleanly(
        OpenFaults { channel_open: true, ..no_open_faults() },
        SetupError::ChannelOpen,
    );
    open_fails_cleanly(
        OpenFaults { channel_event: true, ..no_open_faults() },
        SetupError::ChannelEvent,
    );
    open_fails_cleanly(
        OpenFaults { channel_mode: true, ..no_open_faults() },
        SetupError::ChannelMode,
    );
}

#[test]
fn earlier_open_fault_wins() {
    // With several steps failing, the error is the first in acquisition order.
    open_fails_cleanly(
        OpenFaults { device_params: true, channel_mode: true, ..no_open_faults() },
        SetupError::DeviceParams,
    );
}

#[test]
fn clone_shares_endpoints_but_owns_its_completion_objects() {
    let mut table = HandleTable::new();
    let p = Pipe2Serial::open(&mut table, no_open_faults()).unwrap();
    let c = p.try_clone(&mut table, no_clone_faults()).unwrap();
    assert_eq!(table.open_count(), 8);
    // Same underlying kernel objects behind distinct handle values...
    assert_ne!(c.comdev, p.comdev);
    assert_ne!(c.pipedev, p.pipedev);
    assert_eq!(table.object_of(c.comdev), table.object_of(p.comdev));
    assert_eq!(table.object_of(c.pipedev), table.object_of(p.pipedev));
    // ...and completion objects of its own.
    assert_ne!(table.object_of(c.comevent), table.object_of(p.comevent));
    assert_ne!(table.object_of(c.pipeevent), table.object_of(p.pipeevent));
}

#[test]
fn closing_the_original_leaves_the_clone_usable() {
    let mut table = HandleTable::new();
    let p = Pipe2Serial::open(&mut table, no_open_faults()).unwrap();
    let c = p.try_clone(&mut table, no_clone_faults()).unwrap();
    let device_object = table.object_of(c.comdev);
    p.close(&mut table);
    assert!(table.is_open(c.comdev));
    assert!(table.is_open(c.comevent));
    assert!(table.is_open(c.pipedev));
    assert!(table.is_open(c.pipeevent));
    assert_eq!(table.object_of(c.comdev), device_object);
    assert_eq!(table.open_count(), 4);
}

#[test]
fn closing_the_clone_leaves_the_original_usable() {
    let mut table = HandleTable::new();
    let p = Pipe2Serial::open(&mut table, no_open_faults()).unwrap();
    let c = p.try_clone(&mut table, no_clone_faults()).unwrap();
    c.close(&mut table);
    assert!(table.is_open(p.comdev));
    assert!(table.is_open(p.comevent));
    assert!(table.is_open(p.pipedev));
    assert!(table.is_open(p.pipeevent));
    assert_eq!(table.open_count(), 4);
}

#[test]
fn duplicated_handles_close_independently() {
    let mut table = HandleTable::new();
    let h = table.create();
    let h2 = table.duplicate(h);
    let object = table.object_of(h);
    table.close(h);
    assert!(!table.is_open(h));
    assert!(table.is_open(h2));
    assert_eq!(table.object_of(h2), object);
}

#[test]
fn each_clone_fault_unwinds_without_leaks() {
    let cases = [
        (CloneFaults { device_duplicate: true, ..no_clone_faults() }, SetupError::DeviceDup),
        (CloneFaults { device_event: true, ..no_clone_faults() }, SetupError::DeviceEvent),
        (CloneFaults { channel_duplicate: true, ..no_clone_faults() }, SetupError::ChannelDup),
        (CloneFaults { channel_event: true, ..no_clone_faults() }, SetupError::ChannelEvent),
    ];
    for (faults, expected) in cases {
        let mut table = HandleTable::new();
        let p = Pipe2Serial::open(&mut table, no_open_faults()).unwrap();
        let r = p.try_clone(&mut table, faults);
        assert_eq!(r, Err(expected));
        assert_eq!(table.open_count(), 4, "a failed clone must release everything it acquired");
        assert!(table.is_open(p.comdev));
        assert!(table.is_open(p.pipedev));
    }
}

#[test]
fn select_pairs_each_direction_with_its_own_completion_object() {
    let mut table = HandleTable::new();
    let p = Pipe2Serial::open(&mut table, no_open_faults()).unwrap();
    assert_eq!(p.select(Direction::Device), (p.comdev, p.comevent));
    assert_eq!(p.select(Direction::Channel), (p.pipedev, p.pipeevent));
}
