//! The endpoint pair: acquisition, duplication and release of its four
//! resources, verified against the handle-table model.
//!
//! A pair owns four handles: the device endpoint, the channel endpoint, and
//! one completion-notification object for each. Construction acquires them
//! in order and fails as a whole: every failure path releases everything
//! acquired so far before returning, so a failed open or clone leaves the
//! table exactly as open as it found it. Duplication yields a second pair
//! whose device and channel refer to the same kernel objects while all four
//! handle values are its own, so either pair can be closed without touching
//! the other.
//!
//! Which acquisition step fails is decided by the OS; it enters here as a
//! `*Faults` value the unverified binary fills from the real calls' reports,
//! so the unwind logic is verified for every pattern of failure.

use vstd::prelude::*;

use crate::completion::Direction;
use crate::handles::HandleTable;

verus! {

/// A device/channel endpoint pair with its two completion objects, as
/// handles into a [`HandleTable`].
#[derive(Clone, Copy, Debug, PartialEq, Eq, Structural)]
pub struct Pipe2Serial {
    /// The device (serial port) endpoint.
    pub comdev: usize,
    /// The completion-notification object for device operations.
    pub comevent: usize,
    /// The channel (named pipe) endpoint.
    pub pipedev: usize,
    /// The completion-notification object for channel operations.
    pub pipeevent: usize,
}

/// Why setup failed: the step of open, configure or duplicate that the OS
/// rejected. All of these are fatal; the relay never starts on a partial
/// pair.
#[derive(Clone, Copy, Debug, PartialEq, Eq, Structural)]
pub enum SetupError {
    /// The device endpoint could not be opened.
    DeviceOpen,
    /// The device's completion object could not be created.
    DeviceEvent,
    /// The OS rejected the fixed device line parameters.
    DeviceParams,
    /// The OS rejected the device timeout configuration.
    DeviceTimeouts,
    /// The channel endpoint could not be opened (hard failure, or the
    /// connect-retry deadline passed while it stayed busy).
    ChannelOpen,
    /// The channel's completion object could not be created.
    ChannelEvent,
    /// The channel could not be put into byte-stream, blocking-wait mode.
    ChannelMode,
    /// The device handle could not be duplicated.
    DeviceDup,
    /// The channel handle could not be duplicated.
    ChannelDup,
}

/// Which steps of an open the OS rejects.
#[derive(Clone, Copy, Debug, PartialEq, Eq, Structural)]
pub struct OpenFaults {
    pub device_open: bool,
    pub device_event: bool,
    pub device_params: bool,
    pub device_timeouts: bool,
    pub channel_open: bool,
    pub channel_event: bool,
    pub channel_mode: bool,
}

/// Which steps of a duplication the OS rejects.
#[derive(Clone, Copy, Debug, PartialEq, Eq, Structural)]
pub struct CloneFaults {
    pub device_duplicate: bool,
    pub device_event: bool,
    pub channel_duplicate: bool,
    pub channel_event: bool,
}

/// The error an open with these faults must return: the first step that
/// fails, in acquisition order, or nothing when every step succeeds.
pub open spec fn first_open_fault(f: OpenFaults) -> Option<SetupError> {
    if f.device_open {
        Some(SetupError::DeviceOpen)
    } else if f.device_event {
        Some(SetupError::DeviceEvent)
    } else if f.device_params {
        Some(SetupError::DeviceParams)
    } else if f.device_timeouts {
        Some(SetupError::DeviceTimeouts)
    } else if f.channel_open {
        Some(SetupError::ChannelOpen)
    } else if f.channel_event {
        Some(SetupError::ChannelEvent)
    } else if f.channel_mode {
        Some(SetupError::ChannelMode)
    } else {
        None
    }
}

/// The error a duplication with these faults must return, in step order.
pub open spec fn first_clone_fault(f: CloneFaults) -> Option<SetupError> {
    if f.device_duplicate {
        Some(SetupError::DeviceDup)
    } else if f.device_event {
        Some(SetupError::DeviceEvent)
    } else if f.channel_duplicate {
        Some(SetupError::ChannelDup)
    } else if f.channel_event {
        Some(SetupError::ChannelEvent)
    } else {
        None
    }
}

/// The table after a pair releases its four handles.
pub open spec fn released(t: HandleTable, p: Pipe2Serial) -> Seq<Option<u64>> {
    t.handles().update(p.comdev as int, None).update(p.comevent as int, None).update(
        p.pipedev as int,
        None,
    ).update(p.pipeevent as int, None)
}

impl Pipe2Serial {
    /// A valid pair: all four handles open, and all four distinct, so that
    /// each can be closed exactly once without touching the others.
    pub open spec fn wf(self, t: HandleTable) -> bool {
        &&& t.is_open_spec(self.comdev as int)
        &&& t.is_open_spec(self.comevent as int)
        &&& t.is_open_spec(self.pipedev as int)
        &&& t.is_open_spec(self.pipeevent as int)
        &&& self.comdev != self.comevent
        &&& self.comdev != self.pipedev
        &&& self.comdev != self.pipeevent
        &&& self.comevent != self.pipedev
        &&& self.comevent != self.pipeevent
        &&& self.pipedev != self.pipeevent
    }

    /// No handle of `self` is a handle of `other`: closing either pair
    /// cannot touch a slot of the other.
    pub open spec fn disjoint_from(self, other: Pipe2Serial) -> bool {
        &&& self.comdev != other.comdev
        &&& self.comdev != other.comevent
        &&& self.comdev != other.pipedev
        &&& self.comdev != other.pipeevent
        &&& self.comevent != other.comdev
        &&& self.comevent != other.comevent
        &&& self.comevent != other.pipedev
        &&& self.comevent != other.pipeevent
        &&& self.pipedev != other.comdev
        &&& self.pipedev != other.comevent
        &&& self.pipedev != other.pipedev
        &&& self.pipedev != other.pipeevent
        &&& self.pipeevent != other.comdev
        &&& self.pipeevent != other.comevent
        &&& self.pipeevent != other.pipedev
        &&& self.pipeevent != other.pipeevent
    }

    /// Acquires a pair: open the device, create its completion object, apply
    /// the fixed line parameters and the timeout configuration, open the
    /// channel, create its completion object, set its mode — in that order.
    ///
    /// The first rejected step decides the error, and every failure path
    /// releases all resources acquired before it: on failure the table holds
    /// exactly the open handles it held before, nothing leaked and nothing
    /// of the caller's closed. On success the pair owns four fresh, open,
    /// distinct handles and everything older is untouched.
    pub fn open(table: &mut HandleTable, faults: OpenFaults) -> (r: Result<
        Pipe2Serial,
        SetupError,
    >)
        requires
            old(table).wf(),
        ensures
            final(table).wf(),
            final(table).handles().len() >= old(table).handles().len(),
            forall|i: int|
                0 <= i < old(table).handles().len() ==> #[trigger] final(table).handles()[i]
                    == old(table).handles()[i],
            r is Ok <==> first_open_fault(faults) is None,
            r matches Err(e) ==> first_open_fault(faults) == Some(e),
            r is Err ==> forall|i: int|
                old(table).handles().len() <= i < final(table).handles().len()
                    ==> #[trigger] final(table).handles()[i] is None,
            r matches Ok(p) ==> p.wf(*final(table)),
            r matches Ok(p) ==> p.comdev == old(table).handles().len() && p.comevent == old(
                table,
            ).handles().len() + 1 && p.pipedev == old(table).handles().len() + 2 && p.pipeevent
                == old(table).handles().len() + 3,
            r is Ok ==> final(table).handles().len() == old(table).handles().len() + 4,
    {
        if faults.device_open {
            return Err(SetupError::DeviceOpen);
        }
        let comdev = table.create();
        if faults.device_event {
            table.close(comdev);
            return Err(SetupError::DeviceEvent);
        }
        let comevent = table.create();
        if faults.device_params {
            table.close(comdev);
            table.close(comevent);
            return Err(SetupError::DeviceParams);
        }
        if faults.device_timeouts {
            table.close(comdev);
            table.close(comevent);
            return Err(SetupError::DeviceTimeouts);
        }
        if faults.channel_open {
            table.close(comdev);
            table.close(comevent);
            return Err(SetupError::ChannelOpen);
        }
        let pipedev = table.create();
        if faults.channel_event {
            table.close(comdev);
            table.close(comevent);
            table.close(pipedev);
            return Err(SetupError::ChannelEvent);
        }
        let pipeevent = table.create();
        if faults.channel_mode {
            table.close(comdev);
            table.close(comevent);
            table.close(pipedev);
            table.close(pipeevent);
            return Err(SetupError::ChannelMode);
        }
        Ok(Pipe2Serial { comdev, comevent, pipedev, pipeevent })
    }

    /// Duplicates the pair: OS-level duplicates of the device and channel
    /// handles — same underlying kernel objects, independently closable
    /// handles — plus two freshly created completion objects of its own,
    /// since completion objects must never be shared between owners.
    ///
    /// As with `open`, the first rejected step decides the error and every
    /// failure path releases what was acquired before it. The original pair
    /// is untouched in every case.
    pub fn try_clone(&self, table: &mut HandleTable, faults: CloneFaults) -> (r: Result<
        Pipe2Serial,
        SetupError,
    >)
        requires
            old(table).wf(),
            self.wf(*old(table)),
        ensures
            final(table).wf(),
            self.wf(*final(table)),
            final(table).handles().len() >= old(table).handles().len(),
            forall|i: int|
                0 <= i < old(table).handles().len() ==> #[trigger] final(table).handles()[i]
                    == old(table).handles()[i],
            r is Ok <==> first_clone_fault(faults) is None,
            r matches Err(e) ==> first_clone_fault(faults) == Some(e),
            r is Err ==> forall|i: int|
                old(table).handles().len() <= i < final(table).handles().len()
                    ==> #[trigger] final(table).handles()[i] is None,
            r matches Ok(c) ==> c.wf(*final(table)),
            r matches Ok(c) ==> c.disjoint_from(*self),
            r matches Ok(c) ==> c.comdev == old(table).handles().len() && c.comevent == old(
                table,
            ).handles().len() + 1 && c.pipedev == old(table).handles().len() + 2 && c.pipeevent
                == old(table).handles().len() + 3,
            r is Ok ==> final(table).handles().len() == old(table).handles().len() + 4,
            // the duplicates refer to the very objects the original's endpoints refer to
            r matches Ok(c) ==> final(table).object_at(c.comdev as int) == old(table).object_at(
                self.comdev as int,
            ),
            r matches Ok(c) ==> final(table).object_at(c.pipedev as int) == old(table).object_at(
                self.pipedev as int,
            ),
            // the clone's completion objects are its own, shared with no handle that existed before
            r matches Ok(c) ==> forall|i: int|
                old(table).is_open_spec(i) ==> final(table).object_at(c.comevent as int)
                    != #[trigger] old(table).object_at(i),
            r matches Ok(c) ==> forall|i: int|
                old(table).is_open_spec(i) ==> final(table).object_at(c.pipeevent as int)
                    != #[trigger] old(table).object_at(i),
    {
        if faults.device_duplicate {
            return Err(SetupError::DeviceDup);
        }
        let comdev = table.duplicate(self.comdev);
        if faults.device_event {
            table.close(comdev);
            return Err(SetupError::DeviceEvent);
        }
        let comevent = table.create();
        if faults.channel_duplicate {
            table.close(comdev);
            table.close(comevent);
            return Err(SetupError::ChannelDup);
        }
        let pipedev = table.duplicate(self.pipedev);
        if faults.channel_event {
            table.close(comdev);
            table.close(comevent);
            table.close(pipedev);
            return Err(SetupError::ChannelEvent);
        }
        let pipeevent = table.create();
        Ok(Pipe2Serial { comdev, comevent, pipedev, pipeevent })
    }

    /// Selects the endpoint a direction targets together with that
    /// endpoint's *own* completion object — never the other direction's:
    /// sharing a completion object across concurrent operations would be a
    /// data race.
    pub fn select(&self, direction: Direction) -> (r: (usize, usize))
        ensures
            direction == Direction::Device ==> r == (self.comdev, self.comevent),
            direction == Direction::Channel ==> r == (self.pipedev, self.pipeevent),
    {
        match direction {
            Direction::Device => (self.comdev, self.comevent),
            Direction::Channel => (self.pipedev, self.pipeevent),
        }
    }

    /// Releases the pair's four resources, each exactly once. Every other
    /// slot of the table — in particular every handle of a clone — is
    /// untouched.
    pub fn close(self, table: &mut HandleTable)
        requires
            old(table).wf(),
            self.wf(*old(table)),
        ensures
            final(table).wf(),
            final(table).handles() == released(*old(table), self),
            !final(table).is_open_spec(self.comdev as int),
            !final(table).is_open_spec(self.comevent as int),
            !final(table).is_open_spec(self.pipedev as int),
            !final(table).is_open_spec(self.pipeevent as int),
            forall|i: int|
                0 <= i < old(table).handles().len() && i != self.comdev && i != self.comevent && i
                    != self.pipedev && i != self.pipeevent ==> #[trigger] final(table).handles()[i]
                    == old(table).handles()[i],
    {
        table.close(self.comdev);
        table.close(self.comevent);
        table.close(self.pipedev);
        table.close(self.pipeevent);
    }
}

/// Closing one pair leaves a disjoint pair fully usable: after the close,
/// every handle of the other pair is still open and still refers to the same
/// kernel object as before. With `try_clone`'s guarantee that a clone is
/// disjoint from its original, this holds of original and clone in both
/// directions.
pub proof fn lemma_close_leaves_disjoint_pair_open(
    t: HandleTable,
    closed: Pipe2Serial,
    kept: Pipe2Serial,
    after: HandleTable,
)
    requires
        t.wf(),
        closed.wf(t),
        kept.wf(t),
        kept.disjoint_from(closed),
        after.handles() == released(t, closed),
    ensures
        kept.wf(after),
        after.object_at(kept.comdev as int) == t.object_at(kept.comdev as int),
        after.object_at(kept.comevent as int) == t.object_at(kept.comevent as int),
        after.object_at(kept.pipedev as int) == t.object_at(kept.pipedev as int),
        after.object_at(kept.pipeevent as int) == t.object_at(kept.pipeevent as int),
{
}

} // verus!
