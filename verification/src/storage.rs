//! Storage topology builder.
//!
//! For each declared disk image path, in order, the launcher canonicalizes
//! the path and constructs a read-write disk-image attachment. Both steps
//! touch the file system, so they are performed by the surrounding binary;
//! this module owns the decisions: which path is attempted next, what the
//! built device list looks like, and that the first failure stops the build
//! with an error naming the failing path, handing out no partial device list.
//!
//! The surrounding binary drives the builder in a loop: while `next_path`
//! returns a path, it attempts the resolution and attachment and reports the
//! outcome through `record_attached` or `record_failure`; afterwards it takes
//! either the complete device list or the single error.

use vstd::prelude::*;

verus! {

/// One block-storage device descriptor: a read-write disk-image attachment
/// at a canonicalized absolute path.
pub struct StorageDevice {
    /// Canonicalized absolute path of the disk image.
    pub path: String,
    /// Whether the attachment is read-only; the launcher always attaches
    /// disks read-write.
    pub read_only: bool,
}

/// The error a failed storage build carries: the position and declared path
/// of the first disk that could not be attached, and the underlying cause
/// as reported by the platform.
pub struct DeviceError {
    /// Position of the failing path in the declared disk list.
    pub index: usize,
    /// The failing path, as declared.
    pub path: String,
    /// The underlying cause, as reported by the platform.
    pub cause: String,
}

/// The storage build in progress: the declared paths, the devices built so
/// far (one per already-attached path, in declared order), and the first
/// failure, if any.
pub struct StorageBuilder {
    /// The declared disk image paths, in order.
    pub paths: Vec<String>,
    /// Devices built so far; `devices[i]` was built for `paths[i]`.
    pub devices: Vec<StorageDevice>,
    /// The first failure; once set, no further path is attempted.
    pub error: Option<DeviceError>,
}

impl StorageBuilder {
    /// The builder's invariant: never more devices than declared paths, and
    /// a recorded failure names exactly the first path that no device was
    /// built for.
    pub open spec fn wf(self) -> bool {
        &&& self.devices@.len() <= self.paths@.len()
        &&& match self.error {
            Option::Some(e) => {
                &&& e.index == self.devices@.len()
                &&& e.index < self.paths@.len()
                &&& e.path == self.paths@[e.index as int]
            },
            Option::None => true,
        }
    }

    /// Whether the build has failed.
    pub open spec fn failed(self) -> bool {
        self.error is Some
    }

    /// Whether every declared path has a built device.
    pub open spec fn complete(self) -> bool {
        !self.failed() && self.devices@.len() == self.paths@.len()
    }

    /// Starts a build for the given declared paths: no device built yet and
    /// no failure recorded.
    pub fn new(paths: Vec<String>) -> (r: StorageBuilder)
        ensures
            r.wf(),
            r.paths == paths,
            r.devices@.len() == 0,
            !r.failed(),
    {
        StorageBuilder { paths, devices: Vec::new(), error: Option::None }
    }

    /// The next declared path to attempt, or `None` when the build is
    /// complete or has failed: after the first failure no further path is
    /// attempted.
    pub fn next_path(&self) -> (r: Option<String>)
        requires
            self.wf(),
        ensures
            match r {
                Option::Some(p) => {
                    &&& !self.failed()
                    &&& self.devices@.len() < self.paths@.len()
                    &&& p == self.paths@[self.devices@.len() as int]
                },
                Option::None => self.failed() || self.devices@.len() == self.paths@.len(),
            },
    {
        if self.error.is_some() {
            Option::None
        } else if self.devices.len() < self.paths.len() {
            Option::Some(self.paths[self.devices.len()].clone())
        } else {
            Option::None
        }
    }

    /// Records that the current path was canonicalized to `resolved` and its
    /// read-write attachment was constructed: exactly one device is appended,
    /// holding the resolved path.
    pub fn record_attached(&mut self, resolved: String)
        requires
            old(self).wf(),
            !old(self).failed(),
            old(self).devices@.len() < old(self).paths@.len(),
        ensures
            final(self).wf(),
            final(self).paths == old(self).paths,
            !final(self).failed(),
            final(self).devices@ == old(self).devices@.push(
                StorageDevice { path: resolved, read_only: false },
            ),
    {
        self.devices.push(StorageDevice { path: resolved, read_only: false });
    }

    /// Records that the current path could not be resolved to an existing,
    /// accessible image or its attachment could not be constructed. The build
    /// fails with an error naming that path and its position; no device is
    /// added and, per `next_path`, no further path is attempted.
    pub fn record_failure(&mut self, cause: String)
        requires
            old(self).wf(),
            !old(self).failed(),
            old(self).devices@.len() < old(self).paths@.len(),
        ensures
            final(self).wf(),
            final(self).failed(),
            final(self).paths == old(self).paths,
            final(self).devices@ == old(self).devices@,
            final(self).error matches Option::Some(e) && {
                &&& e.index == old(self).devices@.len()
                &&& e.path == old(self).paths@[old(self).devices@.len() as int]
                &&& e.cause == cause
            },
    {
        let index = self.devices.len();
        let path = self.paths[index].clone();
        self.error = Option::Some(DeviceError { index, path, cause });
    }

    /// Hands out the built device list. Only a complete build can be taken
    /// apart this way: a build that failed anywhere never yields a partial
    /// device list.
    pub fn into_devices(self) -> (r: Vec<StorageDevice>)
        requires
            self.wf(),
            self.complete(),
        ensures
            r == self.devices,
            r@.len() == self.paths@.len(),
    {
        self.devices
    }

    /// Hands out the recorded failure of a failed build.
    pub fn into_error(self) -> (r: DeviceError)
        requires
            self.wf(),
            self.failed(),
        ensures
            Option::Some(r) == self.error,
            r.index == self.devices@.len(),
            r.index < self.paths@.len(),
            r.path == self.paths@[r.index as int],
    {
        match self.error {
            Option::Some(e) => e,
            Option::None => vstd::pervasive::unreached(),
        }
    }
}

/// A failed storage build names the first unusable path: the error's index
/// equals the number of devices built, every earlier path has its device,
/// and the error's path is the declared path at that index. Together with
/// `into_devices` requiring a complete build, no partial topology ever
/// escapes the builder.
pub proof fn lemma_failure_names_first_unusable_path(b: StorageBuilder)
    requires
        b.wf(),
        b.failed(),
    ensures
        b.error matches Option::Some(e) && {
            &&& e.index == b.devices@.len()
            &&& e.index < b.paths@.len()
            &&& e.path == b.paths@[e.index as int]
        },
{
}

} // verus!
