//! The serial device handle, its split receive/send views, and the shared
//! release bookkeeping that closes the descriptor exactly once.
//!
//! The adapter's five primitives (open, read, write, flush, close) are OS
//! syscalls performed by the process around the library; each returns a
//! status code where zero means success. The functions here take such a
//! status — together with the OS's reading of it — and decide what it
//! means for the session.

use vstd::prelude::*;
use crate::error::{classify_failure, Error};

verus! {

/// Turns an adapter status code into a result: status zero is success,
/// any other status is the classified failure. `timeout_like` says whether
/// the OS reports the status as a timeout or would-block condition, and
/// `cause` is the OS's description of it.
pub fn check(status: i32, timeout_like: bool, cause: String) -> (r: Result<(), Error>)
    ensures
        r is Ok <==> status == 0,
        status != 0 ==> (r matches Err(e) && e.kind == classify_failure(timeout_like)
            && e.cause@ == cause@),
{
    if status == 0 {
        Ok(())
    } else {
        Err(Error::from_failure(timeout_like, cause))
    }
}

/// Whether a device path can be handed to the adapter, which takes a
/// NUL-terminated string: no character of the path may be NUL.
pub open spec fn path_encodable(s: Seq<char>) -> bool {
    forall|i: int| 0 <= i < s.len() ==> #[trigger] s[i] != '\0'
}

/// Rejects a device path that the adapter's string form cannot carry.
/// Such a path is an `InvalidValue` error, found before the adapter's
/// open is ever called.
pub fn validate_path(path: &str) -> (r: Result<(), Error>)
    ensures
        r is Ok <==> path_encodable(path@),
        r matches Err(e) ==> e.kind is InvalidValue,
{
    let n = path.unicode_len();
    let mut i: usize = 0;
    while i < n
        invariant
            i <= n,
            n == path@.len(),
            forall|j: int| 0 <= j < i ==> #[trigger] path@[j] != '\0',
        decreases n - i,
    {
        if path.get_char(i) == '\0' {
            return Err(Error::invalid_value("Invalid device path".to_owned()));
        }
        i = i + 1;
    }
    Ok(())
}

/// A serial device handle: the opaque descriptor the adapter returned.
/// Exclusively owned at creation; `rx_tx` turns it into two views that
/// share the descriptor.
#[derive(Debug)]
pub struct SerialDevice {
    /// The raw device descriptor.
    pub device: i32,
}

/// The receiving half of a split serial device.
#[derive(Debug)]
pub struct SerialRx {
    /// The shared device descriptor.
    pub device: i32,
}

/// The sending half of a split serial device.
#[derive(Debug)]
pub struct SerialTx {
    /// The shared device descriptor.
    pub device: i32,
}

impl SerialDevice {
    /// The outcome of the adapter's open: on status zero, a handle owning
    /// the descriptor the adapter filled in; on any other status, the
    /// classified failure.
    pub fn open_outcome(status: i32, device: i32, timeout_like: bool, cause: String) -> (r:
        Result<SerialDevice, Error>)
        ensures
            r is Ok <==> status == 0,
            r matches Ok(d) ==> d.device == device,
            status != 0 ==> (r matches Err(e) && e.kind == classify_failure(timeout_like)
                && e.cause@ == cause@),
    {
        match check(status, timeout_like, cause) {
            Ok(()) => Ok(SerialDevice { device }),
            Err(e) => Err(e),
        }
    }

    /// Splits the handle into its receive and send halves. The handle is
    /// consumed; the two views share its descriptor and may be moved to
    /// independent threads.
    pub fn rx_tx(self) -> (r: (SerialRx, SerialTx))
        ensures
            r.0.device == self.device,
            r.1.device == self.device,
    {
        (SerialRx { device: self.device }, SerialTx { device: self.device })
    }
}

impl SerialRx {
    /// The outcome of one adapter read on this half: status zero gives the
    /// count of bytes the adapter delivered — zero bytes only at the
    /// device's end of stream — and any other status the classified
    /// failure.
    pub fn read_outcome(&self, status: i32, bytes_read: usize, timeout_like: bool, cause:
        String) -> (r: Result<usize, Error>)
        ensures
            r is Ok <==> status == 0,
            r matches Ok(n) ==> n == bytes_read,
            status != 0 ==> (r matches Err(e) && e.kind == classify_failure(timeout_like)
                && e.cause@ == cause@),
    {
        match check(status, timeout_like, cause) {
            Ok(()) => Ok(bytes_read),
            Err(e) => Err(e),
        }
    }
}

impl SerialTx {
    /// The outcome of one adapter write on this half: status zero gives
    /// the count of bytes the adapter accepted — possibly fewer than were
    /// handed over — and any other status the classified failure.
    pub fn write_outcome(&self, status: i32, bytes_written: usize, timeout_like: bool, cause:
        String) -> (r: Result<usize, Error>)
        ensures
            r is Ok <==> status == 0,
            r matches Ok(n) ==> n == bytes_written,
            status != 0 ==> (r matches Err(e) && e.kind == classify_failure(timeout_like)
                && e.cause@ == cause@),
    {
        match check(status, timeout_like, cause) {
            Ok(()) => Ok(bytes_written),
            Err(e) => Err(e),
        }
    }

    /// The outcome of an adapter flush on this half.
    pub fn flush_outcome(&self, status: i32, timeout_like: bool, cause: String) -> (r: Result<
        (), Error>)
        ensures
            r is Ok <==> status == 0,
            status != 0 ==> (r matches Err(e) && e.kind == classify_failure(timeout_like)
                && e.cause@ == cause@),
    {
        check(status, timeout_like, cause)
    }
}

/// The shared-ownership bookkeeping behind a split device: how many views
/// are still alive and whether the descriptor has been closed. The process
/// around the library keeps one such record per split device and calls
/// `release` whenever a view is dropped; it closes the descriptor exactly
/// when `release` says so.
#[derive(Debug)]
pub struct DeviceShare {
    /// The shared device descriptor.
    pub device: i32,
    /// How many views are still alive.
    pub live_views: u8,
    /// Whether the descriptor has been closed.
    pub closed: bool,
}

/// One release step of the bookkeeping: the view count drops by one, and
/// the descriptor is to be closed exactly when the last view goes.
pub open spec fn spec_release(s: DeviceShare) -> (DeviceShare, bool) {
    (
        (DeviceShare { device: s.device, live_views: (s.live_views - 1) as u8, closed: s.live_views
            == 1 }),
        s.live_views == 1,
    )
}

impl DeviceShare {
    /// Well-formed: at most the two views of one split exist, and the
    /// descriptor is closed exactly when no view is left.
    pub open spec fn wf(self) -> bool {
        self.live_views <= 2 && (self.closed <==> self.live_views == 0)
    }

    /// The bookkeeping for a freshly split device: both views alive, the
    /// descriptor open.
    pub fn for_split(device: i32) -> (r: DeviceShare)
        ensures
            r.wf(),
            r.device == device,
            r.live_views == 2,
            !r.closed,
    {
        DeviceShare { device, live_views: 2, closed: false }
    }

    /// Records that one view was dropped. Returns whether the caller must
    /// now close the descriptor: exactly when the last view went, and
    /// never on a descriptor already closed.
    pub fn release(&mut self) -> (close_now: bool)
        requires
            old(self).wf(),
            old(self).live_views >= 1,
        ensures
            final(self).wf(),
            (*final(self), close_now) == spec_release(*old(self)),
            final(self).device == old(self).device,
            final(self).live_views == old(self).live_views - 1,
            close_now <==> old(self).live_views == 1,
            final(self).closed <==> close_now,
    {
        self.live_views = self.live_views - 1;
        if self.live_views == 0 {
            self.closed = true;
            true
        } else {
            false
        }
    }
}

/// Law: a split yields exactly two views of one descriptor, and however
/// they are dropped the descriptor is closed exactly once — never by the
/// first drop, always by the second. The two views are symmetric, so the
/// two drop orders are the same trace of the bookkeeping.
pub proof fn lemma_close_exactly_once(s0: DeviceShare)
    requires
        s0.wf(),
        s0.live_views == 2,
    ensures
        ({
            let (s1, first_close) = spec_release(s0);
            let (s2, second_close) = spec_release(s1);
            &&& !first_close
            &&& second_close
            &&& !s1.closed
            &&& s2.closed
            &&& s1.wf()
            &&& s2.wf()
            &&& s1.device == s0.device
            &&& s2.device == s0.device
        }),
{
}

} // verus!
