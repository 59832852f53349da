//! Device set-up: the order of driver calls that brings up one device or every
//! device, names and images handed to the driver, and the target flag that
//! matches a device's compute capability.
use vstd::prelude::*;
use vstd::string::*;

use crate::error::{check, CUerror, CUresult, CUDA_ERROR_INVALID_PTX};
use crate::text::{push_signed_decimal, signed_decimal};

verus! {

/// One driver call of the device set-up, or keeping a device that is ready.
#[derive(Clone, Copy, Debug, PartialEq, Eq, Structural)]
pub enum ScanOp {
    /// Initialize the driver.
    Initialize,
    /// Ask how many devices there are.
    CountDevices,
    /// Select the device of this ordinal.
    GetDevice(i32),
    /// Create a context on it.
    CreateContext(i32),
    /// Make that context current.
    MakeCurrent(i32),
    /// Keep the device and its context: the set-up of this ordinal is done.
    Keep(i32),
}

/// The next step of a device set-up.
pub enum ScanStep {
    /// Perform this operation and report its status.
    Perform(ScanOp),
    /// The set-up is over: every operation succeeded, or this one failed.
    Finished(CUresult),
}

/// How many operations a set-up performs: for every device (`all`), two and
/// four per device; for the first device alone, one and four.
pub open spec fn scan_len(all: bool, count: int) -> int {
    if all {
        2 + 4 * count
    } else {
        5
    }
}

/// The operation at position `idx` of a set-up: initialize, count the devices
/// when setting up all of them, then for each ordinal in turn select the
/// device, create a context, make it current and keep it.
pub open spec fn scan_op(all: bool, idx: int) -> ScanOp {
    if idx == 0 {
        ScanOp::Initialize
    } else if all && idx == 1 {
        ScanOp::CountDevices
    } else {
        let j = idx - if all {
            2int
        } else {
            1int
        };
        let i = (j / 4) as i32;
        if j % 4 == 0 {
            ScanOp::GetDevice(i)
        } else if j % 4 == 1 {
            ScanOp::CreateContext(i)
        } else if j % 4 == 2 {
            ScanOp::MakeCurrent(i)
        } else {
            ScanOp::Keep(i)
        }
    }
}

/// What a set-up holds.
pub struct DeviceScanView {
    pub all: bool,
    /// The device count, once known (zero before).
    pub count: int,
    /// How many operations were handed out.
    pub next: nat,
    pub finished: bool,
}

/// A device set-up in progress.
pub struct DeviceScan {
    all: bool,
    count: i32,
    next: u64,
    finished: bool,
}

impl View for DeviceScan {
    type V = DeviceScanView;

    closed spec fn view(&self) -> DeviceScanView {
        DeviceScanView {
            all: self.all,
            count: self.count as int,
            next: self.next as nat,
            finished: self.finished,
        }
    }
}

fn scan_op_at(all: bool, idx: u64, count: i32) -> (r: ScanOp)
    requires
        0 <= count,
        idx < scan_len(all, count as int),
    ensures
        r == scan_op(all, idx as int),
{
    if idx == 0 {
        ScanOp::Initialize
    } else if all && idx == 1 {
        ScanOp::CountDevices
    } else {
        let j: u64 = idx - if all {
            2
        } else {
            1
        };
        let i: i32 = (j / 4) as i32;
        if j % 4 == 0 {
            ScanOp::GetDevice(i)
        } else if j % 4 == 1 {
            ScanOp::CreateContext(i)
        } else if j % 4 == 2 {
            ScanOp::MakeCurrent(i)
        } else {
            ScanOp::Keep(i)
        }
    }
}

impl DeviceScan {
    /// Whether the count is known to be sound and the operations handed out
    /// are within the set-up.
    pub closed spec fn wf(&self) -> bool {
        &&& self.count >= 0
        &&& self.next <= scan_len(self.all, self.count as int)
        &&& (self.all && self.next <= 2 ==> self.count == 0)
    }

    /// Sets up every device.
    pub fn all() -> (r: DeviceScan)
        ensures
            r.wf(),
            r@ == (DeviceScanView { all: true, count: 0, next: 0, finished: false }),
    {
        DeviceScan { all: true, count: 0, next: 0, finished: false }
    }

    /// Sets up the device of ordinal zero alone, without counting devices.
    pub fn first() -> (r: DeviceScan)
        ensures
            r.wf(),
            r@ == (DeviceScanView { all: false, count: 0, next: 0, finished: false }),
    {
        DeviceScan { all: false, count: 0, next: 0, finished: false }
    }

    /// Takes the status of the operation handed out last (zero before the
    /// first) and, after counting devices, the count reported, and says what
    /// comes next. The first failure ends the set-up with its code; a negative
    /// count is taken as none.
    pub fn advance(&mut self, status: i32, reported: i32) -> (r: ScanStep)
        requires
            old(self).wf(),
            !old(self)@.finished,
        ensures
            final(self).wf(),
            final(self)@.all == old(self)@.all,
            status != 0 ==> final(self)@.finished && (r matches ScanStep::Finished(Err(e)) && e@
                == status && e.wf()),
            status == 0 ==> {
                let count = if old(self)@.all && old(self)@.next == 2 {
                    if reported > 0 {
                        reported as int
                    } else {
                        0
                    }
                } else {
                    old(self)@.count
                };
                &&& final(self)@.count == count
                &&& old(self)@.next < scan_len(old(self)@.all, count) ==> !final(self)@.finished
                    && final(self)@.next == old(self)@.next + 1 && r == ScanStep::Perform(
                    scan_op(old(self)@.all, old(self)@.next as int),
                )
                &&& old(self)@.next >= scan_len(old(self)@.all, count) ==> final(self)@.finished
                    && (r matches ScanStep::Finished(Ok(())))
            },
    {
        if status != 0 {
            self.finished = true;
            return match check(status) {
                Err(e) => ScanStep::Finished(Err(e)),
                Ok(()) => ScanStep::Finished(Ok(())),
            };
        }
        if self.all && self.next == 2 {
            self.count = if reported > 0 {
                reported
            } else {
                0
            };
        }
        let len: u64 = if self.all {
            2 + 4 * (self.count as u64)
        } else {
            5
        };
        if self.next < len {
            let op = scan_op_at(self.all, self.next, self.count);
            self.next = self.next + 1;
            ScanStep::Perform(op)
        } else {
            self.finished = true;
            ScanStep::Finished(Ok(()))
        }
    }
}

/// Whether text can be handed to the driver: a C string holds no NUL byte.
pub open spec fn is_c_string(bytes: Seq<u8>) -> bool {
    !bytes.contains(0u8)
}

/// Checks that a file name, an image or a function name can be handed to the
/// driver, and reports the encoding error if it holds a NUL byte.
pub fn check_c_string(s: &str) -> (r: CUresult)
    ensures
        r is Ok <==> is_c_string(s.spec_bytes()),
        r matches Err(e) ==> e@ == CUDA_ERROR_INVALID_PTX && e.wf(),
{
    let bytes = s.as_bytes();
    let mut i: usize = 0;
    while i < bytes.len()
        invariant
            bytes@ == s.spec_bytes(),
            i <= bytes@.len(),
            forall|j: int| 0 <= j < i ==> bytes@[j] != 0u8,
        decreases bytes@.len() - i,
    {
        if bytes[i] == 0 {
            return Err(CUerror::encoding());
        }
        i = i + 1;
    }
    Ok(())
}

/// The compiler flag that targets a device of compute capability
/// `major.minor`, as `-Ctarget-cpu=native` would for the host.
pub open spec fn target_cpu_flag_spec(major: i32, minor: i32) -> Seq<char> {
    "-Ctarget-cpu=sm_"@ + signed_decimal(major as int) + signed_decimal(minor as int)
}

/// Builds the compiler flag that targets a device of compute capability
/// `major.minor`.
pub fn target_cpu_flag(major: i32, minor: i32) -> (r: String)
    ensures
        r@ == target_cpu_flag_spec(major, minor),
{
    let mut s = String::from_str("-Ctarget-cpu=sm_");
    push_signed_decimal(&mut s, major);
    push_signed_decimal(&mut s, minor);
    s
}

/// Reads a device attribute's status and value as the result of a query.
pub fn attribute_result(status: i32, value: i32) -> (r: Result<i32, CUerror>)
    ensures
        status == 0 ==> r == Ok::<i32, CUerror>(value),
        status != 0 ==> (r matches Err(e) && e@ == status && e.wf()),
{
    match check(status) {
        Ok(()) => Ok(value),
        Err(e) => Err(e),
    }
}

} // verus!
