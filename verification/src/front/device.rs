//! Devices: status codes, identifiers and the results of device methods.

use vstd::prelude::*;

verus! {

/// A device registered with the kernel; only the kernel sees inside.
pub struct Device;

/// The status of a device operation: `SUCCESS`, or one of the error codes
/// (any other value is an unknown error).
#[derive(Debug, Clone, Copy, PartialEq, Eq, Structural)]
pub struct DeviceStatus(pub usize);

/// Whether `v` is one of the named status codes.
pub open spec fn is_named_status(v: usize) -> bool {
    v == 0 || v == 1 || v == 2 || v == 3 || v == 4 || v == usize::MAX
}

/// The name of the status code `v`, or `Unknown`.
pub open spec fn status_name(v: usize) -> Seq<char> {
    if v == 0 {
        "SUCCESS"@
    } else if v == 1 {
        "NOT_FOUND"@
    } else if v == 2 {
        "INVALID_ARG"@
    } else if v == 3 {
        "BUSY"@
    } else if v == 4 {
        "IO_ERROR"@
    } else if v == usize::MAX {
        "UNSUPPORTED"@
    } else {
        "Unknown"@
    }
}

impl DeviceStatus {
    /// The operation succeeded.
    #[allow(non_snake_case)]
    pub fn SUCCESS() -> (s: DeviceStatus)
        ensures
            s.0 == 0,
    {
        DeviceStatus(0)
    }

    /// What was asked for does not exist.
    #[allow(non_snake_case)]
    pub fn NOT_FOUND() -> (s: DeviceStatus)
        ensures
            s.0 == 1,
    {
        DeviceStatus(1)
    }

    /// An argument was invalid.
    #[allow(non_snake_case)]
    pub fn INVALID_ARG() -> (s: DeviceStatus)
        ensures
            s.0 == 2,
    {
        DeviceStatus(2)
    }

    /// The device is busy.
    #[allow(non_snake_case)]
    pub fn BUSY() -> (s: DeviceStatus)
        ensures
            s.0 == 3,
    {
        DeviceStatus(3)
    }

    /// The device reported an I/O error.
    #[allow(non_snake_case)]
    pub fn IO_ERROR() -> (s: DeviceStatus)
        ensures
            s.0 == 4,
    {
        DeviceStatus(4)
    }

    /// The operation is not supported.
    #[allow(non_snake_case)]
    pub fn UNSUPPORTED() -> (s: DeviceStatus)
        ensures
            s.0 == usize::MAX,
    {
        DeviceStatus(usize::MAX)
    }

    /// The status with the given code.
    pub fn from_raw(value: usize) -> (s: DeviceStatus)
        ensures
            s.0 == value,
    {
        DeviceStatus(value)
    }

    /// The code of the status.
    pub fn into_raw(self) -> (v: usize)
        ensures
            v == self.0,
    {
        self.0
    }

    /// Whether the code is one of the named ones.
    pub fn is_known(&self) -> (r: bool)
        ensures
            r == is_named_status(self.0),
    {
        let v = self.0;
        v == 0 || v == 1 || v == 2 || v == 3 || v == 4 || v == usize::MAX
    }

    /// The name of the status, or `Unknown`.
    pub fn name(&self) -> (s: &'static str)
        ensures
            s@ == status_name(self.0),
    {
        let v = self.0;
        if v == 0 {
            "SUCCESS"
        } else if v == 1 {
            "NOT_FOUND"
        } else if v == 2 {
            "INVALID_ARG"
        } else if v == 3 {
            "BUSY"
        } else if v == 4 {
            "IO_ERROR"
        } else if v == usize::MAX {
            "UNSUPPORTED"
        } else {
            "Unknown"
        }
    }
}

impl From<usize> for DeviceStatus {
    fn from(value: usize) -> (s: DeviceStatus) {
        DeviceStatus(value)
    }
}

impl vstd::std_specs::convert::FromSpecImpl<usize> for DeviceStatus {
    open spec fn obeys_from_spec() -> bool {
        true
    }

    open spec fn from_spec(value: usize) -> DeviceStatus {
        DeviceStatus(value)
    }
}

impl From<DeviceStatus> for usize {
    fn from(s: DeviceStatus) -> (v: usize) {
        s.0
    }
}

impl vstd::std_specs::convert::FromSpecImpl<DeviceStatus> for usize {
    open spec fn obeys_from_spec() -> bool {
        true
    }

    open spec fn from_spec(s: DeviceStatus) -> usize {
        s.0
    }
}

/// Identifies a method of a device.
pub type MethodId = u64;

/// Identifies a registered device.
#[derive(Debug, Clone, Copy, PartialEq, Eq, Structural)]
pub struct DeviceId(pub u32);

/// What a device method returns: a value and a status.
#[derive(Debug, Clone, Copy, PartialEq, Eq, Structural)]
pub struct DeviceResult {
    pub value: usize,
    pub status: DeviceStatus,
}

/// The result that `r` stands for: the value on success, else the status.
pub open spec fn result_of(r: DeviceResult) -> Result<usize, DeviceStatus> {
    if r.status.0 == 0 {
        Ok(r.value)
    } else {
        Err(r.status)
    }
}

impl DeviceResult {
    /// A result with the given value and status.
    pub fn new(value: usize, status: DeviceStatus) -> (r: DeviceResult)
        ensures
            r.value == value,
            r.status == status,
    {
        DeviceResult { value, status }
    }

    /// A successful result carrying `value`.
    pub fn ok(value: usize) -> (r: DeviceResult)
        ensures
            r.value == value,
            r.status.0 == 0,
    {
        DeviceResult { value, status: DeviceStatus(0) }
    }

    /// A failed result with the given status and value zero.
    pub fn err(status: DeviceStatus) -> (r: DeviceResult)
        ensures
            r.value == 0,
            r.status == status,
    {
        DeviceResult { value: 0, status }
    }

    /// The value on `SUCCESS`, else the status as the error.
    pub fn as_result(self) -> (r: Result<usize, DeviceStatus>)
        ensures
            r == result_of(self),
    {
        if self.status.0 == 0 {
            Ok(self.value)
        } else {
            Err(self.status)
        }
    }

    /// The result for `res`: a success carrying the value, or a failure
    /// with the status and value zero.
    pub fn from_result(res: Result<usize, DeviceStatus>) -> (r: DeviceResult)
        ensures
            r == match res {
                Ok(value) => DeviceResult { value, status: DeviceStatus(0) },
                Err(status) => DeviceResult { value: 0, status },
            },
    {
        match res {
            Ok(value) => Self::ok(value),
            Err(status) => Self::err(status),
        }
    }
}

/// Turning a result into a device result and back gives it again, unless
/// it is a failure whose status is `SUCCESS` (which reads back as success).
pub proof fn lemma_result_round_trip(res: Result<usize, DeviceStatus>)
    requires
        res matches Err(s) ==> s.0 != 0,
    ensures
        result_of(
            match res {
                Ok(value) => DeviceResult { value, status: DeviceStatus(0) },
                Err(status) => DeviceResult { value: 0, status },
            },
        ) == res,
{
}

/// A device result read as a result and turned back is the same device
/// result, unless it is a failure with a value other than zero (the value
/// of a failure is not kept).
pub proof fn lemma_device_result_round_trip(r: DeviceResult)
    requires
        r.status.0 != 0 ==> r.value == 0,
    ensures
        match result_of(r) {
            Ok(value) => DeviceResult { value, status: DeviceStatus(0) },
            Err(status) => DeviceResult { value: 0, status },
        } == r,
{
}

} // verus!
