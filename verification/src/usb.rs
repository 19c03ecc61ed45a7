//! What the driver asks of the USB host, and what the host answers.

use crate::Error;
use vstd::prelude::*;

verus! {

/// Time allowed for each USB transfer, in milliseconds.
pub const TIMEOUT_MS: u64 = 200;

/// Largest number of bytes asked for in one bulk read.
pub const MAX_PACKET: usize = 64;

/// Failure reported by the USB host for one transfer.
#[derive(Debug, PartialEq, Eq, Structural, Clone, Copy)]
pub enum UsbError {
    Io,
    InvalidParam,
    Access,
    NoDevice,
    NotFound,
    Busy,
    Timeout,
    Overflow,
    Pipe,
    Interrupted,
    NoMem,
    NotSupported,
    BadDescriptor,
    Other,
}

/// One action for the host to perform on behalf of the driver.
///
/// Control transfers carry zero in their value and index fields. Every
/// transfer is bounded by [`TIMEOUT_MS`].
#[derive(Debug, Clone, PartialEq, Eq)]
pub enum Request {
    /// Vendor control transfer that sends `data` to the device.
    ControlWrite { request_type: u8, request: u8, data: Vec<u8> },
    /// Vendor control transfer that reads up to `len` bytes from the device.
    ControlRead { request_type: u8, request: u8, len: usize },
    /// Bulk transfer of `data` to the endpoint.
    BulkWrite { endpoint: u8, data: Vec<u8> },
    /// Bulk transfer of up to `len` bytes from the endpoint.
    BulkRead { endpoint: u8, len: usize },
    /// Suspend the calling thread for the given time.
    Sleep { micros: u64 },
    /// Spin for the given time without any USB traffic.
    BusyWait { nanos: u64 },
}

/// Mathematical value of a [`Request`].
pub enum RequestView {
    ControlWrite { request_type: u8, request: u8, data: Seq<u8> },
    ControlRead { request_type: u8, request: u8, len: nat },
    BulkWrite { endpoint: u8, data: Seq<u8> },
    BulkRead { endpoint: u8, len: nat },
    Sleep { micros: nat },
    BusyWait { nanos: nat },
}

impl RequestView {
    /// The time allowed for the request, in milliseconds: every transfer is
    /// bounded by [`TIMEOUT_MS`]; a sleep or a wait takes the time it names.
    pub open spec fn timeout_ms(self) -> Option<u64> {
        match self {
            RequestView::Sleep { .. } => None,
            RequestView::BusyWait { .. } => None,
            _ => Some(TIMEOUT_MS),
        }
    }
}

impl Request {
    /// The time allowed for the request, in milliseconds.
    pub fn timeout_ms(&self) -> (timeout: Option<u64>)
        ensures
            timeout == self@.timeout_ms(),
    {
        match self {
            Request::Sleep { .. } => None,
            Request::BusyWait { .. } => None,
            _ => Some(TIMEOUT_MS),
        }
    }
}

impl View for Request {
    type V = RequestView;

    open spec fn view(&self) -> RequestView {
        match *self {
            Request::ControlWrite { request_type, request, data } => RequestView::ControlWrite {
                request_type,
                request,
                data: data@,
            },
            Request::ControlRead { request_type, request, len } => RequestView::ControlRead {
                request_type,
                request,
                len: len as nat,
            },
            Request::BulkWrite { endpoint, data } => RequestView::BulkWrite {
                endpoint,
                data: data@,
            },
            Request::BulkRead { endpoint, len } => RequestView::BulkRead {
                endpoint,
                len: len as nat,
            },
            Request::Sleep { micros } => RequestView::Sleep { micros: micros as nat },
            Request::BusyWait { nanos } => RequestView::BusyWait { nanos: nanos as nat },
        }
    }
}

/// The host's answer to one [`Request`]: the bytes read (none for a request
/// that reads nothing), or the failure.
pub type Response = Result<Vec<u8>, UsbError>;

/// Mathematical value of a [`Response`].
pub open spec fn response_view(response: Response) -> Result<Seq<u8>, UsbError> {
    match response {
        Ok(data) => Ok(data@),
        Err(e) => Err(e),
    }
}

/// Where a procedure stands after it was started or resumed.
///
/// `M` is the procedure's state between two requests, `T` what it yields.
pub enum Step<M, T> {
    /// The host performs the request and resumes the procedure with the
    /// answer.
    Perform(Request, M),
    /// The procedure has ended.
    Done(Result<T, Error>),
}

/// What becomes of a transfer that carries nothing back: success or the
/// host's failure.
pub open spec fn spec_acknowledge(response: Response) -> Result<(), Error> {
    match response {
        Ok(_) => Ok(()),
        Err(e) => Err(Error::Usb(e)),
    }
}

/// Turns the answer to a transfer that carries nothing back into the
/// outcome of the operation.
pub fn acknowledge(response: &Response) -> (outcome: Result<(), Error>)
    ensures
        outcome == spec_acknowledge(*response),
{
    match response {
        Ok(_) => Ok(()),
        Err(e) => Err(Error::Usb(*e)),
    }
}

} // verus!
