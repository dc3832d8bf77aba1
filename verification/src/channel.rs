//! The handle that discovery gives and the transfer channel that a claimed
//! handle becomes.
//!
//! A [`ProbeHandle`] exists only fully populated: discovery makes one when
//! it has the open device, the interface and both endpoints, and nothing
//! changes them afterwards. Claiming the interface turns the handle into a
//! [`Channel`], so no transfer can be asked for before the claim.

use crate::descriptor::Binding;
use crate::error::UsbError;
use vstd::prelude::*;

verus! {

/// Seconds after which a bulk transfer is given up.
pub const TRANSFER_TIMEOUT_SECS: u64 = 5;

/// A probe that discovery has bound to: the open device `H`, its place in
/// the enumeration, the interface to claim and the two endpoints.
#[derive(Debug)]
pub struct ProbeHandle<H> {
    device: H,
    device_index: usize,
    binding: Binding,
}

/// The mathematical value of a [`ProbeHandle`] and of a [`Channel`].
pub struct ProbeHandleView<H> {
    pub device: H,
    pub device_index: usize,
    pub binding: Binding,
}

/// The interface could not be claimed; the session ends here.
#[derive(Debug, Clone, Copy, PartialEq, Eq, Structural)]
pub struct ClaimError {
    pub interface_number: u8,
    pub cause: UsbError,
}

/// A probe whose interface is claimed: what transfers go through.
#[derive(Debug)]
pub struct Channel<H> {
    handle: ProbeHandle<H>,
}

/// A bulk transfer to perform: on which endpoint, and for how long at most.
#[derive(Debug, Clone, Copy, PartialEq, Eq, Structural)]
pub struct TransferRequest {
    pub endpoint: u8,
    pub timeout_secs: u64,
}

impl<H> View for ProbeHandle<H> {
    type V = ProbeHandleView<H>;

    closed spec fn view(&self) -> ProbeHandleView<H> {
        ProbeHandleView {
            device: self.device,
            device_index: self.device_index,
            binding: self.binding,
        }
    }
}

impl<H> View for Channel<H> {
    type V = ProbeHandleView<H>;

    closed spec fn view(&self) -> ProbeHandleView<H> {
        self.handle@
    }
}

impl<H> ProbeHandle<H> {
    /// The handle of a device that discovery has accepted.
    pub(crate) fn bind(device: H, device_index: usize, binding: Binding) -> (handle: Self)
        ensures
            handle@ == (ProbeHandleView { device, device_index, binding }),
    {
        ProbeHandle { device, device_index, binding }
    }

    /// The open device.
    pub fn device(&self) -> (device: &H)
        ensures
            *device == self@.device,
    {
        &self.device
    }

    /// The place of the device in the enumeration that discovery went
    /// through.
    pub fn device_index(&self) -> (index: usize)
        ensures
            index == self@.device_index,
    {
        self.device_index
    }

    /// The interface and the endpoints that discovery resolved.
    pub fn binding(&self) -> (binding: Binding)
        ensures
            binding == self@.binding,
    {
        self.binding
    }

    /// The interface to claim before any transfer.
    pub fn interface_number(&self) -> (number: u8)
        ensures
            number == self@.binding.interface_number,
    {
        self.binding.interface_number
    }

    /// Takes the outcome of claiming interface `interface_number()` on
    /// `device()`. A claimed handle becomes a channel; a failed claim ends
    /// the handle, and with it the open device.
    pub fn claimed(self, outcome: Result<(), UsbError>) -> (r: Result<Channel<H>, ClaimError>)
        ensures
            match outcome {
                Ok(_) => r matches Ok(channel) && channel@ == self@,
                Err(cause) => r matches Err(e) && e == (ClaimError {
                    interface_number: self@.binding.interface_number,
                    cause,
                }),
            },
    {
        match outcome {
            Ok(_) => Ok(Channel { handle: self }),
            Err(cause) => Err(
                ClaimError { interface_number: self.binding.interface_number, cause },
            ),
        }
    }
}

impl<H> Channel<H> {
    /// The open device, on which the transfers are performed.
    pub fn device(&self) -> (device: &H)
        ensures
            *device == self@.device,
    {
        &self.handle.device
    }

    /// The claimed interface and the endpoints of the channel.
    pub fn binding(&self) -> (binding: Binding)
        ensures
            binding == self@.binding,
    {
        self.handle.binding
    }

    /// The transfer that sends a frame to the probe: on the inbound
    /// endpoint, with the fixed timeout.
    pub fn write_request(&self) -> (request: TransferRequest)
        ensures
            request == (TransferRequest {
                endpoint: self@.binding.inbound,
                timeout_secs: TRANSFER_TIMEOUT_SECS,
            }),
    {
        TransferRequest { endpoint: self.handle.binding.inbound, timeout_secs: TRANSFER_TIMEOUT_SECS }
    }

    /// The transfer that fetches a response from the probe: on the outbound
    /// endpoint, with the fixed timeout.
    pub fn read_request(&self) -> (request: TransferRequest)
        ensures
            request == (TransferRequest {
                endpoint: self@.binding.outbound,
                timeout_secs: TRANSFER_TIMEOUT_SECS,
            }),
    {
        TransferRequest {
            endpoint: self.handle.binding.outbound,
            timeout_secs: TRANSFER_TIMEOUT_SECS,
        }
    }
}

/// What the caller is told of a transfer: the bytes moved and no complaint,
/// or no bytes and the description of the failure.
pub open spec fn report_of(outcome: Result<usize, UsbError>) -> (usize, Seq<char>) {
    match outcome {
        Ok(count) => (count, Seq::empty()),
        Err(cause) => (0, cause.description()),
    }
}

/// Reports the outcome of a transfer as a byte count and an error
/// description. The description is empty exactly when the transfer
/// succeeded.
pub fn report(outcome: Result<usize, UsbError>) -> (r: (usize, String))
    ensures
        (r.0, r.1@) == report_of(outcome),
        r.1@.len() == 0 <==> outcome is Ok,
{
    match outcome {
        Ok(count) => (count, String::new()),
        Err(cause) => (0, cause.describe()),
    }
}

/// A failure does not outlast its report. The channel hands out its
/// requests and takes no outcome in, so a failed transfer cannot change it:
/// the failure is reported as no bytes and a description that is not empty,
/// and a transfer that succeeds afterwards is reported as its byte count and
/// no description, as if nothing had failed before.
pub proof fn failure_does_not_outlast_its_report(cause: UsbError, count: usize)
    ensures
        report_of(Err(cause)).0 == 0,
        report_of(Err(cause)).1.len() > 0,
        report_of(Ok(count)) == (count, Seq::<char>::empty()),
{
    cause.description_is_not_empty();
}

} // verus!
