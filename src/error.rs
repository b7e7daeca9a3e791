use vstd::prelude::*;

verus! {

/// Failures of the capture pipeline.
#[derive(Debug, Clone, Copy, PartialEq, Eq, Structural)]
pub enum CaptureError {
    /// No attached device carries the expected vendor and product ids.
    DeviceNotFound,
    /// A step of the USB handshake failed, or the device's descriptors do not
    /// name an interface and bulk endpoint.
    ConfigurationError,
    /// The per-cycle vendor control transfer failed.
    ControlTransferError,
    /// A bulk read from the capture endpoint failed.
    BulkTransferError,
    /// A capture buffer is shorter than the protocol's declared total size.
    TruncatedFrame,
}

/// Non-fatal decoding problems: the malformed unit is dropped.
#[derive(Debug, Clone, Copy, PartialEq, Eq, Structural)]
pub enum DecodeWarning {
    /// The video segment ended with an incomplete pixel of `dropped` bytes.
    IncompletePixel { dropped: usize },
    /// The audio segment ended with one byte that makes no full sample.
    IncompleteSample,
}

} // verus!
