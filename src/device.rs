use vstd::prelude::*;

use crate::error::CaptureError;
use crate::session::Endpoint;

verus! {

/// USB vendor id of the capture device.
pub const VID_3DS: u16 = 0x16D0;

/// USB product id of the capture device.
pub const PID_3DS: u16 = 0x06A3;

/// `bRequest` of the vendor control transfer sent before every bulk read.
pub const VEND_OUT_REQ: u8 = 0x40;

/// `wValue` of the vendor control transfer.
pub const VEND_OUT_VALUE: u16 = 0;

/// `wIndex` of the vendor control transfer.
pub const VEND_OUT_IDX: u16 = 0;

/// Length of the zero-filled payload of the vendor control transfer.
pub const VEND_OUT_LEN: usize = 512;

/// Timeout of each control transfer and bulk read, in milliseconds.
pub const DEFAULT_TIMEOUT_MS: u64 = 100;

/// `bmRequestType` of a host-to-device, vendor-defined request addressed to
/// the device as a whole.
pub open spec fn vendor_out_device_request_type() -> u8 {
    0x40
}

/// Relies on `rusb::request_type`, which ORs the direction bit (OUT is 0x00),
/// the type bits (vendor is 0x02 << 5) and the recipient bits (device is 0x00).
#[verifier::external_body]
fn vendor_out_request_type() -> (r: u8)
    ensures
        r == vendor_out_device_request_type(),
{
    rusb::request_type(rusb::Direction::Out, rusb::RequestType::Vendor, rusb::Recipient::Device)
}

/// A control transfer for the caller to send to the device.
#[derive(Debug, PartialEq, Eq)]
pub struct ControlRequest {
    pub request_type: u8,
    pub request: u8,
    pub value: u16,
    pub index: u16,
    pub payload: Vec<u8>,
    pub timeout_ms: u64,
}

/// The vendor request that prompts the device for its next capture cycle: an
/// OUT, vendor-type, device-recipient transfer with a zero-filled payload.
pub fn vendor_kick() -> (r: ControlRequest)
    ensures
        r.request_type == vendor_out_device_request_type(),
        r.request == VEND_OUT_REQ,
        r.value == VEND_OUT_VALUE,
        r.index == VEND_OUT_IDX,
        r.payload@ == Seq::new(VEND_OUT_LEN as nat, |i: int| 0u8),
        r.timeout_ms == DEFAULT_TIMEOUT_MS,
{
    let payload: Vec<u8> = vec![0u8; VEND_OUT_LEN];
    assert(payload@ =~= Seq::new(VEND_OUT_LEN as nat, |i: int| 0u8));
    ControlRequest {
        request_type: vendor_out_request_type(),
        request: VEND_OUT_REQ,
        value: VEND_OUT_VALUE,
        index: VEND_OUT_IDX,
        payload,
        timeout_ms: DEFAULT_TIMEOUT_MS,
    }
}

/// Whether a device descriptor's ids are those of the capture device.
pub fn is_capture_device(vendor_id: u16, product_id: u16) -> (r: bool)
    ensures
        r == (vendor_id == VID_3DS && product_id == PID_3DS),
{
    vendor_id == VID_3DS && product_id == PID_3DS
}

/// The position of the first device, given as (vendor id, product id), that
/// is the capture device; `DeviceNotFound` where none is.
pub fn find_capture_device(ids: &[(u16, u16)]) -> (r: Result<usize, CaptureError>)
    ensures
        r matches Ok(i) ==> {
            &&& i < ids@.len()
            &&& ids@[i as int] == (VID_3DS, PID_3DS)
            &&& forall|j: int| 0 <= j < i ==> ids@[j] != (VID_3DS, PID_3DS)
        },
        r is Err <==> forall|j: int| 0 <= j < ids@.len() ==> ids@[j] != (VID_3DS, PID_3DS),
        r matches Err(e) ==> e == CaptureError::DeviceNotFound,
{
    let mut i: usize = 0;
    while i < ids.len()
        invariant
            i <= ids@.len(),
            forall|j: int| 0 <= j < i ==> ids@[j] != (VID_3DS, PID_3DS),
        decreases ids@.len() - i,
    {
        let (vendor_id, product_id) = ids[i];
        if is_capture_device(vendor_id, product_id) {
            return Ok(i);
        }
        i = i + 1;
    }
    Err(CaptureError::DeviceNotFound)
}

/// One alternate setting of an interface, as its descriptor gives it.
#[derive(Debug, PartialEq, Eq)]
pub struct InterfaceSetting {
    /// `bInterfaceNumber`.
    pub number: u8,
    /// `bAlternateSetting`.
    pub setting: u8,
    /// The `bEndpointAddress` of each endpoint, in descriptor order.
    pub endpoints: Vec<u8>,
}

/// Resolves the capture endpoint from a configuration descriptor: the last
/// endpoint of the last alternate setting of the last interface. Each entry of
/// `interfaces` lists one interface's alternate settings in descriptor order.
pub fn select_endpoint(config_number: u8, interfaces: &Vec<Vec<InterfaceSetting>>) -> (r: Result<
    Endpoint,
    CaptureError,
>)
    ensures
        r is Ok <==> {
            &&& interfaces@.len() > 0
            &&& interfaces@.last()@.len() > 0
            &&& interfaces@.last()@.last().endpoints@.len() > 0
        },
        r matches Ok(ep) ==> {
            let alt = interfaces@.last()@.last();
            &&& ep.config == config_number
            &&& ep.iface == alt.number
            &&& ep.setting == alt.setting
            &&& ep.address == alt.endpoints@.last()
        },
        r matches Err(e) ==> e == CaptureError::ConfigurationError,
{
    if interfaces.len() == 0 {
        return Err(CaptureError::ConfigurationError);
    }
    let settings = &interfaces[interfaces.len() - 1];
    if settings.len() == 0 {
        return Err(CaptureError::ConfigurationError);
    }
    let alt = &settings[settings.len() - 1];
    if alt.endpoints.len() == 0 {
        return Err(CaptureError::ConfigurationError);
    }
    let address = alt.endpoints[alt.endpoints.len() - 1];
    Ok(Endpoint::new(config_number, alt.number, alt.setting, address))
}

} // verus!
