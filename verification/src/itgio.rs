//! The ITGIO hardware device: enumeration, interface claiming, and the
//! HID control-transfer protocol that reads buttons and writes lights.
//!
//! All USB work goes through rusb; every call into it sits behind a small
//! trusted wrapper whose contract states only what rusb's source and
//! documentation promise. The logic around the calls — device matching,
//! the detach/claim sequence, transfer-length checking, and the
//! low-active-to-high-active inversion — is verified.

use vstd::prelude::*;

verus! {

/// Interface released on close.
pub const ITGIO_IFACE: u8 = 0;

/// HID "get report" request code.
pub const HID_GET_REPORT_BREQUEST: u8 = 0x01;

/// HID "set report" request code.
pub const HID_SET_REPORT_BREQUEST: u8 = 0x09;

/// wValue of the button-read transfer.
pub const HID_IFACE_IN_WVALUE: u16 = 256;

/// wValue of the light-write transfer.
pub const HID_IFACE_OUT_WVALUE: u16 = 512;

/// Control-transfer timeout, long enough to avoid spurious timeouts while
/// still bounding one poll iteration.
pub const REQ_TIMEOUT_MS: u64 = 50;

/// Both control transfers carry exactly this many bytes.
pub const EXPECTED_CONTROL_LEN: usize = 4;

/// Identity of a USB device class: vendor id and product id.
#[derive(Debug, PartialEq, Eq, Structural, Clone, Copy)]
pub struct DeviceIdentifier {
    pub vid: u16,
    pub pid: u16,
}

/// The fixed allow-list of ITGIO-class controllers: vendor 0x07C0 with one
/// of three known product ids.
pub open spec fn is_known_identifier(id: DeviceIdentifier) -> bool {
    id.vid == 0x07C0 && (id.pid == 0x1502 || id.pid == 0x1582 || id.pid == 0x1584)
}

impl DeviceIdentifier {
    /// Whether this identifier names one of the supported controller models.
    pub fn is_known(&self) -> (r: bool)
        ensures
            r == is_known_identifier(*self),
    {
        self.vid == 0x07C0 && (self.pid == 0x1502 || self.pid == 0x1582 || self.pid == 0x1584)
    }
}

/// Kinds of USB failure, as rusb reports them. Only the kinds that the
/// open sequence distinguishes are kept apart; the rest fold into `Other`.
#[derive(Debug, PartialEq, Eq, Structural, Clone, Copy)]
pub enum UsbError {
    NotFound,
    InvalidParam,
    NoDevice,
    NotSupported,
    Other,
}

/// Errors surfaced by the device layer.
#[derive(Debug, PartialEq, Eq, Structural, Clone, Copy)]
pub enum ItgioError {
    /// A transfer was attempted before the device was opened.
    NotOpen,
    /// A control transfer moved this many bytes instead of the expected 4.
    TransferLength(usize),
    /// The underlying USB operation failed.
    Usb(UsbError),
}

// ---------------------------------------------------------------------------
// Declarations of the rusb types that flow through the device.
// ---------------------------------------------------------------------------

#[verifier::external_type_specification]
#[verifier::external_body]
pub struct ExContext(rusb::Context);

/// Opaque holder of one rusb device reference. rusb's `Device` is generic
/// over a context trait that cannot be declared here, so the concrete
/// instantiation is hidden behind this struct instead.
#[verifier::external_body]
pub struct UsbDeviceRef {
    inner: rusb::Device<rusb::Context>,
}

/// Opaque holder of one open rusb device handle.
#[verifier::external_body]
pub struct UsbHandle {
    inner: rusb::DeviceHandle<rusb::Context>,
}

#[verifier::external_type_specification]
#[verifier::external_body]
pub struct ExConfigDescriptor(rusb::ConfigDescriptor);

#[verifier::external_type_specification]
#[verifier::external_body]
pub struct ExRusbError(rusb::Error);

// ---------------------------------------------------------------------------
// Trusted wrappers around rusb. Each holds one call and the conversion of
// its arguments and result, nothing more.
// ---------------------------------------------------------------------------

/// Relies on rusb::Error being a plain enumeration of failure kinds: this
/// only tells the variants the open sequence cares about apart.
#[verifier::external_body]
fn usb_error_kind(e: &rusb::Error) -> UsbError {
    match e {
        rusb::Error::NotFound => UsbError::NotFound,
        rusb::Error::InvalidParam => UsbError::InvalidParam,
        rusb::Error::NoDevice => UsbError::NoDevice,
        rusb::Error::NotSupported => UsbError::NotSupported,
        _ => UsbError::Other,
    }
}

/// Relies on rusb::UsbContext::devices: the list of devices currently
/// attached to the system. Which devices those are depends on the machine,
/// so nothing is promised of the result.
#[verifier::external_body]
fn usb_list_devices(ctx: &rusb::Context) -> Result<Vec<UsbDeviceRef>, UsbError> {
    match rusb::UsbContext::devices(ctx) {
        Ok(list) => Ok(list.iter().map(|d| UsbDeviceRef { inner: d }).collect()),
        Err(e) => Err(usb_error_kind(&e)),
    }
}

/// Relies on rusb::Device::device_descriptor and the vendor_id/product_id
/// accessors of the returned descriptor.
#[verifier::external_body]
fn usb_device_ids(d: &UsbDeviceRef) -> Result<(u16, u16), UsbError> {
    match d.inner.device_descriptor() {
        Ok(desc) => Ok((desc.vendor_id(), desc.product_id())),
        Err(e) => Err(usb_error_kind(&e)),
    }
}

/// Relies on rusb::Device::open: a fresh handle to the device.
#[verifier::external_body]
fn usb_open_device(d: &UsbDeviceRef) -> Result<UsbHandle, UsbError> {
    match d.inner.open() {
        Ok(h) => Ok(UsbHandle { inner: h }),
        Err(e) => Err(usb_error_kind(&e)),
    }
}

/// Relies on rusb::Device::active_config_descriptor.
#[verifier::external_body]
fn usb_active_config(d: &UsbDeviceRef) -> Result<rusb::ConfigDescriptor, UsbError> {
    match d.inner.active_config_descriptor() {
        Ok(c) => Ok(c),
        Err(e) => Err(usb_error_kind(&e)),
    }
}

/// Relies on rusb::ConfigDescriptor::interfaces and Interface::number: the
/// interface numbers of the configuration, one per interface.
#[verifier::external_body]
fn usb_interface_numbers(c: &rusb::ConfigDescriptor) -> Vec<u8> {
    c.interfaces().map(|iface| iface.number()).collect()
}

/// Relies on rusb::DeviceHandle::detach_kernel_driver.
#[verifier::external_body]
fn usb_detach_kernel_driver(h: &UsbHandle, iface: u8) -> Result<(), UsbError> {
    match h.inner.detach_kernel_driver(iface) {
        Ok(()) => Ok(()),
        Err(e) => Err(usb_error_kind(&e)),
    }
}

/// Relies on rusb::DeviceHandle::claim_interface.
#[verifier::external_body]
fn usb_claim_interface(h: &UsbHandle, iface: u8) -> Result<(), UsbError> {
    match h.inner.claim_interface(iface) {
        Ok(()) => Ok(()),
        Err(e) => Err(usb_error_kind(&e)),
    }
}

/// Relies on rusb::DeviceHandle::read_control: on `Ok(n)` the buffer holds
/// `n` bytes of response data, never more than the buffer's length. What
/// the device answers depends on the hardware, so nothing is promised of
/// the bytes themselves.
#[verifier::external_body]
fn usb_read_report(
    h: &UsbHandle,
    request: u8,
    value: u16,
    index: u16,
    timeout_ms: u64,
) -> (r: Result<(Vec<u8>, usize), UsbError>)
    ensures
        r matches Ok(p) ==> p.0@.len() == 4 && p.1 <= 4,
{
    let mut buf: [u8; 4] = [0; 4];
    let rt = rusb::request_type(rusb::Direction::In, rusb::RequestType::Class, rusb::Recipient::Interface);
    match h.inner.read_control(rt, request, value, index, &mut buf, core::time::Duration::from_millis(timeout_ms)) {
        Ok(n) => Ok((buf.to_vec(), n)),
        Err(e) => Err(usb_error_kind(&e)),
    }
}

/// Relies on rusb::DeviceHandle::write_control: on `Ok(n)`, `n` bytes of
/// the payload were transferred, never more than were given.
#[verifier::external_body]
fn usb_write_report(
    h: &UsbHandle,
    request: u8,
    value: u16,
    index: u16,
    data: &Vec<u8>,
    timeout_ms: u64,
) -> (r: Result<usize, UsbError>)
    ensures
        r matches Ok(n) ==> n <= data@.len(),
{
    let rt = rusb::request_type(rusb::Direction::Out, rusb::RequestType::Class, rusb::Recipient::Interface);
    match h.inner.write_control(rt, request, value, index, data.as_slice(), core::time::Duration::from_millis(timeout_ms)) {
        Ok(n) => Ok(n),
        Err(e) => Err(usb_error_kind(&e)),
    }
}

/// Relies on rusb::DeviceHandle::release_interface.
#[verifier::external_body]
fn usb_release_interface(h: &UsbHandle, iface: u8) -> Result<(), UsbError> {
    match h.inner.release_interface(iface) {
        Ok(()) => Ok(()),
        Err(e) => Err(usb_error_kind(&e)),
    }
}

/// Relies on rusb::DeviceHandle::reset.
#[verifier::external_body]
fn usb_reset(h: &UsbHandle) -> Result<(), UsbError> {
    match h.inner.reset() {
        Ok(()) => Ok(()),
        Err(e) => Err(usb_error_kind(&e)),
    }
}

// ---------------------------------------------------------------------------
// Little-endian framing of the 4-byte reports
// ---------------------------------------------------------------------------

/// The 32-bit value carried little-endian by a 4-byte report.
pub open spec fn le32_spec(bytes: Seq<u8>) -> u32
    recommends
        bytes.len() == 4,
{
    (bytes[0] as u32) | ((bytes[1] as u32) << 8u32) | ((bytes[2] as u32) << 16u32) | ((
    bytes[3] as u32) << 24u32)
}

/// Read a 4-byte little-endian report as a 32-bit value.
pub fn le_bytes_to_u32(bytes: &Vec<u8>) -> (r: u32)
    requires
        bytes@.len() == 4,
    ensures
        r == le32_spec(bytes@),
{
    (bytes[0] as u32) | ((bytes[1] as u32) << 8u32) | ((bytes[2] as u32) << 16u32) | ((
    bytes[3] as u32) << 24u32)
}

/// Encode a 32-bit value as its 4-byte little-endian report.
pub fn u32_to_le_bytes(x: u32) -> (r: Vec<u8>)
    ensures
        r@.len() == 4,
        le32_spec(r@) == x,
        r@[0] == (x & 0xFF) as u8,
        r@[1] == ((x >> 8u32) & 0xFF) as u8,
        r@[2] == ((x >> 16u32) & 0xFF) as u8,
        r@[3] == ((x >> 24u32) & 0xFF) as u8,
{
    let t0: u32 = x & 0xFF;
    let t1: u32 = (x >> 8u32) & 0xFF;
    let t2: u32 = (x >> 16u32) & 0xFF;
    let t3: u32 = (x >> 24u32) & 0xFF;
    proof {
        assert(x & 0xFF < 0x100 && (x >> 8u32) & 0xFF < 0x100 && (x >> 16u32) & 0xFF < 0x100 && (x
            >> 24u32) & 0xFF < 0x100) by (bit_vector);
    }
    let mut r: Vec<u8> = Vec::new();
    r.push(t0 as u8);
    r.push(t1 as u8);
    r.push(t2 as u8);
    r.push(t3 as u8);
    proof {
        assert((x & 0xFF) | (((x >> 8u32) & 0xFF) << 8u32) | (((x >> 16u32) & 0xFF) << 16u32) | (((
        x >> 24u32) & 0xFF) << 24u32) == x) by (bit_vector);
    }
    r
}

// ---------------------------------------------------------------------------
// Button and light values
// ---------------------------------------------------------------------------

/// A high-active button bitmap: bit set means pressed.
#[derive(Debug, PartialEq, Eq, Structural, Clone, Copy)]
pub struct ItgioBtnStatus(pub u32);

impl Default for ItgioBtnStatus {
    /// No button pressed.
    fn default() -> (r: Self)
        ensures
            r.0 == 0,
    {
        ItgioBtnStatus(0)
    }
}

/// A high-active light bitmap: bit set means lit.
#[derive(Debug, PartialEq, Eq, Structural, Clone, Copy)]
pub struct ItgioLights(pub u32);

impl Default for ItgioLights {
    /// All lights off.
    fn default() -> (r: Self)
        ensures
            r.0 == 0,
    {
        ItgioLights(0)
    }
}

/// Turn a button-read response into a button state: the transfer must have
/// moved exactly 4 bytes, and the hardware's low-active report is inverted
/// into the high-active convention. Any other transfer length is an error
/// and nothing else is touched.
pub fn interpret_button_report(report: &Vec<u8>, transferred: usize) -> (r: Result<
    ItgioBtnStatus,
    ItgioError,
>)
    requires
        report@.len() == 4,
    ensures
        transferred == EXPECTED_CONTROL_LEN ==> r == Ok::<ItgioBtnStatus, ItgioError>(
            ItgioBtnStatus(!le32_spec(report@)),
        ),
        transferred != EXPECTED_CONTROL_LEN ==> r == Err::<ItgioBtnStatus, ItgioError>(
            ItgioError::TransferLength(transferred),
        ),
{
    if transferred != EXPECTED_CONTROL_LEN {
        return Err(ItgioError::TransferLength(transferred));
    }
    let raw: u32 = le_bytes_to_u32(report);
    Ok(ItgioBtnStatus(!raw))
}

/// Judge one detach attempt of the open sequence: "not found", "invalid
/// parameter" and "no device" mean no driver was attached or none needed
/// detaching; "not supported" means the platform cannot release the
/// kernel's claim, which is fatal, as is any other failure.
pub fn judge_detach_outcome(outcome: Result<(), UsbError>) -> (r: Result<(), ItgioError>)
    ensures
        r is Ok <==> (outcome is Ok || outcome == Err::<(), UsbError>(UsbError::NotFound)
            || outcome == Err::<(), UsbError>(UsbError::InvalidParam) || outcome == Err::<
            (),
            UsbError,
        >(UsbError::NoDevice)),
        r matches Err(e) ==> (outcome matches Err(u) && e == ItgioError::Usb(u)),
{
    match outcome {
        Ok(()) => Ok(()),
        Err(UsbError::NotFound) => Ok(()),
        Err(UsbError::InvalidParam) => Ok(()),
        Err(UsbError::NoDevice) => Ok(()),
        Err(e) => Err(ItgioError::Usb(e)),
    }
}

/// Judge the outcome of a light-write transfer: exactly 4 bytes must have
/// been moved; any other count is an error.
pub fn confirm_light_transfer(transferred: usize) -> (r: Result<(), ItgioError>)
    ensures
        transferred == EXPECTED_CONTROL_LEN ==> r == Ok::<(), ItgioError>(()),
        transferred != EXPECTED_CONTROL_LEN ==> r == Err::<(), ItgioError>(
            ItgioError::TransferLength(transferred),
        ),
{
    if transferred != EXPECTED_CONTROL_LEN {
        Err(ItgioError::TransferLength(transferred))
    } else {
        Ok(())
    }
}

// ---------------------------------------------------------------------------
// The device itself
// ---------------------------------------------------------------------------

/// One physical ITGIO controller: the underlying USB device reference, an
/// optional open handle, and its identifier.
pub struct ItgioDevice {
    device: UsbDeviceRef,
    handle: Option<UsbHandle>,
    pub ident: DeviceIdentifier,
}

impl ItgioDevice {
    /// Whether a handle is currently open.
    pub closed spec fn is_open(&self) -> bool {
        self.handle is Some
    }

    /// The identifier this device was enumerated with.
    pub closed spec fn identifier(&self) -> DeviceIdentifier {
        self.ident
    }

    /// Scan all attached USB devices and keep those whose identifier is on
    /// the allow-list. Every returned device is known and still closed.
    pub fn find_devs(ctx: rusb::Context) -> (r: Result<Vec<ItgioDevice>, UsbError>)
        ensures
            r matches Ok(devs) ==> forall|i: int|
                0 <= i < devs@.len() ==> is_known_identifier(#[trigger] devs@[i].identifier())
                    && !devs@[i].is_open(),
    {
        let mut found: Vec<UsbDeviceRef> = match usb_list_devices(&ctx) {
            Ok(l) => l,
            Err(e) => {
                return Err(e);
            },
        };
        let mut matches: Vec<ItgioDevice> = Vec::new();
        while found.len() > 0
            invariant
                forall|i: int|
                    0 <= i < matches@.len() ==> is_known_identifier(
                        #[trigger] matches@[i].identifier(),
                    ) && !matches@[i].is_open(),
            decreases found@.len(),
        {
            let dev: UsbDeviceRef = found.remove(0);
            let ident: DeviceIdentifier = match usb_device_ids(&dev) {
                Ok((vid, pid)) => DeviceIdentifier { vid, pid },
                Err(_) => DeviceIdentifier { vid: 0, pid: 0 },
            };
            if ident.is_known() {
                matches.push(ItgioDevice { device: dev, handle: None, ident });
                proof {
                    assert(is_known_identifier(matches@[matches@.len() - 1].identifier()));
                    assert(!matches@[matches@.len() - 1].is_open());
                }
            }
        }
        Ok(matches)
    }

    /// Open the device: idempotently closes any prior handle, opens a fresh
    /// one, detaches kernel drivers where needed and claims every interface
    /// of the active configuration. On failure the device is closed again
    /// before the error is surfaced.
    pub fn open(&mut self) -> (r: Result<(), ItgioError>)
        ensures
            r is Ok ==> final(self).is_open(),
            r is Err ==> !final(self).is_open(),
            final(self).identifier() == old(self).identifier(),
    {
        match self.try_open() {
            Ok(()) => Ok(()),
            Err(e) => {
                let _ = self.close();
                Err(e)
            },
        }
    }

    fn try_open(&mut self) -> (r: Result<(), ItgioError>)
        ensures
            r is Ok ==> final(self).is_open(),
            final(self).identifier() == old(self).identifier(),
    {
        let _ = self.close();
        let handle: UsbHandle = match usb_open_device(&self.device) {
            Ok(h) => h,
            Err(e) => {
                return Err(ItgioError::Usb(e));
            },
        };
        let cfg: rusb::ConfigDescriptor = match usb_active_config(&self.device) {
            Ok(c) => c,
            Err(e) => {
                return Err(ItgioError::Usb(e));
            },
        };
        let ifaces: Vec<u8> = usb_interface_numbers(&cfg);
        // Detach any attached kernel driver where one is in the way.
        let mut i: usize = 0;
        while i < ifaces.len()
            invariant
                !self.is_open(),
                self.identifier() == old(self).identifier(),
            decreases ifaces@.len() - i,
        {
            match judge_detach_outcome(usb_detach_kernel_driver(&handle, ifaces[i])) {
                Ok(()) => (),
                Err(e) => {
                    return Err(e);
                },
            }
            i = i + 1;
        }
        // Claim every interface.
        let mut j: usize = 0;
        while j < ifaces.len()
            invariant
                !self.is_open(),
                self.identifier() == old(self).identifier(),
            decreases ifaces@.len() - j,
        {
            match usb_claim_interface(&handle, ifaces[j]) {
                Ok(()) => (),
                Err(e) => {
                    return Err(ItgioError::Usb(e));
                },
            }
            j = j + 1;
        }
        self.handle = Some(handle);
        Ok(())
    }

    /// Read the current button state: a 4-byte HID "get report" transfer,
    /// rejected unless exactly 4 bytes come back, then inverted from the
    /// hardware's low-active convention. Fails with `NotOpen` exactly when
    /// no handle is open; no state is cached or modified.
    pub fn read_buttons(&self) -> (r: Result<ItgioBtnStatus, ItgioError>)
        ensures
            !self.is_open() <==> r == Err::<ItgioBtnStatus, ItgioError>(ItgioError::NotOpen),
    {
        let handle: &UsbHandle = match &self.handle {
            Some(h) => h,
            None => {
                return Err(ItgioError::NotOpen);
            },
        };
        match usb_read_report(
            handle,
            HID_GET_REPORT_BREQUEST,
            HID_IFACE_IN_WVALUE,
            0,
            REQ_TIMEOUT_MS,
        ) {
            Ok((report, transferred)) => interpret_button_report(&report, transferred),
            Err(e) => Err(ItgioError::Usb(e)),
        }
    }

    /// Write a light state: the bitmap goes out little-endian in a 4-byte
    /// HID "set report" transfer, and the transfer must report exactly 4
    /// bytes written. Fails with `NotOpen` exactly when no handle is open.
    pub fn write_lights(&self, data: ItgioLights) -> (r: Result<(), ItgioError>)
        ensures
            !self.is_open() <==> r == Err::<(), ItgioError>(ItgioError::NotOpen),
    {
        let handle: &UsbHandle = match &self.handle {
            Some(h) => h,
            None => {
                return Err(ItgioError::NotOpen);
            },
        };
        let payload: Vec<u8> = u32_to_le_bytes(data.0);
        match usb_write_report(
            handle,
            HID_SET_REPORT_BREQUEST,
            HID_IFACE_OUT_WVALUE,
            0,
            &payload,
            REQ_TIMEOUT_MS,
        ) {
            Ok(transferred) => confirm_light_transfer(transferred),
            Err(e) => Err(ItgioError::Usb(e)),
        }
    }

    /// Close the device. Safe to call when already closed. Releasing the
    /// claimed interface and resetting the device are best-effort: the
    /// handle is discarded regardless of their outcome.
    pub fn close(&mut self) -> (r: Result<(), ItgioError>)
        ensures
            r is Ok,
            !final(self).is_open(),
            final(self).identifier() == old(self).identifier(),
    {
        let prev: Option<UsbHandle> = self.handle.take();
        match prev {
            Some(h) => {
                let _ = usb_release_interface(&h, ITGIO_IFACE);
                let _ = usb_reset(&h);
            },
            None => (),
        }
        Ok(())
    }
}

} // verus!
