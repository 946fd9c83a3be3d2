//! The camera capability: opening and format negotiation, frame capture,
//! and the narrow device-control channel for exposure.

use vstd::prelude::*;

use crate::buffer::PixelBuffer;
use crate::image::{Image, ImageData, MatImageData};
use crate::types::CameraConfig;

verus! {

/// Failure to open a camera.
#[derive(Clone, Copy, Debug, PartialEq, Eq, Structural)]
pub enum OpenError {
    /// No device exists at the configured identity.
    NotFound,
    /// The negotiated format cannot satisfy the pipeline's minimum
    /// assumptions (three-channel 8-bit pixels).
    Unsupported,
}

/// Failure to capture a frame.
#[derive(Clone, Copy, Debug, PartialEq, Eq, Structural)]
pub enum CaptureError {
    /// The device is gone; reopening is required.
    DeviceUnavailable,
    /// A transient read failure, such as a dropped frame; the camera
    /// remains usable and the caller may retry.
    ReadFailed,
}

/// Failure on the device-control channel, independent of capture.
#[derive(Clone, Copy, Debug, PartialEq, Eq, Structural)]
pub enum ControlError {
    /// The device does not offer this control.
    UnsupportedControl,
    /// The device refused the request for now.
    DeviceBusy,
}

/// A value carried by a device control.
#[derive(Clone, Copy, Debug, PartialEq, Eq, Structural)]
pub enum ControlValue {
    /// An integer control payload.
    Value(i32),
    /// A payload of some other shape.
    Other,
}

/// A capture device: the outside service a camera backend drives.
/// An implementation wraps real hardware or, for deterministic runs,
/// scripted frames (`ScriptedSource`). Nothing is promised about when a
/// read succeeds; what is promised is that a delivered frame matches the
/// format the device itself reports.
pub trait VideoSource: Sized {
    /// The implementation's own consistency condition.
    spec fn inv(&self) -> bool;

    /// The currently negotiated resolution, as `(width, height)`.
    spec fn format_resolution(&self) -> (u32, u32);

    /// Samples per pixel of the negotiated format.
    spec fn format_channels(&self) -> usize;

    /// The mode the device adopts when `requested` is asked of it: a
    /// function of the device's state and mode table, not an echo of the
    /// request. `negotiate` answers with exactly this.
    spec fn negotiated(&self, requested: (u32, u32)) -> (u32, u32);

    /// The device's current exposure reading, in the representation
    /// camera configurations carry it (an IEEE-754 double bit pattern).
    spec fn measured_exposure(&self) -> u64;

    /// Whether a device answers at the configured identity: readying
    /// succeeds exactly on this.
    spec fn node_present(&self) -> bool;

    /// Makes the device ready. The one failure readying can report is
    /// that no device exists at the configured identity, and it fails
    /// exactly when none answers. Readying changes neither presence nor
    /// the format nor what any negotiation would adopt nor the exposure
    /// reading.
    fn connect(&mut self) -> (r: Result<(), OpenError>)
        requires
            old(self).inv(),
        ensures
            final(self).inv(),
            r is Ok <==> old(self).node_present(),
            r matches Err(e) ==> e == OpenError::NotFound,
            final(self).node_present() == old(self).node_present(),
            final(self).format_resolution() == old(self).format_resolution(),
            final(self).format_channels() == old(self).format_channels(),
            final(self).measured_exposure() == old(self).measured_exposure(),
            forall|req: (u32, u32)| #[trigger]
                final(self).negotiated(req) == old(self).negotiated(req),
    ;

    /// Requests a capture resolution. The device sets what it actually
    /// supports, which may differ from the request, and reports that: the
    /// result is the negotiated value, never an echo of the request.
    fn negotiate(&mut self, requested: (u32, u32)) -> (actual: (u32, u32))
        requires
            old(self).inv(),
        ensures
            final(self).inv(),
            actual == old(self).negotiated(requested),
            final(self).format_resolution() == actual,
            final(self).format_channels() == old(self).format_channels(),
            final(self).measured_exposure() == old(self).measured_exposure(),
    ;

    /// Re-queries the device's measured exposure.
    fn query_exposure(&self) -> (r: u64)
        requires
            self.inv(),
        ensures
            r == self.measured_exposure(),
    ;

    /// Reports the channel count of the negotiated format.
    fn channel_count(&self) -> (r: usize)
        requires
            self.inv(),
        ensures
            r == self.format_channels(),
    ;

    /// Blocks until the device delivers a frame or reports failure. A
    /// delivered frame is a well-formed buffer of the negotiated format:
    /// height rows, width columns, and the reported channel count. Which
    /// outcome occurs depends on the device alone.
    fn read_frame(&mut self) -> (r: Result<PixelBuffer, CaptureError>)
        requires
            old(self).inv(),
        ensures
            final(self).inv(),
            final(self).format_resolution() == old(self).format_resolution(),
            final(self).format_channels() == old(self).format_channels(),
            r matches Ok(b) ==> {
                &&& b.wf()
                &&& b.rows == old(self).format_resolution().1 as usize
                &&& b.cols == old(self).format_resolution().0 as usize
                &&& b.channels == old(self).format_channels()
            },
    ;

    /// The device's clock, read when called: the timestamp stamped on a
    /// frame. Nothing is promised about its values.
    fn now(&mut self) -> (t: u64)
        requires
            old(self).inv(),
        ensures
            final(self).inv(),
            final(self).format_resolution() == old(self).format_resolution(),
            final(self).format_channels() == old(self).format_channels(),
    ;
}

/// The narrow key/value control channel of a capture device, keyed by
/// integer control identifiers. Control traffic is separate from capture:
/// it never changes the negotiated format, and its failures are non-fatal
/// to capture.
pub trait ControlSource: VideoSource {
    /// The control-write requests the device has received so far, in
    /// order, whatever it answered to each.
    spec fn control_requests(&self) -> Seq<(u32, i32)>;

    /// The answer the device currently gives when the control with this
    /// identifier is read: a payload, or the channel's error.
    /// `get_control` reports exactly this.
    spec fn control_answer(&self, id: u32) -> Result<ControlValue, ControlError>;

    /// Reads a control: the device's current answer for it, whatever
    /// that is.
    fn get_control(&self, id: u32) -> (r: Result<ControlValue, ControlError>)
        requires
            self.inv(),
        ensures
            r == self.control_answer(id),
    ;

    /// Writes a control: the device receives exactly this request, and
    /// the negotiated capture format is untouched. Whether it answers
    /// success is the device's affair.
    fn set_control(&mut self, id: u32, value: i32) -> (r: Result<(), ControlError>)
        requires
            old(self).inv(),
        ensures
            final(self).inv(),
            final(self).format_resolution() == old(self).format_resolution(),
            final(self).format_channels() == old(self).format_channels(),
            final(self).control_requests() == old(self).control_requests().push((id, value)),
    ;
}

/// A camera which captures images backed by a given storage type.
pub trait Camera: Sized {
    type ImageStorage: ImageData;

    /// The camera is open and consistent.
    spec fn inv(&self) -> bool;

    /// The configuration the camera stamps on every image: what was fixed
    /// at open time plus the runtime-refined fields.
    spec fn config_model(&self) -> CameraConfig;

    /// Returns the camera's config; never fails.
    fn config(&self) -> (r: &CameraConfig)
        requires
            self.inv(),
        ensures
            *r == self.config_model(),
    ;

    /// Grabs the next image from the camera: blocks until the device
    /// delivers a frame or reports failure. Success or failure, the camera
    /// keeps its configuration and stays consistent, so a recoverable
    /// failure leaves it usable for the next call. A returned image
    /// carries exactly this camera's configuration and pixels of the
    /// configured resolution.
    fn grab_frame(&mut self) -> (r: Result<Image<Self::ImageStorage>, CaptureError>)
        requires
            old(self).inv(),
        ensures
            final(self).inv(),
            final(self).config_model() == old(self).config_model(),
            r matches Ok(img) ==> {
                &&& img.camera == old(self).config_model()
                &&& img.pixels.inv()
                &&& img.pixels.buffer_model().rows == old(
                    self,
                ).config_model().resolution.1 as usize
                &&& img.pixels.buffer_model().cols == old(
                    self,
                ).config_model().resolution.0 as usize
            },
    ;
}

/// Turns the outcome of a device read into the outcome of a capture: a
/// delivered buffer becomes an image stamped with the capture timestamp
/// and the camera's shared configuration, and a read failure is passed
/// through unchanged.
pub fn frame_image(
    read: Result<PixelBuffer, CaptureError>,
    timestamp: u64,
    camera: std::rc::Rc<CameraConfig>,
) -> (r: Result<Image<MatImageData>, CaptureError>)
    ensures
        match read {
            Ok(b) => r matches Ok(img) && img.timestamp == timestamp && img.camera == camera
                && img.pixels.mat == b,
            Err(e) => r == Err::<Image<MatImageData>, CaptureError>(e),
        },
{
    match read {
        Ok(b) => Ok(Image::new(timestamp, camera, MatImageData::new(b))),
        Err(e) => Err(e),
    }
}

/// What reading an integer control means: an integer payload is the
/// control's value; any payload of another shape means the device does
/// not offer the control as this pipeline uses it; a channel error is
/// passed through unchanged.
pub open spec fn spec_control_int_value(read: Result<ControlValue, ControlError>) -> Result<
    i32,
    ControlError,
> {
    match read {
        Ok(ControlValue::Value(v)) => Ok(v),
        Ok(ControlValue::Other) => Err(ControlError::UnsupportedControl),
        Err(e) => Err(e),
    }
}

/// Maps what the control channel answered for an integer control,
/// exactly as `spec_control_int_value` says.
pub fn control_int_value(read: Result<ControlValue, ControlError>) -> (r: Result<
    i32,
    ControlError,
>)
    ensures
        r == spec_control_int_value(read),
{
    match read {
        Ok(ControlValue::Value(v)) => Ok(v),
        Ok(ControlValue::Other) => Err(ControlError::UnsupportedControl),
        Err(e) => Err(e),
    }
}

/// V4L2 control identifier for absolute exposure.
pub const CID_EXPOSURE: u32 = 0x0098_0911;

/// V4L2 control identifier for the auto-exposure mode.
pub const CID_EXPOSURE_AUTO: u32 = 0x009a_0901;

/// Payload selecting manual mode on the auto-exposure control.
pub const EXPOSURE_MANUAL: i32 = 1;

/// A camera backend over any capture device: fixes the configuration at
/// open time with the negotiated resolution, then turns device reads into
/// images stamped with that shared configuration.
pub struct DeviceCamera<D: VideoSource> {
    pub config: std::rc::Rc<CameraConfig>,
    pub device: D,
}

impl<D: VideoSource> DeviceCamera<D> {
    /// The open-time invariant: the device is consistent, the stored
    /// resolution is the one the device negotiated, and the format is
    /// three-channel.
    pub open spec fn wf(self) -> bool {
        &&& self.device.inv()
        &&& self.config.resolution == self.device.format_resolution()
        &&& self.device.format_channels() == 3
    }

    /// Opens a camera: readies the device, requests `config.resolution`,
    /// re-queries the actual values, and stores the negotiated resolution
    /// and the measured exposure — never the requested ones. Fails with
    /// `NotFound` exactly when no device answers at the configured
    /// identity, with `Unsupported` exactly when a device answers but its
    /// negotiated format is not three-channel 8-bit, and succeeds
    /// otherwise; on failure no camera exists and the device must be
    /// reopened.
    pub fn open(config: CameraConfig, device: D) -> (r: Result<DeviceCamera<D>, OpenError>)
        requires
            device.inv(),
        ensures
            !device.node_present() ==> r == Err::<DeviceCamera<D>, OpenError>(
                OpenError::NotFound,
            ),
            device.node_present() && device.format_channels() != 3 ==> r == Err::<
                DeviceCamera<D>,
                OpenError,
            >(OpenError::Unsupported),
            device.node_present() && device.format_channels() == 3 ==> r is Ok,
            r matches Ok(cam) ==> {
                &&& cam.wf()
                &&& cam.device.format_channels() == device.format_channels()
                &&& cam.config.resolution == device.negotiated(config.resolution)
                &&& cam.config.resolution == cam.device.format_resolution()
                &&& cam.config.exposure == device.measured_exposure()
                &&& cam.config.id == config.id
                &&& cam.config.pose == config.pose
                &&& cam.config.fov == config.fov
                &&& cam.config.focal_length == config.focal_length
                &&& cam.config.sensor_width == config.sensor_width
                &&& cam.config.sensor_height == config.sensor_height
                &&& cam.config.intrinsic_matrix@ == config.intrinsic_matrix@
                &&& cam.config.distortion_coeffs@ == config.distortion_coeffs@
            },
    {
        let mut device = device;
        match device.connect() {
            Ok(u) => u,
            Err(e) => {
                return Err(e);
            },
        };
        let actual = device.negotiate(config.resolution);
        if device.channel_count() != 3 {
            return Err(OpenError::Unsupported);
        }
        let mut stored = config;
        stored.resolution = actual;
        stored.exposure = device.query_exposure();
        Ok(DeviceCamera { config: std::rc::Rc::new(stored), device })
    }
}

impl<D: VideoSource> Camera for DeviceCamera<D> {
    type ImageStorage = MatImageData;

    open spec fn inv(&self) -> bool {
        self.wf()
    }

    open spec fn config_model(&self) -> CameraConfig {
        *self.config
    }

    fn config(&self) -> (r: &CameraConfig) {
        &self.config
    }

    /// Beyond the camera contract: frames from this backend carry the
    /// three-channel format the open-time negotiation established.
    fn grab_frame(&mut self) -> (r: Result<Image<MatImageData>, CaptureError>)
        ensures
            r matches Ok(img) ==> img.pixels.mat.channels == 3,
    {
        let read = self.device.read_frame();
        // the timestamp is taken immediately after the blocking read
        // returns, before any wrapping, to keep latency measurements
        // honest
        let timestamp = self.device.now();
        frame_image(read, timestamp, self.config.clone())
    }
}

impl<D: ControlSource> DeviceCamera<D> {
    /// Reads the device's exposure through the control channel: exactly
    /// the integer reading of the device's answer for the
    /// absolute-exposure control. A failure here is non-fatal to capture.
    pub fn exposure(&self) -> (r: Result<i32, ControlError>)
        requires
            self.wf(),
        ensures
            r == spec_control_int_value(self.device.control_answer(CID_EXPOSURE)),
    {
        control_int_value(self.device.get_control(CID_EXPOSURE))
    }

    /// Switches the device to manual exposure, then writes the exposure
    /// value, in that order; if the first request fails its error is
    /// returned and the second is never made. Capture, configuration and
    /// negotiated format are untouched either way.
    pub fn set_exposure(&mut self, exposure: i32) -> (r: Result<(), ControlError>)
        requires
            old(self).wf(),
        ensures
            final(self).wf(),
            final(self).config == old(self).config,
            r is Ok ==> final(self).device.control_requests() == old(
                self,
            ).device.control_requests().push((CID_EXPOSURE_AUTO, EXPOSURE_MANUAL)).push(
                (CID_EXPOSURE, exposure),
            ),
            final(self).device.control_requests() == old(self).device.control_requests().push(
                (CID_EXPOSURE_AUTO, EXPOSURE_MANUAL),
            ) || final(self).device.control_requests() == old(
                self,
            ).device.control_requests().push((CID_EXPOSURE_AUTO, EXPOSURE_MANUAL)).push(
                (CID_EXPOSURE, exposure),
            ),
            final(self).device.control_requests() == old(self).device.control_requests().push(
                (CID_EXPOSURE_AUTO, EXPOSURE_MANUAL),
            ) ==> r is Err,
    {
        match self.device.set_control(CID_EXPOSURE_AUTO, EXPOSURE_MANUAL) {
            Ok(u) => u,
            Err(e) => {
                return Err(e);
            },
        };
        let r = self.device.set_control(CID_EXPOSURE, exposure);
        proof {
            // both requests went out, so the log is strictly longer than
            // a log that stopped after the mode write
            assert(self.device.control_requests().len() == old(
                self,
            ).device.control_requests().len() + 2);
        }
        r
    }
}

/// Capture failure mapping: whatever `frame_image` returned for a device
/// read, a read failure surfaces as exactly that capture error, never
/// another one and never a silent success, and a delivered frame never
/// becomes an error. Together with `grab_frame`'s promise that the camera
/// keeps its configuration and consistency either way, a transient read
/// failure leaves the camera usable for the next call.
pub proof fn lemma_capture_failure_mapping(
    read: Result<PixelBuffer, CaptureError>,
    timestamp: u64,
    camera: std::rc::Rc<CameraConfig>,
    r: Result<Image<MatImageData>, CaptureError>,
)
    requires
        call_ensures(frame_image, (read, timestamp, camera), r),
    ensures
        read matches Err(e) ==> r == Err::<Image<MatImageData>, CaptureError>(e),
        read is Ok ==> r is Ok,
{
}

/// Open-error taxonomy: whatever `open` returned, `NotFound` came back
/// exactly when no device answers at the configured identity,
/// `Unsupported` exactly when a device answers with a format that is not
/// three-channel, and a camera came back in every other case.
pub proof fn lemma_open_error_taxonomy<D: VideoSource>(
    config: CameraConfig,
    device: D,
    r: Result<DeviceCamera<D>, OpenError>,
)
    requires
        call_ensures(DeviceCamera::<D>::open, (config, device), r),
    ensures
        r == Err::<DeviceCamera<D>, OpenError>(OpenError::NotFound) <==> !device.node_present(),
        r == Err::<DeviceCamera<D>, OpenError>(OpenError::Unsupported) <==> (
        device.node_present() && device.format_channels() != 3),
        r is Ok <==> (device.node_present() && device.format_channels() == 3),
{
}

/// Negotiated resolution: whatever `open` returned, the configuration a
/// camera came back with stores the mode the device it was opened on
/// adopts for the request — never the requested resolution itself — and
/// the device it holds still reports that mode. On a device that only
/// supports one mode, the stored resolution is that mode, whatever was
/// asked for.
pub proof fn lemma_negotiated_resolution<D: VideoSource>(
    config: CameraConfig,
    device: D,
    r: Result<DeviceCamera<D>, OpenError>,
    cam: DeviceCamera<D>,
)
    requires
        call_ensures(DeviceCamera::<D>::open, (config, device), r),
        r == Ok::<DeviceCamera<D>, OpenError>(cam),
    ensures
        cam.config.resolution == device.negotiated(config.resolution),
        cam.config.resolution == cam.device.format_resolution(),
{
}

/// A deterministic capture device: one supported mode and a script of
/// read outcomes served in order. It stands in for hardware when the
/// pipeline is exercised without a device: a `Some` entry is a delivered
/// frame, a `None` entry a dropped read, and a script that runs out an
/// unplugged device.
pub struct ScriptedSource {
    /// The one mode the device supports, as `(width, height)`; a
    /// negotiation request is answered with this, whatever was asked.
    pub resolution: (u32, u32),
    /// Samples per pixel the device delivers.
    pub channels: usize,
    /// Scripted read outcomes.
    pub frames: Vec<Option<PixelBuffer>>,
    /// Next script entry to serve.
    pub cursor: usize,
    /// Whether a device node exists to connect to.
    pub present: bool,
    /// Ticks served as capture timestamps.
    pub clock: u64,
    /// Current payload of the absolute-exposure control.
    pub exposure: i32,
    /// Current payload of the auto-exposure control.
    pub exposure_auto: i32,
    /// The exposure reading the device reports at open time, in the
    /// representation configurations carry.
    pub exposure_reading: u64,
    /// Every control-write request received, in order.
    pub requests: Vec<(u32, i32)>,
}

impl ScriptedSource {
    /// Every scripted frame is well-formed and matches the supported
    /// mode.
    pub open spec fn frames_wf(self) -> bool {
        forall|i: int|
            0 <= i < self.frames@.len() ==> match #[trigger] self.frames@[i] {
                Some(b) => {
                    &&& b.wf()
                    &&& b.rows == self.resolution.1 as usize
                    &&& b.cols == self.resolution.0 as usize
                    &&& b.channels == self.channels
                },
                None => true,
            }
    }

    /// A device supporting the given mode, with an empty script.
    pub fn new(resolution: (u32, u32), channels: usize, present: bool) -> (r: ScriptedSource)
        ensures
            r.resolution == resolution,
            r.channels == channels,
            r.frames@.len() == 0,
            r.cursor == 0,
            r.present == present,
            r.clock == 0,
            r.exposure == 0,
            r.exposure_auto == 0,
            r.exposure_reading == 0,
            r.requests@.len() == 0,
            r.frames_wf(),
    {
        ScriptedSource {
            resolution,
            channels,
            frames: Vec::new(),
            cursor: 0,
            present,
            clock: 0,
            exposure: 0,
            exposure_auto: 0,
            exposure_reading: 0,
            requests: Vec::new(),
        }
    }

    /// Appends a frame to the script after checking it against the
    /// supported mode; a frame of another shape is rejected as
    /// inconsistent and the script is left alone.
    pub fn push_frame(&mut self, frame: PixelBuffer) -> (r: Result<(), crate::buffer::ShapeError>)
        requires
            old(self).frames_wf(),
        ensures
            final(self).resolution == old(self).resolution,
            final(self).channels == old(self).channels,
            final(self).cursor == old(self).cursor,
            final(self).present == old(self).present,
            final(self).clock == old(self).clock,
            final(self).exposure == old(self).exposure,
            final(self).exposure_auto == old(self).exposure_auto,
            final(self).exposure_reading == old(self).exposure_reading,
            final(self).requests@ == old(self).requests@,
            final(self).frames_wf(),
            ({
                let ok = frame.wf() && frame.rows == old(self).resolution.1 as usize
                    && frame.cols == old(self).resolution.0 as usize && frame.channels == old(
                    self,
                ).channels;
                if ok {
                    &&& r == Ok::<(), crate::buffer::ShapeError>(())
                    &&& final(self).frames@.len() == old(self).frames@.len() + 1
                    &&& final(self).frames@[old(self).frames@.len() as int] matches Some(b)
                        && b.agrees_with(frame)
                    &&& final(self).frames@.subrange(0, old(self).frames@.len() as int) == old(
                        self,
                    ).frames@
                } else {
                    &&& r == Err::<(), crate::buffer::ShapeError>(
                        crate::buffer::ShapeError::InconsistentMetadata,
                    )
                    &&& final(self).frames@ == old(self).frames@
                }
            }),
    {
        let w = self.resolution.0;
        let h = self.resolution.1;
        let shape_ok = frame.rows == h as usize && frame.cols == w as usize && frame.channels
            == self.channels;
        if !shape_ok {
            return Err(crate::buffer::ShapeError::InconsistentMetadata);
        }
        let checked = match crate::view::native_to_view(&frame) {
            Ok(_) => true,
            Err(_) => false,
        };
        if !checked {
            return Err(crate::buffer::ShapeError::InconsistentMetadata);
        }
        self.frames.push(Some(frame));
        Ok(())
    }

    /// Appends a dropped read to the script.
    pub fn push_drop(&mut self)
        requires
            old(self).frames_wf(),
        ensures
            final(self).resolution == old(self).resolution,
            final(self).channels == old(self).channels,
            final(self).cursor == old(self).cursor,
            final(self).present == old(self).present,
            final(self).clock == old(self).clock,
            final(self).exposure == old(self).exposure,
            final(self).exposure_auto == old(self).exposure_auto,
            final(self).exposure_reading == old(self).exposure_reading,
            final(self).requests@ == old(self).requests@,
            final(self).frames@ == old(self).frames@.push(None),
            final(self).frames_wf(),
    {
        self.frames.push(None);
    }
}

impl VideoSource for ScriptedSource {
    open spec fn inv(&self) -> bool {
        self.frames_wf()
    }

    open spec fn format_resolution(&self) -> (u32, u32) {
        self.resolution
    }

    open spec fn format_channels(&self) -> usize {
        self.channels
    }

    /// The device supports one mode and adopts it for every request.
    open spec fn negotiated(&self, requested: (u32, u32)) -> (u32, u32) {
        self.resolution
    }

    open spec fn measured_exposure(&self) -> u64 {
        self.exposure_reading
    }

    open spec fn node_present(&self) -> bool {
        self.present
    }

    /// Connecting succeeds exactly when a device node is present.
    fn connect(&mut self) -> (r: Result<(), OpenError>)
        ensures
            *final(self) == *old(self),
            old(self).present ==> r == Ok::<(), OpenError>(()),
            !old(self).present ==> r == Err::<(), OpenError>(OpenError::NotFound),
    {
        if self.present {
            Ok(())
        } else {
            Err(OpenError::NotFound)
        }
    }

    /// The device supports one mode: whatever is requested, the answer is
    /// that mode, and nothing changes.
    fn negotiate(&mut self, requested: (u32, u32)) -> (actual: (u32, u32))
        ensures
            *final(self) == *old(self),
            actual == old(self).resolution,
    {
        self.resolution
    }

    fn channel_count(&self) -> (r: usize) {
        self.channels
    }

    fn query_exposure(&self) -> (r: u64) {
        self.exposure_reading
    }

    /// Serves the next script entry: a `Some` frame is delivered, a
    /// `None` entry is a transient read failure, and an exhausted script
    /// reports the device unavailable. Only the cursor moves.
    fn read_frame(&mut self) -> (r: Result<PixelBuffer, CaptureError>)
        ensures
            final(self).resolution == old(self).resolution,
            final(self).channels == old(self).channels,
            final(self).frames@ == old(self).frames@,
            final(self).present == old(self).present,
            final(self).clock == old(self).clock,
            final(self).exposure == old(self).exposure,
            final(self).exposure_auto == old(self).exposure_auto,
            final(self).exposure_reading == old(self).exposure_reading,
            final(self).requests@ == old(self).requests@,
            old(self).cursor >= old(self).frames@.len() ==> {
                &&& r == Err::<PixelBuffer, CaptureError>(CaptureError::DeviceUnavailable)
                &&& final(self).cursor == old(self).cursor
            },
            old(self).cursor < old(self).frames@.len() ==> {
                &&& final(self).cursor == old(self).cursor + 1
                &&& match old(self).frames@[old(self).cursor as int] {
                    Some(b) => r matches Ok(rb) && rb.agrees_with(b),
                    None => r == Err::<PixelBuffer, CaptureError>(CaptureError::ReadFailed),
                }
            },
    {
        let i = self.cursor;
        if i >= self.frames.len() {
            return Err(CaptureError::DeviceUnavailable);
        }
        self.cursor = i + 1;
        match &self.frames[i] {
            Some(b) => Ok(b.duplicate()),
            None => Err(CaptureError::ReadFailed),
        }
    }

    /// The clock ticks once per reading, wrapping at the top.
    fn now(&mut self) -> (t: u64)
        ensures
            final(self).resolution == old(self).resolution,
            final(self).channels == old(self).channels,
            final(self).frames@ == old(self).frames@,
            final(self).cursor == old(self).cursor,
            final(self).present == old(self).present,
            final(self).exposure == old(self).exposure,
            final(self).exposure_auto == old(self).exposure_auto,
            final(self).exposure_reading == old(self).exposure_reading,
            final(self).requests@ == old(self).requests@,
            t == old(self).clock,
            old(self).clock < u64::MAX ==> final(self).clock == old(self).clock + 1,
            old(self).clock == u64::MAX ==> final(self).clock == 0,
    {
        let t = self.clock;
        self.clock = if self.clock == u64::MAX {
            0
        } else {
            self.clock + 1
        };
        t
    }
}

impl ControlSource for ScriptedSource {
    open spec fn control_requests(&self) -> Seq<(u32, i32)> {
        self.requests@
    }

    /// The device offers exactly the two exposure controls; any other
    /// identifier is unsupported.
    open spec fn control_answer(&self, id: u32) -> Result<ControlValue, ControlError> {
        if id == CID_EXPOSURE {
            Ok(ControlValue::Value(self.exposure))
        } else if id == CID_EXPOSURE_AUTO {
            Ok(ControlValue::Value(self.exposure_auto))
        } else {
            Err(ControlError::UnsupportedControl)
        }
    }

    fn get_control(&self, id: u32) -> (r: Result<ControlValue, ControlError>) {
        if id == CID_EXPOSURE {
            Ok(ControlValue::Value(self.exposure))
        } else if id == CID_EXPOSURE_AUTO {
            Ok(ControlValue::Value(self.exposure_auto))
        } else {
            Err(ControlError::UnsupportedControl)
        }
    }

    /// The request is recorded whatever the answer. Writing a supported
    /// control stores the payload; everything else of the device, the
    /// capture script included, stays as it was.
    fn set_control(&mut self, id: u32, value: i32) -> (r: Result<(), ControlError>)
        ensures
            final(self).resolution == old(self).resolution,
            final(self).channels == old(self).channels,
            final(self).frames@ == old(self).frames@,
            final(self).cursor == old(self).cursor,
            final(self).present == old(self).present,
            final(self).clock == old(self).clock,
            final(self).exposure_reading == old(self).exposure_reading,
            final(self).requests@ == old(self).requests@.push((id, value)),
            id == CID_EXPOSURE ==> {
                &&& r == Ok::<(), ControlError>(())
                &&& final(self).exposure == value
                &&& final(self).exposure_auto == old(self).exposure_auto
            },
            id == CID_EXPOSURE_AUTO ==> {
                &&& r == Ok::<(), ControlError>(())
                &&& final(self).exposure_auto == value
                &&& final(self).exposure == old(self).exposure
            },
            id != CID_EXPOSURE && id != CID_EXPOSURE_AUTO ==> {
                &&& r == Err::<(), ControlError>(ControlError::UnsupportedControl)
                &&& final(self).exposure == old(self).exposure
                &&& final(self).exposure_auto == old(self).exposure_auto
            },
    {
        self.requests.push((id, value));
        if id == CID_EXPOSURE {
            self.exposure = value;
            Ok(())
        } else if id == CID_EXPOSURE_AUTO {
            self.exposure_auto = value;
            Ok(())
        } else {
            Err(ControlError::UnsupportedControl)
        }
    }
}

} // verus!

