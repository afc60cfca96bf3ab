//! The daemon's decisions: its state (visibility, size, device, overlay and
//! camera settings), how each request changes it and what it answers, and
//! how it reacts to camera trouble. The toolkit and the media framework carry
//! out the effects that these functions name.
use vstd::prelude::*;
use crate::camera::{CameraDevice, CameraPipeline};
use crate::cli::size_px_spec;
use crate::ipc::{size_in_px, size_value_spec, Command, Response, SizeValue};
use crate::overlay::OverlayWindow;

verus! {

/// Resolve a size to pixels.
pub fn size_to_px(val: &SizeValue) -> (px: u32)
    ensures
        px == size_in_px(*val),
{
    match val {
        SizeValue::Small => 128,
        SizeValue::Medium => 200,
        SizeValue::Large => 300,
        SizeValue::Custom(px) => *px,
    }
}

/// The two ways of reading a size argument agree: the pixel count that
/// `start --size` takes is the pixel count of the size that `size` sends.
pub proof fn lemma_size_readings_agree(lowered: Seq<char>, s: Seq<char>)
    ensures
        size_px_spec(lowered, s) == match size_value_spec(lowered, s) {
            Some(v) => Some(size_in_px(v)),
            None => None,
        },
{
}

/// The webcam the daemon starts with: the one given on the command line,
/// else the last one used, else the first one found, else `/dev/video0`.
pub fn initial_device(
    arg: Option<String>,
    remembered: Option<String>,
    available: &Vec<CameraDevice>,
) -> (d: String)
    ensures
        d@ == match (arg, remembered) {
            (Some(a), _) => a@,
            (None, Some(r)) => r@,
            (None, None) => if available.len() > 0 {
                available@[0].path@
            } else {
                "/dev/video0"@
            },
        },
{
    match (arg, remembered) {
        (Some(a), _) => a,
        (None, Some(r)) => r,
        (None, None) => if available.len() > 0 {
            available[0].path.clone()
        } else {
            String::from_str("/dev/video0")
        },
    }
}

/// A webcam as the `devices` answer names it.
#[derive(Debug, Clone, PartialEq, Eq)]
pub struct DeviceSummary {
    pub name: String,
    pub path: String,
}

/// The daemon's answer to `status`.
#[derive(Debug, PartialEq, Eq)]
pub struct StatusReport {
    pub running: bool,
    pub visible: bool,
    pub device: String,
    pub size: u32,
    pub position: (i32, i32),
}

/// The data an answer of the daemon carries.
#[derive(Debug, PartialEq, Eq)]
pub enum Payload {
    Status(StatusReport),
    Devices(Vec<DeviceSummary>),
}

/// What the toolkit and the media framework are to do after a request.
#[derive(Debug, Clone, Copy, PartialEq, Eq, Structural)]
pub enum Effect {
    Nothing,
    /// Quit the application.
    Quit,
    /// Show (`true`) or hide the overlay window.
    SetVisible(bool),
    /// Resize the overlay window and its input region to this side length.
    Resize(u32),
    /// Enumerate the webcams and answer with `devices_reply`.
    ScanDevices,
    /// Open the webcam picker.
    OpenPicker,
    /// Rebuild the camera pipeline for the state's device.
    SwitchDevice,
}

/// The daemon's state.
#[derive(Debug)]
pub struct DaemonState {
    pub visible: bool,
    pub size: u32,
    pub device: String,
    pub overlay: OverlayWindow,
    /// The settings of the running camera pipeline, if there is one.
    pub camera: Option<CameraPipeline>,
}

/// The daemon's state as values.
pub struct DaemonView {
    pub visible: bool,
    pub size: u32,
    pub device: Seq<char>,
    pub overlay: OverlayWindow,
    pub camera: Option<(Seq<char>, u32)>,
}

impl View for DaemonState {
    type V = DaemonView;

    open spec fn view(&self) -> DaemonView {
        DaemonView {
            visible: self.visible,
            size: self.size,
            device: self.device@,
            overlay: self.overlay,
            camera: match self.camera {
                Some(c) => Some((c.device_path@, c.size)),
                None => None,
            },
        }
    }
}

/// The state agrees with itself: the overlay is shown exactly when the
/// daemon says so, and overlay and camera have the daemon's size.
pub open spec fn state_wf(v: DaemonView) -> bool {
    &&& v.overlay.visible == v.visible
    &&& v.overlay.size == v.size
    &&& v.camera matches Some((_, sz)) ==> sz == v.size
}

/// The state after a request.
pub open spec fn next_state(v: DaemonView, cmd: Command) -> DaemonView {
    match cmd {
        Command::Toggle => DaemonView {
            visible: !v.visible,
            overlay: OverlayWindow { visible: !v.visible, ..v.overlay },
            ..v
        },
        Command::Size(val) => DaemonView {
            size: size_in_px(val),
            overlay: OverlayWindow { size: size_in_px(val), ..v.overlay },
            camera: match v.camera {
                Some((d, _)) => Some((d, size_in_px(val))),
                None => None,
            },
            ..v
        },
        Command::SelectDevice(path) => DaemonView { device: path@, ..v },
        _ => v,
    }
}

/// What is to be done after a request.
pub open spec fn effect_spec(v: DaemonView, cmd: Command) -> Effect {
    match cmd {
        Command::Stop => Effect::Quit,
        Command::Toggle => Effect::SetVisible(!v.visible),
        Command::Status => Effect::Nothing,
        Command::Size(val) => Effect::Resize(size_in_px(val)),
        Command::Devices => Effect::ScanDevices,
        Command::Select => Effect::OpenPicker,
        Command::SelectDevice(_) => if v.camera is Some {
            Effect::SwitchDevice
        } else {
            Effect::Nothing
        },
    }
}

/// The report answers `status` with: running, visible, device, size, position.
pub open spec fn reports(r: StatusReport, v: DaemonView) -> bool {
    &&& r.running
    &&& r.visible == v.visible
    &&& r.device@ == v.device
    &&& r.size == v.size
    &&& r.position == v.overlay.position
}

/// Which devices an answer to `devices` names: each webcam's name and path,
/// in order.
pub open spec fn summarizes(s: Seq<DeviceSummary>, devices: Seq<CameraDevice>) -> bool {
    &&& s.len() == devices.len()
    &&& forall|i: int|
        0 <= i < s.len() ==> (#[trigger] s[i]).name@ == devices[i].name@ && s[i].path@
            == devices[i].path@
}

/// What a request does: the effect to carry out and the answer, unless the
/// answer has to wait for a device scan.
#[derive(Debug)]
pub struct Step {
    pub effect: Effect,
    pub reply: Option<Response<Payload>>,
}

impl DaemonState {
    /// The state of a daemon that has just come up: overlay shown at the
    /// saved position and the given size, capturing from `device` (the first
    /// webcam, `/dev/video0`, by default) when the camera could be set up.
    pub fn start(
        device: Option<String>,
        size: u32,
        camera_ready: bool,
        saved_position: Option<(i32, i32)>,
    ) -> (s: DaemonState)
        ensures
            state_wf(s@),
            s.visible,
            s.size == size,
            s.device@ == match device {
                Some(d) => d@,
                None => "/dev/video0"@,
            },
            s.overlay.position == match saved_position {
                Some(p) => p,
                None => crate::overlay::default_position(),
            },
            camera_ready ==> s@.camera == Some((s.device@, size)),
            !camera_ready ==> s.camera is None,
    {
        let device = match device {
            Some(d) => d,
            None => String::from_str("/dev/video0"),
        };
        let mut overlay = OverlayWindow::new(saved_position);
        overlay.set_size(size);
        let camera = if camera_ready {
            Some(CameraPipeline::new(device.as_str(), size))
        } else {
            None
        };
        let _ = overlay.set_visible(true);
        DaemonState { visible: true, size, device, overlay, camera }
    }

    /// The answer to `status`.
    pub fn status(&self) -> (r: StatusReport)
        ensures
            reports(r, self@),
    {
        StatusReport {
            running: true,
            visible: self.visible,
            device: self.device.clone(),
            size: self.size,
            position: self.overlay.get_position(),
        }
    }

    /// Carry out a request: update the state, and say what to do and what to
    /// answer. Every request but `devices` is answered at once, and never
    /// with an error.
    pub fn dispatch(&mut self, cmd: &Command) -> (step: Step)
        ensures
            final(self)@ == next_state(old(self)@, *cmd),
            step.effect == effect_spec(old(self)@, *cmd),
            match *cmd {
                Command::Status => step.reply matches Some(Response::OkData(Payload::Status(r)))
                    && reports(r, old(self)@),
                Command::Devices => step.reply is None,
                _ => step.reply matches Some(Response::Done),
            },
    {
        match cmd {
            Command::Stop => Step { effect: Effect::Quit, reply: Some(Response::Done) },
            Command::Toggle => {
                self.visible = !self.visible;
                let _ = self.overlay.set_visible(self.visible);
                Step { effect: Effect::SetVisible(self.visible), reply: Some(Response::Done) }
            },
            Command::Status => {
                let report = self.status();
                Step { effect: Effect::Nothing, reply: Some(Response::OkData(Payload::Status(report))) }
            },
            Command::Size(val) => {
                let px = size_to_px(val);
                self.size = px;
                self.overlay.set_size(px);
                match &mut self.camera {
                    Some(cam) => cam.set_size(px),
                    None => {},
                }
                Step { effect: Effect::Resize(px), reply: Some(Response::Done) }
            },
            Command::Devices => Step { effect: Effect::ScanDevices, reply: None },
            Command::Select => Step { effect: Effect::OpenPicker, reply: Some(Response::Done) },
            Command::SelectDevice(path) => {
                let effect = self.device_chosen(path.as_str());
                Step { effect, reply: Some(Response::Done) }
            },
        }
    }

    /// The user picked a webcam: it becomes the device, and the camera, if
    /// there is one, is to switch to it.
    pub fn device_chosen(&mut self, path: &str) -> (effect: Effect)
        ensures
            final(self)@ == (DaemonView { device: path@, ..old(self)@ }),
            effect == if old(self).camera is Some {
                Effect::SwitchDevice
            } else {
                Effect::Nothing
            },
    {
        self.device = String::from_str(path);
        if self.camera.is_some() {
            Effect::SwitchDevice
        } else {
            Effect::Nothing
        }
    }

    /// A switch of the camera to the state's device ended: when the pipeline
    /// was rebuilt, the camera captures from that device; otherwise the
    /// camera keeps its settings.
    pub fn device_switched(&mut self, rebuilt: bool)
        ensures
            rebuilt ==> final(self)@ == (DaemonView {
                camera: match old(self)@.camera {
                    Some((_, sz)) => Some((old(self).device@, sz)),
                    None => None,
                },
                ..old(self)@
            }),
            !rebuilt ==> final(self)@ == old(self)@,
    {
        if rebuilt {
            let device = &self.device;
            match &mut self.camera {
                Some(cam) => cam.set_device(device.as_str()),
                None => {},
            }
        }
    }


    /// The settings a reconnect attempt builds a pipeline with: the current
    /// device and size.
    pub fn reconnect_target(&self) -> (c: CameraPipeline)
        ensures
            c.device_path@ == self.device@,
            c.size == self.size,
    {
        CameraPipeline::new(self.device.as_str(), self.size)
    }

    /// A reconnect attempt brought a pipeline up: it becomes the camera.
    pub fn camera_reconnected(&mut self, camera: CameraPipeline)
        ensures
            final(self)@ == (DaemonView {
                camera: Some((camera.device_path@, camera.size)),
                ..old(self)@
            }),
    {
        self.camera = Some(camera);
    }
}

/// The answer to `devices`: the name and path of each webcam found.
pub fn devices_reply(devices: &Vec<CameraDevice>) -> (r: Response<Payload>)
    ensures
        r matches Response::OkData(Payload::Devices(s)) && summarizes(s@, devices@),
{
    let mut s: Vec<DeviceSummary> = Vec::new();
    let mut i: usize = 0;
    while i < devices.len()
        invariant
            i <= devices.len(),
            s.len() == i,
            forall|k: int|
                0 <= k < i ==> (#[trigger] s@[k]).name@ == devices@[k].name@ && s@[k].path@
                    == devices@[k].path@,
        decreases devices.len() - i,
    {
        let d = &devices[i];
        s.push(DeviceSummary { name: d.name.clone(), path: d.path.clone() });
        i = i + 1;
    }
    Response::OkData(Payload::Devices(s))
}

// ---------------------------------------------------------------------------
// Camera trouble
// ---------------------------------------------------------------------------

/// A message from the camera pipeline's bus.
#[derive(Debug, Clone, Copy, PartialEq, Eq, Structural)]
pub enum BusEvent {
    Error,
    EndOfStream,
    Other,
}

/// How the daemon answers a bus message.
#[derive(Debug, Clone, Copy, PartialEq, Eq, Structural)]
pub enum BusReaction {
    /// Keep watching.
    Ignore,
    /// Show the placeholder and keep watching.
    ShowPlaceholder,
    /// Stop the camera, show the placeholder, stop watching this pipeline
    /// and try to reconnect later.
    Reconnect,
}

/// An error takes the camera down and starts reconnecting; the end of the
/// stream only shows the placeholder; anything else is ignored.
pub fn bus_reaction(event: BusEvent) -> (r: BusReaction)
    ensures
        r == match event {
            BusEvent::Error => BusReaction::Reconnect,
            BusEvent::EndOfStream => BusReaction::ShowPlaceholder,
            BusEvent::Other => BusReaction::Ignore,
        },
{
    match event {
        BusEvent::Error => BusReaction::Reconnect,
        BusEvent::EndOfStream => BusReaction::ShowPlaceholder,
        BusEvent::Other => BusReaction::Ignore,
    }
}

/// How a reconnect attempt went.
#[derive(Debug, Clone, Copy, PartialEq, Eq, Structural)]
pub enum AttemptOutcome {
    /// The pipeline could not be built.
    BuildFailed,
    /// The pipeline was built but would not start.
    StartFailed,
    /// The pipeline runs.
    Started,
}

/// What follows a reconnect attempt.
#[derive(Debug, Clone, Copy, PartialEq, Eq, Structural)]
pub enum ReconnectStep {
    /// Try again after the delay.
    RetryLater,
    /// Show the placeholder and try again after the delay.
    PlaceholderAndRetry,
    /// Watch the new pipeline's bus and make it the camera.
    Install,
}

/// The delay before each reconnect attempt, in milliseconds.
pub const RECONNECT_DELAY_MS: u64 = 3000;

/// A pipeline that could not be built is retried; one that would not start
/// shows the placeholder and is retried; one that runs becomes the camera.
pub fn reconnect_step(outcome: AttemptOutcome) -> (r: ReconnectStep)
    ensures
        r == match outcome {
            AttemptOutcome::BuildFailed => ReconnectStep::RetryLater,
            AttemptOutcome::StartFailed => ReconnectStep::PlaceholderAndRetry,
            AttemptOutcome::Started => ReconnectStep::Install,
        },
{
    match outcome {
        AttemptOutcome::BuildFailed => ReconnectStep::RetryLater,
        AttemptOutcome::StartFailed => ReconnectStep::PlaceholderAndRetry,
        AttemptOutcome::Started => ReconnectStep::Install,
    }
}

// ---------------------------------------------------------------------------
// Laws
// ---------------------------------------------------------------------------

/// Every request keeps the state consistent.
pub proof fn lemma_dispatch_keeps_wf(v: DaemonView, cmd: Command)
    requires
        state_wf(v),
    ensures
        state_wf(next_state(v, cmd)),
{
}

/// Toggling twice leaves the daemon as it was.
pub proof fn lemma_toggle_twice(v: DaemonView)
    requires
        state_wf(v),
    ensures
        next_state(next_state(v, Command::Toggle), Command::Toggle) == v,
{
    let w = next_state(next_state(v, Command::Toggle), Command::Toggle);
    assert(w.overlay == v.overlay);
}

/// `status`, `devices`, `select` and `stop` leave the state unchanged.
pub proof fn lemma_queries_change_nothing(v: DaemonView)
    ensures
        next_state(v, Command::Status) == v,
        next_state(v, Command::Devices) == v,
        next_state(v, Command::Select) == v,
        next_state(v, Command::Stop) == v,
{
}

/// After `size`, the daemon, its overlay and its camera have the requested
/// side length, and asking again changes nothing.
pub proof fn lemma_size_then_status(v: DaemonView, val: SizeValue)
    ensures
        next_state(v, Command::Size(val)).size == size_in_px(val),
        next_state(v, Command::Size(val)).overlay.size == size_in_px(val),
        next_state(v, Command::Size(val)).camera matches Some((_, sz)) ==> sz == size_in_px(val),
        next_state(v, Command::Size(val)).visible == v.visible,
        next_state(v, Command::Size(val)).device == v.device,
        next_state(next_state(v, Command::Size(val)), Command::Size(val)) == next_state(
            v,
            Command::Size(val),
        ),
{
    let w = next_state(v, Command::Size(val));
    let w2 = next_state(w, Command::Size(val));
    assert(w2.overlay == w.overlay);
    assert(w2.camera == w.camera);
}

/// Choosing a webcam makes it the device that `status` reports, and changes
/// nothing else.
pub proof fn lemma_select_device_then_status(v: DaemonView, path: String)
    ensures
        next_state(v, Command::SelectDevice(path)).device == path@,
        next_state(v, Command::SelectDevice(path)).visible == v.visible,
        next_state(v, Command::SelectDevice(path)).size == v.size,
        next_state(v, Command::SelectDevice(path)).overlay == v.overlay,
        next_state(v, Command::SelectDevice(path)).camera == v.camera,
{
}

} // verus!
