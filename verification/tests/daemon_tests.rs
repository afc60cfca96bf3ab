use talking_head::camera::CameraDevice;
use talking_head::daemon::{
    bus_reaction, devices_reply, initial_device, reconnect_step, size_to_px, AttemptOutcome, BusEvent,
    BusReaction, DaemonState, DeviceSummary, Effect, Payload, ReconnectStep, StatusReport,
};
use talking_head::ipc::{Command, Response, SizeValue};

fn fresh() -> DaemonState {
    DaemonState::start(None, 200, true, None)
}

#[test]
fn sizes_in_pixels() {
    assert_eq!(size_to_px(&SizeValue::Small), 128);
    assert_eq!(size_to_px(&SizeValue::Medium), 200);
    assert_eq!(size_to_px(&SizeValue::Large), 300);
    assert_eq!(size_to_px(&SizeValue::Custom(77)), 77);
}

#[test]
fn start_state() {
    let s = fresh();
    assert!(s.visible);
    assert_eq!(s.device, "/dev/video0");
    assert_eq!(s.overlay.position, (20, 50));
    assert_eq!(s.overlay.size, 200);
    assert!(s.overlay.visible);
    assert_eq!(s.camera.as_ref().map(|c| c.size), Some(200));
    let t = DaemonState::start(Some("/dev/video3".to_string()), 128, false, Some((5, 6)));
    assert_eq!(t.device, "/dev/video3");
    assert_eq!(t.overlay.position, (5, 6));
    assert!(t.camera.is_none());
}

#[test]
fn toggle_twice_restores() {
    let mut s = fresh();
    let a = s.dispatch(&Command::Toggle);
    assert_eq!(a.effect, Effect::SetVisible(false));
    assert_eq!(a.reply, Some(Response::Done));
    assert!(!s.visible);
    assert!(!s.overlay.visible);
    let b = s.dispatch(&Command::Toggle);
    assert_eq!(b.effect, Effect::SetVisible(true));
    assert!(s.visible);
    assert!(s.overlay.visible);
}

#[test]
fn status_reports_state() {
    let mut s = fresh();
    s.dispatch(&Command::Size(SizeValue::Large));
    let step = s.dispatch(&Command::Status);
    assert_eq!(step.effect, Effect::Nothing);
    assert_eq!(
        step.reply,
        Some(Response::OkData(Payload::Status(StatusReport {
            running: true,
            visible: true,
            device: "/dev/video0".to_string(),
            size: 300,
            position: (20, 50),
        })))
    );
}

#[test]
fn size_updates_overlay_and_camera() {
    let mut s = fresh();
    let step = s.dispatch(&Command::Size(SizeValue::Custom(250)));
    assert_eq!(step.effect, Effect::Resize(250));
    assert_eq!(s.size, 250);
    assert_eq!(s.overlay.size, 250);
    assert_eq!(s.camera.as_ref().map(|c| c.size), Some(250));
}

#[test]
fn other_requests() {
    let mut s = fresh();
    assert_eq!(s.dispatch(&Command::Stop).effect, Effect::Quit);
    let scan = s.dispatch(&Command::Devices);
    assert_eq!(scan.effect, Effect::ScanDevices);
    assert_eq!(scan.reply, None);
    assert_eq!(s.dispatch(&Command::Select).effect, Effect::OpenPicker);
    let pick = s.dispatch(&Command::SelectDevice("/dev/video5".to_string()));
    assert_eq!(pick.effect, Effect::SwitchDevice);
    assert_eq!(s.device, "/dev/video5");
    s.device_switched(false);
    assert_eq!(s.camera.as_ref().map(|c| c.device_path.clone()), Some("/dev/video0".to_string()));
    s.device_switched(true);
    assert_eq!(s.camera.as_ref().map(|c| c.device_path.clone()), Some("/dev/video5".to_string()));
}

#[test]
fn picking_without_camera() {
    let mut s = DaemonState::start(None, 200, false, None);
    assert_eq!(s.device_chosen("/dev/video1"), Effect::Nothing);
    assert_eq!(s.device, "/dev/video1");
}

#[test]
fn reconnecting() {
    let mut s = DaemonState::start(Some("/dev/video1".to_string()), 128, false, None);
    let target = s.reconnect_target();
    assert_eq!(target.device_path, "/dev/video1");
    assert_eq!(target.size, 128);
    s.camera_reconnected(target);
    assert!(s.camera.is_some());
    assert_eq!(reconnect_step(AttemptOutcome::BuildFailed), ReconnectStep::RetryLater);
    assert_eq!(reconnect_step(AttemptOutcome::StartFailed), ReconnectStep::PlaceholderAndRetry);
    assert_eq!(reconnect_step(AttemptOutcome::Started), ReconnectStep::Install);
}

#[test]
fn bus_reactions() {
    assert_eq!(bus_reaction(BusEvent::Error), BusReaction::Reconnect);
    assert_eq!(bus_reaction(BusEvent::EndOfStream), BusReaction::ShowPlaceholder);
    assert_eq!(bus_reaction(BusEvent::Other), BusReaction::Ignore);
}

#[test]
fn devices_answer_names_and_paths() {
    let devices = vec![CameraDevice {
        name: "MX Brio".to_string(),
        path: "/dev/video3".to_string(),
        max_resolution: Some((4096, 2160)),
    }];
    assert_eq!(
        devices_reply(&devices),
        Response::OkData(Payload::Devices(vec![DeviceSummary {
            name: "MX Brio".to_string(),
            path: "/dev/video3".to_string(),
        }]))
    );
}

#[test]
fn starting_device() {
    let found = vec![CameraDevice {
        name: "MX Brio".to_string(),
        path: "/dev/video3".to_string(),
        max_resolution: None,
    }];
    assert_eq!(
        initial_device(Some("/dev/video1".to_string()), Some("/dev/video2".to_string()), &found),
        "/dev/video1"
    );
    assert_eq!(initial_device(None, Some("/dev/video2".to_string()), &found), "/dev/video2");
    assert_eq!(initial_device(None, None, &found), "/dev/video3");
    assert_eq!(initial_device(None, None, &vec![]), "/dev/video0");
}
