use talking_head::camera::{
    best_resolution, max_resolution_for, CameraDevice, CameraPipeline, CapsEntry,
    ProbedDevice,
};

fn entry(format: &str, width: Option<i32>, height: Option<i32>) -> CapsEntry {
    CapsEntry { format: format.to_string(), width, height }
}

#[test]
fn best_resolution_picks_largest_area() {
    let caps = vec![
        entry("video/x-raw", Some(640), Some(480)),
        entry("image/jpeg", Some(1920), Some(1080)),
        entry("video/x-raw", Some(1280), Some(720)),
    ];
    assert_eq!(best_resolution(&caps, i32::MAX, i32::MAX), Some((1920, 1080, "image/jpeg".to_string())));
}

#[test]
fn best_resolution_keeps_first_of_equal_area() {
    let caps = vec![
        entry("video/x-raw", Some(1280), Some(720)),
        entry("image/jpeg", Some(720), Some(1280)),
    ];
    assert_eq!(best_resolution(&caps, i32::MAX, i32::MAX), Some((1280, 720, "video/x-raw".to_string())));
}

#[test]
fn best_resolution_skips_other_formats() {
    let caps = vec![
        entry("video/x-h264", Some(3840), Some(2160)),
        entry("video/x-raw", Some(320), Some(240)),
        entry("video/x-h264", None, None),
    ];
    assert_eq!(best_resolution(&caps, i32::MAX, i32::MAX), Some((320, 240, "video/x-raw".to_string())));
    assert_eq!(best_resolution(&vec![entry("video/x-h264", Some(1), Some(1))], i32::MAX, i32::MAX), None);
    assert_eq!(best_resolution(&vec![], i32::MAX, i32::MAX), None);
}

#[test]
fn best_resolution_stops_on_missing_dimension() {
    let caps = vec![
        entry("video/x-raw", Some(1920), Some(1080)),
        entry("image/jpeg", Some(640), None),
    ];
    assert_eq!(best_resolution(&caps, i32::MAX, i32::MAX), None);
}

#[test]
fn best_resolution_respects_height_cap() {
    let caps = vec![
        entry("image/jpeg", Some(1920), Some(1080)),
        entry("video/x-raw", Some(640), Some(480)),
        entry("image/jpeg", Some(1280), Some(720)),
    ];
    assert_eq!(best_resolution(&caps, 1280, 720), Some((1280, 720, "image/jpeg".to_string())));
    assert_eq!(best_resolution(&caps, 1280, 479), None);
    let wide = vec![
        entry("video/x-raw", Some(2560), Some(720)),
        entry("video/x-raw", Some(960), Some(720)),
    ];
    assert_eq!(best_resolution(&wide, 1280, 720), Some((960, 720, "video/x-raw".to_string())));
}

fn probed(name: &str, path: Option<&str>, caps: Option<Vec<CapsEntry>>) -> ProbedDevice {
    ProbedDevice { name: name.to_string(), path: path.map(|p| p.to_string()), caps }
}

#[test]
fn max_resolution_finds_device_by_path() {
    let devices = vec![
        probed(
            "A",
            Some("/dev/video0"),
            Some(vec![
                entry("image/jpeg", Some(1920), Some(1080)),
                entry("video/x-raw", Some(640), Some(480)),
            ]),
        ),
        probed("B", Some("/dev/video2"), Some(vec![entry("image/jpeg", None, Some(480))])),
        probed("C", Some("/dev/video2"), Some(vec![entry("image/jpeg", Some(800), Some(600))])),
        probed("D", None, Some(vec![entry("image/jpeg", Some(4000), Some(3000))])),
    ];
    assert_eq!(
        max_resolution_for(&devices, "/dev/video0"),
        Some((640, 480, "video/x-raw".to_string()))
    );
    assert_eq!(
        max_resolution_for(&devices, "/dev/video2"),
        Some((800, 600, "image/jpeg".to_string()))
    );
    assert_eq!(max_resolution_for(&devices, "/dev/video9"), None);
}

#[test]
fn max_resolution_falls_back_to_largest_above_720p() {
    let devices = vec![probed(
        "Studio",
        Some("/dev/video4"),
        Some(vec![
            entry("image/jpeg", Some(1920), Some(1080)),
            entry("image/jpeg", Some(3840), Some(2160)),
        ]),
    )];
    assert_eq!(
        max_resolution_for(&devices, "/dev/video4"),
        Some((3840, 2160, "image/jpeg".to_string()))
    );
}

#[test]
fn listing_devices() {
    let devices = vec![
        probed("Laptop Webcam", Some("/dev/video0"), Some(vec![entry("video/x-raw", Some(640), Some(480))])),
        probed("MX Brio", None, None),
        probed("Studio", Some("/dev/video4"), Some(vec![entry("image/jpeg", Some(3840), Some(2160))])),
    ];
    assert_eq!(
        CameraPipeline::list_devices(&devices),
        vec![
            CameraDevice {
                name: "Laptop Webcam".to_string(),
                path: "/dev/video0".to_string(),
                max_resolution: Some((640, 480)),
            },
            CameraDevice {
                name: "MX Brio".to_string(),
                path: "/dev/video0".to_string(),
                max_resolution: None,
            },
            CameraDevice {
                name: "Studio".to_string(),
                path: "/dev/video4".to_string(),
                max_resolution: Some((3840, 2160)),
            },
        ]
    );
}

#[test]
fn pipeline_descriptions() {
    let cam = CameraPipeline::new("/dev/video2", 200);
    assert_eq!(
        cam.description(&Some((1920, 1080, "image/jpeg".to_string()))),
        "v4l2src device=/dev/video2 ! image/jpeg,width=1920,height=1080 ! jpegdec ! videoconvert ! \
         aspectratiocrop aspect-ratio=1/1 ! videoflip method=horizontal-flip ! videoscale ! \
         video/x-raw,format=BGRA,width=200,height=200 ! appsink name=sink max-buffers=1 drop=true sync=false"
    );
    assert_eq!(
        cam.description(&Some((640, 480, "video/x-raw".to_string()))),
        "v4l2src device=/dev/video2 ! video/x-raw,width=640,height=480 ! videoconvert ! \
         aspectratiocrop aspect-ratio=1/1 ! videoflip method=horizontal-flip ! videoscale ! \
         video/x-raw,format=BGRA,width=200,height=200 ! appsink name=sink max-buffers=1 drop=true sync=false"
    );
    assert_eq!(
        cam.description(&None),
        "v4l2src device=/dev/video2 ! videoconvert ! \
         aspectratiocrop aspect-ratio=1/1 ! videoflip method=horizontal-flip ! videoscale ! \
         video/x-raw,format=BGRA,width=200,height=200 ! appsink name=sink max-buffers=1 drop=true sync=false"
    );
}

#[test]
fn pipeline_settings() {
    let mut cam = CameraPipeline::new("/dev/video0", 128);
    cam.set_size(300);
    assert_eq!(cam.size, 300);
    cam.set_device("/dev/video4");
    assert_eq!(cam.device_path, "/dev/video4");
    assert_eq!(cam.size, 300);
}
