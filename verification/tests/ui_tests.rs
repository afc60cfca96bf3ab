use talking_head::camera::CameraDevice;
use talking_head::dialog::{device_label, picked_path};
use talking_head::install::desktop_entry;
use talking_head::ipc::Command;
use talking_head::overlay::OverlayWindow;
use talking_head::tray::{tray_activate, tray_menu, MenuEntry, MenuItem, TrayIcon};

#[test]
fn overlay_defaults() {
    let o = OverlayWindow::new(None);
    assert_eq!(o.get_position(), (20, 50));
    assert_eq!(o.size, 200);
    assert!(!o.visible);
    assert_eq!(OverlayWindow::new(Some((1, 2))).get_position(), (1, 2));
}

#[test]
fn overlay_visibility_and_size() {
    let mut o = OverlayWindow::new(Some((30, 40)));
    assert_eq!(o.set_visible(true), Some((30, 40)));
    assert!(o.visible);
    assert_eq!(o.set_visible(false), None);
    o.set_size(128);
    assert_eq!(o.size, 128);
}

#[test]
fn dragging_moves_and_clamps() {
    let mut o = OverlayWindow::new(Some((100, 100)));
    o.begin_drag();
    assert_eq!(o.drag_update(30, 20), (70, 120));
    assert_eq!(o.get_position(), (70, 120));
    assert_eq!(o.drag_update(500, -500), (0, 0));
    assert_eq!(o.drag_update(-10000, 10000), (3840, 2160));
    assert_eq!(o.end_drag(0, 0), (100, 100));
    o.begin_drag();
    assert_eq!(o.end_drag(-5, 5), (105, 105));
}

#[test]
fn tray_menu_entries() {
    let _icon = TrayIcon::new(std::sync::mpsc::channel().0);
    let devices = vec![
        CameraDevice {
            name: "Laptop Webcam".to_string(),
            path: "/dev/video0".to_string(),
            max_resolution: Some((1280, 720)),
        },
        CameraDevice { name: "MX Brio".to_string(), path: "/dev/video3".to_string(), max_resolution: None },
    ];
    assert_eq!(
        tray_menu(&devices),
        vec![
            MenuEntry::Item(MenuItem { label: "Toggle Camera".to_string(), command: Command::Toggle }),
            MenuEntry::Separator,
            MenuEntry::Submenu {
                label: "Camera".to_string(),
                items: vec![
                    MenuItem {
                        label: "Laptop Webcam (1280x720)".to_string(),
                        command: Command::SelectDevice("/dev/video0".to_string()),
                    },
                    MenuItem {
                        label: "MX Brio".to_string(),
                        command: Command::SelectDevice("/dev/video3".to_string()),
                    },
                ],
            },
            MenuEntry::Separator,
            MenuEntry::Item(MenuItem { label: "Quit".to_string(), command: Command::Stop }),
        ]
    );
    assert_eq!(tray_activate(), Command::Toggle);
}

#[test]
fn picker_labels_and_choices() {
    let d = CameraDevice {
        name: "Laptop Webcam".to_string(),
        path: "/dev/video0".to_string(),
        max_resolution: None,
    };
    assert_eq!(device_label(&d), "Laptop Webcam (/dev/video0)");
    let paths = vec!["/dev/video0".to_string(), "/dev/video2".to_string()];
    assert_eq!(picked_path(&paths, Some(1)), Some("/dev/video2".to_string()));
    assert_eq!(picked_path(&paths, Some(2)), None);
    assert_eq!(picked_path(&paths, Some(-1)), None);
    assert_eq!(picked_path(&paths, None), None);
}

#[test]
fn desktop_entry_text() {
    assert_eq!(
        desktop_entry("/home/u/.local/share/icons/hicolor/512x512/apps/talking-head.png"),
        "[Desktop Entry]\nVersion=1.0\nType=Application\nName=Talking Head\nComment=Webcam talking head overlay for screen recording\nExec=talking-head start\nIcon=/home/u/.local/share/icons/hicolor/512x512/apps/talking-head.png\nTerminal=false\nCategories=Video;Utility;\nStartupNotify=false\n"
    );
}
