//! The system tray icon: its menu and what clicking it asks of the daemon.
use vstd::prelude::*;
use crate::camera::CameraDevice;
use crate::ipc::Command;
use crate::text::{decimal, u32_to_decimal};

verus! {

#[verifier::external_type_specification]
#[verifier::external_body]
#[verifier::reject_recursive_types(T)]
pub struct ExSender<T>(std::sync::mpsc::Sender<T>);

/// Public handle for launching the system tray icon.
#[derive(Debug)]
pub struct TrayIcon;

impl TrayIcon {
    /// Create a new `TrayIcon` with the given command sender.
    pub fn new(_tx: std::sync::mpsc::Sender<Command>) -> (t: TrayIcon) {
        TrayIcon
    }
}

/// A labelled menu item that sends a request to the daemon.
#[derive(Debug, Clone, PartialEq, Eq)]
pub struct MenuItem {
    pub label: String,
    pub command: Command,
}

/// An entry of the tray's context menu.
#[derive(Debug, Clone, PartialEq, Eq)]
pub enum MenuEntry {
    Item(MenuItem),
    Submenu { label: String, items: Vec<MenuItem> },
    Separator,
}

/// The menu item a label and request describe.
pub open spec fn is_item(i: MenuItem, label: Seq<char>, command: Command) -> bool {
    i.label@ == label && i.command == command
}

/// How a webcam is named in the tray: its name, then its largest resolution
/// as `WIDTHxHEIGHT` in parentheses when it is known.
pub open spec fn camera_label(d: CameraDevice) -> Seq<char> {
    match d.max_resolution {
        Some((w, h)) => d.name@ + " ("@ + decimal(w as nat) + "x"@ + decimal(h as nat) + ")"@,
        None => d.name@,
    }
}

/// The camera submenu's item for a webcam: its label, and choosing it
/// switches to the webcam's path.
pub open spec fn is_camera_item(i: MenuItem, d: CameraDevice) -> bool {
    &&& i.label@ == camera_label(d)
    &&& i.command matches Command::SelectDevice(p) && p@ == d.path@
}

fn camera_item(d: &CameraDevice) -> (i: MenuItem)
    ensures
        is_camera_item(i, *d),
{
    let mut label = d.name.clone();
    match d.max_resolution {
        Some((w, h)) => {
            label.append(" (");
            label.append(u32_to_decimal(w).as_str());
            label.append("x");
            label.append(u32_to_decimal(h).as_str());
            label.append(")");
        },
        None => {},
    }
    MenuItem { label, command: Command::SelectDevice(d.path.clone()) }
}

/// The context menu: toggle the camera; a camera submenu that lists the
/// webcams with their resolution; quit.
pub fn tray_menu(devices: &Vec<CameraDevice>) -> (m: Vec<MenuEntry>)
    ensures
        m.len() == 5,
        m@[0] matches MenuEntry::Item(i) && is_item(i, "Toggle Camera"@, Command::Toggle),
        m@[1] == MenuEntry::Separator,
        m@[2] matches MenuEntry::Submenu { label, items } && (label@ == "Camera"@ && items.len()
            == devices.len() && forall|k: int|
            0 <= k < items.len() ==> is_camera_item(#[trigger] items@[k], devices@[k])),
        m@[3] == MenuEntry::Separator,
        m@[4] matches MenuEntry::Item(i) && is_item(i, "Quit"@, Command::Stop),
{
    let mut items: Vec<MenuItem> = Vec::new();
    let mut k: usize = 0;
    while k < devices.len()
        invariant
            k <= devices.len(),
            items.len() == k,
            forall|j: int| 0 <= j < k ==> is_camera_item(#[trigger] items@[j], devices@[j]),
        decreases devices.len() - k,
    {
        items.push(camera_item(&devices[k]));
        k = k + 1;
    }
    let mut m: Vec<MenuEntry> = Vec::new();
    m.push(
        MenuEntry::Item(
            MenuItem { label: String::from_str("Toggle Camera"), command: Command::Toggle },
        ),
    );
    m.push(MenuEntry::Separator);
    m.push(MenuEntry::Submenu { label: String::from_str("Camera"), items });
    m.push(MenuEntry::Separator);
    m.push(MenuEntry::Item(MenuItem { label: String::from_str("Quit"), command: Command::Stop }));
    m
}

/// A click on the icon toggles the overlay.
pub fn tray_activate() -> (c: Command)
    ensures
        c == Command::Toggle,
{
    Command::Toggle
}

} // verus!
