//! The webcam picker: how devices are labelled and which one a choice names.
use vstd::prelude::*;
use crate::camera::CameraDevice;

verus! {

/// A device's row in the picker: its name, then its path in parentheses.
pub fn device_label(device: &CameraDevice) -> (s: String)
    ensures
        s@ == device.name@ + " ("@ + device.path@ + ")"@,
{
    let mut s = device.name.clone();
    s.append(" (");
    s.append(device.path.as_str());
    s.append(")");
    s
}

/// The path of the device in the selected row, if a row is selected and
/// there is a device for it.
pub fn picked_path(paths: &Vec<String>, selected_row: Option<i32>) -> (r: Option<String>)
    ensures
        match selected_row {
            Some(i) => if 0 <= i < paths.len() {
                r matches Some(p) && p@ == paths@[i as int]@
            } else {
                r is None
            },
            None => r is None,
        },
{
    match selected_row {
        Some(i) => if i >= 0 && (i as usize) < paths.len() {
            Some(paths[i as usize].clone())
        } else {
            None
        },
        None => None,
    }
}

} // verus!
