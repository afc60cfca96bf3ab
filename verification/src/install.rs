//! What `install` writes besides the binary and the icon.
use vstd::prelude::*;

verus! {

/// The launcher entry, pointing at the installed icon.
pub open spec fn desktop_entry_spec(icon_path: Seq<char>) -> Seq<char> {
    "[Desktop Entry]\nVersion=1.0\nType=Application\nName=Talking Head\nComment=Webcam talking head overlay for screen recording\nExec=talking-head start\nIcon="@
        + icon_path + "\nTerminal=false\nCategories=Video;Utility;\nStartupNotify=false\n"@
}

/// The contents of the `.desktop` file for an icon installed at `icon_path`.
pub fn desktop_entry(icon_path: &str) -> (s: String)
    ensures
        s@ == desktop_entry_spec(icon_path@),
{
    let mut s = String::from_str(
        "[Desktop Entry]\nVersion=1.0\nType=Application\nName=Talking Head\nComment=Webcam talking head overlay for screen recording\nExec=talking-head start\nIcon=",
    );
    s.append(icon_path);
    s.append("\nTerminal=false\nCategories=Video;Utility;\nStartupNotify=false\n");
    s
}

} // verus!
