//! Webcams: choosing the best capture resolution from what a device offers,
//! describing the capture pipeline, and the settings a pipeline is built with.
use vstd::prelude::*;
use crate::text::{decimal, str_eq, u32_to_decimal};

verus! {

/// A webcam as the `devices` listing reports it.
#[derive(Debug, Clone, PartialEq, Eq)]
pub struct CameraDevice {
    pub name: String,
    pub path: String,
    pub max_resolution: Option<(u32, u32)>,
}

/// One structure of a device's capabilities: its media type and its width
/// and height (the largest of a range), where it has them as integers.
#[derive(Debug, Clone, PartialEq, Eq)]
pub struct CapsEntry {
    pub format: String,
    pub width: Option<i32>,
    pub height: Option<i32>,
}

/// What the device monitor tells of one video source.
#[derive(Debug, Clone, PartialEq, Eq)]
pub struct ProbedDevice {
    pub name: String,
    /// The `device.path` property, if the device has one.
    pub path: Option<String>,
    /// The device's capabilities, if it reports them.
    pub caps: Option<Vec<CapsEntry>>,
}

/// The widest capture resolution the pipeline asks a camera for (720p).
pub const CAPTURE_MAX_WIDTH: i32 = 1280;

/// The tallest capture resolution the pipeline asks a camera for (720p).
pub const CAPTURE_MAX_HEIGHT: i32 = 720;

/// A capture format the pipeline can take: raw video or JPEG.
pub open spec fn is_capture_format(e: CapsEntry) -> bool {
    e.format@ == "video/x-raw"@ || e.format@ == "image/jpeg"@
}

/// A capture format entry that lacks a width or a height.
pub open spec fn is_incomplete(e: CapsEntry) -> bool {
    is_capture_format(e) && (e.width is None || e.height is None)
}

/// A capture format entry with both dimensions, no wider than `max_width`
/// and no taller than `max_height`.
pub open spec fn is_candidate(e: CapsEntry, max_width: int, max_height: int) -> bool {
    &&& is_capture_format(e)
    &&& e.width is Some
    &&& e.height is Some
    &&& e.width.unwrap() <= max_width
    &&& e.height.unwrap() <= max_height
}

/// The pixel count of a capability entry that has both dimensions.
pub open spec fn caps_area(e: CapsEntry) -> int {
    e.width.unwrap() * e.height.unwrap()
}

/// The result of scanning capability entries in order: `None` when a capture
/// format without both dimensions stops the scan, else the best candidate so
/// far (the first of the largest area).
pub open spec fn caps_scan(caps: Seq<CapsEntry>, max_width: int, max_height: int) -> Option<Option<CapsEntry>>
    decreases caps.len(),
{
    if caps.len() == 0 {
        Some(None)
    } else {
        match caps_scan(caps.drop_last(), max_width, max_height) {
            None => None,
            Some(best) => {
                let e = caps.last();
                if is_incomplete(e) {
                    None
                } else if !is_candidate(e, max_width, max_height) {
                    Some(best)
                } else {
                    match best {
                        None => Some(Some(e)),
                        Some(b) => if caps_area(e) > caps_area(b) {
                            Some(Some(e))
                        } else {
                            Some(Some(b))
                        },
                    }
                }
            },
        }
    }
}

/// The largest capture resolution on offer within `max_width` by `max_height`, as
/// `(width, height, format)`.
pub open spec fn best_resolution_spec(caps: Seq<CapsEntry>, max_width: int, max_height: int) -> Option<(u32, u32, Seq<char>)> {
    match caps_scan(caps, max_width, max_height) {
        Some(Some(e)) => Some((e.width.unwrap() as u32, e.height.unwrap() as u32, e.format@)),
        _ => None,
    }
}

/// The largest capture resolution among a device's capabilities: of the raw
/// and JPEG entries within `max_width` by `max_height`, the first one with the
/// largest area. `None` when there is no such entry, or when a raw or JPEG
/// entry lacks a width or a height.
pub fn best_resolution(caps: &Vec<CapsEntry>, max_width: i32, max_height: i32) -> (r: Option<(u32, u32, String)>)
    ensures
        match (r, best_resolution_spec(caps@, max_width as int, max_height as int)) {
            (None, None) => true,
            (Some((w, h, f)), Some((w2, h2, f2))) => w == w2 && h == h2 && f@ == f2,
            _ => false,
        },
{
    let ghost mw = max_width as int;
    let ghost mh = max_height as int;
    let mut best: Option<usize> = None;
    let mut best_area: i64 = 0;
    let mut i: usize = 0;
    while i < caps.len()
        invariant
            i <= caps.len(),
            mw == max_width,
            mh == max_height,
            caps_scan(caps@.subrange(0, i as int), mw, mh) is Some,
            match caps_scan(caps@.subrange(0, i as int), mw, mh) {
                Some(None) => best is None,
                Some(Some(e)) => best matches Some(k) && k < i && caps@[k as int] == e
                    && best_area == caps_area(e) && e.width is Some && e.height is Some,
                None => false,
            },
        decreases caps.len() - i,
    {
        let e = &caps[i];
        assert(caps@.subrange(0, i + 1).drop_last() =~= caps@.subrange(0, i as int));
        let relevant = str_eq(e.format.as_str(), "video/x-raw") || str_eq(
            e.format.as_str(),
            "image/jpeg",
        );
        if relevant {
            match (e.width, e.height) {
                (Some(w), Some(h)) => {
                    if w <= max_width && h <= max_height {
                        assert(-0x4000_0000_0000_0000 <= (w as int) * (h as int)
                            <= 0x4000_0000_0000_0000) by (nonlinear_arith)
                            requires
                                -0x8000_0000 <= w <= 0x7fff_ffff,
                                -0x8000_0000 <= h <= 0x7fff_ffff,
                        ;
                        let area = (w as i64) * (h as i64);
                        match best {
                            None => {
                                best = Some(i);
                                best_area = area;
                            },
                            Some(_) => {
                                if area > best_area {
                                    best = Some(i);
                                    best_area = area;
                                }
                            },
                        }
                    }
                },
                _ => {
                    assert(caps_scan(caps@.subrange(0, i + 1), mw, mh) is None);
                    proof {
                        lemma_scan_stays_stopped(caps@, i as int + 1, mw, mh);
                    }
                    assert(caps@.subrange(0, caps@.len() as int) =~= caps@);
                    return None;
                },
            }
        }
        i = i + 1;
    }
    assert(caps@.subrange(0, i as int) =~= caps@);
    match best {
        None => None,
        Some(k) => {
            let e = &caps[k];
            let w = match e.width {
                Some(w) => w,
                None => 0,
            };
            let h = match e.height {
                Some(h) => h,
                None => 0,
            };
            Some((w as u32, h as u32, e.format.clone()))
        },
    }
}

/// Once a scan has stopped, longer prefixes stop it too.
proof fn lemma_scan_stays_stopped(caps: Seq<CapsEntry>, k: int, mw: int, mh: int)
    requires
        0 <= k <= caps.len(),
        caps_scan(caps.subrange(0, k), mw, mh) is None,
    ensures
        caps_scan(caps, mw, mh) is None,
    decreases caps.len() - k,
{
    if k < caps.len() {
        assert(caps.subrange(0, k + 1).drop_last() =~= caps.subrange(0, k));
        lemma_scan_stays_stopped(caps, k + 1, mw, mh);
    } else {
        assert(caps.subrange(0, k) =~= caps);
    }
}

/// The scan stops exactly when a raw or JPEG entry lacks a dimension; it
/// finds nothing exactly when, besides, no entry is a candidate; and what it
/// finds is a candidate entry of the list whose area no candidate exceeds,
/// ahead of every other candidate of that area.
pub proof fn lemma_best_resolution_is_largest(caps: Seq<CapsEntry>, mw: int, mh: int)
    ensures
        caps_scan(caps, mw, mh) is None <==> exists|i: int|
            0 <= i < caps.len() && is_incomplete(#[trigger] caps[i]),
        caps_scan(caps, mw, mh) == Some(None::<CapsEntry>) <==> forall|i: int|
            0 <= i < caps.len() ==> !is_incomplete(#[trigger] caps[i]) && !is_candidate(
                caps[i],
                mw,
                mh,
            ),
        caps_scan(caps, mw, mh) matches Some(Some(b)) ==> exists|i: int|
            #![trigger caps[i]]
            0 <= i < caps.len() && caps[i] == b && is_candidate(b, mw, mh) && (forall|j: int|
                0 <= j < caps.len() && is_candidate(#[trigger] caps[j], mw, mh) ==> caps_area(caps[j])
                    <= caps_area(b)) && (forall|j: int|
                0 <= j < i && is_candidate(#[trigger] caps[j], mw, mh) ==> caps_area(caps[j])
                    < caps_area(b)),
    decreases caps.len(),
{
    if caps.len() > 0 {
        let prev = caps.drop_last();
        lemma_best_resolution_is_largest(prev, mw, mh);
        let n = caps.len() - 1;
        assert forall|i: int|
            #![trigger caps[i]]
            #![trigger prev[i]]
            0 <= i < n implies caps[i] == prev[i] by {}
        let e = caps.last();
        assert(caps[n] == e);
        match caps_scan(prev, mw, mh) {
            None => {
                let i = choose|i: int| 0 <= i < prev.len() && is_incomplete(#[trigger] prev[i]);
                assert(caps[i] == prev[i]);
            },
            Some(None) => {},
            Some(Some(b)) => {
                let k = choose|i: int|
                    #![trigger prev[i]]
                    0 <= i < prev.len() && prev[i] == b && is_candidate(b, mw, mh) && (forall|j: int|
                        0 <= j < prev.len() && is_candidate(#[trigger] prev[j], mw, mh) ==> caps_area(
                            prev[j],
                        ) <= caps_area(b)) && (forall|j: int|
                        0 <= j < i && is_candidate(#[trigger] prev[j], mw, mh) ==> caps_area(prev[j])
                            < caps_area(b));
                assert(caps[k] == b);
                if is_incomplete(e) {
                } else if is_candidate(e, mw, mh) && caps_area(e) > caps_area(b) {
                    assert forall|j: int|
                        0 <= j < caps.len() && is_candidate(#[trigger] caps[j], mw, mh) implies caps_area(
                        caps[j],
                    ) <= caps_area(e) by {
                        if j < n {
                            assert(caps[j] == prev[j]);
                        }
                    }
                    assert forall|j: int|
                        0 <= j < n && is_candidate(#[trigger] caps[j], mw, mh) implies caps_area(
                        caps[j],
                    ) < caps_area(e) by {
                        assert(caps[j] == prev[j]);
                    }
                } else {
                    assert forall|j: int|
                        0 <= j < caps.len() && is_candidate(#[trigger] caps[j], mw, mh) implies caps_area(
                        caps[j],
                    ) <= caps_area(b) by {
                        if j < n {
                            assert(caps[j] == prev[j]);
                        }
                    }
                    assert forall|j: int|
                        0 <= j < k && is_candidate(#[trigger] caps[j], mw, mh) implies caps_area(
                        caps[j],
                    ) < caps_area(b) by {
                        assert(caps[j] == prev[j]);
                    }
                }
            },
        }
    }
}

// ---------------------------------------------------------------------------
// Devices
// ---------------------------------------------------------------------------

/// The resolution to capture from capabilities: the largest up to 720p
/// (1280 by 720) when one fits, otherwise the largest on offer.
pub open spec fn capture_resolution_spec(caps: Seq<CapsEntry>) -> Option<(u32, u32, Seq<char>)> {
    match best_resolution_spec(caps, CAPTURE_MAX_WIDTH as int, CAPTURE_MAX_HEIGHT as int) {
        Some(r) => Some(r),
        None => best_resolution_spec(caps, i32::MAX as int, i32::MAX as int),
    }
}

/// The resolution to capture from a probed device when it is the device at
/// `path`.
pub open spec fn device_resolution_spec(d: ProbedDevice, path: Seq<char>) -> Option<(u32, u32, Seq<char>)> {
    match (d.path, d.caps) {
        (Some(p), Some(c)) => if p@ == path {
            capture_resolution_spec(c@)
        } else {
            None
        },
        _ => None,
    }
}

/// The capture resolution of the first device at `path`, in monitor order,
/// that offers one.
pub open spec fn max_resolution_spec(ds: Seq<ProbedDevice>, path: Seq<char>) -> Option<(u32, u32, Seq<char>)>
    decreases ds.len(),
{
    if ds.len() == 0 {
        None
    } else {
        match device_resolution_spec(ds[0], path) {
            Some(r) => Some(r),
            None => max_resolution_spec(ds.drop_first(), path),
        }
    }
}

fn device_resolution(d: &ProbedDevice, path: &str) -> (r: Option<(u32, u32, String)>)
    ensures
        match (r, device_resolution_spec(*d, path@)) {
            (None, None) => true,
            (Some((w, h, f)), Some((w2, h2, f2))) => w == w2 && h == h2 && f@ == f2,
            _ => false,
        },
{
    match (&d.path, &d.caps) {
        (Some(p), Some(c)) => if str_eq(p.as_str(), path) {
            match best_resolution(c, CAPTURE_MAX_WIDTH, CAPTURE_MAX_HEIGHT) {
                Some(r) => Some(r),
                None => best_resolution(c, i32::MAX, i32::MAX),
            }
        } else {
            None
        },
        _ => None,
    }
}

/// The resolution, with its format, to capture from the device at
/// `device_path`: its largest one up to 720p (1280 by 720), or its largest
/// one when none fits, from the first device found at that path that offers
/// one.
pub fn max_resolution_for(devices: &Vec<ProbedDevice>, device_path: &str) -> (r: Option<
    (u32, u32, String),
>)
    ensures
        match (r, max_resolution_spec(devices@, device_path@)) {
            (None, None) => true,
            (Some((w, h, f)), Some((w2, h2, f2))) => w == w2 && h == h2 && f@ == f2,
            _ => false,
        },
{
    let mut i: usize = 0;
    assert(devices@.subrange(0, devices@.len() as int) =~= devices@);
    while i < devices.len()
        invariant
            i <= devices.len(),
            max_resolution_spec(devices@, device_path@) == max_resolution_spec(
                devices@.subrange(i as int, devices@.len() as int),
                device_path@,
            ),
        decreases devices.len() - i,
    {
        let ghost rest = devices@.subrange(i as int, devices@.len() as int);
        assert(rest[0] == devices@[i as int]);
        assert(rest.drop_first() =~= devices@.subrange(i + 1, devices@.len() as int));
        let found = device_resolution(&devices[i], device_path);
        if found.is_some() {
            return found;
        }
        i = i + 1;
    }
    None
}

/// Every dimension of a device's capabilities is non-negative.
pub open spec fn dims_non_negative(caps: Seq<CapsEntry>) -> bool {
    forall|i: int|
        0 <= i < caps.len() ==> (#[trigger] caps[i]).width.unwrap_or(0) >= 0
            && caps[i].height.unwrap_or(0) >= 0
}

/// The resolution chosen from capabilities with non-negative dimensions fits
/// within the bounds it was chosen under.
pub proof fn lemma_best_resolution_within(caps: Seq<CapsEntry>, mw: int, mh: int)
    requires
        dims_non_negative(caps),
    ensures
        best_resolution_spec(caps, mw, mh) matches Some((w, h, _)) ==> w <= mw && h <= mh,
{
    lemma_best_resolution_is_largest(caps, mw, mh);
    if let Some(Some(b)) = caps_scan(caps, mw, mh) {
        let i = choose|i: int|
            #![trigger caps[i]]
            0 <= i < caps.len() && caps[i] == b && is_candidate(b, mw, mh) && (forall|j: int|
                0 <= j < caps.len() && is_candidate(#[trigger] caps[j], mw, mh) ==> caps_area(
                    caps[j],
                ) <= caps_area(b)) && (forall|j: int|
                0 <= j < i && is_candidate(#[trigger] caps[j], mw, mh) ==> caps_area(caps[j])
                    < caps_area(b));
        assert(caps[i].width.unwrap_or(0) >= 0);
    }
}

/// Capture stays within 720p whenever a mode fits: then the resolution asked
/// of a device is the largest mode up to 1280 by 720, and it fits, provided
/// the device reports no negative dimension. When none fits, the largest mode
/// is asked for.
pub proof fn lemma_capture_within_720p(caps: Seq<CapsEntry>)
    requires
        dims_non_negative(caps),
    ensures
        best_resolution_spec(caps, CAPTURE_MAX_WIDTH as int, CAPTURE_MAX_HEIGHT as int) is Some
            ==> capture_resolution_spec(caps) == best_resolution_spec(
            caps,
            CAPTURE_MAX_WIDTH as int,
            CAPTURE_MAX_HEIGHT as int,
        ) && (capture_resolution_spec(caps) matches Some((w, h, _)) ==> w <= CAPTURE_MAX_WIDTH
            && h <= CAPTURE_MAX_HEIGHT),
        best_resolution_spec(caps, CAPTURE_MAX_WIDTH as int, CAPTURE_MAX_HEIGHT as int) is None
            ==> capture_resolution_spec(caps) == best_resolution_spec(
            caps,
            i32::MAX as int,
            i32::MAX as int,
        ),
{
    lemma_best_resolution_within(caps, CAPTURE_MAX_WIDTH as int, CAPTURE_MAX_HEIGHT as int);
}

/// The path reported for a device without a `device.path` property.
pub open spec fn default_device_path() -> Seq<char> {
    "/dev/video0"@
}

/// The listing entry for a probed device: its name, its path (or the default
/// one), and the size of its largest capture resolution, whatever its size.
pub open spec fn lists_device(c: CameraDevice, d: ProbedDevice) -> bool {
    &&& c.name@ == d.name@
    &&& c.path@ == match d.path {
        Some(p) => p@,
        None => default_device_path(),
    }
    &&& c.max_resolution == match d.caps {
        Some(caps) => match best_resolution_spec(caps@, i32::MAX as int, i32::MAX as int) {
            Some((w, h, _)) => Some((w, h)),
            None => None,
        },
        None => None,
    }
}

fn describe_device(d: &ProbedDevice) -> (c: CameraDevice)
    ensures
        lists_device(c, *d),
{
    let path = match &d.path {
        Some(p) => p.clone(),
        None => String::from_str("/dev/video0"),
    };
    let max_resolution = match &d.caps {
        Some(caps) => match best_resolution(caps, i32::MAX, i32::MAX) {
            Some((w, h, _)) => Some((w, h)),
            None => None,
        },
        None => None,
    };
    CameraDevice { name: d.name.clone(), path, max_resolution }
}

// ---------------------------------------------------------------------------
// Pipeline
// ---------------------------------------------------------------------------

/// The capture and decode stage for a device, given its best resolution.
pub open spec fn source_stage(device: Seq<char>, max: Option<(u32, u32, Seq<char>)>) -> Seq<char> {
    match max {
        Some((w, h, f)) => if f == "image/jpeg"@ {
            "v4l2src device="@ + device + " ! image/jpeg,width="@ + decimal(w as nat) + ",height="@
                + decimal(h as nat) + " ! jpegdec ! videoconvert"@
        } else {
            "v4l2src device="@ + device + " ! video/x-raw,width="@ + decimal(w as nat) + ",height="@
                + decimal(h as nat) + " ! videoconvert"@
        },
        None => "v4l2src device="@ + device + " ! videoconvert"@,
    }
}

/// The whole pipeline: capture, crop to a square, mirror, scale to `size`
/// pixels of BGRA, and hand the newest frame to the application sink.
pub open spec fn pipeline_spec(device: Seq<char>, size: u32, max: Option<(u32, u32, Seq<char>)>) -> Seq<char> {
    source_stage(device, max)
        + " ! aspectratiocrop aspect-ratio=1/1 ! videoflip method=horizontal-flip ! videoscale"@
        + " ! video/x-raw,format=BGRA,width="@ + decimal(size as nat) + ",height="@ + decimal(size as nat)
        + " ! appsink name=sink max-buffers=1 drop=true sync=false"@
}

/// The settings a camera pipeline is built with.
#[derive(Debug, Clone, PartialEq, Eq)]
pub struct CameraPipeline {
    pub device_path: String,
    pub size: u32,
}

impl CameraPipeline {
    /// Settings for capturing from `device_path` at `size` pixels square.
    pub fn new(device_path: &str, size: u32) -> (r: CameraPipeline)
        ensures
            r.device_path@ == device_path@,
            r.size == size,
    {
        CameraPipeline { device_path: String::from_str(device_path), size }
    }

    /// Update the desired capture size; it takes effect on the next rebuild.
    pub fn set_size(&mut self, size: u32)
        ensures
            final(self).size == size,
            final(self).device_path == old(self).device_path,
    {
        self.size = size;
    }

    /// Record the device that the rebuilt pipeline captures from.
    pub fn set_device(&mut self, device_path: &str)
        ensures
            final(self).device_path@ == device_path@,
            final(self).size == old(self).size,
    {
        self.device_path = String::from_str(device_path);
    }

    /// The webcams found, in the order the device monitor reported them.
    pub fn list_devices(devices: &Vec<ProbedDevice>) -> (r: Vec<CameraDevice>)
        ensures
            r.len() == devices.len(),
            forall|i: int| 0 <= i < r.len() ==> lists_device(#[trigger] r@[i], devices@[i]),
    {
        let mut r: Vec<CameraDevice> = Vec::new();
        let mut i: usize = 0;
        while i < devices.len()
            invariant
                i <= devices.len(),
                r.len() == i,
                forall|k: int| 0 <= k < i ==> lists_device(#[trigger] r@[k], devices@[k]),
            decreases devices.len() - i,
        {
            let c = describe_device(&devices[i]);
            r.push(c);
            i = i + 1;
        }
        r
    }

    /// The pipeline description for these settings, given the device's best
    /// resolution (`None` when it could not be found).
    pub fn description(&self, max: &Option<(u32, u32, String)>) -> (r: String)
        ensures
            r@ == pipeline_spec(
                self.device_path@,
                self.size,
                match max {
                    Some((w, h, f)) => Some((*w, *h, f@)),
                    None => None,
                },
            ),
            exists|prefix: Seq<char>|
                r@ == prefix + " ! video/x-raw,format=BGRA,width="@ + decimal(self.size as nat)
                    + ",height="@ + decimal(self.size as nat)
                    + " ! appsink name=sink max-buffers=1 drop=true sync=false"@,
    {
        let ghost m = match max {
            Some((w, h, f)) => Some((*w, *h, f@)),
            None => None,
        };
        proof {
            lemma_frames_have_pipeline_size(self.device_path@, self.size, m);
        }
        let mut r = String::from_str("v4l2src device=");
        r.append(self.device_path.as_str());
        match max {
            Some((w, h, f)) => {
                let jpeg = str_eq(f.as_str(), "image/jpeg");
                if jpeg {
                    r.append(" ! image/jpeg,width=");
                } else {
                    r.append(" ! video/x-raw,width=");
                }
                r.append(u32_to_decimal(*w).as_str());
                r.append(",height=");
                r.append(u32_to_decimal(*h).as_str());
                if jpeg {
                    r.append(" ! jpegdec ! videoconvert");
                } else {
                    r.append(" ! videoconvert");
                }
            },
            None => {
                r.append(" ! videoconvert");
            },
        }
        r.append(
            " ! aspectratiocrop aspect-ratio=1/1 ! videoflip method=horizontal-flip ! videoscale",
        );
        r.append(" ! video/x-raw,format=BGRA,width=");
        r.append(u32_to_decimal(self.size).as_str());
        r.append(",height=");
        r.append(u32_to_decimal(self.size).as_str());
        r.append(" ! appsink name=sink max-buffers=1 drop=true sync=false");
        r
    }
}

// ---------------------------------------------------------------------------
// Laws, stated over the capability entries themselves
// ---------------------------------------------------------------------------

/// A raw video or JPEG mode.
pub open spec fn raw_or_jpeg(e: CapsEntry) -> bool {
    e.format@ == "image/jpeg"@ || e.format@ == "video/x-raw"@
}

/// A raw video or JPEG mode with both a width and a height.
pub open spec fn complete_mode(e: CapsEntry) -> bool {
    raw_or_jpeg(e) && e.width is Some && e.height is Some
}

/// A complete raw video or JPEG mode at most `max_w` wide and `max_h` tall.
pub open spec fn mode_within(e: CapsEntry, max_w: int, max_h: int) -> bool {
    complete_mode(e) && e.width.unwrap() <= max_w && e.height.unwrap() <= max_h
}

/// The number of pixels of a complete mode: its width times its height.
pub open spec fn pixels(e: CapsEntry) -> int {
    (e.width.unwrap() as int) * (e.height.unwrap() as int)
}

/// `(w, h, f)` is the mode `caps[i]`, which fits `max_w` by `max_h`, has no
/// fewer pixels than any mode that fits, and more than every fitting mode
/// before it.
pub open spec fn largest_fitting_at(
    caps: Seq<CapsEntry>,
    i: int,
    max_w: int,
    max_h: int,
    w: u32,
    h: u32,
    f: Seq<char>,
) -> bool {
    &&& 0 <= i < caps.len()
    &&& mode_within(caps[i], max_w, max_h)
    &&& w == caps[i].width.unwrap() as u32
    &&& h == caps[i].height.unwrap() as u32
    &&& f == caps[i].format@
    &&& forall|j: int|
        0 <= j < caps.len() && mode_within(#[trigger] caps[j], max_w, max_h) ==> pixels(caps[j])
            <= pixels(caps[i])
    &&& forall|j: int|
        0 <= j < i && mode_within(#[trigger] caps[j], max_w, max_h) ==> pixels(caps[j]) < pixels(
            caps[i],
        )
}

/// The best resolution within `max_w` by `max_h` is a raw or JPEG mode of the
/// list that fits, with the most pixels of all fitting modes (the first such);
/// there is one whenever some mode fits and no raw or JPEG mode lacks a
/// dimension.
pub proof fn lemma_best_resolution_law(caps: Seq<CapsEntry>, max_w: int, max_h: int)
    ensures
        best_resolution_spec(caps, max_w, max_h) matches Some((w, h, f)) ==> exists|i: int|
            largest_fitting_at(caps, i, max_w, max_h, w, h, f),
        (forall|i: int|
            0 <= i < caps.len() && raw_or_jpeg(#[trigger] caps[i]) ==> caps[i].width is Some
                && caps[i].height is Some) && (exists|i: int|
            0 <= i < caps.len() && mode_within(#[trigger] caps[i], max_w, max_h))
            ==> best_resolution_spec(caps, max_w, max_h) is Some,
{
    lemma_best_resolution_is_largest(caps, max_w, max_h);
    if let Some((w, h, f)) = best_resolution_spec(caps, max_w, max_h) {
        let b = caps_scan(caps, max_w, max_h).unwrap().unwrap();
        assert(w == b.width.unwrap() as u32 && h == b.height.unwrap() as u32 && f == b.format@);
        let i = choose|i: int|
            #![trigger caps[i]]
            0 <= i < caps.len() && caps[i] == b && is_candidate(b, max_w, max_h) && (forall|j: int|
                0 <= j < caps.len() && is_candidate(#[trigger] caps[j], max_w, max_h) ==> caps_area(
                    caps[j],
                ) <= caps_area(b)) && (forall|j: int|
                0 <= j < i && is_candidate(#[trigger] caps[j], max_w, max_h) ==> caps_area(caps[j])
                    < caps_area(b));
        assert forall|j: int|
            0 <= j < caps.len() && mode_within(#[trigger] caps[j], max_w, max_h) implies pixels(
            caps[j],
        ) <= pixels(caps[i]) by {
            assert(is_candidate(caps[j], max_w, max_h));
        }
        assert forall|j: int|
            0 <= j < i && mode_within(#[trigger] caps[j], max_w, max_h) implies pixels(caps[j])
            < pixels(caps[i]) by {
            assert(is_candidate(caps[j], max_w, max_h));
        }
        assert(mode_within(caps[i], max_w, max_h));
        assert(largest_fitting_at(caps, i, max_w, max_h, w, h, f));
    }
    if (forall|i: int|
        0 <= i < caps.len() && raw_or_jpeg(#[trigger] caps[i]) ==> caps[i].width is Some
            && caps[i].height is Some) && (exists|i: int|
        0 <= i < caps.len() && mode_within(#[trigger] caps[i], max_w, max_h)) {
        let k = choose|i: int| 0 <= i < caps.len() && mode_within(#[trigger] caps[i], max_w, max_h);
        assert(is_candidate(caps[k], max_w, max_h));
        if caps_scan(caps, max_w, max_h) is None {
            let i = choose|i: int| 0 <= i < caps.len() && is_incomplete(#[trigger] caps[i]);
            assert(raw_or_jpeg(caps[i]));
        }
    }
}

/// The resolution captured from the device at `path` is one of its raw or
/// JPEG modes: when some complete mode fits 1280 by 720, the fitting one with
/// the most pixels; otherwise the one with the most pixels of all.
pub proof fn lemma_capture_resolution_law(d: ProbedDevice, path: Seq<char>)
    ensures
        device_resolution_spec(d, path) matches Some((w, h, f)) ==> {
            &&& d.path matches Some(p) && p@ == path
            &&& d.caps matches Some(c) && ({
                let caps = c@;
                &&& (exists|k: int| 0 <= k < caps.len() && mode_within(#[trigger] caps[k], 1280, 720))
                    ==> exists|i: int| largest_fitting_at(caps, i, 1280, 720, w, h, f)
                &&& (forall|k: int|
                    0 <= k < caps.len() ==> !mode_within(#[trigger] caps[k], 1280, 720))
                    ==> exists|i: int|
                    largest_fitting_at(caps, i, 0x7fff_ffff, 0x7fff_ffff, w, h, f)
            })
        },
{
    if let (Some(p), Some(c)) = (d.path, d.caps) {
        if p@ == path {
            let caps = c@;
            lemma_best_resolution_law(caps, 1280, 720);
            lemma_best_resolution_law(caps, 0x7fff_ffff, 0x7fff_ffff);
            if best_resolution_spec(caps, 1280, 720) is None {
                if exists|k: int| 0 <= k < caps.len() && mode_within(#[trigger] caps[k], 1280, 720) {
                    // Some mode fits, so a raw or JPEG mode lacks a dimension,
                    // and the unbounded scan stops on it as well.
                    lemma_best_resolution_is_largest(caps, 1280, 720);
                    lemma_best_resolution_is_largest(caps, 0x7fff_ffff, 0x7fff_ffff);
                    let k = choose|k: int| 0 <= k < caps.len() && mode_within(#[trigger] caps[k], 1280, 720);
                    assert(is_candidate(caps[k], 1280, 720));
                }
            }
        }
    }
}

/// The capture resolution of a list of devices is that of the first device
/// at the path that has one.
pub proof fn lemma_first_device_at_path(ds: Seq<ProbedDevice>, path: Seq<char>)
    ensures
        max_resolution_spec(ds, path) matches Some(r) ==> exists|k: int|
            0 <= k < ds.len() && device_resolution_spec(#[trigger] ds[k], path) == Some(r) && forall|
                j: int,
            | 0 <= j < k ==> device_resolution_spec(#[trigger] ds[j], path) is None,
        max_resolution_spec(ds, path) is None ==> forall|k: int|
            0 <= k < ds.len() ==> device_resolution_spec(#[trigger] ds[k], path) is None,
    decreases ds.len(),
{
    if ds.len() > 0 {
        let rest = ds.drop_first();
        lemma_first_device_at_path(rest, path);
        assert forall|k: int| 0 < k < ds.len() implies #[trigger] ds[k] == rest[k - 1] by {}
        if device_resolution_spec(ds[0], path) is None {
            if let Some(r) = max_resolution_spec(rest, path) {
                let k = choose|k: int|
                    0 <= k < rest.len() && device_resolution_spec(#[trigger] rest[k], path) == Some(r)
                        && forall|j: int|
                        0 <= j < k ==> device_resolution_spec(#[trigger] rest[j], path) is None;
                assert(ds[k + 1] == rest[k]);
                assert forall|j: int| 0 <= j < k + 1 implies device_resolution_spec(
                    #[trigger] ds[j],
                    path,
                ) is None by {
                    if j > 0 {
                        assert(ds[j] == rest[j - 1]);
                    }
                }
            } else {
                assert forall|k: int| 0 <= k < ds.len() implies device_resolution_spec(
                    #[trigger] ds[k],
                    path,
                ) is None by {
                    if k > 0 {
                        assert(ds[k] == rest[k - 1]);
                    }
                }
            }
        }
    }
}

/// A listed webcam's resolution is one of its complete raw or JPEG modes with
/// the most pixels, whatever its size.
pub proof fn lemma_listing_reports_largest(c: CameraDevice, d: ProbedDevice)
    requires
        lists_device(c, d),
    ensures
        c.max_resolution matches Some((w, h)) ==> (d.caps matches Some(caps) && exists|i: int|
            largest_fitting_at(caps@, i, 0x7fff_ffff, 0x7fff_ffff, w, h, caps@[i].format@)),
{
    if let Some(caps) = d.caps {
        lemma_best_resolution_law(caps@, 0x7fff_ffff, 0x7fff_ffff);
    }
}

/// The frames a pipeline delivers are `size` pixels square: its description
/// ends by scaling to BGRA of that width and height before the sink.
pub proof fn lemma_frames_have_pipeline_size(
    device: Seq<char>,
    size: u32,
    max: Option<(u32, u32, Seq<char>)>,
)
    ensures
        exists|prefix: Seq<char>|
            pipeline_spec(device, size, max) == prefix + " ! video/x-raw,format=BGRA,width="@
                + decimal(size as nat) + ",height="@ + decimal(size as nat)
                + " ! appsink name=sink max-buffers=1 drop=true sync=false"@,
{
    let prefix = source_stage(device, max)
        + " ! aspectratiocrop aspect-ratio=1/1 ! videoflip method=horizontal-flip ! videoscale"@;
    assert(pipeline_spec(device, size, max) =~= prefix + " ! video/x-raw,format=BGRA,width="@
        + decimal(size as nat) + ",height="@ + decimal(size as nat)
        + " ! appsink name=sink max-buffers=1 drop=true sync=false"@);
}

} // verus!
