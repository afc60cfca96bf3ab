//! The messages that the command-line client and the daemon exchange, the
//! line framing they travel in, and the PID file that tells whether a daemon
//! is already running.
use vstd::prelude::*;
use crate::text::{
    decimal, i32_to_decimal, is_whitespace, lemma_parse_decimal,
    lemma_parse_signed_decimal, lemma_signed_decimal_shape, lemma_trim_decimal,
    lemma_trim_no_whitespace_ends, lowercase, lowercase_spec, parse_i32, parse_i32_spec,
    parse_u32, parse_u32_spec, signed_decimal, str_eq, trim, trim_spec, u32_to_decimal,
    unsigned_body,
};

verus! {

// ---------------------------------------------------------------------------
// Messages
// ---------------------------------------------------------------------------

/// An overlay size: one of the three named sizes or a side length in pixels.
#[derive(Clone, Copy, Debug, PartialEq, Eq, Structural)]
pub enum SizeValue {
    Small,
    Medium,
    Large,
    Custom(u32),
}

/// A request from a client to the daemon.
#[derive(Clone, Debug, PartialEq, Eq)]
pub enum Command {
    Stop,
    Toggle,
    Status,
    Size(SizeValue),
    Select,
    SelectDevice(String),
    Devices,
}

/// The daemon's answer to a request; `D` is the data an answer carries.
#[derive(Clone, Debug, PartialEq, Eq)]
pub enum Response<D> {
    Done,
    OkData(D),
    Error(String),
}

/// The side length in pixels that a size stands for.
pub open spec fn size_in_px(v: SizeValue) -> u32 {
    match v {
        SizeValue::Small => 128,
        SizeValue::Medium => 200,
        SizeValue::Large => 300,
        SizeValue::Custom(px) => px,
    }
}

/// The size that a size argument names, given its lowercase form `lowered`:
/// a named size, matched without regard to case, or else a pixel count read
/// from the argument as it was written.
pub open spec fn size_value_spec(lowered: Seq<char>, s: Seq<char>) -> Option<SizeValue> {
    if lowered == "small"@ {
        Some(SizeValue::Small)
    } else if lowered == "medium"@ {
        Some(SizeValue::Medium)
    } else if lowered == "large"@ {
        Some(SizeValue::Large)
    } else {
        match parse_u32_spec(s) {
            Some(px) => Some(SizeValue::Custom(px)),
            None => None,
        }
    }
}

/// The size named by `s`, where `lowered` is `s` in lowercase.
pub fn size_value_from_lowered(lowered: &str, s: &str) -> (r: Option<SizeValue>)
    ensures
        r == size_value_spec(lowered@, s@),
{
    if str_eq(lowered, "small") {
        Some(SizeValue::Small)
    } else if str_eq(lowered, "medium") {
        Some(SizeValue::Medium)
    } else if str_eq(lowered, "large") {
        Some(SizeValue::Large)
    } else {
        match parse_u32(s) {
            Some(px) => Some(SizeValue::Custom(px)),
            None => None,
        }
    }
}

/// The size named by a `size` argument: `small`, `medium` or `large` in any
/// case, or a pixel count; `None` for anything else.
pub fn parse_size_value(s: &str) -> (r: Option<SizeValue>)
    ensures
        r == size_value_spec(lowercase_spec(s@), s@),
{
    let lowered = lowercase(s);
    size_value_from_lowered(lowered.as_str(), s)
}

// ---------------------------------------------------------------------------
// Framing: one message per line
// ---------------------------------------------------------------------------

/// A message as it goes over the socket: its text and a newline.
pub fn frame_message(payload: &str) -> (line: String)
    ensures
        line@ == payload@.push('\n'),
{
    let mut line = String::from_str(payload);
    line.append("\n");
    proof {
        reveal_strlit("\n");
    }
    assert(line@ =~= payload@.push('\n'));
    line
}

/// The text of a request line as the daemon reads it: the line without its
/// surrounding whitespace, refused when nothing else is left.
pub fn request_payload(line: &str) -> (r: Result<String, String>)
    ensures
        match r {
            Ok(p) => trim_spec(line@).len() > 0 && p@ == trim_spec(line@),
            Err(e) => trim_spec(line@).len() == 0 && e@ == "empty command"@,
        },
{
    let t = trim(line);
    if t.as_str().unicode_len() == 0 {
        Err(String::from_str("empty command"))
    } else {
        Ok(t)
    }
}

/// The text of a reply line as the client reads it: an empty read means the
/// daemon hung up; otherwise the line without its surrounding whitespace.
pub fn reply_payload(line: &str) -> (r: Result<String, String>)
    ensures
        match r {
            Ok(p) => line@.len() > 0 && p@ == trim_spec(line@),
            Err(e) => line@.len() == 0 && e@ == "daemon closed connection without responding"@,
        },
{
    if line.unicode_len() == 0 {
        Err(String::from_str("daemon closed connection without responding"))
    } else {
        Ok(trim(line))
    }
}

/// A message that does not begin or end with whitespace comes out of its
/// framed line unchanged, on either side of the socket.
pub proof fn lemma_frame_roundtrip(payload: Seq<char>)
    requires
        payload.len() > 0,
        !is_whitespace(payload[0]),
        !is_whitespace(payload.last()),
    ensures
        trim_spec(payload.push('\n')) == payload,
{
    let line = payload.push('\n');
    assert(is_whitespace('\n'));
    assert(line.drop_last() =~= payload);
    assert(line[0] == payload[0]);
    lemma_trim_no_whitespace_ends(payload);
    lemma_trim_start_keeps(line);
}

proof fn lemma_trim_start_keeps(s: Seq<char>)
    requires
        s.len() > 0,
        !is_whitespace(s[0]),
    ensures
        crate::text::trim_start_spec(s) == s,
{
}

// ---------------------------------------------------------------------------
// PID file
// ---------------------------------------------------------------------------

/// The text written to the PID file for a process id.
pub fn pid_file_contents(pid: u32) -> (s: String)
    ensures
        s@ == decimal(pid as nat),
{
    u32_to_decimal(pid)
}

/// The process id that a PID file holds: its trimmed text as a `u32`.
pub fn parse_pid_file(content: &str) -> (r: Option<u32>)
    ensures
        r == parse_u32_spec(trim_spec(content@)),
{
    let t = trim(content);
    parse_u32(t.as_str())
}

/// Reading a PID file gives back the process id that was written to it.
pub proof fn lemma_pid_file_roundtrip(pid: u32)
    ensures
        parse_u32_spec(trim_spec(decimal(pid as nat))) == Some(pid),
{
    lemma_trim_decimal(pid as nat);
    lemma_parse_decimal(pid);
}

/// What probing a process with the null signal reported.
#[derive(Clone, Copy, Debug, PartialEq, Eq, Structural)]
pub enum ProbeOutcome {
    /// The signal could be sent: the process exists.
    Alive,
    /// `ESRCH`: there is no such process.
    NoSuchProcess,
    /// `EPERM`: the process exists but belongs to someone else.
    PermissionDenied,
    /// Any other error.
    Failed,
}

/// Whether a daemon runs, and whether its PID file is stale and to be removed.
#[derive(Clone, Copy, Debug, PartialEq, Eq, Structural)]
pub struct Liveness {
    pub running: bool,
    pub stale: bool,
}

pub open spec fn liveness_spec(outcome: ProbeOutcome) -> Liveness {
    match outcome {
        ProbeOutcome::Alive => Liveness { running: true, stale: false },
        ProbeOutcome::NoSuchProcess => Liveness { running: false, stale: true },
        ProbeOutcome::PermissionDenied => Liveness { running: true, stale: false },
        ProbeOutcome::Failed => Liveness { running: false, stale: false },
    }
}

/// What a probe of the recorded process says about the daemon: a process
/// that exists runs (even one we may not signal); a missing one leaves a
/// stale PID file behind.
pub fn liveness(outcome: ProbeOutcome) -> (r: Liveness)
    ensures
        r == liveness_spec(outcome),
{
    match outcome {
        ProbeOutcome::Alive => Liveness { running: true, stale: false },
        ProbeOutcome::NoSuchProcess => Liveness { running: false, stale: true },
        ProbeOutcome::PermissionDenied => Liveness { running: true, stale: false },
        ProbeOutcome::Failed => Liveness { running: false, stale: false },
    }
}

/// Calls `nix::sys::signal::kill` with no signal on the process id taken as a
/// raw `pid_t`, and tells its outcome apart. Whether a process exists is up to
/// the machine, so nothing is stated of the outcome.
#[verifier::external_body]
fn probe_process(pid: u32) -> (r: ProbeOutcome) {
    match nix::sys::signal::kill(
        nix::unistd::Pid::from_raw(pid as i32),
        None::<nix::sys::signal::Signal>,
    ) {
        Ok(()) => ProbeOutcome::Alive,
        Err(nix::errno::Errno::ESRCH) => ProbeOutcome::NoSuchProcess,
        Err(nix::errno::Errno::EPERM) => ProbeOutcome::PermissionDenied,
        Err(_) => ProbeOutcome::Failed,
    }
}

/// Whether a daemon is already running, given the PID file's text (`None`
/// when there is no readable PID file): without a valid process id it is
/// not; otherwise the recorded process is probed.
pub fn is_already_running(pid_file: Option<&str>) -> (r: Liveness)
    ensures
        match pid_file {
            None => r == Liveness { running: false, stale: false },
            Some(content) => match parse_u32_spec(trim_spec(content@)) {
                None => r == Liveness { running: false, stale: false },
                Some(_) => exists|o: ProbeOutcome| r == liveness_spec(o),
            },
        },
{
    match pid_file {
        None => Liveness { running: false, stale: false },
        Some(content) => match parse_pid_file(content) {
            None => Liveness { running: false, stale: false },
            Some(pid) => {
                let outcome = probe_process(pid);
                liveness(outcome)
            },
        },
    }
}

// ---------------------------------------------------------------------------
// Position file
// ---------------------------------------------------------------------------

/// The text saved for an overlay position: `right,top` in pixels.
pub open spec fn position_text(right: i32, top: i32) -> Seq<char> {
    signed_decimal(right as int) + ","@ + signed_decimal(top as int)
}

/// `t` splits at `k` into two integers around a comma.
pub open spec fn splits_at(t: Seq<char>, k: int) -> bool {
    &&& 0 <= k < t.len()
    &&& t[k] == ','
    &&& parse_i32_spec(t.subrange(0, k)) is Some
    &&& parse_i32_spec(t.subrange(k + 1, t.len() as int)) is Some
}

/// The position a saved text holds: once trimmed, two integers separated by
/// a comma; `None` for anything else.
pub open spec fn parse_position_spec(s: Seq<char>) -> Option<(i32, i32)> {
    let t = trim_spec(s);
    if exists|k: int| splits_at(t, k) {
        let k = choose|k: int| splits_at(t, k);
        Some(
            (
                parse_i32_spec(t.subrange(0, k)).unwrap(),
                parse_i32_spec(t.subrange(k + 1, t.len() as int)).unwrap(),
            ),
        )
    } else {
        None
    }
}

/// An integer's text holds no comma.
proof fn lemma_parsed_has_no_comma(x: Seq<char>)
    requires
        parse_i32_spec(x) is Some,
    ensures
        forall|i: int| 0 <= i < x.len() ==> x[i] != ',',
{
    assert forall|i: int| 0 <= i < x.len() implies x[i] != ',' by {
        if i > 0 {
            if x[0] == '-' {
                assert(x.drop_first()[i - 1] == x[i]);
            } else {
                assert(unsigned_body(x) =~= x.drop_first() || unsigned_body(x) =~= x);
                if x[0] == '+' {
                    assert(x.drop_first()[i - 1] == x[i]);
                } else {
                    assert(unsigned_body(x)[i] == x[i]);
                }
            }
        } else {
            if x[0] != '-' && x[0] != '+' {
                assert(unsigned_body(x)[0] == x[0]);
            }
        }
    }
}

/// There is at most one place where a text splits into two integers.
proof fn lemma_split_unique(t: Seq<char>, k: int, j: int)
    requires
        splits_at(t, k),
        splits_at(t, j),
    ensures
        k == j,
{
    if j < k {
        lemma_parsed_has_no_comma(t.subrange(0, k));
        assert(t.subrange(0, k)[j] == t[j]);
    } else if k < j {
        lemma_parsed_has_no_comma(t.subrange(0, j));
        assert(t.subrange(0, j)[k] == t[k]);
    }
}

/// The text to save for an overlay position.
pub fn position_file_contents(right: i32, top: i32) -> (s: String)
    ensures
        s@ == position_text(right, top),
{
    let mut s = i32_to_decimal(right);
    s.append(",");
    let t = i32_to_decimal(top);
    s.append(t.as_str());
    s
}

/// The overlay position a saved text holds.
pub fn parse_position_file(content: &str) -> (r: Option<(i32, i32)>)
    ensures
        r == parse_position_spec(content@),
{
    let t = trim(content);
    let ts = t.as_str();
    let n = ts.unicode_len();
    let mut k: usize = 0;
    while k < n && ts.get_char(k) != ','
        invariant
            k <= n,
            n == ts@.len(),
            forall|i: int| 0 <= i < k ==> ts@[i] != ',',
        decreases n - k,
    {
        k = k + 1;
    }
    if k == n {
        return None;
    }
    let left = ts.substring_char(0, k);
    let right = ts.substring_char(k + 1, n);
    match (parse_i32(left), parse_i32(right)) {
        (Some(a), Some(b)) => {
            proof {
                assert(splits_at(t@, k as int));
                let j = choose|j: int| splits_at(t@, j);
                lemma_split_unique(t@, k as int, j);
            }
            Some((a, b))
        },
        _ => {
            proof {
                assert forall|j: int| !splits_at(t@, j) by {
                    if splits_at(t@, j) {
                        if j > k {
                            lemma_parsed_has_no_comma(t@.subrange(0, j));
                            assert(t@.subrange(0, j)[k as int] == t@[k as int]);
                        }
                    }
                }
            }
            None
        },
    }
}

/// Reading a saved position gives back the position that was saved.
pub proof fn lemma_position_file_roundtrip(right: i32, top: i32)
    ensures
        parse_position_spec(position_text(right, top)) == Some((right, top)),
{
    let a = signed_decimal(right as int);
    let b = signed_decimal(top as int);
    let t = position_text(right, top);
    reveal_strlit(",");
    assert(t[a.len() as int] == ',');
    lemma_signed_decimal_shape(right as int);
    lemma_signed_decimal_shape(top as int);
    assert(t[0] == a[0]);
    assert(t.last() == b.last());
    lemma_trim_no_whitespace_ends(t);
    let k = a.len() as int;
    assert(t.subrange(0, k) =~= a);
    assert(t.subrange(k + 1, t.len() as int) =~= b);
    lemma_parse_signed_decimal(right);
    lemma_parse_signed_decimal(top);
    assert(splits_at(t, k));
    let j = choose|j: int| splits_at(t, j);
    lemma_split_unique(t, k, j);
}

// ---------------------------------------------------------------------------
// Device file
// ---------------------------------------------------------------------------

/// The text saved for the last used webcam: its path on a line.
pub fn device_file_contents(path: &str) -> (s: String)
    ensures
        s@ == path@.push('\n'),
{
    frame_message(path)
}

/// The webcam path a saved text holds: the text without surrounding
/// whitespace, unless nothing is left.
pub fn parse_device_file(content: &str) -> (r: Option<String>)
    ensures
        match r {
            Some(p) => trim_spec(content@).len() > 0 && p@ == trim_spec(content@),
            None => trim_spec(content@).len() == 0,
        },
{
    let t = trim(content);
    if t.as_str().unicode_len() == 0 {
        None
    } else {
        Some(t)
    }
}

/// Reading the device file gives back the path saved in it, for any path
/// that does not begin or end with whitespace.
pub proof fn lemma_device_file_roundtrip(path: Seq<char>)
    requires
        path.len() > 0,
        !is_whitespace(path[0]),
        !is_whitespace(path.last()),
    ensures
        trim_spec(path.push('\n')) == path,
{
    lemma_frame_roundtrip(path);
}

} // verus!
