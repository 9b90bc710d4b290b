//! Device sync: pairing a device over the local network, and the status
//! card of the sync engine.

use crate::settings::label_detail;
use crate::text::{
    char_prefix, chars_of, concatenated, decimal, decimal_string, entered, entered_spec, opt_text,
    push_str, same_text, to_upper, uppercase,
};
use vstd::prelude::*;

verus! {

/// Where a pairing offered by this device stands.
#[derive(Debug)]
pub enum PairingStatus {
    Waiting,
    Paired { device_id: String },
    Failed { message: String },
    Cancelled,
}

/// The status as plain values: a tag and its text.
pub open spec fn status_view(s: PairingStatus) -> (int, Seq<char>) {
    match s {
        PairingStatus::Waiting => (0, Seq::empty()),
        PairingStatus::Paired { device_id } => (1, device_id@),
        PairingStatus::Failed { message } => (2, message@),
        PairingStatus::Cancelled => (3, Seq::empty()),
    }
}

/// Whether two statuses say the same.
pub fn same_status(a: &PairingStatus, b: &PairingStatus) -> (r: bool)
    ensures
        r == (status_view(*a) == status_view(*b)),
{
    match (a, b) {
        (PairingStatus::Waiting, PairingStatus::Waiting) => true,
        (PairingStatus::Paired { device_id: x }, PairingStatus::Paired { device_id: y }) => same_text(
            x.as_str(),
            y.as_str(),
        ),
        (PairingStatus::Failed { message: x }, PairingStatus::Failed { message: y }) => same_text(
            x.as_str(),
            y.as_str(),
        ),
        (PairingStatus::Cancelled, PairingStatus::Cancelled) => true,
        _ => false,
    }
}

/// What the host's status poll does.
#[derive(Debug, Clone, Copy, PartialEq, Eq, Structural)]
pub enum HostPoll {
    /// The status shown is the one observed: nothing to do.
    Unchanged,
    /// Show the new status; reload the paired devices.
    ShowAndReloadPeers,
    /// Show the new status; the listener is gone, so drop the dead code and
    /// offer a fresh attempt.
    ShowAndDropHost,
    /// Show the new status.
    Show,
}

/// The poll's decision for a newly observed status.
pub open spec fn host_poll_spec(shown: Option<PairingStatus>, observed: PairingStatus) -> HostPoll {
    if shown is Some && status_view(shown->0) == status_view(observed) {
        HostPoll::Unchanged
    } else {
        match observed {
            PairingStatus::Paired { .. } => HostPoll::ShowAndReloadPeers,
            PairingStatus::Failed { .. } | PairingStatus::Cancelled => HostPoll::ShowAndDropHost,
            PairingStatus::Waiting => HostPoll::Show,
        }
    }
}

/// Decides what a poll of the pairing host does.
pub fn host_poll(shown: &Option<PairingStatus>, observed: &PairingStatus) -> (r: HostPoll)
    ensures
        r == host_poll_spec(*shown, *observed),
{
    if let Some(s) = shown {
        if same_status(s, observed) {
            return HostPoll::Unchanged;
        }
    }
    match observed {
        PairingStatus::Paired { .. } => HostPoll::ShowAndReloadPeers,
        PairingStatus::Failed { .. } | PairingStatus::Cancelled => HostPoll::ShowAndDropHost,
        PairingStatus::Waiting => HostPoll::Show,
    }
}

/// The status shown once starting the host has been tried: waiting for a
/// device when it listens, the failure otherwise.
pub fn started_status(outcome: Result<(), String>) -> (r: PairingStatus)
    ensures
        match outcome {
            Ok(()) => r is Waiting,
            Err(e) => r == (PairingStatus::Failed { message: e }),
        },
{
    match outcome {
        Ok(()) => PairingStatus::Waiting,
        Err(e) => PairingStatus::Failed { message: e },
    }
}

/// The line under the code: "paired with <id>", "<failed>: <error>", the
/// cancelled or waiting label (the labels in the user's language).
pub open spec fn status_line_spec(
    s: PairingStatus,
    paired_with: Seq<char>,
    failed: Seq<char>,
    cancelled: Seq<char>,
    waiting: Seq<char>,
) -> Seq<char> {
    match s {
        PairingStatus::Paired { device_id } => paired_with + " "@ + device_id@,
        PairingStatus::Failed { message } => failed + ": "@ + message@,
        PairingStatus::Cancelled => cancelled,
        PairingStatus::Waiting => waiting,
    }
}

/// The text of the pairing status line.
pub fn status_line(s: &PairingStatus, paired_with: &str, failed: &str, cancelled: &str, waiting: &str) -> (r: String)
    ensures
        r@ == status_line_spec(*s, paired_with@, failed@, cancelled@, waiting@),
{
    match s {
        PairingStatus::Paired { device_id } => {
            let mut out = concatenated(paired_with, " ");
            push_str(&mut out, device_id.as_str());
            out
        },
        PairingStatus::Failed { message } => label_detail(failed, message.as_str()),
        PairingStatus::Cancelled => String::from_str(cancelled),
        PairingStatus::Waiting => String::from_str(waiting),
    }
}

/// The pairing address typed or scanned, trimmed; `None` when the field is
/// empty or a join is already running (pressing does nothing then).
pub fn join_request(uri: &str, joining: bool) -> (r: Option<String>)
    ensures
        opt_text(r) == (if joining { None } else { entered_spec(uri@) }),
{
    if joining {
        None
    } else {
        entered(uri)
    }
}

/// The join button's label key.
pub fn join_button_key(joining: bool, scanned: bool) -> (r: &'static str)
    ensures
        r@ == (if joining {
            "sync-connecting"@
        } else if scanned {
            "sync-confirm-pairing"@
        } else {
            "sync-connect"@
        }),
{
    if joining {
        "sync-connecting"
    } else if scanned {
        "sync-confirm-pairing"
    } else {
        "sync-connect"
    }
}

/// The badge of a paired device: the first character of its id, upper
/// case, or "?" for an empty id.
pub fn peer_initial(device_id: &str) -> (r: String)
    ensures
        r@ == uppercase(if device_id@.len() == 0 { seq!['?'] } else { device_id@.take(1) }),
{
    if chars_of(device_id).len() == 0 {
        proof {
            reveal_strlit("?");
            assert("?"@ =~= seq!['?']);
        }
        to_upper("?")
    } else {
        let head = char_prefix(device_id, 1);
        assert(head@ =~= device_id@.take(1));
        to_upper(head.as_str())
    }
}

/// What the sync engine is doing, as its status card shows it.
#[derive(Debug)]
pub enum SyncActivity {
    Idle,
    Syncing,
    Done { at: String, pushed: u64, applied: u64, conflicts: u64, partial: Option<String> },
    Error { at: String, message: String },
}

/// "<at> · ↑<pushed> ↓<applied>", and " · <n> <conflicts>" when there were
/// conflicts.
pub open spec fn done_summary_spec(at: Seq<char>, pushed: nat, applied: nat, conflicts: nat, label: Seq<char>) -> Seq<char> {
    at + " · ↑"@ + decimal(pushed) + " ↓"@ + decimal(applied) + if conflicts > 0 {
        " · "@ + decimal(conflicts) + " "@ + label
    } else {
        Seq::empty()
    }
}

/// The summary line of a finished sync.
pub fn done_summary(at: &str, pushed: u64, applied: u64, conflicts: u64, conflicts_label: &str) -> (r: String)
    ensures
        r@ == done_summary_spec(at@, pushed as nat, applied as nat, conflicts as nat, conflicts_label@),
{
    let mut out = concatenated(at, " · ↑");
    let p = decimal_string(pushed);
    push_str(&mut out, p.as_str());
    push_str(&mut out, " ↓");
    let a = decimal_string(applied);
    push_str(&mut out, a.as_str());
    if conflicts > 0 {
        push_str(&mut out, " · ");
        let c = decimal_string(conflicts);
        push_str(&mut out, c.as_str());
        push_str(&mut out, " ");
        push_str(&mut out, conflicts_label);
    }
    out
}

/// The line of a failed sync: "<label> <at> · <message>".
pub fn error_line(label: &str, at: &str, message: &str) -> (r: String)
    ensures
        r@ == label@ + " "@ + at@ + " · "@ + message@,
{
    let mut out = concatenated(label, " ");
    push_str(&mut out, at);
    push_str(&mut out, " · ");
    push_str(&mut out, message);
    out
}

/// The line of a partly failed sync: "<label> <what failed>".
pub fn partial_line(label: &str, failed: &str) -> (r: String)
    ensures
        r@ == label@ + " "@ + failed@,
{
    let mut out = concatenated(label, " ");
    push_str(&mut out, failed);
    out
}

/// Whether "sync now" is offered: never while a sync runs, and only when a
/// device is paired.
pub fn sync_now_offered(activity: &SyncActivity, has_peers: bool) -> (r: bool)
    ensures
        r == (!(*activity is Syncing) && has_peers),
{
    match activity {
        SyncActivity::Syncing => false,
        _ => has_peers,
    }
}

/// The status card polls the engine every tick and the paired devices
/// (which wait on the database) every fourth tick.
pub fn peers_check_due(tick: u32) -> (r: bool)
    ensures
        r == (tick % 4 == 0),
{
    tick % 4 == 0
}

/// The next tick, wrapping past the largest value.
pub fn next_tick(tick: u32) -> (r: u32)
    ensures
        r == (if tick == u32::MAX { 0 } else { tick + 1 }),
{
    tick.wrapping_add(1)
}

} // verus!
