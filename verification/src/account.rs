//! How the account screen names the devices of the user's cluster.

use crate::text::{char_prefix, chars_of, concatenated, same_text, trim, trimmed};
use vstd::prelude::*;

verus! {

/// A device id cut to its first sixteen characters and "..." when longer.
pub open spec fn short_id_spec(id: Seq<char>) -> Seq<char> {
    if id.len() > 16 {
        id.take(16) + "..."@
    } else {
        id
    }
}

/// The id shown for a device that has no name.
pub fn short_id(id: &str) -> (r: String)
    ensures
        r@ == short_id_spec(id@),
{
    let n = chars_of(id).len();
    if n > 16 {
        let head = char_prefix(id, 16);
        concatenated(head.as_str(), "...")
    } else {
        String::from_str(id)
    }
}

/// A name counts when something is left of it once trimmed.
pub open spec fn usable_name(name: Option<Seq<char>>) -> bool {
    name matches Some(n) && trimmed(n).len() > 0
}

/// What a member row displays: this device's own local name; else the name
/// the device pushed to the backend; else the name of the only sync peer;
/// else its shortened id.
pub open spec fn device_label_spec(
    device_id: Seq<char>,
    name: Option<Seq<char>>,
    my_id: Seq<char>,
    my_name: Seq<char>,
    peer_fallback: Option<Seq<char>>,
) -> Seq<char> {
    if device_id == my_id {
        my_name
    } else if usable_name(name) {
        name->0
    } else if peer_fallback is Some {
        peer_fallback->0
    } else {
        short_id_spec(device_id)
    }
}

/// The label of a member device.
pub fn device_label(
    device_id: &str,
    name: &Option<String>,
    my_id: &str,
    my_name: &str,
    peer_fallback: &Option<String>,
) -> (r: String)
    ensures
        r@ == device_label_spec(
            device_id@,
            crate::text::opt_text(*name),
            my_id@,
            my_name@,
            crate::text::opt_text(*peer_fallback),
        ),
{
    if same_text(device_id, my_id) {
        return String::from_str(my_name);
    }
    if let Some(n) = name {
        let t = trim(n.as_str());
        if chars_of(t.as_str()).len() > 0 {
            return String::from_str(n.as_str());
        }
    }
    match peer_fallback {
        Some(p) => String::from_str(p.as_str()),
        None => short_id(device_id),
    }
}

/// How many of the devices are not `me`.
pub open spec fn others_count(ids: Seq<String>, me: Seq<char>) -> nat
    decreases ids.len(),
{
    if ids.len() == 0 {
        0
    } else {
        others_count(ids.drop_last(), me) + if ids.last()@ != me { 1nat } else { 0nat }
    }
}

/// The names the sync peers carry, in order.
pub open spec fn peer_names(names: Seq<Option<String>>) -> Seq<Seq<char>>
    decreases names.len(),
{
    if names.len() == 0 {
        Seq::empty()
    } else {
        let before = peer_names(names.drop_last());
        match names.last() {
            Some(n) => before.push(n@),
            None => before,
        }
    }
}

/// Until the backend carries names, the one named sync peer labels the
/// other device, when the cluster has exactly one other device and exactly
/// one sync peer has a name.
pub open spec fn peer_name_fallback_spec(
    device_ids: Seq<String>,
    this_device: Seq<char>,
    names: Seq<Option<String>>,
) -> Option<Seq<char>> {
    if others_count(device_ids, this_device) == 1 && peer_names(names).len() == 1 {
        Some(peer_names(names)[0])
    } else {
        None
    }
}

/// The name to show for the other device of the cluster, if one is known
/// from the sync peers.
pub fn peer_name_fallback(
    device_ids: &Vec<String>,
    this_device: &str,
    names: &Vec<Option<String>>,
) -> (r: Option<String>)
    ensures
        crate::text::opt_text(r) == peer_name_fallback_spec(device_ids@, this_device@, names@),
{
    let mut others: usize = 0;
    let mut i: usize = 0;
    while i < device_ids.len()
        invariant
            i <= device_ids@.len(),
            others == others_count(device_ids@.take(i as int), this_device@),
            others <= i,
        decreases device_ids@.len() - i,
    {
        assert(device_ids@.take(i as int + 1).drop_last() =~= device_ids@.take(i as int));
        if !same_text(device_ids[i].as_str(), this_device) {
            others += 1;
        }
        i += 1;
    }
    assert(device_ids@.take(device_ids@.len() as int) =~= device_ids@);
    let mut named: Vec<String> = Vec::new();
    let mut j: usize = 0;
    while j < names.len()
        invariant
            j <= names@.len(),
            crate::text::texts(named@) == peer_names(names@.take(j as int)),
        decreases names@.len() - j,
    {
        assert(names@.take(j as int + 1).drop_last() =~= names@.take(j as int));
        if let Some(n) = &names[j] {
            named.push(String::from_str(n.as_str()));
            assert(crate::text::texts(named@) =~= peer_names(names@.take(j as int + 1)));
        }
        j += 1;
    }
    assert(names@.take(names@.len() as int) =~= names@);
    if others == 1 && named.len() == 1 {
        assert(crate::text::texts(named@)[0] == named@[0]@);
        Some(String::from_str(named[0].as_str()))
    } else {
        None
    }
}

/// A one-time notice kept in the settings: shown when something is stored,
/// and then cleared (by storing the empty text), so that the next visit
/// shows nothing.
pub open spec fn notice_spec(stored: Option<Seq<char>>) -> (Option<Seq<char>>, bool) {
    match stored {
        Some(v) => if v.len() > 0 {
            (Some(v), true)
        } else {
            (None, false)
        },
        None => (None, false),
    }
}

/// Takes the one-time notice: what to show, and whether to clear it.
pub fn take_notice(stored: Option<String>) -> (r: (Option<String>, bool))
    ensures
        (crate::text::opt_text(r.0), r.1) == notice_spec(crate::text::opt_text(stored)),
{
    match stored {
        Some(v) => if v.as_str().is_empty() {
            (None, false)
        } else {
            (Some(v), true)
        },
        None => (None, false),
    }
}

/// The notice shows once: once taken (which stores the empty text), taking
/// it again shows nothing.
pub proof fn lemma_notice_shows_once(stored: Option<Seq<char>>)
    ensures
        notice_spec(stored).1 ==> notice_spec(Some(Seq::<char>::empty())).0 is None,
{
}

} // verus!
