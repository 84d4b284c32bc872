//! The device catalog: which devices there are, and what each can deliver.

use vstd::prelude::*;
use crate::engine::{succeeded, RESULT_OK};
use crate::format::{Format, FormatInfo};

verus! {

/// Capture device.
///
/// A descriptor, not a live resource: the index is only meaningful until the
/// engine enumerates its devices again.
#[derive(Debug)]
pub struct Device {
    /// Index
    pub index: u32,
    /// Name
    pub name: String,
    /// Unique identifier
    pub id: String,
}

/// What the engine answers when asked for one format slot of a device: a
/// status code and the record it filled in.
#[derive(Debug, Copy, Clone, PartialEq, Eq, Structural)]
pub struct FormatReply {
    pub status: u32,
    pub info: FormatInfo,
}

/// The indices `0, 1, .., count - 1`.
pub open spec fn indices(count: u32) -> Seq<u32> {
    Seq::new(count as nat, |i: int| i as u32)
}

/// Whether a lookup gave a result: a text that is there and not empty.
pub open spec fn answered(text: Option<String>) -> bool {
    text matches Some(t) && t@.len() > 0
}

/// The device that two lookups for `index` describe, if both gave a result.
/// A lookup that came back without a text, or with an empty one, gave none.
pub open spec fn described(index: u32, name: Option<String>, id: Option<String>) -> Option<Device> {
    match (name, id) {
        (Some(name), Some(id)) => if name@.len() > 0 && id@.len() > 0 {
            Some(Device { index, name, id })
        } else {
            None
        },
        _ => None,
    }
}

/// The formats of the slots that the engine answered with success, in slot
/// order; the other slots are left out.
pub open spec fn listed(replies: Seq<FormatReply>) -> Seq<Format>
    decreases replies.len(),
{
    if replies.len() == 0 {
        Seq::empty()
    } else if replies.last().status == RESULT_OK {
        listed(replies.drop_last()).push(Format::of_info(replies.last().info))
    } else {
        listed(replies.drop_last())
    }
}

/// A listing never holds more formats than slots were asked for, and holds
/// one for every slot where all slots succeeded.
pub proof fn lemma_listed_len(replies: Seq<FormatReply>)
    ensures
        listed(replies).len() <= replies.len(),
        (forall|i: int| 0 <= i < replies.len() ==> replies[i].status == RESULT_OK) ==> listed(
            replies,
        ).len() == replies.len(),
    decreases replies.len(),
{
    if replies.len() > 0 {
        lemma_listed_len(replies.drop_last());
    }
}

/// Every index of an enumeration of `count` devices is the position it
/// stands at, and looking it up gives either nothing or a descriptor that
/// carries this index and the two strings of the lookup: nothing exactly
/// where a lookup is missing or empty.
pub proof fn lemma_enumerated_index_opens(
    count: u32,
    i: int,
    name: Option<String>,
    id: Option<String>,
)
    requires
        0 <= i < count,
    ensures
        indices(count).len() == count,
        indices(count)[i] == i,
        described(indices(count)[i], name, id) is None <==> (!answered(name) || !answered(id)),
        described(indices(count)[i], name, id) matches Some(device) ==> device.index == i && Some(
            device.name,
        ) == name && Some(device.id) == id,
{
}

impl Device {
    /// Returns the list of valid device indices for an engine that reports
    /// `count` devices.
    pub fn enumerate(count: u32) -> (list: Vec<u32>)
        ensures
            list@ == indices(count),
    {
        let mut list: Vec<u32> = Vec::new();
        let mut i: u32 = 0;
        while i < count
            invariant
                i <= count,
                list@ == indices(i),
            decreases count - i,
        {
            list.push(i);
            assert(list@ =~= indices((i + 1) as u32));
            i += 1;
        }
        list
    }

    /// Returns a device instance from what the engine answered for the name
    /// and the unique identifier at `index`, or nothing where either lookup
    /// came back without a text or with an empty one: the index is then not
    /// valid at present.
    pub fn new(index: u32, name: Option<String>, id: Option<String>) -> (device: Option<Device>)
        ensures
            device == described(index, name, id),
            device is None <==> (!answered(name) || !answered(id)),
    {
        match (name, id) {
            (Some(name), Some(id)) => {
                if name.as_str().is_empty() || id.as_str().is_empty() {
                    None
                } else {
                    Some(Device { index, name, id })
                }
            },
            _ => None,
        }
    }

    /// Returns the supported formats, given the engine's answers for the
    /// format slots of this device in slot order. A slot that the engine did
    /// not answer with success is skipped.
    pub fn formats(&self, replies: &Vec<FormatReply>) -> (formats: Vec<Format>)
        ensures
            formats@ == listed(replies@),
    {
        let mut formats: Vec<Format> = Vec::new();
        let mut i: usize = 0;
        while i < replies.len()
            invariant
                i <= replies.len(),
                formats@ == listed(replies@.take(i as int)),
            decreases replies.len() - i,
        {
            let reply = replies[i];
            proof {
                assert(replies@.take(i + 1).drop_last() =~= replies@.take(i as int));
            }
            if succeeded(reply.status) {
                formats.push(Format::from(reply.info));
            }
            i += 1;
        }
        proof {
            assert(replies@.take(i as int) =~= replies@);
        }
        formats
    }
}

} // verus!
