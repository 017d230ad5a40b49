//! Drag-and-drop payloads and the negotiated drop operation.

use vstd::prelude::*;

verus! {

/// The effect a completed drag-and-drop gesture is negotiated to have.
#[derive(Clone, Copy, Debug, PartialEq, Eq, Structural)]
pub enum DropOperation {
    NoOperation,
    Copy,
    Move,
    Link,
}

/// One file carried by a drag payload: its position in the live native file
/// list — by which the platform glue hands back the platform's own file
/// object — and the platform's name for it (a filesystem path, or the bare
/// file name on web targets).
#[derive(Clone, Debug, PartialEq)]
pub struct DropFile {
    pub index: u32,
    pub name: String,
}

/// The payload carried by a drag gesture: nothing, or a non-empty list of
/// files.
#[derive(Clone, Debug, PartialEq)]
pub enum DropData {
    Empty,
    Files(Vec<DropFile>),
}

impl Default for DropData {
    /// An empty payload.
    fn default() -> (r: DropData)
        ensures
            r is Empty,
    {
        DropData::Empty
    }
}

/// The payload a native file list translates to: an absent or empty list
/// collapses to no payload, a non-empty list is kept as it came.
pub open spec fn spec_drop_data_from_files(files: Option<Vec<DropFile>>) -> DropData {
    match files {
        Option::None => DropData::Empty,
        Option::Some(list) => if list@.len() == 0 {
            DropData::Empty
        } else {
            DropData::Files(list)
        },
    }
}

/// Translates the file list of a native drag payload, collapsing an absent or
/// empty list to `DropData::Empty`.
pub fn drop_data_from_files(files: Option<Vec<DropFile>>) -> (r: DropData)
    ensures
        r == spec_drop_data_from_files(files),
{
    match files {
        Option::None => DropData::Empty,
        Option::Some(list) => if list.len() == 0 {
            DropData::Empty
        } else {
            DropData::Files(list)
        },
    }
}

/// The effect name a drop operation advertises back to a native drag
/// session.
pub open spec fn spec_drop_effect_name(operation: DropOperation) -> Seq<char> {
    match operation {
        DropOperation::NoOperation => "none"@,
        DropOperation::Copy => "copy"@,
        DropOperation::Move => "move"@,
        DropOperation::Link => "link"@,
    }
}

/// The effect name a drop operation advertises back to a native drag
/// session.
pub fn drop_effect_name(operation: DropOperation) -> (r: &'static str)
    ensures
        r@ == spec_drop_effect_name(operation),
{
    match operation {
        DropOperation::NoOperation => "none",
        DropOperation::Copy => "copy",
        DropOperation::Move => "move",
        DropOperation::Link => "link",
    }
}

} // verus!
