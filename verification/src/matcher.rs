//! Deciding whether a folder satisfies the slots required of it.

use crate::config::{DataSlotView, InstancePackagerDataSlot, Sort};
use crate::error::PackagerError;
use crate::glob_resolver::get_glob_paths;
use crate::path_text::join;
use vstd::prelude::*;

verus! {

/// Whether `matched` files are acceptable for `slot`: a slot that is not
/// required accepts any number; a required one needs at least one file, and
/// exactly one when it is `Single`.
pub open spec fn slot_satisfied(slot: DataSlotView, matched: nat) -> bool {
    slot.required ==> matched >= 1 && (slot.sort == Sort::Single ==> matched == 1)
}

/// Whether a folder in which `counts[i]` files match the pattern of
/// `slots[i]` satisfies every slot.
pub open spec fn slots_satisfied(slots: Seq<DataSlotView>, counts: Seq<nat>) -> bool {
    forall|i: int| 0 <= i < slots.len() ==> slot_satisfied(#[trigger] slots[i], counts[i])
}

/// Whether no slot is required.
pub open spec fn none_required(slots: Seq<DataSlotView>) -> bool {
    forall|i: int| 0 <= i < slots.len() ==> !(#[trigger] slots[i]).required
}

/// A folder with a required `Single` slot matches exactly when one file
/// matches that slot and every other required slot is satisfied too.
pub proof fn lemma_required_single_slot(slots: Seq<DataSlotView>, counts: Seq<nat>, k: int)
    requires
        0 <= k < slots.len(),
        slots[k].required,
        slots[k].sort == Sort::Single,
    ensures
        slots_satisfied(slots, counts) <==> counts[k] == 1 && forall|j: int|
            0 <= j < slots.len() && j != k && (#[trigger] slots[j]).required ==> slot_satisfied(
                slots[j],
                counts[j],
            ),
{
    if slots_satisfied(slots, counts) {
        assert(slot_satisfied(slots[k], counts[k]));
    }
}

/// A folder without required slots matches whatever it holds.
pub proof fn lemma_none_required_matches(slots: Seq<DataSlotView>, counts: Seq<nat>)
    requires
        none_required(slots),
    ensures
        slots_satisfied(slots, counts),
{
}

/// Whether `matched` files are acceptable for `slot`.
pub fn slot_is_satisfied(slot: &InstancePackagerDataSlot, matched: usize) -> (satisfied: bool)
    ensures
        satisfied == slot_satisfied(slot@, matched as nat),
{
    if !slot.required {
        return true;
    }
    if matched == 0 {
        return false;
    }
    match slot.sort {
        Sort::Single => matched == 1,
        Sort::Ascending => true,
        Sort::Descending => true,
    }
}

/// Whether the folder at `path` satisfies `data_slots`. The pattern of each
/// required slot, placed under `path`, is resolved in turn; the first slot that
/// is not satisfied settles the answer as `false`, and the first resolution
/// that fails is returned as it is. Slots that are not required are not
/// resolved, nor are those that follow the slot that settled the answer.
///
/// What is found depends on the file system. Whatever it holds, the verdict is
/// that of [`slots_satisfied`] for some numbers of files, and a folder of
/// which nothing is required matches.
pub fn check_if_dir_matches_slots(data_slots: &Vec<InstancePackagerDataSlot>, path: &str) -> (verdict:
    Result<bool, PackagerError>)
    ensures
        none_required(data_slots.deep_view()) ==> verdict == Ok::<bool, PackagerError>(true),
        match verdict {
            Ok(matches) => exists|counts: Seq<nat>|
                counts.len() == data_slots.len() && matches == #[trigger] slots_satisfied(
                    data_slots.deep_view(),
                    counts,
                ),
            Err(failure) => failure == PackagerError::GlobPatternFailure || failure
                == PackagerError::PathEncodingFailure,
        },
{
    let ghost slots = data_slots.deep_view();
    let ghost mut counts: Seq<nat> = Seq::empty();
    let mut i: usize = 0;
    while i < data_slots.len()
        invariant
            i <= data_slots.len(),
            slots == data_slots.deep_view(),
            counts.len() == i,
            forall|j: int| 0 <= j < i ==> slot_satisfied(#[trigger] slots[j], counts[j]),
            forall|j: int| 0 <= j < i && (#[trigger] slots[j]).required ==> !none_required(slots),
        decreases data_slots.len() - i,
    {
        let slot = &data_slots[i];
        if slot.required {
            let full_glob = join(path, slot.filename.as_str());
            let paths = match get_glob_paths(full_glob.as_str()) {
                Ok(paths) => paths,
                Err(failure) => {
                    return Err(failure);
                },
            };
            if !slot_is_satisfied(slot, paths.len()) {
                proof {
                    let all = counts.push(paths.len() as nat) + Seq::new(
                        (data_slots.len() - i - 1) as nat,
                        |j: int| 0nat,
                    );
                    assert(!slot_satisfied(slots[i as int], all[i as int]));
                    assert(!slots_satisfied(slots, all));
                }
                return Ok(false);
            }
            proof {
                counts = counts.push(paths.len() as nat);
            }
        } else {
            proof {
                counts = counts.push(0nat);
            }
        }
        i += 1;
    }
    assert(slots_satisfied(slots, counts));
    Ok(true)
}

} // verus!
