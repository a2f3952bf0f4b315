//! Assembling the descriptor of a folder from the files that fill its slots.

use crate::config::{
    ConfigView,
    DataSlotView,
    InstancePackager,
    InstancePackagerDataSlot,
    SlotsCoresAndWrites,
    Sort,
    ValueView,
};
use crate::descriptor::{DescriptorView, InstanceJSON, MAGIC};
use crate::error::PackagerError;
use crate::glob_resolver::get_glob_paths;
use crate::path_text::{join, leaf_name, leaf_of, relative, relative_to};
use vstd::prelude::*;

verus! {

/// The files listed for slot `i`: none where the listing has no entry for it.
pub open spec fn files_of(listing: Seq<Seq<Seq<char>>>, i: int) -> Seq<Seq<char>> {
    if 0 <= i < listing.len() {
        listing[i]
    } else {
        Seq::empty()
    }
}

/// Which of `count` files, in the order in which they were found, gets
/// position `i` under `sort`: `Descending` takes them from the last to the
/// first, the other two as they come.
pub open spec fn source_index(sort: Sort, count: nat, i: int) -> int {
    if sort == Sort::Descending {
        count - 1 - i
    } else {
        i
    }
}

/// The values that `slot` contributes for the files `names`: one data slot for
/// each file, the file at position `i` under the id `slot.id + i`.
pub open spec fn slot_entries(slot: DataSlotView, names: Seq<Seq<char>>) -> Seq<ValueView> {
    Seq::new(
        names.len(),
        |i: int|
            ValueView::DataSlot {
                id: (slot.id + i) as nat,
                filename: names[source_index(slot.sort, names.len(), i)],
            },
    )
}

/// The values that the first `n` slots contribute, slot after slot.
pub open spec fn entries_upto(
    slots: Seq<DataSlotView>,
    listing: Seq<Seq<Seq<char>>>,
    n: nat,
) -> Seq<ValueView>
    decreases n,
{
    if n == 0 {
        Seq::empty()
    } else {
        entries_upto(slots, listing, (n - 1) as nat) + slot_entries(
            slots[n - 1],
            files_of(listing, n - 1),
        )
    }
}

/// The values that all slots contribute, in the order of the slots and, for
/// one slot, in the order of its positions.
pub open spec fn all_entries(slots: Seq<DataSlotView>, listing: Seq<Seq<Seq<char>>>) -> Seq<
    ValueView,
> {
    entries_upto(slots, listing, slots.len())
}

/// Whether the ids of `count` files of `slot` are in the range of ids.
pub open spec fn slot_ids_fit(slot: DataSlotView, count: nat) -> bool {
    count == 0 || slot.id + count - 1 <= usize::MAX
}

/// Whether the ids of all listed files are in the range of ids.
pub open spec fn ids_fit(slots: Seq<DataSlotView>, listing: Seq<Seq<Seq<char>>>) -> bool {
    forall|i: int|
        0 <= i < slots.len() ==> slot_ids_fit(#[trigger] slots[i], files_of(listing, i).len())
}

/// The descriptor of the folder named `folder_name` in which `listing` holds,
/// slot by slot, the files that fill the slots in force: its data slots come
/// from the listing, its memory writes and core selection from the
/// configuration. The data path is left empty.
pub open spec fn descriptor_for(
    config: ConfigView,
    folder_name: Seq<char>,
    listing: Seq<Seq<Seq<char>>>,
) -> DescriptorView {
    DescriptorView {
        magic: MAGIC@,
        core_select: config.core_select_for(folder_name),
        data_path: Seq::empty(),
        data_slots: all_entries(config.slots_for(folder_name), listing),
        memory_writes: config.memory_writes_for(folder_name),
    }
}

/// The paths `paths` as seen from `folder`, when all of them lie under it.
pub open spec fn names_under(paths: Seq<Seq<char>>, folder: Seq<char>) -> Option<Seq<Seq<char>>> {
    if forall|i: int| 0 <= i < paths.len() ==> relative(#[trigger] paths[i], folder) is Some {
        Some(Seq::new(paths.len(), |i: int| relative(paths[i], folder)->0))
    } else {
        None
    }
}

/// A `Descending` slot gives the ids of an `Ascending` slot with the same base
/// id to the same files, taken in the reverse order: the file that has
/// position `i` under the one has position `count - 1 - i` under the other.
pub proof fn lemma_descending_reverses_ascending(
    ascending: DataSlotView,
    descending: DataSlotView,
    names: Seq<Seq<char>>,
)
    requires
        ascending.sort == Sort::Ascending,
        descending.sort == Sort::Descending,
        ascending.id == descending.id,
    ensures
        slot_entries(descending, names).len() == names.len(),
        slot_entries(ascending, names).len() == names.len(),
        forall|i: int|
            0 <= i < names.len() ==> {
                &&& #[trigger] slot_entries(descending, names)[i] == (ValueView::DataSlot {
                    id: (descending.id + i) as nat,
                    filename: names[names.len() - 1 - i],
                })
                &&& slot_entries(ascending, names)[i] == (ValueView::DataSlot {
                    id: (ascending.id + i) as nat,
                    filename: names[i],
                })
            },
        slot_entries(descending, names) == slot_entries(ascending, names.reverse()),
{
}

/// The values that `slot` contributes for the files `names`, or
/// [`PackagerError::SlotIdOverflow`] when an id would leave the range of ids.
pub fn slot_data_entries(slot: &InstancePackagerDataSlot, names: &Vec<String>) -> (entries: Result<
    Vec<SlotsCoresAndWrites>,
    PackagerError,
>)
    ensures
        match entries {
            Ok(values) => slot_ids_fit(slot@, names.len() as nat) && values.deep_view()
                == slot_entries(slot@, names.deep_view()),
            Err(failure) => failure == PackagerError::SlotIdOverflow && !slot_ids_fit(
                slot@,
                names.len() as nat,
            ),
        },
{
    let count: usize = names.len();
    if count > 0 && slot.id > usize::MAX - (count - 1) {
        return Err(PackagerError::SlotIdOverflow);
    }
    let ghost expected = slot_entries(slot@, names.deep_view());
    let mut values: Vec<SlotsCoresAndWrites> = Vec::new();
    let mut i: usize = 0;
    while i < count
        invariant
            i <= count,
            count == names.len(),
            count > 0 ==> slot.id + (count - 1) <= usize::MAX,
            expected == slot_entries(slot@, names.deep_view()),
            values.len() == i,
            forall|j: int| 0 <= j < i ==> (#[trigger] values[j])@ == expected[j],
        decreases count - i,
    {
        let position: usize = match slot.sort {
            Sort::Descending => count - 1 - i,
            Sort::Ascending => i,
            Sort::Single => i,
        };
        let value = SlotsCoresAndWrites::DataSlot {
            id: slot.id + i,
            filename: names[position].clone(),
        };
        values.push(value);
        i += 1;
    }
    Ok(values)
}

/// The values that all of `slots` contribute when `listing` holds the files of
/// each, or [`PackagerError::SlotIdOverflow`] when an id would leave the range
/// of ids. A slot for which `listing` has no entry contributes nothing.
pub fn assemble_data_slots(
    slots: &Vec<InstancePackagerDataSlot>,
    listing: &Vec<Vec<String>>,
) -> (entries: Result<Vec<SlotsCoresAndWrites>, PackagerError>)
    ensures
        match entries {
            Ok(values) => ids_fit(slots.deep_view(), listing.deep_view()) && values.deep_view()
                == all_entries(slots.deep_view(), listing.deep_view()),
            Err(failure) => failure == PackagerError::SlotIdOverflow && !ids_fit(
                slots.deep_view(),
                listing.deep_view(),
            ),
        },
{
    let ghost models = slots.deep_view();
    let ghost files = listing.deep_view();
    let none: Vec<String> = Vec::new();
    let mut values: Vec<SlotsCoresAndWrites> = Vec::new();
    let mut i: usize = 0;
    while i < slots.len()
        invariant
            i <= slots.len(),
            models == slots.deep_view(),
            files == listing.deep_view(),
            none.deep_view() == Seq::<Seq<char>>::empty(),
            values.deep_view() == entries_upto(models, files, i as nat),
            forall|j: int|
                0 <= j < i ==> slot_ids_fit(#[trigger] models[j], files_of(files, j).len()),
        decreases slots.len() - i,
    {
        let names: &Vec<String> = if i < listing.len() {
            &listing[i]
        } else {
            &none
        };
        assert(models[i as int] == slots[i as int]@);
        let mut added = match slot_data_entries(&slots[i], names) {
            Ok(added) => added,
            Err(failure) => {
                return Err(failure);
            },
        };
        values.append(&mut added);
        i += 1;
    }
    Ok(values)
}

/// The descriptor of the folder named `folder_name` when `listing` holds, slot
/// by slot, the files that fill the slots in force for it.
pub fn describe_folder(
    instance_packager: &InstancePackager,
    folder_name: &str,
    listing: &Vec<Vec<String>>,
) -> (described: Result<InstanceJSON, PackagerError>)
    ensures
        match described {
            Ok(descriptor) => ids_fit(
                instance_packager@.slots_for(folder_name@),
                listing.deep_view(),
            ) && descriptor@ == descriptor_for(
                instance_packager@,
                folder_name@,
                listing.deep_view(),
            ),
            Err(failure) => failure == PackagerError::SlotIdOverflow && !ids_fit(
                instance_packager@.slots_for(folder_name@),
                listing.deep_view(),
            ),
        },
{
    let slots = instance_packager.get_slots(folder_name);
    let data_slots = match assemble_data_slots(&slots, listing) {
        Ok(data_slots) => data_slots,
        Err(failure) => {
            return Err(failure);
        },
    };
    let mut instance_json = InstanceJSON::new();
    instance_json.instance.data_slots = data_slots;
    instance_json.instance.memory_writes = instance_packager.get_memory_writes(folder_name);
    instance_json.instance.core_select = instance_packager.get_core_select(folder_name);
    Ok(instance_json)
}

/// The paths `paths` as seen from `folder`, or
/// [`PackagerError::PathEncodingFailure`] when one of them does not lie under it.
pub fn relative_names(paths: &Vec<String>, folder: &str) -> (names: Result<
    Vec<String>,
    PackagerError,
>)
    ensures
        match names {
            Ok(names) => names_under(paths.deep_view(), folder@) == Some(names.deep_view()),
            Err(failure) => failure == PackagerError::PathEncodingFailure && names_under(
                paths.deep_view(),
                folder@,
            ) is None,
        },
{
    let ghost all = paths.deep_view();
    let mut names: Vec<String> = Vec::new();
    let mut i: usize = 0;
    while i < paths.len()
        invariant
            i <= paths.len(),
            all == paths.deep_view(),
            names.len() == i,
            forall|j: int| 0 <= j < i ==> relative(#[trigger] all[j], folder@) == Some(names[j]@),
        decreases paths.len() - i,
    {
        assert(all[i as int] == paths[i as int]@);
        match relative_to(paths[i].as_str(), folder) {
            Some(name) => {
                names.push(name);
            },
            None => {
                return Err(PackagerError::PathEncodingFailure);
            },
        }
        i += 1;
    }
    Ok(names)
}

/// For each of `slots`, the files under `folder_path` that its pattern
/// matches, as seen from the folder. The first resolution that fails ends the
/// listing with that failure.
fn list_slot_files(slots: &Vec<InstancePackagerDataSlot>, folder_path: &str) -> (listed: Result<
    Vec<Vec<String>>,
    PackagerError,
>)
    ensures
        match listed {
            Ok(listing) => listing.len() == slots.len(),
            Err(failure) => failure == PackagerError::GlobPatternFailure || failure
                == PackagerError::PathEncodingFailure,
        },
        slots.len() == 0 ==> listed is Ok,
{
    let mut listing: Vec<Vec<String>> = Vec::new();
    let mut i: usize = 0;
    while i < slots.len()
        invariant
            i <= slots.len(),
            listing.len() == i,
        decreases slots.len() - i,
    {
        let full_glob = join(folder_path, slots[i].filename.as_str());
        let paths = match get_glob_paths(full_glob.as_str()) {
            Ok(paths) => paths,
            Err(failure) => {
                return Err(failure);
            },
        };
        let names = match relative_names(&paths, folder_path) {
            Ok(names) => names,
            Err(failure) => {
                return Err(failure);
            },
        };
        listing.push(names);
        i += 1;
    }
    Ok(listing)
}

/// The descriptor of the folder at `folder_path`: the slots in force for its
/// name are resolved against it in turn, and the files found fill the
/// descriptor as [`descriptor_for`] says. The data path is left empty.
///
/// Which files are found depends on the file system. Whatever it holds, the
/// descriptor is that of some listing with one entry for each slot, and a
/// folder without slots gets the descriptor of the empty listing.
pub fn build_json(folder_path: &str, instance_packager: &InstancePackager) -> (built: Result<
    InstanceJSON,
    PackagerError,
>)
    ensures
        match built {
            Ok(descriptor) => exists|listing: Seq<Seq<Seq<char>>>|
                listing.len() == instance_packager@.slots_for(leaf_of(folder_path@)).len()
                    && descriptor@ == #[trigger] descriptor_for(
                    instance_packager@,
                    leaf_of(folder_path@),
                    listing,
                ),
            Err(failure) => failure == PackagerError::GlobPatternFailure || failure
                == PackagerError::PathEncodingFailure || failure == PackagerError::SlotIdOverflow,
        },
        instance_packager@.slots_for(leaf_of(folder_path@)).len() == 0 ==> built is Ok,
{
    let folder_name = leaf_name(folder_path);
    let slots = instance_packager.get_slots(folder_name.as_str());
    let listing = match list_slot_files(&slots, folder_path) {
        Ok(listing) => listing,
        Err(failure) => {
            return Err(failure);
        },
    };
    describe_folder(instance_packager, folder_name.as_str(), &listing)
}

} // verus!
