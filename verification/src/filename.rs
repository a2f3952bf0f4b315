//! Deriving the name of the file that a folder's descriptor is written to.

use crate::builder::files_of;
use crate::config::{ConfigView, DataSlotView, InstancePackager};
use crate::error::PackagerError;
use crate::glob_resolver::get_glob_paths;
use crate::path_text::{file_stem, join, leaf_name, leaf_of, stem_of};
use vstd::prelude::*;

verus! {

/// Whether slot `i` names the output: it is a candidate and a file is listed
/// for it.
pub open spec fn names_file(slots: Seq<DataSlotView>, listing: Seq<Seq<Seq<char>>>, i: int) -> bool {
    slots[i].names_output() && files_of(listing, i).len() > 0
}

/// The first file of the first slot, from `from` on, that names the output.
pub open spec fn first_named_from(
    slots: Seq<DataSlotView>,
    listing: Seq<Seq<Seq<char>>>,
    from: nat,
) -> Option<Seq<char>>
    decreases slots.len() - from,
{
    if from >= slots.len() {
        None
    } else if names_file(slots, listing, from as int) {
        Some(files_of(listing, from as int)[0])
    } else {
        first_named_from(slots, listing, from + 1)
    }
}

/// The output file name, without extension, of the folder at `folder_path`
/// when `listing` holds, slot by slot, the files that match the
/// configuration's own slots: the name that the folder's override block fixes;
/// else the stem of the first file of the first candidate slot that has one;
/// else the folder's name.
pub open spec fn filename_choice(
    config: ConfigView,
    folder_path: Seq<char>,
    listing: Seq<Seq<Seq<char>>>,
) -> Seq<char> {
    match config.filename_override(leaf_of(folder_path)) {
        Some(name) => name,
        None => match first_named_from(config.data_slots, listing, 0) {
            Some(path) => stem_of(leaf_of(path)),
            None => leaf_of(folder_path),
        },
    }
}

/// Where the slots from `from` up to `k` name nothing and slot `k` does, the
/// first named file from `from` on is the first file of slot `k`.
pub proof fn lemma_first_named_is_earliest(
    slots: Seq<DataSlotView>,
    listing: Seq<Seq<Seq<char>>>,
    from: nat,
    k: int,
)
    requires
        from <= k < slots.len(),
        names_file(slots, listing, k),
        forall|j: int| from <= j < k ==> !names_file(slots, listing, j),
    ensures
        first_named_from(slots, listing, from) == Some(files_of(listing, k)[0]),
    decreases k - from,
{
    if from < k {
        lemma_first_named_is_earliest(slots, listing, from + 1, k);
    }
}

/// Where no slot from `from` on names the output, there is no named file.
pub proof fn lemma_first_named_absent(
    slots: Seq<DataSlotView>,
    listing: Seq<Seq<Seq<char>>>,
    from: nat,
)
    requires
        forall|j: int| from <= j < slots.len() ==> !names_file(slots, listing, j),
    ensures
        first_named_from(slots, listing, from) is None,
    decreases slots.len() - from,
{
    if from < slots.len() {
        lemma_first_named_absent(slots, listing, from + 1);
    }
}

/// The order of precedence of the output file name: the name that the
/// folder's override block fixes comes before the first candidate slot, in the
/// order of declaration, for which a file is listed, and that before the
/// folder's own name.
pub proof fn lemma_filename_precedence(
    config: ConfigView,
    folder_path: Seq<char>,
    listing: Seq<Seq<Seq<char>>>,
)
    ensures
        config.filename_override(leaf_of(folder_path)) matches Some(name) ==> filename_choice(
            config,
            folder_path,
            listing,
        ) == name,
        config.filename_override(leaf_of(folder_path)) is None ==> forall|k: int|
            0 <= k < config.data_slots.len() && #[trigger] names_file(config.data_slots, listing, k)
                && (forall|j: int| 0 <= j < k ==> !names_file(config.data_slots, listing, j))
                ==> filename_choice(config, folder_path, listing) == stem_of(
                leaf_of(files_of(listing, k)[0]),
            ),
        config.filename_override(leaf_of(folder_path)) is None && (forall|k: int|
            0 <= k < config.data_slots.len() ==> !names_file(config.data_slots, listing, k))
            ==> filename_choice(config, folder_path, listing) == leaf_of(folder_path),
{
    if config.filename_override(leaf_of(folder_path)) is None {
        assert forall|k: int|
            0 <= k < config.data_slots.len() && #[trigger] names_file(config.data_slots, listing, k)
                && (forall|j: int|
                0 <= j < k ==> !names_file(config.data_slots, listing, j)) implies filename_choice(
            config,
            folder_path,
            listing,
        ) == stem_of(leaf_of(files_of(listing, k)[0])) by {
            lemma_first_named_is_earliest(config.data_slots, listing, 0, k);
        }
        if forall|k: int|
            0 <= k < config.data_slots.len() ==> !names_file(config.data_slots, listing, k) {
            lemma_first_named_absent(config.data_slots, listing, 0);
        }
    }
}

impl InstancePackager {
    /// The output file name, without extension, of the folder at
    /// `folder_path` when `listing` holds, slot by slot, the files that match
    /// the configuration's own slots.
    pub fn choose_filename(&self, folder_path: &str, listing: &Vec<Vec<String>>) -> (name: String)
        ensures
            name@ == filename_choice(self@, folder_path@, listing.deep_view()),
    {
        let folder_name = leaf_name(folder_path);
        match self.get_filename_override(folder_name.as_str()) {
            Some(name) => {
                return name;
            },
            None => {},
        }
        let ghost slots = self@.data_slots;
        let ghost files = listing.deep_view();
        let mut i: usize = 0;
        while i < self.data_slots.len()
            invariant
                i <= self.data_slots.len(),
                slots == self.data_slots.deep_view(),
                files == listing.deep_view(),
                folder_name@ == leaf_of(folder_path@),
                self@.filename_override(leaf_of(folder_path@)) is None,
                first_named_from(slots, files, 0) == first_named_from(slots, files, i as nat),
            decreases self.data_slots.len() - i,
        {
            if self.data_slots[i].names_output() && i < listing.len() && listing[i].len() > 0 {
                let file_name = leaf_name(listing[i][0].as_str());
                return file_stem(file_name.as_str());
            }
            i += 1;
        }
        folder_name
    }

    /// The output file name, without extension, of the folder at
    /// `folder_path`. Where the folder's override block fixes a name, that is
    /// it. Otherwise the patterns of the configuration's own candidate slots,
    /// placed under `folder_path`, are resolved in the order of declaration
    /// until one matches a file, whose stem is the name; the folder's own name
    /// serves where none does. The first resolution that fails ends the search
    /// with that failure.
    ///
    /// Which files are found depends on the file system. Whatever it holds,
    /// the name is that of [`filename_choice`] for some listing; with a name
    /// fixed by an override, or without candidate slots, nothing is resolved.
    pub fn get_filename(&self, folder_path: &str) -> (derived: Result<String, PackagerError>)
        ensures
            match derived {
                Ok(name) => exists|listing: Seq<Seq<Seq<char>>>|
                    name@ == #[trigger] filename_choice(self@, folder_path@, listing),
                Err(failure) => failure == PackagerError::GlobPatternFailure || failure
                    == PackagerError::PathEncodingFailure,
            },
            self@.filename_override(leaf_of(folder_path@)) matches Some(fixed) ==> (derived matches Ok(
                name,
            ) && name@ == fixed),
            self@.filename_override(leaf_of(folder_path@)) is None && (forall|i: int|
                0 <= i < self@.data_slots.len() ==> !(#[trigger] self@.data_slots[i]).names_output())
                ==> (derived matches Ok(name) && name@ == leaf_of(folder_path@)),
    {
        let ghost slots = self@.data_slots;
        let mut listing: Vec<Vec<String>> = Vec::new();
        let mut i: usize = 0;
        let fixed = self.get_filename_override(leaf_name(folder_path).as_str());
        while fixed.is_none() && i < self.data_slots.len()
            invariant
                i <= self.data_slots.len(),
                slots == self.data_slots.deep_view(),
                fixed.deep_view() == self@.filename_override(leaf_of(folder_path@)),
                listing.len() == i,
            decreases self.data_slots.len() - i,
        {
            if self.data_slots[i].names_output() {
                assert(self@.data_slots[i as int].names_output());
                let full_glob = join(folder_path, self.data_slots[i].filename.as_str());
                let paths = match get_glob_paths(full_glob.as_str()) {
                    Ok(paths) => paths,
                    Err(failure) => {
                        return Err(failure);
                    },
                };
                let found: bool = paths.len() > 0;
                listing.push(paths);
                if found {
                    return Ok(self.choose_filename(folder_path, &listing));
                }
            } else {
                listing.push(Vec::new());
            }
            i += 1;
        }
        proof {
            if self@.filename_override(leaf_of(folder_path@)) is None && (forall|i: int|
                0 <= i < slots.len() ==> !(#[trigger] slots[i]).names_output()) {
                lemma_first_named_absent(slots, listing.deep_view(), 0);
            }
        }
        Ok(self.choose_filename(folder_path, &listing))
    }
}

} // verus!
