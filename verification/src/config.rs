//! A core's packaging configuration and the per-folder resolution of its values.

use vstd::hash_map::StringHashMap;
use vstd::prelude::*;

verus! {

/// How the files matched for a slot are counted and ordered.
#[derive(Debug, Clone, Copy, PartialEq, Eq)]
pub enum Sort {
    /// At most one file is expected.
    Single,
    /// Files keep the order in which they were found.
    Ascending,
    /// Files are taken in the reverse of the order in which they were found.
    Descending,
}

/// One slot of a configuration: a pattern for the files that fill it and the
/// id from which their slot ids are counted.
#[derive(Debug)]
pub struct InstancePackagerDataSlot {
    pub id: usize,
    pub filename: String,
    pub sort: Sort,
    pub required: bool,
    pub as_filename: Option<bool>,
}

/// Mathematical model of an [`InstancePackagerDataSlot`].
pub struct DataSlotView {
    pub id: nat,
    pub filename: Seq<char>,
    pub sort: Sort,
    pub required: bool,
    pub as_filename: Option<bool>,
}

impl DataSlotView {
    /// Whether the slot is a candidate source for the output file name.
    pub open spec fn names_output(self) -> bool {
        self.as_filename == Some(true)
    }
}

impl View for InstancePackagerDataSlot {
    type V = DataSlotView;

    open spec fn view(&self) -> DataSlotView {
        DataSlotView {
            id: self.id as nat,
            filename: self.filename@,
            sort: self.sort,
            required: self.required,
            as_filename: self.as_filename,
        }
    }
}

impl DeepView for InstancePackagerDataSlot {
    type V = DataSlotView;

    open spec fn deep_view(&self) -> DataSlotView {
        self@
    }
}

impl InstancePackagerDataSlot {
    /// Whether the slot is a candidate source for the output file name.
    pub fn names_output(&self) -> (named: bool)
        ensures
            named == self@.names_output(),
    {
        match self.as_filename {
            Some(flag) => flag,
            None => false,
        }
    }
}

impl Clone for InstancePackagerDataSlot {
    fn clone(&self) -> (copy: Self)
        ensures
            copy == *self,
    {
        InstancePackagerDataSlot {
            id: self.id,
            filename: self.filename.clone(),
            sort: self.sort,
            required: self.required,
            as_filename: self.as_filename,
        }
    }
}

/// A value of a descriptor or of a configuration: a core selection, a filled
/// data slot, or a memory write in numeric or in textual form.
#[derive(Debug, PartialEq)]
#[allow(inconsistent_fields)]
pub enum SlotsCoresAndWrites {
    CoreSelect { id: usize, select: bool },
    DataSlot { id: usize, filename: String },
    MemoryWriteNum { address: usize, data: usize },
    MemoryWriteStr { address: String, data: String },
}

/// Mathematical model of a [`SlotsCoresAndWrites`].
#[allow(inconsistent_fields)]
pub enum ValueView {
    CoreSelect { id: nat, select: bool },
    DataSlot { id: nat, filename: Seq<char> },
    MemoryWriteNum { address: nat, data: nat },
    MemoryWriteStr { address: Seq<char>, data: Seq<char> },
}

impl View for SlotsCoresAndWrites {
    type V = ValueView;

    open spec fn view(&self) -> ValueView {
        match *self {
            SlotsCoresAndWrites::CoreSelect { id, select } => ValueView::CoreSelect {
                id: id as nat,
                select,
            },
            SlotsCoresAndWrites::DataSlot { id, filename } => ValueView::DataSlot {
                id: id as nat,
                filename: filename@,
            },
            SlotsCoresAndWrites::MemoryWriteNum { address, data } => ValueView::MemoryWriteNum {
                address: address as nat,
                data: data as nat,
            },
            SlotsCoresAndWrites::MemoryWriteStr { address, data } => ValueView::MemoryWriteStr {
                address: address@,
                data: data@,
            },
        }
    }
}

impl DeepView for SlotsCoresAndWrites {
    type V = ValueView;

    open spec fn deep_view(&self) -> ValueView {
        self@
    }
}

impl Clone for SlotsCoresAndWrites {
    fn clone(&self) -> (copy: Self)
        ensures
            copy == *self,
    {
        match self {
            SlotsCoresAndWrites::CoreSelect { id, select } => SlotsCoresAndWrites::CoreSelect {
                id: *id,
                select: *select,
            },
            SlotsCoresAndWrites::DataSlot { id, filename } => SlotsCoresAndWrites::DataSlot {
                id: *id,
                filename: filename.clone(),
            },
            SlotsCoresAndWrites::MemoryWriteNum {
                address,
                data,
            } => SlotsCoresAndWrites::MemoryWriteNum { address: *address, data: *data },
            SlotsCoresAndWrites::MemoryWriteStr {
                address,
                data,
            } => SlotsCoresAndWrites::MemoryWriteStr {
                address: address.clone(),
                data: data.clone(),
            },
        }
    }
}

/// What a configuration replaces for one folder. A field that is absent leaves
/// the configuration's own value in force.
#[derive(Debug)]
pub struct InstancePackagerOverrides {
    pub data_slots: Option<Vec<InstancePackagerDataSlot>>,
    pub filename: Option<String>,
    pub memory_writes: Option<Vec<SlotsCoresAndWrites>>,
    pub core_select: Option<SlotsCoresAndWrites>,
}

/// Mathematical model of an [`InstancePackagerOverrides`].
pub struct OverridesView {
    pub data_slots: Option<Seq<DataSlotView>>,
    pub filename: Option<Seq<char>>,
    pub memory_writes: Option<Seq<ValueView>>,
    pub core_select: Option<ValueView>,
}

impl View for InstancePackagerOverrides {
    type V = OverridesView;

    open spec fn view(&self) -> OverridesView {
        OverridesView {
            data_slots: self.data_slots.deep_view(),
            filename: self.filename.deep_view(),
            memory_writes: self.memory_writes.deep_view(),
            core_select: self.core_select.deep_view(),
        }
    }
}

impl DeepView for InstancePackagerOverrides {
    type V = OverridesView;

    open spec fn deep_view(&self) -> OverridesView {
        self@
    }
}

/// The most slots a descriptor may hold, and what to report for a folder that
/// would exceed it.
#[derive(Debug)]
pub struct SlotLimit {
    pub count: usize,
    pub message: String,
}

/// Mathematical model of a [`SlotLimit`].
pub struct SlotLimitView {
    pub count: nat,
    pub message: Seq<char>,
}

impl View for SlotLimit {
    type V = SlotLimitView;

    open spec fn view(&self) -> SlotLimitView {
        SlotLimitView { count: self.count as nat, message: self.message@ }
    }
}

impl DeepView for SlotLimit {
    type V = SlotLimitView;

    open spec fn deep_view(&self) -> SlotLimitView {
        self@
    }
}

/// The configuration of one core.
pub struct InstancePackager {
    /// Where descriptors are written, relative to the root.
    pub output: String,
    /// The slots that apply to a folder without an override for them.
    pub data_slots: Vec<InstancePackagerDataSlot>,
    /// Overrides, keyed by the exact name of the folder they apply to.
    pub overrides: StringHashMap<InstancePackagerOverrides>,
    /// Selects the asset subtree that is scanned.
    pub platform_id: String,
    pub memory_writes: Option<Vec<SlotsCoresAndWrites>>,
    pub core_select: Option<SlotsCoresAndWrites>,
    pub slot_limit: Option<SlotLimit>,
}

/// Mathematical model of an [`InstancePackager`].
pub struct ConfigView {
    pub output: Seq<char>,
    pub data_slots: Seq<DataSlotView>,
    pub overrides: Map<Seq<char>, OverridesView>,
    pub platform_id: Seq<char>,
    pub memory_writes: Option<Seq<ValueView>>,
    pub core_select: Option<ValueView>,
    pub slot_limit: Option<SlotLimitView>,
}

impl ConfigView {
    /// The override block of `folder`, if the configuration has one.
    pub open spec fn block_for(self, folder: Seq<char>) -> Option<OverridesView> {
        if self.overrides.contains_key(folder) {
            Some(self.overrides[folder])
        } else {
            None
        }
    }

    /// The slots in force for `folder`: those of its override block where it
    /// has one that supplies slots, else the configuration's own.
    pub open spec fn slots_for(self, folder: Seq<char>) -> Seq<DataSlotView> {
        match self.block_for(folder) {
            Some(OverridesView { data_slots: Some(slots), .. }) => slots,
            _ => self.data_slots,
        }
    }

    /// The memory writes in force for `folder`: the override's, else the
    /// configuration's, else none.
    pub open spec fn memory_writes_for(self, folder: Seq<char>) -> Seq<ValueView> {
        match self.block_for(folder) {
            Some(OverridesView { memory_writes: Some(writes), .. }) => writes,
            _ => match self.memory_writes {
                Some(writes) => writes,
                None => Seq::empty(),
            },
        }
    }

    /// The core selection in force for `folder`: the override's, else the
    /// configuration's.
    pub open spec fn core_select_for(self, folder: Seq<char>) -> Option<ValueView> {
        match self.block_for(folder) {
            Some(OverridesView { core_select: Some(choice), .. }) => Some(choice),
            _ => self.core_select,
        }
    }

    /// The output file name that the override block of `folder` fixes, if any.
    pub open spec fn filename_override(self, folder: Seq<char>) -> Option<Seq<char>> {
        match self.block_for(folder) {
            Some(block) => block.filename,
            None => None,
        }
    }
}

impl View for InstancePackager {
    type V = ConfigView;

    open spec fn view(&self) -> ConfigView {
        ConfigView {
            output: self.output@,
            data_slots: self.data_slots.deep_view(),
            overrides: self.overrides@.map_values(|block: InstancePackagerOverrides| block@),
            platform_id: self.platform_id@,
            memory_writes: self.memory_writes.deep_view(),
            core_select: self.core_select.deep_view(),
            slot_limit: self.slot_limit.deep_view(),
        }
    }
}

/// A copy of `slots`, element for element.
fn copy_slots(slots: &Vec<InstancePackagerDataSlot>) -> (copy: Vec<InstancePackagerDataSlot>)
    ensures
        copy@ == slots@,
{
    let copy = slots.clone();
    copy
}

/// A copy of `values`, element for element.
fn copy_values(values: &Vec<SlotsCoresAndWrites>) -> (copy: Vec<SlotsCoresAndWrites>)
    ensures
        copy@ == values@,
{
    let copy = values.clone();
    copy
}

impl InstancePackager {
    /// A configuration with the given output location, platform and slots, and
    /// with nothing else set.
    pub fn new(output: String, platform_id: String, data_slots: Vec<InstancePackagerDataSlot>) -> (config: Self)
        ensures
            config@ == (ConfigView {
                output: output@,
                data_slots: data_slots.deep_view(),
                overrides: Map::empty(),
                platform_id: platform_id@,
                memory_writes: None,
                core_select: None,
                slot_limit: None,
            }),
    {
        let config = InstancePackager {
            output,
            data_slots,
            overrides: StringHashMap::new(),
            platform_id,
            memory_writes: None,
            core_select: None,
            slot_limit: None,
        };
        assert(config@.overrides =~= Map::empty());
        config
    }

    /// Sets the override block of `folder`, replacing the one it had.
    pub fn set_override(&mut self, folder: String, block: InstancePackagerOverrides)
        ensures
            final(self)@ == (ConfigView {
                overrides: old(self)@.overrides.insert(folder@, block@),
                ..old(self)@
            }),
    {
        self.overrides.insert(folder, block);
        assert(self@.overrides =~= old(self)@.overrides.insert(folder@, block@));
    }

    /// The slots in force for the folder named `folder_name`: those of its
    /// override block, as they stand, where the configuration has one for
    /// that name and it supplies slots; the configuration's own, as they
    /// stand, in every other case.
    pub fn get_slots(&self, folder_name: &str) -> (slots: Vec<InstancePackagerDataSlot>)
        ensures
            slots.deep_view() == self@.slots_for(folder_name@),
            self@.overrides.contains_key(folder_name@) && self@.overrides[folder_name@].data_slots
                is Some ==> slots.deep_view() == self@.overrides[folder_name@].data_slots->0,
            !(self@.overrides.contains_key(folder_name@)
                && self@.overrides[folder_name@].data_slots is Some) ==> slots.deep_view()
                == self@.data_slots,
    {
        match self.overrides.get(folder_name) {
            Some(block) => match &block.data_slots {
                Some(slots) => {
                    return copy_slots(slots);
                },
                None => {},
            },
            None => {},
        }
        copy_slots(&self.data_slots)
    }

    /// The memory writes in force for the folder named `folder_name`.
    pub fn get_memory_writes(&self, folder_name: &str) -> (writes: Vec<SlotsCoresAndWrites>)
        ensures
            writes.deep_view() == self@.memory_writes_for(folder_name@),
    {
        match self.overrides.get(folder_name) {
            Some(block) => match &block.memory_writes {
                Some(writes) => {
                    return copy_values(writes);
                },
                None => {},
            },
            None => {},
        }
        match &self.memory_writes {
            Some(writes) => copy_values(writes),
            None => {
                let writes: Vec<SlotsCoresAndWrites> = Vec::new();
                writes
            },
        }
    }

    /// The core selection in force for the folder named `folder_name`.
    pub fn get_core_select(&self, folder_name: &str) -> (choice: Option<SlotsCoresAndWrites>)
        ensures
            choice.deep_view() == self@.core_select_for(folder_name@),
    {
        match self.overrides.get(folder_name) {
            Some(block) => match &block.core_select {
                Some(choice) => {
                    return Some(choice.clone());
                },
                None => {},
            },
            None => {},
        }
        match &self.core_select {
            Some(choice) => Some(choice.clone()),
            None => None,
        }
    }

    /// The output file name that the override block of `folder_name` fixes, if any.
    pub fn get_filename_override(&self, folder_name: &str) -> (name: Option<String>)
        ensures
            name.deep_view() == self@.filename_override(folder_name@),
    {
        match self.overrides.get(folder_name) {
            Some(block) => match &block.filename {
                Some(name) => Some(name.clone()),
                None => None,
            },
            None => None,
        }
    }
}

} // verus!
