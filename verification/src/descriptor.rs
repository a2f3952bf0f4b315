//! The instance descriptor that is produced for a folder.

use crate::config::{SlotsCoresAndWrites, ValueView};
use vstd::prelude::*;
use vstd::string::*;

verus! {

/// The version tag that every descriptor carries.
pub const MAGIC: &'static str = "APF_VER_1";

/// The body of a descriptor.
#[derive(Debug)]
pub struct InstanceJSONInstance {
    pub magic: String,
    pub core_select: Option<SlotsCoresAndWrites>,
    pub data_path: String,
    pub data_slots: Vec<SlotsCoresAndWrites>,
    pub memory_writes: Vec<SlotsCoresAndWrites>,
}

/// A descriptor: how to load the files of one folder.
#[derive(Debug)]
pub struct InstanceJSON {
    pub instance: InstanceJSONInstance,
}

/// Mathematical model of a descriptor.
pub struct DescriptorView {
    pub magic: Seq<char>,
    pub core_select: Option<ValueView>,
    pub data_path: Seq<char>,
    pub data_slots: Seq<ValueView>,
    pub memory_writes: Seq<ValueView>,
}

impl DescriptorView {
    /// The descriptor of nothing: the version tag and no content.
    pub open spec fn blank() -> DescriptorView {
        DescriptorView {
            magic: MAGIC@,
            core_select: None,
            data_path: Seq::empty(),
            data_slots: Seq::empty(),
            memory_writes: Seq::empty(),
        }
    }

    /// A descriptor is well formed when it carries the version tag.
    pub open spec fn well_formed(self) -> bool {
        self.magic == MAGIC@
    }
}

impl View for InstanceJSONInstance {
    type V = DescriptorView;

    open spec fn view(&self) -> DescriptorView {
        DescriptorView {
            magic: self.magic@,
            core_select: self.core_select.deep_view(),
            data_path: self.data_path@,
            data_slots: self.data_slots.deep_view(),
            memory_writes: self.memory_writes.deep_view(),
        }
    }
}

impl View for InstanceJSON {
    type V = DescriptorView;

    open spec fn view(&self) -> DescriptorView {
        self.instance@
    }
}

impl InstanceJSON {
    /// A descriptor with the version tag and no content.
    pub fn new() -> (descriptor: InstanceJSON)
        ensures
            descriptor@ == DescriptorView::blank(),
    {
        let descriptor = InstanceJSON {
            instance: InstanceJSONInstance {
                magic: String::from_str(MAGIC),
                data_path: String::from_str(""),
                data_slots: Vec::new(),
                memory_writes: Vec::new(),
                core_select: None,
            },
        };
        proof {
            reveal_strlit("");
            assert(descriptor@.data_path =~= Seq::empty());
            assert(descriptor@.memory_writes =~= Seq::empty());
        }
        descriptor
    }
}

} // verus!
