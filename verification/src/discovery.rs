//! Finding the cores that can be packaged.

use crate::error::PackagerError;
use vstd::prelude::*;

verus! {

/// An entry of the `Cores` directory: its name, and whether it holds a
/// configuration file.
#[derive(Debug)]
pub struct CoreFolder {
    pub name: String,
    pub has_packager: bool,
}

/// Mathematical model of a [`CoreFolder`].
pub struct CoreFolderView {
    pub name: Seq<char>,
    pub has_packager: bool,
}

impl View for CoreFolder {
    type V = CoreFolderView;

    open spec fn view(&self) -> CoreFolderView {
        CoreFolderView { name: self.name@, has_packager: self.has_packager }
    }
}

impl DeepView for CoreFolder {
    type V = CoreFolderView;

    open spec fn deep_view(&self) -> CoreFolderView {
        self@
    }
}

/// The names of the entries that hold a configuration file, in their order.
pub open spec fn packaged_cores(entries: Seq<CoreFolderView>) -> Seq<Seq<char>>
    decreases entries.len(),
{
    if entries.len() == 0 {
        Seq::empty()
    } else if entries.last().has_packager {
        packaged_cores(entries.drop_last()).push(entries.last().name)
    } else {
        packaged_cores(entries.drop_last())
    }
}

/// The names of the cores that can be packaged. `cores` is what the `Cores`
/// directory of the root holds, or `None` where the root has no such
/// directory, which is a [`PackagerError::MissingCoresDirectory`].
pub fn find_cores_with_package_json(cores: &Option<Vec<CoreFolder>>) -> (found: Result<
    Vec<String>,
    PackagerError,
>)
    ensures
        match *cores {
            Some(entries) => found matches Ok(names) && names.deep_view() == packaged_cores(
                entries.deep_view(),
            ),
            None => found == Err::<Vec<String>, PackagerError>(
                PackagerError::MissingCoresDirectory,
            ),
        },
{
    let entries = match cores {
        Some(entries) => entries,
        None => {
            return Err(PackagerError::MissingCoresDirectory);
        },
    };
    let ghost all = entries.deep_view();
    let mut found_cores: Vec<String> = Vec::new();
    let mut i: usize = 0;
    while i < entries.len()
        invariant
            i <= entries.len(),
            all == entries.deep_view(),
            found_cores.deep_view() == packaged_cores(all.take(i as int)),
        decreases entries.len() - i,
    {
        proof {
            assert(all.take(i + 1).drop_last() =~= all.take(i as int));
        }
        if entries[i].has_packager {
            found_cores.push(entries[i].name.clone());
        }
        i += 1;
    }
    assert(all.take(i as int) =~= all);
    Ok(found_cores)
}

} // verus!
