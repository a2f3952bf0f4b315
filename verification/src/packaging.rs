//! Packaging one folder of a core's asset tree: from the folder to what is to
//! be written for it, or to the reason why nothing is.

use crate::builder::{build_json, descriptor_for};
use crate::config::{ConfigView, InstancePackager};
use crate::descriptor::{DescriptorView, InstanceJSON};
use crate::error::PackagerError;
use crate::filename::{filename_choice, lemma_first_named_absent};
use crate::matcher::{check_if_dir_matches_slots, none_required};
use crate::path_text::{
    join,
    joined,
    leaf_name,
    leaf_of,
    parent_of,
    parent_path,
    relative,
    relative_to,
    SEPARATOR,
};
use vstd::prelude::*;
use vstd::string::*;

verus! {

/// The name of a core's configuration file.
pub const PACKAGER_NAME: &'static str = "instance-packager.json";

/// The directory of the root that holds the cores.
pub const CORES_DIR: &'static str = "Cores";

/// The directory of the root that holds the assets of all platforms.
pub const ASSETS_DIR: &'static str = "Assets";

/// The directory of a platform's assets that is scanned.
pub const COMMON_DIR: &'static str = "common";

/// The extension of a descriptor file.
pub const DESCRIPTOR_EXTENSION: &'static str = ".json";

/// Where the configuration of the core named `core_name` is read from.
pub open spec fn config_path_of(root: Seq<char>, core_name: Seq<char>) -> Seq<char> {
    joined(joined(joined(root, CORES_DIR@), core_name), PACKAGER_NAME@)
}

/// The asset root of a platform: `Assets/<platform_id>/common` under `root`.
pub open spec fn asset_root_of(root: Seq<char>, platform_id: Seq<char>) -> Seq<char> {
    joined(joined(joined(root, ASSETS_DIR@), platform_id), COMMON_DIR@)
}

/// The directory, relative to the root, that receives the descriptor of the
/// folder at `relative_folder` below the asset root: the output location,
/// extended by what precedes the folder's own name, if anything does.
pub open spec fn output_directory_of(output: Seq<char>, relative_folder: Seq<char>) -> Seq<char> {
    if parent_of(relative_folder).len() == 0 {
        output
    } else {
        joined(output, parent_of(relative_folder))
    }
}

/// The path, relative to the root, of the descriptor file named `file_name`
/// for the folder at `relative_folder` below the asset root.
pub open spec fn output_path_of(
    output: Seq<char>,
    relative_folder: Seq<char>,
    file_name: Seq<char>,
) -> Seq<char> {
    joined(output_directory_of(output, relative_folder), file_name + DESCRIPTOR_EXTENSION@)
}

/// What is to be done for one folder.
#[derive(Debug)]
pub enum FolderOutcome {
    /// The folder does not satisfy its slots: nothing is to be done.
    NotMatched,
    /// The descriptor would hold more slots than the limit allows: nothing is
    /// to be written; `path` is where the descriptor would have gone, relative
    /// to the root, and `message` is the limit's message.
    Skipped { path: String, message: String },
    /// `descriptor` is to be written to `full_path`, inside `directory`;
    /// `path` is `full_path` relative to the root.
    Write { path: String, directory: String, full_path: String, descriptor: InstanceJSON },
}

/// Mathematical model of a [`FolderOutcome`].
pub enum OutcomeView {
    NotMatched,
    Skipped { path: Seq<char>, message: Seq<char> },
    Write {
        path: Seq<char>,
        directory: Seq<char>,
        full_path: Seq<char>,
        descriptor: DescriptorView,
    },
}

impl View for FolderOutcome {
    type V = OutcomeView;

    open spec fn view(&self) -> OutcomeView {
        match *self {
            FolderOutcome::NotMatched => OutcomeView::NotMatched,
            FolderOutcome::Skipped { path, message } => OutcomeView::Skipped {
                path: path@,
                message: message@,
            },
            FolderOutcome::Write { path, directory, full_path, descriptor } => OutcomeView::Write {
                path: path@,
                directory: directory@,
                full_path: full_path@,
                descriptor: descriptor@,
            },
        }
    }
}

/// What is to be done for a matching folder at `relative_folder` below the
/// asset root, whose descriptor so far is `descriptor` and whose output file
/// name is `file_name`. With a slot limit that the descriptor's data slots
/// exceed, the folder is skipped with the limit's message. Otherwise the
/// descriptor is written, with the folder's relative path and a trailing
/// separator as its data path.
pub open spec fn outcome_for(
    config: ConfigView,
    root: Seq<char>,
    relative_folder: Seq<char>,
    file_name: Seq<char>,
    descriptor: DescriptorView,
) -> OutcomeView {
    let path = output_path_of(config.output, relative_folder, file_name);
    if config.slot_limit is Some && descriptor.data_slots.len() > config.slot_limit->0.count {
        OutcomeView::Skipped { path, message: config.slot_limit->0.message }
    } else {
        OutcomeView::Write {
            path,
            directory: joined(root, output_directory_of(config.output, relative_folder)),
            full_path: joined(root, path),
            descriptor: DescriptorView {
                data_path: relative_folder + seq![SEPARATOR],
                ..descriptor
            },
        }
    }
}

/// Whether the output file name of a folder with the given name is settled
/// without looking at its files: its override block fixes it, or no slot of
/// the configuration is a candidate.
pub open spec fn name_is_settled(config: ConfigView, folder_name: Seq<char>) -> bool {
    config.filename_override(folder_name) is Some || forall|i: int|
        0 <= i < config.data_slots.len() ==> !(#[trigger] config.data_slots[i]).names_output()
}

/// Where the configuration of the core named `core_name` is read from.
pub fn config_path(root: &str, core_name: &str) -> (path: String)
    ensures
        path@ == config_path_of(root@, core_name@),
{
    let cores = join(root, CORES_DIR);
    let core = join(cores.as_str(), core_name);
    join(core.as_str(), PACKAGER_NAME)
}

/// The asset root of the platform `platform_id` under `root`.
pub fn asset_root(root: &str, platform_id: &str) -> (path: String)
    ensures
        path@ == asset_root_of(root@, platform_id@),
{
    let assets = join(root, ASSETS_DIR);
    let platform = join(assets.as_str(), platform_id);
    join(platform.as_str(), COMMON_DIR)
}

/// What is to be done for a matching folder at `relative_folder` below the
/// asset root, whose descriptor so far is `descriptor` and whose output file
/// name is `file_name`.
pub fn plan_output(
    config: &InstancePackager,
    root: &str,
    relative_folder: &str,
    file_name: &str,
    descriptor: InstanceJSON,
) -> (outcome: FolderOutcome)
    ensures
        outcome@ == outcome_for(config@, root@, relative_folder@, file_name@, descriptor@),
{
    let parent = parent_path(relative_folder);
    let directory = if parent.as_str().is_empty() {
        config.output.clone()
    } else {
        join(config.output.as_str(), parent.as_str())
    };
    let mut file = String::from_str(file_name);
    file.append(DESCRIPTOR_EXTENSION);
    let path = join(directory.as_str(), file.as_str());
    match &config.slot_limit {
        Some(limit) => {
            if descriptor.instance.data_slots.len() > limit.count {
                return FolderOutcome::Skipped { path, message: limit.message.clone() };
            }
        },
        None => {},
    }
    let mut descriptor = descriptor;
    let mut data_path = String::from_str(relative_folder);
    proof {
        reveal_strlit("/");
        assert("/"@ =~= seq![SEPARATOR]);
    }
    data_path.append("/");
    descriptor.instance.data_path = data_path;
    let full_path = join(root, path.as_str());
    let directory = join(root, directory.as_str());
    FolderOutcome::Write { path, directory, full_path, descriptor }
}

/// What is to be done for the folder at `folder_path` of the core configured
/// by `config` under `root`. The folder is matched against the slots in force
/// for its name; a folder that matches gets its descriptor built and its
/// output file name derived, and [`outcome_for`] says what follows. A folder
/// that does not lie under the core's asset root is a
/// [`PackagerError::PathEncodingFailure`].
///
/// What the folder holds depends on the file system. Whatever it holds, an
/// outcome other than `NotMatched` is that of [`outcome_for`] for some
/// listings of the folder; a folder of which nothing is required is never
/// `NotMatched`; and for a folder without slots whose name is settled the
/// outcome is that of the empty listings.
pub fn process_folder(config: &InstancePackager, root: &str, folder_path: &str) -> (processed:
    Result<FolderOutcome, PackagerError>)
    ensures
        match processed {
            Ok(outcome) => outcome@ is NotMatched || exists|
                slot_files: Seq<Seq<Seq<char>>>,
                named_files: Seq<Seq<Seq<char>>>,
            |
                relative(folder_path@, asset_root_of(root@, config@.platform_id)) is Some
                    && outcome@ == #[trigger] outcome_for(
                    config@,
                    root@,
                    relative(folder_path@, asset_root_of(root@, config@.platform_id))->0,
                    filename_choice(config@, folder_path@, named_files),
                    descriptor_for(config@, leaf_of(folder_path@), slot_files),
                ),
            Err(failure) => failure != PackagerError::MissingCoresDirectory,
        },
        none_required(config@.slots_for(leaf_of(folder_path@))) ==> !(processed matches Ok(
            outcome,
        ) && outcome@ is NotMatched),
        config@.slots_for(leaf_of(folder_path@)).len() == 0 && name_is_settled(
            config@,
            leaf_of(folder_path@),
        ) ==> match relative(folder_path@, asset_root_of(root@, config@.platform_id)) {
            Some(relative_folder) => processed matches Ok(outcome) && outcome@ == outcome_for(
                config@,
                root@,
                relative_folder,
                filename_choice(config@, folder_path@, Seq::empty()),
                descriptor_for(config@, leaf_of(folder_path@), Seq::empty()),
            ),
            None => processed == Err::<FolderOutcome, PackagerError>(
                PackagerError::PathEncodingFailure,
            ),
        },
{
    let folder_name = leaf_name(folder_path);
    let slots = config.get_slots(folder_name.as_str());
    let matches = match check_if_dir_matches_slots(&slots, folder_path) {
        Ok(matches) => matches,
        Err(failure) => {
            return Err(failure);
        },
    };
    if !matches {
        return Ok(FolderOutcome::NotMatched);
    }
    let descriptor = match build_json(folder_path, config) {
        Ok(descriptor) => descriptor,
        Err(failure) => {
            return Err(failure);
        },
    };
    let asset_folder = asset_root(root, config.platform_id.as_str());
    let relative_folder = match relative_to(folder_path, asset_folder.as_str()) {
        Some(relative_folder) => relative_folder,
        None => {
            return Err(PackagerError::PathEncodingFailure);
        },
    };
    let file_name = match config.get_filename(folder_path) {
        Ok(file_name) => file_name,
        Err(failure) => {
            return Err(failure);
        },
    };
    proof {
        if name_is_settled(config@, leaf_of(folder_path@)) && config@.filename_override(
            leaf_of(folder_path@),
        ) is None {
            lemma_first_named_absent(config@.data_slots, Seq::empty(), 0);
        }
    }
    Ok(plan_output(config, root, relative_folder.as_str(), file_name.as_str(), descriptor))
}

} // verus!
