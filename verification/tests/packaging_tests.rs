use instance_packager::config::{
    InstancePackager, InstancePackagerDataSlot, InstancePackagerOverrides, SlotLimit,
    SlotsCoresAndWrites, Sort,
};
use instance_packager::descriptor::InstanceJSON;
use instance_packager::error::PackagerError;
use instance_packager::packaging::{
    asset_root, config_path, plan_output, process_folder, FolderOutcome,
};
use instance_packager::path_text::is_hidden;
use serde_json::Value;
use std::path::PathBuf;
use walkdir::WalkDir;
use std::path::Path;
use tempfile::{tempdir, Builder};

fn make_dir(parent: &Path, name: &str) {
    if let Ok(dir) = Builder::new().prefix(name).rand_bytes(0).tempdir_in(parent) {
        let _ = dir.keep();
    }
}

fn make_file(parent: &Path, name: &str) {
    if parent.join(name).exists() {
        return;
    }
    let file = Builder::new()
        .prefix(name)
        .rand_bytes(0)
        .tempfile_in(parent)
        .unwrap();
    file.keep().unwrap();
}

fn make_fake_files(files: Vec<&str>) -> tempfile::TempDir {
    let temp_dir = tempdir().unwrap();

    for file in files {
        let mut current = temp_dir.path().to_path_buf();
        let parts: Vec<&str> = file.split('/').collect();
        for (index, part) in parts.iter().enumerate() {
            if index + 1 == parts.len() {
                make_file(&current, part);
            } else {
                make_dir(&current, part);
                current = current.join(part);
            }
        }
    }

    temp_dir
}


fn number(value: &Value) -> usize {
    value.as_u64().unwrap() as usize
}

fn text(value: &Value) -> String {
    String::from(value.as_str().unwrap())
}

fn slot_from(value: &Value) -> InstancePackagerDataSlot {
    InstancePackagerDataSlot {
        id: number(&value["id"]),
        filename: text(&value["filename"]),
        sort: match value["sort"].as_str().unwrap() {
            "single" => Sort::Single,
            "ascending" => Sort::Ascending,
            "descending" => Sort::Descending,
            other => panic!("unknown sort {}", other),
        },
        required: value["required"].as_bool().unwrap(),
        as_filename: value.get("as_filename").map(|flag| flag.as_bool().unwrap()),
    }
}

fn packager_from(document: &str) -> InstancePackager {
    let value: Value = serde_json::from_str(document).unwrap();
    let mut packager = InstancePackager::new(
        text(&value["output"]),
        text(&value["platform_id"]),
        value["data_slots"]
            .as_array()
            .unwrap()
            .iter()
            .map(slot_from)
            .collect(),
    );
    packager.slot_limit = value.get("slot_limit").map(|limit| SlotLimit {
        count: number(&limit["count"]),
        message: text(&limit["message"]),
    });
    packager
}

fn value_to_json(value: &SlotsCoresAndWrites) -> Value {
    let mut object = serde_json::Map::new();
    match value {
        SlotsCoresAndWrites::CoreSelect { id, select } => {
            object.insert(String::from("id"), Value::from(*id));
            object.insert(String::from("select"), Value::from(*select));
        }
        SlotsCoresAndWrites::DataSlot { id, filename } => {
            object.insert(String::from("id"), Value::from(*id));
            object.insert(String::from("filename"), Value::from(filename.clone()));
        }
        SlotsCoresAndWrites::MemoryWriteNum { address, data } => {
            object.insert(String::from("address"), Value::from(*address));
            object.insert(String::from("data"), Value::from(*data));
        }
        SlotsCoresAndWrites::MemoryWriteStr { address, data } => {
            object.insert(String::from("address"), Value::from(address.clone()));
            object.insert(String::from("data"), Value::from(data.clone()));
        }
    }
    Value::Object(object)
}

fn descriptor_to_json(descriptor: &InstanceJSON) -> Value {
    let instance = &descriptor.instance;
    let mut object = serde_json::Map::new();
    object.insert(String::from("magic"), Value::from(instance.magic.clone()));
    if let Some(core_select) = &instance.core_select {
        object.insert(String::from("core_select"), value_to_json(core_select));
    }
    object.insert(
        String::from("data_path"),
        Value::from(instance.data_path.clone()),
    );
    object.insert(
        String::from("data_slots"),
        Value::Array(instance.data_slots.iter().map(value_to_json).collect()),
    );
    object.insert(
        String::from("memory_writes"),
        Value::Array(instance.memory_writes.iter().map(value_to_json).collect()),
    );
    let mut document = serde_json::Map::new();
    document.insert(String::from("instance"), Value::Object(object));
    Value::Object(document)
}

/// Visits the directories of the core's asset tree as a caller of the library
/// does, and gathers what is to be done for each.
fn outcomes_for_core(root: &Path, document: &str) -> Vec<FolderOutcome> {
    let instance_packager = packager_from(document);
    let root_text = root.to_str().unwrap();
    let asset_folder = asset_root(root_text, &instance_packager.platform_id);
    let mut outcomes = vec![];
    let walker = WalkDir::new(&asset_folder).sort_by_file_name().into_iter();
    for entry in walker
        .filter_entry(|e| !is_hidden(e.file_name().to_str().unwrap()))
        .filter_map(|e| e.ok())
    {
        if entry.path().is_dir() {
            let outcome =
                process_folder(&instance_packager, root_text, entry.path().to_str().unwrap())
                    .unwrap();
            outcomes.push(outcome);
        }
    }
    outcomes
}

fn written(outcomes: &Vec<FolderOutcome>, wanted: &str) -> Value {
    for outcome in outcomes {
        if let FolderOutcome::Write {
            path, descriptor, ..
        } = outcome
        {
            if path == wanted {
                return descriptor_to_json(descriptor);
            }
        }
    }
    panic!("nothing is written to {}", wanted);
}

#[test]
fn test_build_some_nested() {
    let temp_dir = make_fake_files(vec![
        "Assets/platform_name/common/game_a/game_a (1).bin",
        "Assets/platform_name/common/game_a/game_a.cue",
        "Assets/platform_name/common/nested/game_b/game_b (1).bin",
        "Assets/platform_name/common/nested/game_b/game_b.cue",
        "Cores/core_name/instance-packager.json",
    ]);
    let temp_path = temp_dir.path();

    let instance_package_json = r#"
        {
            "output":"Assets/platform_name/core_name",
            "platform_id": "platform_name",
            "slot_limit": {
               "count": 28,
               "message": "oh no - too many"
            },
            "data_slots":[
               {
                  "id":100,
                  "filename":"*.cue",
                  "sort":"single",
                  "required":true,
                  "as_filename":true
               },
               {
                  "id":101,
                  "filename":"*.bin",
                  "sort":"ascending",
                  "required":true
               }
            ]
         }
    "#;

    assert_eq!(
        config_path(temp_path.to_str().unwrap(), "core_name"),
        temp_path
            .join("Cores/core_name/instance-packager.json")
            .to_str()
            .unwrap()
    );

    let outcomes = outcomes_for_core(temp_path, instance_package_json);

    let json = written(&outcomes, "Assets/platform_name/core_name/game_a.json");
    let expected: Value = serde_json::from_str(
        r#"{
            "instance": {
              "data_path": "game_a/",
              "data_slots": [
                {"filename": "game_a.cue", "id": 100},
                {"filename": "game_a (1).bin", "id": 101}
              ],
              "magic": "APF_VER_1",
              "memory_writes": []
            }
        }"#,
    )
    .unwrap();
    assert_eq!(&json, &expected);

    let json = written(
        &outcomes,
        "Assets/platform_name/core_name/nested/game_b.json",
    );
    let expected: Value = serde_json::from_str(
        r#"{
            "instance": {
              "data_path": "nested/game_b/",
              "data_slots": [
                {"filename": "game_b.cue", "id": 100},
                {"filename": "game_b (1).bin", "id": 101}
              ],
              "magic": "APF_VER_1",
              "memory_writes": []
            }
        }"#,
    )
    .unwrap();
    assert_eq!(&json, &expected);

    let mut places = vec![];
    for outcome in &outcomes {
        match outcome {
            FolderOutcome::Write {
                path,
                directory,
                full_path,
                ..
            } => places.push((path.clone(), directory.clone(), full_path.clone())),
            FolderOutcome::NotMatched => {}
            FolderOutcome::Skipped { path, .. } => panic!("{} was skipped", path),
        }
    }
    let root = temp_path.to_str().unwrap();
    assert_eq!(
        places,
        vec![
            (
                String::from("Assets/platform_name/core_name/game_a.json"),
                format!("{}/Assets/platform_name/core_name", root),
                format!("{}/Assets/platform_name/core_name/game_a.json", root),
            ),
            (
                String::from("Assets/platform_name/core_name/nested/game_b.json"),
                format!("{}/Assets/platform_name/core_name/nested", root),
                format!("{}/Assets/platform_name/core_name/nested/game_b.json", root),
            ),
        ]
    );
    assert_eq!(outcomes.len(), 4);
}

#[test]
fn test_build_too_many_files() {
    let temp_dir = make_fake_files(vec![
        "Cores/core_name/instance-packager.json",
        "Assets/platform_name/common/game_a/game_a.cue",
        "Assets/platform_name/common/game_a/game_a (1).bin",
        "Assets/platform_name/common/game_a/game_a (2).bin",
        "Assets/platform_name/common/game_a/game_a (3).bin",
        "Assets/platform_name/common/game_a/game_a (4).bin",
        "Assets/platform_name/common/game_a/game_a (5).bin",
        "Assets/platform_name/common/game_a/game_a (6).bin",
        "Assets/platform_name/common/game_a/game_a (7).bin",
        "Assets/platform_name/common/game_a/game_a (8).bin",
        "Assets/platform_name/common/game_a/game_a (9).bin",
        "Assets/platform_name/common/game_a/game_a (10).bin",
        "Assets/platform_name/common/game_a/game_a (11).bin",
        "Assets/platform_name/common/game_a/game_a (12).bin",
    ]);
    let temp_path = temp_dir.path();

    let instance_package_json = r#"
        {
            "output":"Assets/platform_name/core_name",
            "platform_id": "platform_name",
            "slot_limit": {
               "count": 10,
               "message": "oh no - too many"
            },
            "data_slots":[
               {
                  "id":100,
                  "filename":"*.cue",
                  "sort":"single",
                  "required":true,
                  "as_filename":true
               },
               {
                  "id":101,
                  "filename":"*.bin",
                  "sort":"ascending",
                  "required":true
               }
            ]
         }
    "#;

    let outcomes = outcomes_for_core(temp_path, instance_package_json);

    let mut skipped = 0;
    for outcome in &outcomes {
        match outcome {
            FolderOutcome::Skipped { path, message } => {
                skipped += 1;
                let file_name = path.as_str();
                assert_eq!(
                    file_name,
                    PathBuf::from("Assets/platform_name/core_name")
                        .join("game_a.json")
                        .to_str()
                        .unwrap()
                );
                assert_eq!(message, "oh no - too many")
            }
            FolderOutcome::Write { path, .. } => panic!("{} would be written", path),
            FolderOutcome::NotMatched => {}
        }
    }
    assert_eq!(skipped, 1);

    let exists = temp_path
        .join("Assets/platform_name/core_name/game_a.json")
        .exists();

    assert!(!exists);
}

#[test]
fn the_slot_limit_is_inclusive() {
    let slots = |count: usize| -> Vec<SlotsCoresAndWrites> {
        (0..count)
            .map(|id| SlotsCoresAndWrites::DataSlot {
                id,
                filename: format!("{}.bin", id),
            })
            .collect()
    };
    let mut packager = InstancePackager::new(String::from("out"), String::from("p"), vec![]);
    packager.slot_limit = Some(SlotLimit {
        count: 2,
        message: String::from("too many"),
    });

    for count in [0, 1, 2] {
        let mut descriptor = InstanceJSON::new();
        descriptor.instance.data_slots = slots(count);
        match plan_output(&packager, "/root", "game", "name", descriptor) {
            FolderOutcome::Write {
                path,
                directory,
                full_path,
                descriptor,
            } => {
                assert_eq!(path, "out/name.json");
                assert_eq!(directory, "/root/out");
                assert_eq!(full_path, "/root/out/name.json");
                assert_eq!(descriptor.instance.data_path, "game/");
                assert_eq!(descriptor.instance.data_slots, slots(count));
                assert_eq!(descriptor.instance.magic, "APF_VER_1");
            }
            other => panic!("unexpected outcome {:?}", other),
        }
    }

    let mut descriptor = InstanceJSON::new();
    descriptor.instance.data_slots = slots(3);
    match plan_output(&packager, "/root", "deep/er/game", "name", descriptor) {
        FolderOutcome::Skipped { path, message } => {
            assert_eq!(path, "out/deep/er/name.json");
            assert_eq!(message, "too many");
        }
        other => panic!("unexpected outcome {:?}", other),
    }

    packager.slot_limit = None;
    let mut descriptor = InstanceJSON::new();
    descriptor.instance.data_slots = slots(3);
    match plan_output(&packager, "/root", "deep/er/game", "name", descriptor) {
        FolderOutcome::Write {
            path,
            directory,
            full_path,
            descriptor,
        } => {
            assert_eq!(path, "out/deep/er/name.json");
            assert_eq!(directory, "/root/out/deep/er");
            assert_eq!(full_path, "/root/out/deep/er/name.json");
            assert_eq!(descriptor.instance.data_path, "deep/er/game/");
        }
        other => panic!("unexpected outcome {:?}", other),
    }
}

#[test]
fn asset_root_and_config_path_are_fixed_places() {
    assert_eq!(asset_root("/root", "p"), "/root/Assets/p/common");
    assert_eq!(asset_root("/root/", "p"), "/root/Assets/p/common");
    assert_eq!(asset_root("", "p"), "Assets/p/common");
    assert_eq!(
        config_path("/root", "core_name"),
        "/root/Cores/core_name/instance-packager.json"
    );
}

#[test]
fn overrides_and_hidden_files_shape_the_outcome() {
    let temp_dir = make_fake_files(vec![
        "Assets/p/common/plain/b.rom",
        "Assets/p/common/plain/a.rom",
        "Assets/p/common/plain/.c.rom",
        "Assets/p/common/plain/title.cue",
        "Assets/p/common/renamed/a.rom",
        "Assets/p/common/empty/readme.txt",
        "Assets/p/common/.hidden/a.rom",
        "Assets/p/common/.hidden/title.cue",
    ]);
    let root = temp_dir.path().to_str().unwrap();
    let mut packager = InstancePackager::new(
        String::from("Assets/p/core"),
        String::from("p"),
        vec![
            InstancePackagerDataSlot {
                id: 10,
                filename: String::from("*.rom"),
                sort: Sort::Descending,
                required: true,
                as_filename: None,
            },
            InstancePackagerDataSlot {
                id: 1,
                filename: String::from("*.cue"),
                sort: Sort::Single,
                required: false,
                as_filename: Some(true),
            },
        ],
    );
    packager.set_override(
        String::from("renamed"),
        InstancePackagerOverrides {
            data_slots: None,
            filename: Some(String::from("other name")),
            memory_writes: Some(vec![SlotsCoresAndWrites::MemoryWriteNum {
                address: 4,
                data: 2,
            }]),
            core_select: Some(SlotsCoresAndWrites::CoreSelect {
                id: 3,
                select: true,
            }),
        },
    );

    let folder = format!("{}/Assets/p/common/plain", root);
    match process_folder(&packager, root, &folder).unwrap() {
        FolderOutcome::Write {
            path, descriptor, ..
        } => {
            assert_eq!(path, "Assets/p/core/title.json");
            assert_eq!(descriptor.instance.data_path, "plain/");
            assert_eq!(
                descriptor.instance.data_slots,
                vec![
                    SlotsCoresAndWrites::DataSlot {
                        id: 10,
                        filename: String::from("b.rom")
                    },
                    SlotsCoresAndWrites::DataSlot {
                        id: 11,
                        filename: String::from("a.rom")
                    },
                    SlotsCoresAndWrites::DataSlot {
                        id: 1,
                        filename: String::from("title.cue")
                    },
                ]
            );
            assert_eq!(descriptor.instance.memory_writes, vec![]);
            assert_eq!(descriptor.instance.core_select, None);
        }
        other => panic!("unexpected outcome {:?}", other),
    }

    let folder = format!("{}/Assets/p/common/renamed", root);
    match process_folder(&packager, root, &folder).unwrap() {
        FolderOutcome::Write {
            path, descriptor, ..
        } => {
            assert_eq!(path, "Assets/p/core/other name.json");
            assert_eq!(descriptor.instance.data_path, "renamed/");
            assert_eq!(
                descriptor.instance.memory_writes,
                vec![SlotsCoresAndWrites::MemoryWriteNum {
                    address: 4,
                    data: 2
                }]
            );
            assert_eq!(
                descriptor.instance.core_select,
                Some(SlotsCoresAndWrites::CoreSelect {
                    id: 3,
                    select: true
                })
            );
        }
        other => panic!("unexpected outcome {:?}", other),
    }

    let folder = format!("{}/Assets/p/common/empty", root);
    assert!(matches!(
        process_folder(&packager, root, &folder),
        Ok(FolderOutcome::NotMatched)
    ));

    let outside = format!("{}/Assets/p/common/.hidden", root);
    let elsewhere = format!("{}/Assets/q", root);
    assert!(matches!(
        process_folder(&packager, &elsewhere, &outside),
        Err(PackagerError::PathEncodingFailure)
    ));
}
