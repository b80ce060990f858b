//! Extension lists: what a loader and a plugin are created with.

use bevy_asset_ron::extensions::{includes, same_text};
use bevy_asset_ron::{RonAssetPlugin, RonLoader};

#[test]
fn loader_keeps_its_extensions_in_order() {
    let loader = RonLoader::<u8>::new(&["camera", "cubes", "cfg"]);
    assert_eq!(loader.extensions(), &["camera", "cubes", "cfg"]);
}

#[test]
fn plugin_hands_its_extensions_to_the_loader() {
    let plugin = RonAssetPlugin::<u8>::new(&["camera", "cubes"]);
    assert_eq!(plugin.loader().extensions(), &["camera", "cubes"]);
    assert_eq!(plugin.loader().extensions(), &["camera", "cubes"]);
}

#[test]
fn plugin_without_extensions_binds_a_loader_without_extensions() {
    let plugin = RonAssetPlugin::<u8>::new(&[]);
    assert!(plugin.loader().extensions().is_empty());
    assert!(!plugin.loader().recognizes("cfg"));
    assert!(!plugin.loader().recognizes(""));
}

#[test]
fn every_declared_extension_is_recognized() {
    let declared = ["camera", "cubes", "cfg", "scene.ron", "données"];
    let loader = RonAssetPlugin::<u8>::new(&declared).loader();
    for extension in declared {
        assert!(loader.recognizes(extension));
    }
}

#[test]
fn other_extensions_are_not_recognized() {
    let loader = RonLoader::<u8>::new(&["camera", "cubes"]);
    for extension in ["", "c", "cam", "cameras", "Camera", "cube", "ron", "camera cubes"] {
        assert!(!loader.recognizes(extension));
    }
}

#[test]
fn disjoint_loaders_recognize_no_common_extension() {
    let cameras = RonLoader::<u8>::new(&["camera", "cam"]);
    let cubes = RonLoader::<String>::new(&["cubes", "boxes"]);
    for extension in ["camera", "cam", "cubes", "boxes", "cfg", ""] {
        assert!(!(cameras.recognizes(extension) && cubes.recognizes(extension)));
    }
    for extension in cameras.extensions() {
        assert!(!cubes.recognizes(extension));
    }
    for extension in cubes.extensions() {
        assert!(!cameras.recognizes(extension));
    }
}

#[test]
fn among_disjoint_loaders_each_extension_has_one_owner() {
    let registered: [&[&'static str]; 3] = [&["camera"], &["cubes", "boxes"], &["cfg"]];
    for (owner, list) in registered.iter().enumerate() {
        for extension in list.iter() {
            let owners: Vec<usize> =
                (0..registered.len()).filter(|&k| includes(registered[k], extension)).collect();
            assert_eq!(owners, vec![owner]);
        }
    }
}

#[test]
fn repeated_extension_is_kept_and_recognized() {
    let loader = RonLoader::<u8>::new(&["cfg", "cfg"]);
    assert_eq!(loader.extensions(), &["cfg", "cfg"]);
    assert!(loader.recognizes("cfg"));
}

#[test]
fn same_text_compares_whole_strings() {
    assert!(same_text("", ""));
    assert!(same_text("cfg", "cfg"));
    assert!(same_text("données", "données"));
    assert!(!same_text("cfg", "cfh"));
    assert!(!same_text("cfg", "cf"));
    assert!(!same_text("cf", "cfg"));
    assert!(!same_text("cfg", "CFG"));
    assert!(!same_text("", "a"));
    assert!(!same_text("é", "e"));
}

#[test]
fn includes_finds_an_extension_at_any_place() {
    let list = ["a", "b", "c"];
    assert!(includes(&list, "a"));
    assert!(includes(&list, "b"));
    assert!(includes(&list, "c"));
    assert!(!includes(&list, "d"));
    assert!(!includes(&[], "a"));
}
