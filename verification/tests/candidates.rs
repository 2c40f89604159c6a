use asset_resolver::candidates::{candidate_paths, Location, Origin};
use asset_resolver::category::AssetCategory;

#[test]
fn audio_candidates_in_priority_order() {
    assert_eq!(
        candidate_paths(AssetCategory::Audio, "beep.ogg"),
        vec![
            "resources/audio/beep.ogg".to_string(),
            "resources/beep.ogg".to_string(),
            "audio/beep.ogg".to_string(),
            "beep.ogg".to_string(),
        ]
    );
}

#[test]
fn model_candidates_in_priority_order() {
    assert_eq!(
        candidate_paths(AssetCategory::Models, "robot.zip"),
        vec![
            "resources/models/robot.zip".to_string(),
            "resources/robot.zip".to_string(),
            "models/robot.zip".to_string(),
            "robot.zip".to_string(),
        ]
    );
}

#[test]
fn candidates_keep_the_name_as_given() {
    assert_eq!(
        candidate_paths(AssetCategory::Audio, "sub dir/ä.wav"),
        vec![
            "resources/audio/sub dir/ä.wav".to_string(),
            "resources/sub dir/ä.wav".to_string(),
            "audio/sub dir/ä.wav".to_string(),
            "sub dir/ä.wav".to_string(),
        ]
    );
}

#[test]
fn candidates_of_an_empty_name() {
    assert_eq!(
        candidate_paths(AssetCategory::Models, ""),
        vec![
            "resources/models/".to_string(),
            "resources/".to_string(),
            "models/".to_string(),
            String::new(),
        ]
    );
}

#[test]
fn category_directories() {
    assert_eq!(AssetCategory::Audio.dir(), "audio");
    assert_eq!(AssetCategory::Models.dir(), "models");
    assert_eq!(AssetCategory::Audio.dev_subdir(), "resources/audio");
    assert_eq!(AssetCategory::Models.dev_subdir(), "resources/models");
}

#[test]
fn category_nouns() {
    assert_eq!(AssetCategory::Audio.noun(), "audio file");
    assert_eq!(AssetCategory::Models.noun(), "model zip");
}

#[test]
fn location_origins() {
    let dev = Location::DevTree {
        subdir: "resources/audio".to_string(),
        name: "beep.ogg".to_string(),
    };
    let packaged = Location::Packaged {
        relative: "resources/beep.ogg".to_string(),
    };
    assert_eq!(dev.origin(), Origin::DevTree);
    assert_eq!(packaged.origin(), Origin::Packaged);
}
