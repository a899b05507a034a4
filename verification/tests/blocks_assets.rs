use scratch_lang::blocks::block::BlockDefinition;
use scratch_lang::assets::{AssetCategory, AssetIndex, AssetInfo};
use scratch_lang::blocks::registry::BlockRegistry;
use scratch_lang::blocks::types::{BlockCategory, BlockType};
use scratch_lang::text::levenshtein;

#[test]
fn test_asset_indexing_and_lookup() {
    let mut index = AssetIndex::new();
    index.register(AssetInfo {
        name: "coin".into(),
        category: AssetCategory::Sound,
        relative_path: "assets/sounds/coin.wav".into(),
        extension: "wav".into(),
    });

    assert!(index.has_sound("coin"));
    assert!(!index.has_sprite("coin"));
    assert_eq!(index.find_similar("coyn"), Some("coin"));
}

#[test]
fn test_core_registry_contains_primitives() {
    let registry = BlockRegistry::core_blocks();
    assert!(registry.contains("move"));
    assert!(registry.contains("jump"));
    assert!(registry.contains("touching"));
    assert!(registry.contains("damage"));
    assert!(registry.contains("sound.play"));

    let move_def = registry.get("move").expect("move block exists");
    assert_eq!(move_def.category, BlockCategory::Movement);
    assert_eq!(move_def.parameters.len(), 3);
    assert_eq!(move_def.parameters[0].name, "target");
    assert_eq!(move_def.parameters[0].param_type, BlockType::Object);
}

#[test]
fn test_did_you_mean_suggestion() {
    let registry = BlockRegistry::core_blocks();
    assert_eq!(registry.find_similar("moov"), Some("move"));
    assert_eq!(registry.find_similar("jmp"), Some("jump"));
}

#[test]
fn levenshtein_ignores_ascii_case_and_counts_edits() {
    assert_eq!(levenshtein("kitten", "sitting"), 3);
    assert_eq!(levenshtein("Move", "move"), 0);
    assert_eq!(levenshtein("", "abc"), 3);
    assert_eq!(levenshtein("abc", ""), 3);
}

#[test]
fn registry_register_replaces_same_name() {
    let mut r = BlockRegistry::new();
    r.register(BlockDefinition::new("a", BlockCategory::Custom, "first", BlockType::Void, "h"));
    r.register(BlockDefinition::new("a", BlockCategory::Custom, "second", BlockType::Void, "h"));
    assert_eq!(r.iter().len(), 1);
    assert_eq!(r.get("a").unwrap().description, "second");
    assert_eq!(r.get("a").unwrap().autocomplete_metadata.snippet, "a($0)");
    assert!(r.find_similar("zzzzzz").is_none());
}

#[test]
fn asset_file_names_split_into_stem_and_extension() {
    let mut index = AssetIndex::new();
    index.register_file(AssetCategory::Sprite, "player.idle.png", "assets/sprites/player.idle.png");
    index.register_file(AssetCategory::Font, ".hidden", "assets/fonts/.hidden");
    let a = index.get("player.idle").unwrap();
    assert_eq!(a.extension, "png");
    assert!(index.has_sprite("player.idle"));
    assert_eq!(index.get(".hidden").unwrap().extension, "");
    assert!(!index.has_background("player.idle"));
    assert_eq!(AssetCategory::Music.to_string(), "music");
}

#[test]
fn core_catalogue_entries_are_complete() {
    let registry = BlockRegistry::core_blocks();
    let mv = registry.get("move").unwrap();
    assert_eq!(mv.parameters[1].name, "x");
    assert!(mv.parameters[2].optional);
    assert_eq!(mv.parameters[2].default_value.as_deref(), Some("0"));
    assert_eq!(mv.min_params(), 2);
    assert_eq!(mv.documentation, "Moves the specified target object horizontally by x and vertically by y pixels.");
    assert_eq!(mv.examples, vec!["move(Player, 5)".to_string(), "move(Player, -5, 2)".to_string()]);
    assert_eq!(mv.autocomplete_metadata.snippet, "move($0)");
    assert_eq!(mv.runtime_handler, "MovementSystem::move");
    let collect = registry.get("collect").unwrap();
    assert_eq!(collect.parameters[0].param_type, BlockType::Object);
    let username = registry.get("get_username").unwrap();
    assert_eq!(username.category, BlockCategory::Sensing);
    assert_eq!(username.return_type, BlockType::String);
    assert!(username.parameters.is_empty());
    assert_eq!(registry.iter().len(), 103);
}

#[test]
fn registering_counts_new_names_once() {
    let mut index = AssetIndex::new();
    let coin = AssetInfo {
        name: "coin".into(),
        category: AssetCategory::Sound,
        relative_path: "assets/sounds/coin.wav".into(),
        extension: "wav".into(),
    };
    index.register(coin.clone());
    assert_eq!(index.iter().len(), 1);
    index.register(AssetInfo { relative_path: "assets/sounds/coin.ogg".into(), extension: "ogg".into(), ..coin.clone() });
    assert_eq!(index.iter().len(), 1);
    assert_eq!(index.get("coin").unwrap().extension, "ogg");
    index.register(AssetInfo { name: "gem".into(), ..coin });
    assert_eq!(index.iter().len(), 2);
}

#[test]
fn clones_keep_their_contents() {
    let registry = BlockRegistry::core_blocks();
    let copy = registry.clone();
    assert_eq!(copy.iter().len(), registry.iter().len());
    assert_eq!(copy.get("move").unwrap(), registry.get("move").unwrap());
    let mut index = AssetIndex::new();
    index.register(AssetInfo {
        name: "coin".into(),
        category: AssetCategory::Sound,
        relative_path: "assets/sounds/coin.wav".into(),
        extension: "wav".into(),
    });
    let copy = index.clone();
    assert!(copy.has_sound("coin"));
}

#[test]
fn trimming_removes_unicode_white_space() {
    assert_eq!(scratch_lang::text::trim_str("\u{3000}\t a b\u{85}\n"), "a b");
    assert_eq!(scratch_lang::text::trim_start_str("\u{a0} a b "), "a b ");
    assert_eq!(scratch_lang::text::trim_str(" \u{2009} "), "");
    assert_eq!(scratch_lang::text::trim_str("x\u{200b}"), "x\u{200b}");
}
