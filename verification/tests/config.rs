use comfort_rpg::comfort_config::{load_settings, ComfortConfig, FractalSettings, SettingsError};
use comfort_rpg::game_state::{run_game, toggle_inventory, GameState};

fn settings(octaves: i32, gain: f32, lacunarity: f32, frequency: f32) -> FractalSettings {
    FractalSettings {
        octaves,
        gain: gain.to_bits(),
        lacunarity: lacunarity.to_bits(),
        frequency: frequency.to_bits(),
    }
}

#[test]
fn presets_are_picked_by_name() {
    let terrain = settings(5, 0.5, 2.0, 1.5);
    let tree = settings(3, 0.6, 3.0, 9.0);
    let config = ComfortConfig { terrainperlin: terrain, treeperlin: tree };
    assert_eq!(load_settings(&config, "terrainperlin"), Ok(terrain));
    assert_eq!(load_settings(&config, "treeperlin"), Ok(tree));
}

#[test]
fn an_unknown_preset_is_an_error() {
    let config = ComfortConfig {
        terrainperlin: settings(5, 0.5, 2.0, 1.5),
        treeperlin: settings(3, 0.6, 3.0, 9.0),
    };
    for name in ["anything", "", "treeperlin ", "Treeperlin", "terrain", "terrainperlintreeperlin"] {
        assert_eq!(load_settings(&config, name), Err(SettingsError::UnknownPreset), "{name:?}");
    }
    // Nor does an unknown name report the fault of another set.
    let faulty = ComfortConfig {
        terrainperlin: settings(0, 0.5, 2.0, 1.5),
        treeperlin: settings(3, -1.0, 3.0, 9.0),
    };
    assert_eq!(load_settings(&faulty, "anything"), Err(SettingsError::UnknownPreset));
    assert_eq!(load_settings(&faulty, "terrainperlin"), Err(SettingsError::Octaves));
    assert_eq!(load_settings(&faulty, "treeperlin"), Err(SettingsError::Gain));
}

#[test]
fn settings_out_of_range_are_refused() {
    let good = settings(1, 0.5, 2.0, 1.0);
    assert_eq!(good.check(), Ok(()));
    assert_eq!(settings(0, 0.5, 2.0, 1.0).check(), Err(SettingsError::Octaves));
    assert_eq!(settings(-4, 0.0, 0.0, 0.0).check(), Err(SettingsError::Octaves));
    assert_eq!(settings(1, 0.0, 2.0, 1.0).check(), Err(SettingsError::Gain));
    assert_eq!(settings(1, -0.5, 2.0, 1.0).check(), Err(SettingsError::Gain));
    assert_eq!(settings(1, f32::NAN, 2.0, 1.0).check(), Err(SettingsError::Gain));
    assert_eq!(settings(1, 0.5, f32::INFINITY, 1.0).check(), Err(SettingsError::Lacunarity));
    assert_eq!(settings(1, 0.5, -0.0, 1.0).check(), Err(SettingsError::Lacunarity));
    assert_eq!(settings(1, 0.5, 2.0, -1.0).check(), Err(SettingsError::Frequency));
    assert_eq!(settings(1, 0.5, 2.0, 0.0).check(), Err(SettingsError::Frequency));
    assert_eq!(settings(1, f32::MIN_POSITIVE, f32::MAX, 1e-40).check(), Ok(()));
    let config = ComfortConfig { terrainperlin: good, treeperlin: settings(0, 0.5, 2.0, 1.0) };
    assert_eq!(load_settings(&config, "treeperlin"), Err(SettingsError::Octaves));
    assert_eq!(load_settings(&config, "terrainperlin"), Ok(good));
}

#[test]
fn the_inventory_pauses_the_game() {
    assert_eq!(run_game(), GameState::Running);
    let mut visible = false;
    assert_eq!(toggle_inventory(&mut visible), GameState::Menu);
    assert!(visible);
    assert_eq!(toggle_inventory(&mut visible), GameState::Running);
    assert!(!visible);
}
