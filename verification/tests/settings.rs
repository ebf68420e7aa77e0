use scanner_ui::key_mapping::{apply_input, apply_settings_input, FrameInput};
use scanner_ui::camera::CameraState;
use scanner_ui::settings::{
    Grid, Settings, GRID_SLICES, GRID_SPACING, GRID_STEP, PANEL_HEIGHT, PANEL_WIDTH,
};
use scanner_ui::styles::{ConfigurationError, StyleKey, StyleTable};

fn quiet_input() -> FrameInput {
    FrameInput {
        up_held: false,
        down_held: false,
        left_held: false,
        right_held: false,
        primary_held: false,
        pointer: (0, 0),
        frame_time: 16,
        wheel: 0,
        reset_pressed: false,
        settings_pressed: false,
        keymapping_pressed: false,
        debug_pressed: false,
        theme_pressed: false,
        shift_held: false,
        increase_held: false,
        decrease_held: false,
    }
}

fn default_settings() -> Settings {
    Settings::builder().build((800_000, 600_000))
}

#[test]
fn build_falls_back_to_the_documented_defaults() {
    let settings = default_settings();
    assert!(!settings.display_settings);
    assert!(!settings.display_keymapping);
    assert!(!settings.dark_theme);
    assert!(!settings.debug);
    assert_eq!(settings.window_size, (PANEL_WIDTH, PANEL_HEIGHT));
    assert_eq!(settings.position, (400_000 - PANEL_WIDTH, 300_000 - PANEL_HEIGHT));
    assert_eq!(settings.grid.slices, GRID_SLICES);
    assert_eq!(settings.grid.spacing, GRID_SPACING);
    assert_eq!(settings.skin.keys, vec![StyleKey::Default]);
}

#[test]
fn build_takes_every_override() {
    let mut table = StyleTable::new();
    table.register(StyleKey::Default);
    table.register(StyleKey::Keymapping);
    let settings = Settings::builder()
        .display_settings(true)
        .display_keymapping(true)
        .dark_theme(true)
        .debug(true)
        .skin(table)
        .position((11, 22))
        .window_size((100_000, 150_000))
        .grid(Grid { slices: 30_000, spacing: 2_000 })
        .build((800_000, 600_000));
    assert!(settings.display_settings);
    assert!(settings.display_keymapping);
    assert!(settings.dark_theme);
    assert!(settings.debug);
    assert_eq!(settings.position, (11, 22));
    assert_eq!(settings.window_size, (100_000, 150_000));
    assert_eq!(settings.grid.slices, 30_000);
    assert_eq!(settings.grid.spacing, 2_000);
    assert_eq!(
        settings.skin.keys,
        vec![StyleKey::Default, StyleKey::Keymapping]
    );
}

#[test]
fn builder_debug_sets_only_the_debug_flag() {
    let settings = Settings::builder().debug(true).build((0, 0));
    assert!(settings.debug);
    assert!(!settings.dark_theme);
}

#[test]
fn toggles_flip_exactly_one_flag() {
    let mut settings = default_settings();
    settings.switch_theme();
    assert!(settings.dark_theme);
    assert!(!settings.debug);
    assert!(!settings.display_settings);
    assert!(!settings.display_keymapping);

    settings.toggle_debug();
    assert!(settings.debug);
    settings.toggle_display_settings();
    assert!(settings.display_settings);
    settings.toggle_display_keymapping();
    assert!(settings.display_keymapping);
    assert!(settings.dark_theme);
}

#[test]
fn toggling_twice_restores_each_flag() {
    let mut settings = default_settings();
    settings.switch_theme();
    settings.switch_theme();
    assert!(!settings.dark_theme);

    settings.toggle_debug();
    settings.toggle_debug();
    assert!(!settings.debug);

    settings.toggle_display_settings();
    settings.toggle_display_settings();
    assert!(!settings.display_settings);

    settings.toggle_display_keymapping();
    settings.toggle_display_keymapping();
    assert!(!settings.display_keymapping);
}

#[test]
fn grid_commands_accumulate_without_clamping() {
    let mut settings = default_settings();
    for _ in 0..5 {
        settings.increase_grid_size();
    }
    for _ in 0..3 {
        settings.decrease_grid_size();
    }
    assert_eq!(settings.grid.slices, GRID_SLICES + 5 * GRID_STEP - 3 * GRID_STEP);
}

#[test]
fn grid_size_may_go_negative() {
    let mut settings = default_settings();
    for _ in 0..25 {
        settings.decrease_grid_size();
    }
    assert_eq!(settings.grid.slices, GRID_SLICES - 25 * GRID_STEP);
    assert!(settings.grid.slices < 0);
}

#[test]
fn refresh_position_centres_the_panel_whatever_stood_before() {
    let mut settings = default_settings();
    settings.position = (123_456, -654_321);
    settings.refresh_position((800_000, 600_000));
    assert_eq!(
        settings.position,
        (400_000 - PANEL_WIDTH / 2, 300_000 - PANEL_HEIGHT / 2)
    );

    settings.position = (1, 1);
    settings.refresh_position((800_000, 600_000));
    assert_eq!(settings.position, (240_000, 100_000));
}

#[test]
fn refresh_position_truncates_odd_halves() {
    let mut settings = Settings::builder().window_size((3, 5)).build((0, 0));
    settings.refresh_position((11, 7));
    assert_eq!(settings.position, (5 - 1, 3 - 2));
}

#[test]
fn settings_commands_apply_within_one_frame() {
    let mut camera = CameraState::new((0, 0));
    let mut settings = default_settings();
    let input = FrameInput {
        settings_pressed: true,
        keymapping_pressed: true,
        debug_pressed: true,
        theme_pressed: true,
        shift_held: true,
        increase_held: true,
        ..quiet_input()
    };
    apply_input(&mut camera, &mut settings, &input);
    assert!(settings.display_settings);
    assert!(settings.display_keymapping);
    assert!(settings.debug);
    assert!(settings.dark_theme);
    assert_eq!(settings.grid.slices, GRID_SLICES + GRID_STEP);
}

#[test]
fn grid_resize_needs_the_shift_key() {
    let mut settings = default_settings();
    let input = FrameInput {
        increase_held: true,
        decrease_held: true,
        ..quiet_input()
    };
    apply_settings_input(&mut settings, &input);
    assert_eq!(settings.grid.slices, GRID_SLICES);
}

#[test]
fn both_grid_directions_in_one_frame_cancel_out() {
    let mut settings = default_settings();
    let input = FrameInput {
        shift_held: true,
        increase_held: true,
        decrease_held: true,
        ..quiet_input()
    };
    apply_settings_input(&mut settings, &input);
    assert_eq!(settings.grid.slices, GRID_SLICES);
}

#[test]
fn validate_wants_both_style_names() {
    let empty = StyleTable::new();
    assert_eq!(
        empty.validate(),
        Err(ConfigurationError::MissingStyle(StyleKey::Default))
    );

    let mut only_default = StyleTable::new();
    only_default.register(StyleKey::Default);
    assert_eq!(
        only_default.validate(),
        Err(ConfigurationError::MissingStyle(StyleKey::Keymapping))
    );

    let mut both = StyleTable::new();
    both.register(StyleKey::Default);
    both.register(StyleKey::Keymapping);
    assert_eq!(both.validate(), Ok(()));
}

#[test]
fn contains_reports_registered_names() {
    let mut table = StyleTable::new();
    assert!(!table.contains(StyleKey::Default));
    table.register(StyleKey::Keymapping);
    assert!(table.contains(StyleKey::Keymapping));
    assert!(!table.contains(StyleKey::Default));
}
