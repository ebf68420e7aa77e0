//! Settings of the viewer: panel visibility, theme, debug overlay and grid
//! resolution, together with the panel placement rule.
//!
//! Every numeric field is a fixed-point value (see [`crate::fixed`]). Each
//! toggle is an independent two-state machine; the grid size moves by one
//! whole unit per command with no bounds; a panel is re-centred on the
//! viewport every time it is shown, whatever its previous position.

use crate::fixed::half;
use crate::styles::{StyleKey, StyleTable};
use vstd::prelude::*;

verus! {

/// Fixed-point change of the grid slice count per resize command (1.0).
pub const GRID_STEP: i64 = 1000;

/// Startup number of grid slices (20.0 in fixed point).
pub const GRID_SLICES: i64 = 20_000;

/// Startup spacing between grid lines (1.0 in fixed point).
pub const GRID_SPACING: i64 = 1000;

/// Startup panel width (320.0 in fixed point).
pub const PANEL_WIDTH: i64 = 320_000;

/// Startup panel height (400.0 in fixed point).
pub const PANEL_HEIGHT: i64 = 400_000;

/// Grid resolution drawn under the scene, in fixed point.
pub struct Grid {
    /// Number of slices; unbounded, may go negative.
    pub slices: i64,
    /// Distance between neighbouring lines.
    pub spacing: i64,
}

/// UI-visible state of the viewer outside the camera.
pub struct Settings {
    /// Whether the settings panel is shown.
    pub display_settings: bool,
    /// Whether the keybinding help window is shown.
    pub display_keymapping: bool,
    /// Dark colour scheme instead of the light one.
    pub dark_theme: bool,
    /// Whether the debug overlay is drawn.
    pub debug: bool,
    /// Names registered in the style table; fixed after startup.
    pub skin: StyleTable,
    /// Top-left corner of the panel, recomputed whenever a panel is shown.
    pub position: (i64, i64),
    /// Size of the panel window; components are never negative.
    pub window_size: (i64, i64),
    /// Grid resolution.
    pub grid: Grid,
}

/// Mathematical value of a [`Settings`]: the same fields over unbounded
/// integers, the style table as the sequence of its registered names.
pub ghost struct SettingsModel {
    pub display_settings: bool,
    pub display_keymapping: bool,
    pub dark_theme: bool,
    pub debug: bool,
    pub skin: Seq<StyleKey>,
    pub position: (int, int),
    pub window_size: (int, int),
    pub slices: int,
    pub spacing: int,
}

/// The model with the settings-panel visibility flipped.
pub open spec fn with_display_settings_toggled(m: SettingsModel) -> SettingsModel {
    SettingsModel { display_settings: !m.display_settings, ..m }
}

/// The model with the help-window visibility flipped.
pub open spec fn with_display_keymapping_toggled(m: SettingsModel) -> SettingsModel {
    SettingsModel { display_keymapping: !m.display_keymapping, ..m }
}

/// The model with the colour scheme flipped.
pub open spec fn with_theme_switched(m: SettingsModel) -> SettingsModel {
    SettingsModel { dark_theme: !m.dark_theme, ..m }
}

/// The model with the debug overlay flipped.
pub open spec fn with_debug_toggled(m: SettingsModel) -> SettingsModel {
    SettingsModel { debug: !m.debug, ..m }
}

/// The model with one more grid slice.
pub open spec fn with_grid_increased(m: SettingsModel) -> SettingsModel {
    SettingsModel { slices: m.slices + GRID_STEP, ..m }
}

/// The model with one grid slice fewer.
pub open spec fn with_grid_decreased(m: SettingsModel) -> SettingsModel {
    SettingsModel { slices: m.slices - GRID_STEP, ..m }
}

/// The model with the panel re-centred on `viewport`: each coordinate is the
/// viewport centre minus half the panel size, whatever the position held
/// before.
pub open spec fn with_position_refreshed(m: SettingsModel, viewport: (int, int)) -> SettingsModel {
    SettingsModel {
        position: (
            viewport.0 / 2 - m.window_size.0 / 2,
            viewport.1 / 2 - m.window_size.1 / 2,
        ),
        ..m
    }
}

impl Settings {
    /// The mathematical value this state holds.
    pub open spec fn model(self) -> SettingsModel {
        SettingsModel {
            display_settings: self.display_settings,
            display_keymapping: self.display_keymapping,
            dark_theme: self.dark_theme,
            debug: self.debug,
            skin: self.skin.keys@,
            position: (self.position.0 as int, self.position.1 as int),
            window_size: (self.window_size.0 as int, self.window_size.1 as int),
            slices: self.grid.slices as int,
            spacing: self.grid.spacing as int,
        }
    }

    /// Structural invariant: panel sizes are non-negative lengths.
    pub open spec fn wf(self) -> bool {
        self.window_size.0 >= 0 && self.window_size.1 >= 0
    }

    /// Starts building a settings value; every field is still unset.
    pub fn builder() -> (b: SettingsBuilder)
        ensures
            b == (SettingsBuilder {
                display_settings: None,
                display_keymapping: None,
                dark_theme: None,
                debug: None,
                skin: None,
                position: None,
                window_size: None,
                grid: None,
            }),
    {
        SettingsBuilder {
            display_settings: None,
            display_keymapping: None,
            dark_theme: None,
            debug: None,
            skin: None,
            position: None,
            window_size: None,
            grid: None,
        }
    }

    /// Re-centres the panel on the viewport: each coordinate of the new
    /// position is the viewport centre minus half the panel size. The prior
    /// position has no effect on the outcome.
    pub fn refresh_position(&mut self, viewport: (i64, i64))
        requires
            old(self).wf(),
            viewport.0 >= 0,
            viewport.1 >= 0,
        ensures
            final(self).model() == with_position_refreshed(
                old(self).model(),
                (viewport.0 as int, viewport.1 as int),
            ),
            final(self).wf(),
    {
        let x: i64 = half(viewport.0) - half(self.window_size.0);
        let y: i64 = half(viewport.1) - half(self.window_size.1);
        self.position = (x, y);
    }

    /// Flips the settings-panel visibility; nothing else changes.
    pub fn toggle_display_settings(&mut self)
        ensures
            final(self).model() == with_display_settings_toggled(old(self).model()),
    {
        self.display_settings = !self.display_settings;
    }

    /// Flips the help-window visibility; nothing else changes.
    pub fn toggle_display_keymapping(&mut self)
        ensures
            final(self).model() == with_display_keymapping_toggled(old(self).model()),
    {
        self.display_keymapping = !self.display_keymapping;
    }

    /// Flips the colour scheme; nothing else changes.
    pub fn switch_theme(&mut self)
        ensures
            final(self).model() == with_theme_switched(old(self).model()),
    {
        self.dark_theme = !self.dark_theme;
    }

    /// Flips the debug overlay; nothing else changes.
    pub fn toggle_debug(&mut self)
        ensures
            final(self).model() == with_debug_toggled(old(self).model()),
    {
        self.debug = !self.debug;
    }

    /// Adds one whole unit to the grid slice count; nothing else changes.
    pub fn increase_grid_size(&mut self)
        requires
            old(self).grid.slices + GRID_STEP <= i64::MAX,
        ensures
            final(self).model() == with_grid_increased(old(self).model()),
    {
        self.grid.slices = self.grid.slices + GRID_STEP;
    }

    /// Takes one whole unit from the grid slice count; nothing else changes.
    pub fn decrease_grid_size(&mut self)
        requires
            old(self).grid.slices - GRID_STEP >= i64::MIN,
        ensures
            final(self).model() == with_grid_decreased(old(self).model()),
    {
        self.grid.slices = self.grid.slices - GRID_STEP;
    }
}

/// Configuration of a [`Settings`] value: every unset field falls back to a
/// fixed default when [`SettingsBuilder::build`] runs.
pub struct SettingsBuilder {
    pub display_settings: Option<bool>,
    pub display_keymapping: Option<bool>,
    pub dark_theme: Option<bool>,
    pub debug: Option<bool>,
    pub skin: Option<StyleTable>,
    pub position: Option<(i64, i64)>,
    pub window_size: Option<(i64, i64)>,
    pub grid: Option<Grid>,
}

impl SettingsBuilder {
    /// Sets whether the settings panel starts shown.
    pub fn display_settings(self, display: bool) -> (b: SettingsBuilder)
        ensures
            b == (SettingsBuilder { display_settings: Some(display), ..self }),
    {
        SettingsBuilder { display_settings: Some(display), ..self }
    }

    /// Sets whether the help window starts shown.
    pub fn display_keymapping(self, display: bool) -> (b: SettingsBuilder)
        ensures
            b == (SettingsBuilder { display_keymapping: Some(display), ..self }),
    {
        SettingsBuilder { display_keymapping: Some(display), ..self }
    }

    /// Sets the starting colour scheme.
    pub fn dark_theme(self, dark_theme: bool) -> (b: SettingsBuilder)
        ensures
            b == (SettingsBuilder { dark_theme: Some(dark_theme), ..self }),
    {
        SettingsBuilder { dark_theme: Some(dark_theme), ..self }
    }

    /// Sets whether the debug overlay starts shown.
    pub fn debug(self, debug: bool) -> (b: SettingsBuilder)
        ensures
            b == (SettingsBuilder { debug: Some(debug), ..self }),
    {
        SettingsBuilder { debug: Some(debug), ..self }
    }

    /// Sets the style table.
    pub fn skin(self, skin: StyleTable) -> (b: SettingsBuilder)
        ensures
            b == (SettingsBuilder { skin: Some(skin), ..self }),
    {
        SettingsBuilder { skin: Some(skin), ..self }
    }

    /// Sets the starting panel position.
    pub fn position(self, position: (i64, i64)) -> (b: SettingsBuilder)
        ensures
            b == (SettingsBuilder { position: Some(position), ..self }),
    {
        SettingsBuilder { position: Some(position), ..self }
    }

    /// Sets the panel size.
    pub fn window_size(self, window_size: (i64, i64)) -> (b: SettingsBuilder)
        ensures
            b == (SettingsBuilder { window_size: Some(window_size), ..self }),
    {
        SettingsBuilder { window_size: Some(window_size), ..self }
    }

    /// Sets the grid resolution.
    pub fn grid(self, grid: Grid) -> (b: SettingsBuilder)
        ensures
            b == (SettingsBuilder { grid: Some(grid), ..self }),
    {
        SettingsBuilder { grid: Some(grid), ..self }
    }

    /// Finishes the settings: every unset field takes its default. The
    /// default panel position stands the panel left of and above the
    /// viewport centre by its full size; the default style table registers
    /// only [`StyleKey::Default`].
    pub fn build(self, viewport: (i64, i64)) -> (built: Settings)
        requires
            viewport.0 >= 0,
            viewport.1 >= 0,
            self.window_size matches Some(w) ==> w.0 >= 0 && w.1 >= 0,
        ensures
            built.display_settings == opt_or(self.display_settings, false),
            built.display_keymapping == opt_or(self.display_keymapping, false),
            built.dark_theme == opt_or(self.dark_theme, false),
            built.debug == opt_or(self.debug, false),
            built.window_size == opt_or(self.window_size, (PANEL_WIDTH, PANEL_HEIGHT)),
            self.position matches Some(p) ==> built.position == p,
            self.position is None ==> built.position == (
                (viewport.0 / 2 - built.window_size.0) as i64,
                (viewport.1 / 2 - built.window_size.1) as i64,
            ),
            self.skin matches Some(t) ==> built.skin == t,
            self.skin is None ==> built.skin.keys@ =~= seq![StyleKey::Default],
            self.grid matches Some(g) ==> built.grid == g,
            self.grid is None ==> built.grid == (Grid { slices: GRID_SLICES, spacing: GRID_SPACING }),
            built.wf(),
    {
        let window_size: (i64, i64) = match self.window_size {
            Some(w) => w,
            None => (PANEL_WIDTH, PANEL_HEIGHT),
        };
        let position: (i64, i64) = match self.position {
            Some(p) => p,
            None => (half(viewport.0) - window_size.0, half(viewport.1) - window_size.1),
        };
        let skin: StyleTable = match self.skin {
            Some(t) => t,
            None => {
                let mut table = StyleTable::new();
                table.register(StyleKey::Default);
                table
            },
        };
        let grid: Grid = match self.grid {
            Some(g) => g,
            None => Grid { slices: GRID_SLICES, spacing: GRID_SPACING },
        };
        Settings {
            display_settings: opt_or_exec(self.display_settings, false),
            display_keymapping: opt_or_exec(self.display_keymapping, false),
            dark_theme: opt_or_exec(self.dark_theme, false),
            debug: opt_or_exec(self.debug, false),
            skin,
            position,
            window_size,
            grid,
        }
    }
}

/// The option's value, or `fallback` where it holds none.
pub open spec fn opt_or<T>(opt: Option<T>, fallback: T) -> T {
    match opt {
        Some(v) => v,
        None => fallback,
    }
}

/// Executable twin of [`opt_or`] for copyable values.
pub fn opt_or_exec<T: Copy>(opt: Option<T>, fallback: T) -> (r: T)
    ensures
        r == opt_or(opt, fallback),
{
    match opt {
        Some(v) => v,
        None => fallback,
    }
}

/// The settings after a run of "increase grid" commands.
pub open spec fn model_after_increases(m: SettingsModel, count: nat) -> SettingsModel
    decreases count,
{
    if count == 0 {
        m
    } else {
        with_grid_increased(model_after_increases(m, (count - 1) as nat))
    }
}

/// The settings after a run of "decrease grid" commands.
pub open spec fn model_after_decreases(m: SettingsModel, count: nat) -> SettingsModel
    decreases count,
{
    if count == 0 {
        m
    } else {
        with_grid_decreased(model_after_decreases(m, (count - 1) as nat))
    }
}

/// Grid resizing accumulates: any run of `up_steps` "increase grid" commands
/// followed by `down_steps` "decrease" ones leaves the slice count at exactly
/// the initial value plus the signed sum of the steps, with no clamping; no
/// other field moves.
pub proof fn lemma_grid_resize_accumulates(m: SettingsModel, up_steps: nat, down_steps: nat)
    ensures
        model_after_decreases(model_after_increases(m, up_steps), down_steps) == (SettingsModel {
            slices: m.slices + up_steps * GRID_STEP - down_steps * GRID_STEP,
            ..m
        }),
    decreases up_steps + down_steps,
{
    if down_steps > 0 {
        let prev = (down_steps - 1) as nat;
        lemma_grid_resize_accumulates(m, up_steps, prev);
        assert(down_steps * GRID_STEP == (prev + 1) * GRID_STEP);
        assert((prev + 1) * GRID_STEP == prev * GRID_STEP + GRID_STEP) by (nonlinear_arith);
    } else if up_steps > 0 {
        let prev = (up_steps - 1) as nat;
        lemma_grid_resize_accumulates(m, prev, 0);
        assert(up_steps * GRID_STEP == (prev + 1) * GRID_STEP);
        assert((prev + 1) * GRID_STEP == prev * GRID_STEP + GRID_STEP) by (nonlinear_arith);
    }
}

/// Re-centring a panel owes nothing to the position held before: two states
/// that differ in their position alone agree completely after a refresh on
/// the same viewport.
pub proof fn lemma_refresh_ignores_prior_position(
    a: SettingsModel,
    b: SettingsModel,
    viewport: (int, int),
)
    requires
        b == (SettingsModel { position: b.position, ..a }),
    ensures
        with_position_refreshed(a, viewport) == with_position_refreshed(b, viewport),
{
}

/// Each toggle is an involution: flipping the theme, the debug overlay, the
/// settings panel or the help window twice restores the whole settings value.
pub proof fn lemma_toggles_are_involutions(m: SettingsModel)
    ensures
        with_theme_switched(with_theme_switched(m)) == m,
        with_debug_toggled(with_debug_toggled(m)) == m,
        with_display_settings_toggled(with_display_settings_toggled(m)) == m,
        with_display_keymapping_toggled(with_display_keymapping_toggled(m)) == m,
{
}

} // verus!
