//! The decisions the per-frame pipeline makes around its GPU work: how
//! the simulation's logical tick advances, which resources a frame must
//! rebuild when the configuration or the screen changes, and when a
//! decorative texture slot must be reloaded.

use vstd::prelude::*;

use crate::fonts::FontId;
use crate::textures::DecorativeTexture;

verus! {

/// What one call of the compute passes does with the logical tick
/// counter, given how many whole nominal tick durations of real time
/// have elapsed since the tick last advanced.
#[derive(Clone, Copy, Debug, PartialEq, Eq, Structural)]
pub enum TickStep {
    /// The very first step (the counter is still 0): the tick is seeded
    /// at 1 unconditionally, so the shaders' first-frame initialisation
    /// (`tick <= 1`) fires, and the elapsed-time reference restarts now.
    Seed,
    /// No whole tick has elapsed: nothing advances and the compute
    /// passes do no work this call.
    Hold,
    /// The tick advances to `tick`, by however many ticks elapsed (1 at a
    /// steady nominal rate, more to catch up after a stall).
    Advance { tick: u32 },
}

pub open spec fn spec_tick_step(tick: u32, ticks_elapsed: u32) -> TickStep {
    if tick == 0 {
        TickStep::Seed
    } else if ticks_elapsed == 0 {
        TickStep::Hold
    } else {
        TickStep::Advance { tick: (tick + ticks_elapsed) as u32 }
    }
}

/// The tick counter after taking `step` from `tick`.
pub open spec fn tick_after(tick: u32, step: TickStep) -> u32 {
    match step {
        TickStep::Seed => 1,
        TickStep::Hold => tick,
        TickStep::Advance { tick: next } => next,
    }
}

/// Decides how the tick counter moves. The counter must not overflow:
/// `tick + ticks_elapsed` fits in a `u32` unless the counter is 0.
pub fn tick_step(tick: u32, ticks_elapsed: u32) -> (r: TickStep)
    requires
        tick == 0 || tick + ticks_elapsed <= u32::MAX,
    ensures
        r == spec_tick_step(tick, ticks_elapsed),
        tick_after(tick, r) == (if tick == 0 { 1 } else { tick + ticks_elapsed }),
{
    if tick == 0 {
        TickStep::Seed
    } else if ticks_elapsed == 0 {
        TickStep::Hold
    } else {
        TickStep::Advance { tick: tick + ticks_elapsed }
    }
}

/// The compute passes run exactly when the tick counter changes, and
/// after any step the counter is positive and no smaller than before.
pub proof fn lemma_tick_step_runs_iff_tick_changes(tick: u32, ticks_elapsed: u32)
    requires
        tick == 0 || tick + ticks_elapsed <= u32::MAX,
    ensures
        (spec_tick_step(tick, ticks_elapsed) != TickStep::Hold) <==> (tick_after(
            tick,
            spec_tick_step(tick, ticks_elapsed),
        ) != tick),
        tick_after(tick, spec_tick_step(tick, ticks_elapsed)) >= tick,
        tick_after(tick, spec_tick_step(tick, ticks_elapsed)) > 0,
{
}

/// A restarted counter (0) always seeds at tick 1 on its next step,
/// whatever time has elapsed, so the first-frame initialisation fires
/// again.
pub proof fn lemma_restart_reseeds(ticks_elapsed: u32)
    ensures
        spec_tick_step(0, ticks_elapsed) == TickStep::Seed,
        tick_after(0, spec_tick_step(0, ticks_elapsed)) == 1,
{
}

/// What the pipeline last built its GPU resources for.
#[derive(Clone, Copy, Debug, PartialEq, Eq, Structural)]
pub struct FrameState {
    /// Compute grid columns.
    pub grid_columns: u32,
    /// Compute grid rows.
    pub grid_rows: u32,
    /// Font whose atlas the render pass samples.
    pub current_font: FontId,
    /// Size, in pixels, of the screen-sized targets.
    pub screen_width: i32,
    pub screen_height: i32,
}

/// The rebuilding a frame must do before drawing.
#[derive(Clone, Copy, Debug, PartialEq, Eq, Structural)]
pub struct FramePlan {
    /// Recreate the compute buffers at the wanted grid size.
    pub resize_grid: bool,
    /// Load the wanted font's atlas.
    pub switch_font: bool,
    /// Recreate the screen-sized targets and the bloom pyramid.
    pub resize_screen: bool,
    /// The screen size this frame draws at.
    pub screen_width: i32,
    pub screen_height: i32,
}

/// The plan for a frame: the grid is rebuilt when its size differs from
/// the wanted one, the font switched when it differs, and the
/// screen-sized targets rebuilt when the screen size or the bloom
/// resolution changed. The pixel size is taken as `i32`, the type the GPU
/// calls use.
pub open spec fn planned(
    state: FrameState,
    grid_columns: u32,
    grid_rows: u32,
    font: FontId,
    screen_size_px: [u32; 2],
    bloom_size_changed: bool,
) -> FramePlan {
    let w = screen_size_px[0] as i32;
    let h = screen_size_px[1] as i32;
    FramePlan {
        resize_grid: grid_columns != state.grid_columns || grid_rows != state.grid_rows,
        switch_font: font != state.current_font,
        resize_screen: w != state.screen_width || h != state.screen_height || bloom_size_changed,
        screen_width: w,
        screen_height: h,
    }
}

/// The state after recording a planned frame's outcome: a grid resize or
/// font switch is recorded only when it succeeded (a failed one is retried
/// next frame); the screen size is recorded whatever happened.
pub open spec fn committed(
    state: FrameState,
    plan: FramePlan,
    grid_columns: u32,
    grid_rows: u32,
    font: FontId,
    grid_resized: bool,
    font_switched: bool,
) -> FrameState {
    FrameState {
        grid_columns: if plan.resize_grid && grid_resized {
            grid_columns
        } else {
            state.grid_columns
        },
        grid_rows: if plan.resize_grid && grid_resized {
            grid_rows
        } else {
            state.grid_rows
        },
        current_font: if plan.switch_font && font_switched {
            font
        } else {
            state.current_font
        },
        screen_width: if plan.resize_screen {
            plan.screen_width
        } else {
            state.screen_width
        },
        screen_height: if plan.resize_screen {
            plan.screen_height
        } else {
            state.screen_height
        },
    }
}

/// Plans a frame (see `planned`).
pub fn plan_frame(
    state: &FrameState,
    grid_columns: u32,
    grid_rows: u32,
    font: FontId,
    screen_size_px: [u32; 2],
    bloom_size_changed: bool,
) -> (r: FramePlan)
    ensures
        r == planned(*state, grid_columns, grid_rows, font, screen_size_px, bloom_size_changed),
        r.resize_grid <==> (grid_columns != state.grid_columns || grid_rows != state.grid_rows),
        r.switch_font <==> font != state.current_font,
        r.screen_width == screen_size_px[0] as i32,
        r.screen_height == screen_size_px[1] as i32,
        r.resize_screen <==> (screen_size_px[0] as i32 != state.screen_width
            || screen_size_px[1] as i32 != state.screen_height || bloom_size_changed),
{
    let screen_width = screen_size_px[0] as i32;
    let screen_height = screen_size_px[1] as i32;
    FramePlan {
        resize_grid: grid_columns != state.grid_columns || grid_rows != state.grid_rows,
        switch_font: font != state.current_font,
        resize_screen: screen_width != state.screen_width || screen_height != state.screen_height
            || bloom_size_changed,
        screen_width,
        screen_height,
    }
}

/// Records the outcome of a planned frame (see `committed`). Returns whether
/// the compute simulation must restart: after any successful grid resize
/// or font switch, so every cell re-rolls its glyph against the current
/// grid and atlas instead of keeping indices generated for the old ones.
pub fn commit_frame(
    state: &mut FrameState,
    plan: &FramePlan,
    grid_columns: u32,
    grid_rows: u32,
    font: FontId,
    grid_resized: bool,
    font_switched: bool,
) -> (restart_compute: bool)
    ensures
        *final(state) == committed(
            *old(state),
            *plan,
            grid_columns,
            grid_rows,
            font,
            grid_resized,
            font_switched,
        ),
        restart_compute == ((plan.resize_grid && grid_resized) || (plan.switch_font
            && font_switched)),
        plan.resize_grid && grid_resized ==> final(state).grid_columns == grid_columns
            && final(state).grid_rows == grid_rows,
        !(plan.resize_grid && grid_resized) ==> final(state).grid_columns == old(
            state,
        ).grid_columns && final(state).grid_rows == old(state).grid_rows,
        plan.switch_font && font_switched ==> final(state).current_font == font,
        !(plan.switch_font && font_switched) ==> final(state).current_font == old(
            state,
        ).current_font,
        plan.resize_screen ==> final(state).screen_width == plan.screen_width
            && final(state).screen_height == plan.screen_height,
        !plan.resize_screen ==> final(state).screen_width == old(state).screen_width
            && final(state).screen_height == old(state).screen_height,
{
    let mut restart = false;
    if plan.resize_grid && grid_resized {
        state.grid_columns = grid_columns;
        state.grid_rows = grid_rows;
        restart = true;
    }
    if plan.switch_font && font_switched {
        state.current_font = font;
        restart = true;
    }
    if plan.resize_screen {
        state.screen_width = plan.screen_width;
        state.screen_height = plan.screen_height;
    }
    restart
}



/// A frame rebuilds the compute grid exactly when either grid dimension
/// differs from the recorded one, switches the font exactly when the
/// wanted font differs from the recorded one, and rebuilds the
/// screen-sized targets exactly when the screen size or the bloom
/// resolution changed; it draws at the screen size it was given.
pub proof fn lemma_plan_rebuilds_exactly_what_changed(
    state: FrameState,
    grid_columns: u32,
    grid_rows: u32,
    font: FontId,
    screen_size_px: [u32; 2],
    bloom_size_changed: bool,
)
    ensures
        ({
            let plan = planned(
                state,
                grid_columns,
                grid_rows,
                font,
                screen_size_px,
                bloom_size_changed,
            );
            &&& plan.resize_grid <==> (grid_columns != state.grid_columns || grid_rows
                != state.grid_rows)
            &&& grid_columns != state.grid_columns ==> plan.resize_grid
            &&& grid_rows != state.grid_rows ==> plan.resize_grid
            &&& plan.switch_font <==> font != state.current_font
            &&& plan.screen_width == screen_size_px[0] as i32
            &&& plan.screen_height == screen_size_px[1] as i32
            &&& plan.resize_screen <==> (plan.screen_width != state.screen_width
                || plan.screen_height != state.screen_height || bloom_size_changed)
        }),
{
}

/// Recording a frame's outcome keeps exactly the changes that succeeded:
/// a successful grid resize records the new grid and a successful font
/// switch the new font, each whatever happened to the other; a failed or
/// unplanned change leaves the recorded value as it was; the screen size
/// is recorded whenever it was planned.
pub proof fn lemma_commit_records_successes(
    state: FrameState,
    plan: FramePlan,
    grid_columns: u32,
    grid_rows: u32,
    font: FontId,
    grid_resized: bool,
    font_switched: bool,
)
    ensures
        ({
            let next = committed(
                state,
                plan,
                grid_columns,
                grid_rows,
                font,
                grid_resized,
                font_switched,
            );
            &&& plan.switch_font && font_switched ==> next.current_font == font
            &&& !(plan.switch_font && font_switched) ==> next.current_font == state.current_font
            &&& plan.resize_grid && grid_resized ==> next.grid_columns == grid_columns
                && next.grid_rows == grid_rows
            &&& !(plan.resize_grid && grid_resized) ==> next.grid_columns == state.grid_columns
                && next.grid_rows == state.grid_rows
            &&& plan.resize_screen ==> next.screen_width == plan.screen_width
                && next.screen_height == plan.screen_height
            &&& !plan.resize_screen ==> next.screen_width == state.screen_width
                && next.screen_height == state.screen_height
        }),
{
}

/// Once a frame's rebuilding all succeeded, the next frame with the same
/// configuration and screen size has nothing to rebuild (but for a bloom
/// resolution change) and does not restart the simulation.
pub proof fn lemma_successful_frame_settles(
    state: FrameState,
    grid_columns: u32,
    grid_rows: u32,
    font: FontId,
    screen_size_px: [u32; 2],
    bloom_size_changed: bool,
)
    ensures
        ({
            let plan = planned(
                state,
                grid_columns,
                grid_rows,
                font,
                screen_size_px,
                bloom_size_changed,
            );
            let next_state = committed(state, plan, grid_columns, grid_rows, font, true, true);
            let next_plan = planned(
                next_state,
                grid_columns,
                grid_rows,
                font,
                screen_size_px,
                false,
            );
            &&& !next_plan.resize_grid
            &&& !next_plan.switch_font
            &&& !next_plan.resize_screen
        }),
{
}

/// What must happen to a decorative texture slot holding `current` so
/// that it holds `wanted`: `None` when it already does; otherwise
/// `Some(wanted)`, meaning release the current texture (if any) and load
/// `wanted` (if any).
pub open spec fn spec_decorative_update(
    current: Option<DecorativeTexture>,
    wanted: Option<DecorativeTexture>,
) -> Option<Option<DecorativeTexture>> {
    if current == wanted {
        None
    } else {
        Some(wanted)
    }
}

pub fn decorative_update(
    current: Option<DecorativeTexture>,
    wanted: Option<DecorativeTexture>,
) -> (r: Option<Option<DecorativeTexture>>)
    ensures
        r == spec_decorative_update(current, wanted),
{
    if current == wanted {
        None
    } else {
        Some(wanted)
    }
}

/// After a slot is updated to what was wanted, asking for the same
/// texture again changes nothing.
pub proof fn lemma_decorative_update_settles(
    current: Option<DecorativeTexture>,
    wanted: Option<DecorativeTexture>,
)
    ensures
        ({
            let after = match spec_decorative_update(current, wanted) {
                None => current,
                Some(w) => w,
            };
            &&& after == wanted
            &&& spec_decorative_update(after, wanted) is None
        }),
{
}

} // verus!
