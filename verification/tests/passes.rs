use egui_screensaver_matrix::fonts::FontId;
use egui_screensaver_matrix::passes::{
    commit_frame, decorative_update, plan_frame, tick_step, FrameState, TickStep,
};
use egui_screensaver_matrix::textures::DecorativeTexture;

fn state() -> FrameState {
    FrameState {
        grid_columns: 80,
        grid_rows: 80,
        current_font: FontId::Matrixcode,
        screen_width: 800,
        screen_height: 600,
    }
}

#[test]
fn tick_first_step_seeds_one() {
    assert_eq!(tick_step(0, 0), TickStep::Seed);
    assert_eq!(tick_step(0, 7), TickStep::Seed);
}

#[test]
fn tick_holds_without_elapsed_ticks() {
    assert_eq!(tick_step(1, 0), TickStep::Hold);
    assert_eq!(tick_step(42, 0), TickStep::Hold);
}

#[test]
fn tick_steady_rate_advances_by_one() {
    let mut tick = 1;
    for _ in 0..10 {
        match tick_step(tick, 1) {
            TickStep::Advance { tick: next } => tick = next,
            other => panic!("unexpected {other:?}"),
        }
    }
    assert_eq!(tick, 11);
}

#[test]
fn tick_stall_catches_up() {
    assert_eq!(tick_step(5, 10), TickStep::Advance { tick: 15 });
}

#[test]
fn unchanged_frame_plans_nothing() {
    let plan = plan_frame(&state(), 80, 80, FontId::Matrixcode, [800, 600], false);
    assert!(!plan.resize_grid);
    assert!(!plan.switch_font);
    assert!(!plan.resize_screen);
    assert_eq!((plan.screen_width, plan.screen_height), (800, 600));
}

#[test]
fn changes_are_planned_and_committed() {
    let mut s = state();
    let plan = plan_frame(&s, 40, 40, FontId::Megacity, [1024, 768], false);
    assert!(plan.resize_grid);
    assert!(plan.switch_font);
    assert!(plan.resize_screen);
    let restart = commit_frame(&mut s, &plan, 40, 40, FontId::Megacity, true, true);
    assert!(restart);
    assert_eq!((s.grid_columns, s.grid_rows), (40, 40));
    assert_eq!(s.current_font, FontId::Megacity);
    assert_eq!((s.screen_width, s.screen_height), (1024, 768));
    let again = plan_frame(&s, 40, 40, FontId::Megacity, [1024, 768], false);
    assert!(!again.resize_grid && !again.switch_font && !again.resize_screen);
}

#[test]
fn failed_changes_are_retried() {
    let mut s = state();
    let plan = plan_frame(&s, 40, 40, FontId::Megacity, [800, 600], true);
    assert!(plan.resize_screen);
    let restart = commit_frame(&mut s, &plan, 40, 40, FontId::Megacity, false, false);
    assert!(!restart);
    assert_eq!((s.grid_columns, s.grid_rows), (80, 80));
    assert_eq!(s.current_font, FontId::Matrixcode);
    let again = plan_frame(&s, 40, 40, FontId::Megacity, [800, 600], false);
    assert!(again.resize_grid && again.switch_font && !again.resize_screen);
}

#[test]
fn font_switch_alone_restarts_compute() {
    let mut s = state();
    let plan = plan_frame(&s, 80, 80, FontId::Gothic, [800, 600], false);
    assert!(!plan.resize_grid);
    assert!(commit_frame(&mut s, &plan, 80, 80, FontId::Gothic, false, true));
}

#[test]
fn decorative_slot_updates() {
    assert_eq!(decorative_update(None, None), None);
    assert_eq!(
        decorative_update(Some(DecorativeTexture::Sand), Some(DecorativeTexture::Sand)),
        None
    );
    assert_eq!(
        decorative_update(None, Some(DecorativeTexture::Metal)),
        Some(Some(DecorativeTexture::Metal))
    );
    assert_eq!(decorative_update(Some(DecorativeTexture::Mesh), None), Some(None));
}
