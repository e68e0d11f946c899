use creak::placement::{apply_stack_offset, position_key, position_to_anchor, Anchor, Margins, Position};
use creak::surface::{
    margin_update, notification_size, offset_margins, pointer_action, poll_due, Phase,
    PointerAction, SurfaceState,
};

fn m(top: i32, right: i32, bottom: i32, left: i32) -> Margins {
    Margins { top, right, bottom, left }
}

#[test]
fn anchors_and_base_margins() {
    let (a, mg) = position_to_anchor(20, 250, Position::TopLeft);
    assert_eq!(a, Anchor { top: true, bottom: false, left: true, right: false });
    assert_eq!(mg, m(20, 0, 0, 20));
    let (a, mg) = position_to_anchor(20, 250, Position::Center);
    assert_eq!(a, Anchor { top: false, bottom: false, left: false, right: false });
    assert_eq!(mg, m(0, 0, 0, 0));
    let (a, mg) = position_to_anchor(20, 250, Position::Default);
    assert_eq!(a, Anchor { top: true, bottom: false, left: false, right: false });
    assert_eq!(mg, m(250, 0, 0, 0));
    let (_, mg) = position_to_anchor(7, 250, Position::BottomRight);
    assert_eq!(mg, m(0, 7, 7, 0));
    assert_eq!(position_key(Position::BottomRight), "bottom-right");
    assert_eq!(position_key(Position::Default), "default");
}

#[test]
fn stacking_moves_away_from_the_anchored_edge() {
    assert_eq!(apply_stack_offset(m(20, 0, 0, 0), Position::Top, 60), m(80, 0, 0, 0));
    assert_eq!(apply_stack_offset(m(0, 0, 20, 5), Position::BottomLeft, 60), m(0, 0, 80, 5));
    assert_eq!(offset_margins(m(0, 0, i32::MAX, 0), Position::Bottom, 1), None);
    assert_eq!(offset_margins(m(i32::MAX, 0, 0, 0), Position::Bottom, 1), Some(m(i32::MAX, 0, 1, 0)));
    assert_eq!(margin_update(m(20, 0, 0, 0), Position::Top, 60, 60), None);
    assert_eq!(margin_update(m(20, 0, 0, 0), Position::Top, 60, 35), Some(m(55, 0, 0, 0)));
}

#[test]
fn configure_keeps_local_size_for_non_positive_proposals() {
    let mut s = SurfaceState::new(350, 80, 0);
    assert_eq!(s.scale, 1);
    s.surface_requested();
    assert_eq!(s.phase, Phase::AwaitingInitialConfigure);
    assert_eq!(s.on_configure(42, 0, 0), 42);
    assert!(s.configured);
    assert_eq!((s.width, s.height), (350, 80));
    s.on_configure(43, 500, 3_000_000_000);
    assert_eq!((s.width, s.height), (500, 80));
}

#[test]
fn scale_follows_outputs() {
    let mut s = SurfaceState::new(10, 10, 2);
    assert_eq!(s.scale, 2);
    s.on_output_scale(7, 3);
    assert_eq!(s.scale, 3);
    s.on_output_scale(8, -1);
    assert_eq!(s.scale, 1);
    s.on_surface_enter(7);
    assert_eq!(s.scale, 3);
    s.on_output_scale(7, 2);
    assert_eq!(s.outputs.len(), 2);
    s.on_surface_enter(9);
    assert_eq!(s.scale, 2);
    s.on_surface_enter(8);
    assert_eq!(s.scale, 1);
}

#[test]
fn geometry_falls_back_and_scales() {
    let mut s = SurfaceState::new(300, 90, 0);
    s.width = 0;
    let g = s.commit_geometry(350, 80, 0).unwrap();
    assert_eq!((g.width, g.height, g.scale, g.pixel_width, g.pixel_height), (350, 80, 1, 350, 80));
    assert_eq!(s.phase, Phase::Committed);
    let mut s = SurfaceState::new(300, 90, 0);
    s.on_output_scale(1, 2);
    let g = s.commit_geometry(1, 1, 0).unwrap();
    assert_eq!((g.pixel_width, g.pixel_height, g.scale), (600, 180, 2));
    let mut s = SurfaceState::new(300, 90, 0);
    let g = s.commit_geometry(1, 1, 3).unwrap();
    assert_eq!(g.pixel_width, 900);
    let mut s = SurfaceState::new(i32::MAX, 90, 2);
    assert!(s.commit_geometry(1, 1, 0).is_none());
    assert_eq!(s.phase, Phase::Connecting);
}

#[test]
fn loop_ends_on_deadline_close_or_shutdown() {
    let mut s = SurfaceState::new(1, 1, 1);
    assert!(s.keep_running(true, false));
    assert!(!s.keep_running(false, false));
    assert!(!s.keep_running(true, true));
    s.on_pointer_button(false);
    assert!(s.keep_running(true, false));
    s.on_pointer_button(true);
    assert!(!s.keep_running(true, false));
    let mut s = SurfaceState::new(1, 1, 1);
    s.on_closed();
    assert!(s.closed);
    s.begin_close();
    assert_eq!(s.phase, Phase::Closing);
    s.finish();
    assert_eq!(s.phase, Phase::Terminated);
}

#[test]
fn pointer_and_poll_decisions() {
    assert_eq!(pointer_action(true, false), PointerAction::Bind);
    assert_eq!(pointer_action(true, true), PointerAction::Keep);
    assert_eq!(pointer_action(false, true), PointerAction::Release);
    assert!(!poll_due(99));
    assert!(poll_due(100));
}

#[test]
fn notification_size_has_room_for_frame() {
    assert_eq!(notification_size(350, 10, 5, 200, 20), Some((350, 31)));
    assert_eq!(notification_size(350, 10, 5, 400, 90), Some((400, 90)));
    assert_eq!(notification_size(350, i32::MAX, 5, 1, 1), None);
}
