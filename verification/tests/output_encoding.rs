use notedeck_ios::output::{
    copied_text_of, CursorIcon, ImeRect, OutputState, PlatformOutput, ToolkitCursor,
};
use notedeck_ios::scalar::Scalar;

fn pt(value: f32) -> Scalar {
    Scalar::from_bits(value.to_bits())
}

fn caret() -> ImeRect {
    ImeRect { x: pt(12.0), y: pt(40.5), width: pt(2.0), height: pt(18.0) }
}

#[test]
fn new_output_asks_for_nothing() {
    let out = OutputState::new(CursorIcon::Text);
    assert_eq!(*out.get_cursor_icon(), CursorIcon::Text);
    assert!(!out.wants_keyboard());
    assert!(!out.has_ime_rect());
    assert_eq!(out.ime_rect(), None);
    assert_eq!(out.get_copied_text(), "");
    assert!(!out.has_copied_text());
}

#[test]
fn keyboard_state_output_has_no_copied_text() {
    let out = OutputState::with_keyboard_state(CursorIcon::PointingHand, true, Some(caret()));
    assert_eq!(*out.get_cursor_icon(), CursorIcon::PointingHand);
    assert!(out.wants_keyboard());
    assert!(out.has_ime_rect());
    assert_eq!(out.ime_rect(), Some(caret()));
    assert_eq!(out.get_copied_text(), "");
}

#[test]
fn full_state_output_holds_all_four_fields() {
    let out = OutputState::with_full_state(
        CursorIcon::ResizeVertical,
        true,
        Some(caret()),
        String::from("copied"),
    );
    assert_eq!(*out.get_cursor_icon(), CursorIcon::ResizeVertical);
    assert!(out.wants_keyboard());
    assert_eq!(f32::from_bits(out.get_ime_rect_x().to_bits()), 12.0);
    assert_eq!(f32::from_bits(out.get_ime_rect_y().to_bits()), 40.5);
    assert_eq!(f32::from_bits(out.get_ime_rect_width().to_bits()), 2.0);
    assert_eq!(f32::from_bits(out.get_ime_rect_height().to_bits()), 18.0);
    assert_eq!(out.get_copied_text(), "copied");
    assert!(out.has_copied_text());
}

#[test]
fn missing_ime_rect_reads_as_zero() {
    let out = OutputState::new(CursorIcon::Default);
    assert_eq!(out.get_ime_rect_x().to_bits(), 0);
    assert_eq!(out.get_ime_rect_y().to_bits(), 0);
    assert_eq!(out.get_ime_rect_width().to_bits(), 0);
    assert_eq!(out.get_ime_rect_height().to_bits(), 0);
    assert_eq!(f32::from_bits(out.get_ime_rect_x().to_bits()), 0.0);
}

#[test]
fn cursor_predicates_tell_the_five_kinds_apart() {
    assert!(CursorIcon::Default.is_default());
    assert!(!CursorIcon::Default.is_text());
    assert!(CursorIcon::PointingHand.is_pointing_hand());
    assert!(!CursorIcon::PointingHand.is_default());
    assert!(CursorIcon::ResizeHorizontal.is_resize_horizontal());
    assert!(!CursorIcon::ResizeHorizontal.is_resize_vertical());
    assert!(CursorIcon::ResizeVertical.is_resize_vertical());
    assert!(!CursorIcon::ResizeVertical.is_resize_horizontal());
    assert!(CursorIcon::Text.is_text());
    assert!(!CursorIcon::Text.is_pointing_hand());
}

#[test]
fn toolkit_cursor_maps_to_the_kind_of_the_same_name() {
    assert_eq!(CursorIcon::from_toolkit(ToolkitCursor::Default), CursorIcon::Default);
    assert_eq!(CursorIcon::from_toolkit(ToolkitCursor::PointingHand), CursorIcon::PointingHand);
    assert_eq!(
        CursorIcon::from_toolkit(ToolkitCursor::ResizeHorizontal),
        CursorIcon::ResizeHorizontal
    );
    assert_eq!(CursorIcon::from_toolkit(ToolkitCursor::ResizeVertical), CursorIcon::ResizeVertical);
    assert_eq!(CursorIcon::from_toolkit(ToolkitCursor::Text), CursorIcon::Text);
}

#[test]
fn other_toolkit_cursors_map_to_default() {
    let others = [
        ToolkitCursor::Hidden,
        ToolkitCursor::ContextMenu,
        ToolkitCursor::Help,
        ToolkitCursor::Progress,
        ToolkitCursor::Wait,
        ToolkitCursor::Cell,
        ToolkitCursor::Crosshair,
        ToolkitCursor::VerticalText,
        ToolkitCursor::Alias,
        ToolkitCursor::Copy,
        ToolkitCursor::Move,
        ToolkitCursor::NoDrop,
        ToolkitCursor::NotAllowed,
        ToolkitCursor::Grab,
        ToolkitCursor::Grabbing,
        ToolkitCursor::AllScroll,
        ToolkitCursor::ResizeNeSw,
        ToolkitCursor::ResizeNwSe,
        ToolkitCursor::ResizeEast,
        ToolkitCursor::ResizeSouthEast,
        ToolkitCursor::ResizeSouth,
        ToolkitCursor::ResizeSouthWest,
        ToolkitCursor::ResizeWest,
        ToolkitCursor::ResizeNorthWest,
        ToolkitCursor::ResizeNorth,
        ToolkitCursor::ResizeNorthEast,
        ToolkitCursor::ResizeColumn,
        ToolkitCursor::ResizeRow,
        ToolkitCursor::ZoomIn,
        ToolkitCursor::ZoomOut,
    ];
    for cursor in others {
        assert_eq!(CursorIcon::from_toolkit(cursor), CursorIcon::Default);
    }
}

#[test]
fn platform_output_is_encoded_field_by_field() {
    let out = OutputState::from_platform_output(PlatformOutput {
        cursor: ToolkitCursor::Text,
        wants_keyboard: true,
        ime_rect: Some(caret()),
        copied_text: String::from("note1..."),
    });
    assert_eq!(
        out,
        OutputState::with_full_state(CursorIcon::Text, true, Some(caret()), String::from("note1..."))
    );
}

#[test]
fn platform_output_without_requests_encodes_to_quiet_output() {
    let out = OutputState::from_platform_output(PlatformOutput {
        cursor: ToolkitCursor::Grab,
        wants_keyboard: false,
        ime_rect: None,
        copied_text: String::new(),
    });
    assert_eq!(out, OutputState::new(CursorIcon::Default));
}

#[test]
fn last_copy_command_gives_the_copied_text() {
    assert_eq!(copied_text_of(Vec::new()), "");
    assert_eq!(copied_text_of(vec![String::from("only")]), "only");
    assert_eq!(
        copied_text_of(vec![String::from("first"), String::from("second")]),
        "second"
    );
    assert_eq!(copied_text_of(vec![String::from("first"), String::new()]), "");
}
