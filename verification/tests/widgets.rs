use pix_engine::engine::PixState;
use pix_engine::event::{Key, KeyMod, Mouse};
use pix_engine::gui::drag::DragStep;
use pix_engine::gui::field::without_controls;
use pix_engine::gui::state::{ElementId, FontId, Texture, TextureId, UiState};
use pix_engine::gui::theme::Theme;
use pix_engine::gui::tooltip::tooltip_rect;
use pix_engine::shape::{Point, Rect};

fn state() -> PixState {
    PixState::new(Theme::default())
}

#[test]
fn a_collapsing_header_toggles_with_return() {
    let mut s = state();
    assert!(!s.collapsing_header("Header", (40, 12), Some(200), (40, 12)));
    assert_eq!(s.cursor_pos().values(), [8, 38]);
    let id = s.ui.get_id("Header");
    assert!(!s.ui.expanded(id));
    s.ui.press_key(Key::Return, KeyMod::none());
    s.set_cursor_pos(Point::new([0, 0]));
    assert!(!s.collapsing_header("Header", (40, 12), Some(200), (40, 12)));
    assert!(s.ui.expanded(id));
    s.set_cursor_pos(Point::new([0, 0]));
    assert!(s.collapsing_header("Header", (40, 12), Some(200), (40, 12)));
    assert!(s.ui.expanded(id));
}

#[test]
fn an_expanded_collapsing_tree_indents_what_follows() {
    let mut s = state();
    let id = s.ui.get_id("Tree");
    s.ui.focus(id);
    s.ui.press_key(Key::Return, KeyMod::none());
    assert!(!s.collapsing_tree("Tree", (40, 12), None, (40, 12), 32));
    assert_eq!(s.cursor_pos().values(), [8, 38]);
    assert_eq!(s.ui.column_offset(), 0);
    s.set_cursor_pos(Point::new([0, 0]));
    assert!(s.collapsing_tree("Tree", (40, 12), None, (40, 12), 32));
    assert_eq!(s.ui.column_offset(), 32);
    assert_eq!(s.cursor_pos().values(), [8 + 32, 38]);
    s.ui.dec_column_offset();
    assert_eq!(s.ui.column_offset(), 0);
    assert_eq!(s.cursor_pos().values(), [8, 38]);
}

#[test]
fn a_tooltip_stays_inside_the_window() {
    let pad = Point::new([8, 8]);
    let r = tooltip_rect(Rect::new(10, 10, 50, 20), 100, 100, pad, Point::new([10, 10]));
    assert_eq!(r.coords(), [25, 25, 50, 20]);
    let r = tooltip_rect(Rect::new(80, 90, 50, 20), 100, 100, pad, Point::new([0, 0]));
    assert_eq!(r.coords(), [42, 72, 50, 20]);
    let r = tooltip_rect(Rect::new(80, 90, 50, 20), 100, 100, pad, Point::new([80, 90]));
    assert_eq!(r.coords(), [42, 62, 50, 20]);
}

#[test]
fn a_tooltip_follows_the_mouse_and_offsets_it() {
    let mut s = state();
    s.ui.move_mouse(Point::new([10, 10]), 0, 0);
    let (_, r) = s.tooltip("Tip##x", (30, 10), 800, 600);
    assert_eq!(r.coords(), [25, 25, 46, 26]);
    assert_eq!(s.ui.mouse_pos().values(), [-15, -15]);
    s.ui.clear_mouse_offset();
    assert_eq!(s.ui.mouse_pos().values(), [10, 10]);
    let (id, r) = s.advanced_tooltip("Box", Rect::new(790, 0, 40, 40), 800, 600);
    assert_eq!(id, s.ui.get_id("Box"));
    assert_eq!(r.coords(), [800 - 40 - 8, 15, 40, 40]);
}

#[test]
fn a_help_marker_shows_its_tooltip_when_focused_or_hovered() {
    let mut s = state();
    let tip = s.help_marker("Help", (8, 12), (30, 10), 800, 600);
    let (_, r) = tip.unwrap();
    assert_eq!(r.coords(), [29, 23, 46, 26]);
    assert_eq!(s.cursor_pos().values(), [8, 24]);
    s.ui.clear_mouse_offset();

    let mut s = state();
    s.ui.focus(ElementId(99));
    let (_, r) = s.help_marker("Help", (8, 12), (30, 10), 800, 600).unwrap();
    assert_eq!(r.coords(), [15, 15, 46, 26]);
    s.ui.clear_mouse_offset();

    let mut s = state();
    s.ui.focus(ElementId(99));
    s.ui.move_mouse(Point::new([500, 500]), 0, 0);
    assert!(s.help_marker("Help", (8, 12), (30, 10), 800, 600).is_none());
}

#[test]
fn textures_are_found_again_and_bounded() {
    let mut ui = UiState::new();
    let dst = Rect::new(0, 0, 10, 10);
    assert_eq!(ui.find_texture(ElementId(1), FontId(2), 12, dst), None);
    ui.add_texture(Texture::new(TextureId(7), ElementId(1), None, Some(dst), FontId(2), 12));
    assert_eq!(ui.find_texture(ElementId(1), FontId(2), 12, dst), Some(TextureId(7)));
    assert_eq!(ui.find_texture(ElementId(1), FontId(2), 14, dst), None);
    for i in 2..258u64 {
        ui.add_texture(Texture::new(TextureId(i as usize), ElementId(i), None, None, FontId(2), 12));
    }
    assert_eq!(ui.find_texture(ElementId(5), FontId(2), 12, dst), Some(TextureId(5)));
    assert_eq!(ui.find_texture(ElementId(200), FontId(2), 12, dst), None);
}

#[test]
fn a_tab_is_selected_when_clicked() {
    let mut s = state();
    let tabs = ["One", "Two"];
    let sizes = [(20, 10), (20, 10)];
    let mut selected = 0;
    assert!(!s.tab_bar("Tabs", &tabs, &sizes, &mut selected, 200, 12));
    assert_eq!(selected, 0);
    assert_eq!(s.cursor_pos().values(), [8, 64]);
    s.pop_id();
    assert!(s.ui.is_focused(s.ui.get_id("One")));

    s.ui.move_mouse(Point::new([70, 5]), 0, 0);
    s.ui.press_mouse(Mouse::Left);
    s.set_cursor_pos(Point::new([0, 0]));
    assert!(!s.tab_bar("Tabs", &tabs, &sizes, &mut selected, 200, 12));
    s.pop_id();
    s.ui.release_mouse(Mouse::Left);
    s.set_cursor_pos(Point::new([0, 0]));
    assert!(s.tab_bar("Tabs", &tabs, &sizes, &mut selected, 200, 12));
    assert_eq!(selected, 1);
    s.pop_id();
    assert!(s.ui.is_focused(s.ui.get_id("Two")));
}

#[test]
fn text_takes_its_room_plus_padding() {
    let mut s = state();
    assert_eq!(s.text((40, 10)), (43, 13));
    assert_eq!(s.cursor_pos().values(), [8, 19]);
    s.set_cursor_pos(Point::new([0, 0]));
    assert_eq!(s.bullet((40, 10)), (45, 13));
    assert_eq!(s.cursor_pos().values(), [8, 19]);
    assert_eq!(s.ui.pcursor().values(), [28 + 43, 0]);
    s.set_cursor_pos(Point::new([0, 0]));
    assert_eq!(s.heading((u32::MAX, 20)), (0x3fff_ffff + 3, 23));
    assert_eq!(s.cursor_pos().values(), [8, 29]);
    s.set_cursor_pos(Point::new([0, 0]));
    assert_eq!(s.monospace((7, 9)), (10, 12));
}

#[test]
fn a_menu_entry_is_clicked_when_released_over_it() {
    let mut s = state();
    s.ui.move_mouse(Point::new([5, 5]), 0, 0);
    s.ui.press_mouse(Mouse::Left);
    assert!(!s.menu("File", (30, 10)));
    assert_eq!(s.cursor_pos().values(), [8, 32]);
    s.ui.release_mouse(Mouse::Left);
    s.set_cursor_pos(Point::new([0, 0]));
    assert!(s.menu("File", (30, 10)));
    s.set_cursor_pos(Point::new([0, 0]));
    s.next_width(100);
    s.ui.post_update();
    assert!(!s.menu("File", (30, 10)));
    assert_eq!(s.ui.pcursor().values(), [100, 0]);
}

#[test]
fn a_link_is_hovered_over_its_grown_area() {
    let mut s = state();
    s.set_cursor_pos(Point::new([10, 10]));
    s.ui.move_mouse(Point::new([5, 7]), 0, 0);
    s.ui.press_mouse(Mouse::Left);
    s.ui.release_mouse(Mouse::Left);
    assert!(!s.link("Docs", (30, 10), (30, 10)));
    assert!(!s.ui.is_hovered(s.ui.get_id("Docs")));

    let mut s = state();
    s.set_cursor_pos(Point::new([10, 10]));
    s.ui.move_mouse(Point::new([6, 7]), 0, 0);
    s.ui.press_mouse(Mouse::Left);
    assert!(!s.link("Docs", (30, 10), (30, 10)));
    s.ui.release_mouse(Mouse::Left);
    s.set_cursor_pos(Point::new([10, 10]));
    assert!(s.link("Docs", (30, 10), (30, 10)));
    s.disable();
    s.set_cursor_pos(Point::new([10, 10]));
    assert!(!s.link("Docs", (30, 10), (30, 10)));
}

#[test]
fn control_characters_are_stripped() {
    assert_eq!(without_controls("a\tb\nc\u{7f}", true), "ab\nc");
    assert_eq!(without_controls("a\tb\nc\u{7f}", false), "abc");
}

#[test]
fn a_text_field_takes_focus_and_edits_its_value() {
    let mut s = state();
    let mut value = String::from("x");
    s.ui.type_text(String::from("a\u{7}b"));
    let (changed, copy) = s.text_field("Name", (30, 10), None, &mut value, "");
    assert!(changed);
    assert_eq!(copy, None);
    assert_eq!(value, "xab");
    assert_eq!(s.cursor_pos().values(), [8, 28]);
    assert_eq!(s.ui.pcursor().values(), [138, 0]);
    let id = s.ui.get_id("Name");
    assert!(s.ui.is_focused(id));

    s.set_cursor_pos(Point::new([0, 0]));
    s.ui.press_key(Key::C, KeyMod::ctrl());
    let (changed, copy) = s.text_field("Name", (30, 10), None, &mut value, "");
    assert!(!changed);
    assert_eq!(copy, Some(String::from("xab")));

    s.set_cursor_pos(Point::new([0, 0]));
    s.ui.press_key(Key::Return, KeyMod::none());
    let (changed, _) = s.text_field("Name", (30, 10), None, &mut value, "");
    assert!(!changed);
    assert!(!s.ui.is_focused(id));
}

#[test]
fn a_text_area_adds_lines_and_scrolls_to_the_end() {
    let mut s = state();
    let mut value = String::from("hi");
    s.ui.press_key(Key::Return, KeyMod::none());
    let area = s.text_area("", (0, 0), 200, 100, &mut value, "");
    assert!(area.changed);
    assert_eq!(value, "hi\n");
    assert_eq!(area.input.coords(), [0, 0, 200, 100]);
    let r = s.text_area_scroll(&area, 0, 300).unwrap();
    assert_eq!(r.coords(), [0, 0, 212, 112]);
    assert_eq!(s.ui.scroll(area.id).values(), [0, 212]);
    assert_eq!(s.cursor_pos().values(), [8, 118]);
}

#[test]
fn a_new_theme_keeps_the_ui_state() {
    let mut s = state();
    s.set_cursor_pos(Point::new([5, 6]));
    s.set_theme(Theme::light());
    assert_eq!(s.theme.name, "Light");
    assert_eq!(s.cursor_pos().values(), [5, 6]);
}

#[test]
fn a_drag_box_follows_the_mouse_and_takes_typed_values() {
    let mut s = state();
    let mut v = 10;
    s.ui.press_mouse(Mouse::Left);
    s.ui.move_mouse(Point::new([5, 0]), 5, 0);
    assert_eq!(s.advanced_drag("", (0, 0), None, &mut v, 1, 0, 100), DragStep::Done(true));
    assert_eq!(v, 15);
    assert_eq!(s.cursor_pos().values(), [8, 30]);

    s.set_cursor_pos(Point::new([0, 0]));
    s.ui.press_key(Key::A, KeyMod::alt());
    assert_eq!(s.advanced_drag("", (0, 0), None, &mut v, 1, 0, 100), DragStep::Done(true));
    assert_eq!(v, 16);

    s.set_cursor_pos(Point::new([0, 0]));
    s.ui.press_key(Key::A, KeyMod::ctrl());
    assert_eq!(s.advanced_drag("", (0, 0), None, &mut v, 1, 0, 100), DragStep::Done(false));
    s.set_cursor_pos(Point::new([0, 0]));
    let id = s.ui.get_id("");
    assert_eq!(s.advanced_drag("", (0, 0), None, &mut v, 1, 0, 100), DragStep::Edit { id, width: 100 });

    s.ui.type_text(String::from("4x2"));
    let (changed, _) = s.drag_edit(id, "", (0, 0), 100, v, "");
    assert!(changed);
    assert!(s.ui.is_editing(id));
    s.ui.press_key(Key::Return, KeyMod::none());
    s.set_cursor_pos(Point::new([0, 0]));
    let (changed, _) = s.drag_edit(id, "", (0, 0), 100, v, "");
    assert!(!changed);
    assert!(!s.ui.is_editing(id));
    s.set_cursor_pos(Point::new([0, 0]));
    assert_eq!(s.advanced_drag("", (0, 0), None, &mut v, 1, 0, 100), DragStep::Done(true));
    assert_eq!(v, 100);
}

#[test]
fn a_drag_box_edit_left_untouched_keeps_a_negative_value() {
    let mut s = state();
    let mut v = -42;
    s.ui.press_mouse(Mouse::Left);
    s.ui.press_key(Key::A, KeyMod::ctrl());
    assert_eq!(s.advanced_drag("", (0, 0), None, &mut v, 1, -100, 100), DragStep::Done(false));
    s.set_cursor_pos(Point::new([0, 0]));
    let id = s.ui.get_id("");
    assert_eq!(s.advanced_drag("", (0, 0), None, &mut v, 1, -100, 100), DragStep::Edit { id, width: 100 });
    s.ui.press_key(Key::Return, KeyMod::none());
    s.set_cursor_pos(Point::new([0, 0]));
    let (changed, _) = s.drag_edit(id, "", (0, 0), 100, v, "");
    assert!(!changed);
    assert!(!s.ui.is_editing(id));
    s.set_cursor_pos(Point::new([0, 0]));
    assert_eq!(s.advanced_drag("", (0, 0), None, &mut v, 1, -100, 100), DragStep::Done(false));
    assert_eq!(v, -42);
}

#[test]
fn a_full_range_drag_box_is_not_clamped_to_a_small_range() {
    let mut s = state();
    let mut v = 1_000_000;
    s.ui.press_mouse(Mouse::Left);
    s.ui.move_mouse(Point::new([5, 0]), 5, 0);
    assert_eq!(s.drag("", (0, 0), None, &mut v, 1000), DragStep::Done(true));
    assert_eq!(v, 1_005_000);
}

#[test]
fn a_value_slider_takes_the_value_at_the_mouse() {
    let mut s = state();
    let mut v = 3;
    assert_eq!(s.advanced_slider("", (0, 0), None, &mut v, 0, 10, Some(7)), DragStep::Done(false));
    assert_eq!(v, 3);
    s.ui.press_mouse(Mouse::Left);
    s.set_cursor_pos(Point::new([0, 0]));
    s.ui.clear_hovered();
    assert_eq!(s.advanced_slider("", (0, 0), None, &mut v, 0, 10, Some(7)), DragStep::Done(true));
    assert_eq!(v, 7);
    s.set_cursor_pos(Point::new([0, 0]));
    assert_eq!(s.advanced_slider("", (0, 0), None, &mut v, 0, 10, None), DragStep::Done(false));
    assert_eq!(v, 7);
}
