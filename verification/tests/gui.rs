use pix_engine::engine::PixState;
use pix_engine::event::{Key, KeyMod, Mouse};
use pix_engine::gui::field::edit_text;
use pix_engine::gui::keys::KeyState;
use pix_engine::gui::mouse::MouseState;
use pix_engine::gui::select::{list_key_selection, snap_scroll};
use pix_engine::gui::state::{get_label, hash_label, ElementId, UiState};
use pix_engine::gui::theme::{Builder, ColorType, Colors, Font, FontStyle, FontType, Spacing, Theme};
use pix_engine::gui::widgets::Direction;
use pix_engine::color::Color;
use pix_engine::error::PixError;
use pix_engine::shape::{Point, Rect};
use pix_engine::vector::Vector;

fn state() -> PixState {
    PixState::new(Theme::default())
}

#[test]
fn keys_are_held_until_released() {
    let mut k = KeyState::new();
    assert!(!k.is_pressed());
    k.press(Key::A, KeyMod::shift());
    k.press(Key::A, KeyMod::shift());
    k.press(Key::B, KeyMod::none());
    assert!(k.is_down(Key::A) && k.is_down(Key::B));
    assert!(k.was_entered(Key::B));
    assert!(!k.mod_down(KeyMod::shift()));
    k.release(Key::A, KeyMod::ctrl());
    assert!(!k.is_down(Key::A));
    assert!(k.is_down(Key::B));
    assert!(k.mod_down(KeyMod::ctrl()));
    k.release(Key::B, KeyMod::none());
    assert!(!k.is_pressed());
}

#[test]
fn mouse_double_click_within_half_a_second() {
    let mut m = MouseState::default();
    assert!(!m.is_pressed());
    m.press(Mouse::Left);
    assert!(m.is_down(Mouse::Left) && m.is_pressed());
    m.release(Mouse::Left);
    assert!(!m.is_pressed());
    m.click(Mouse::Left, 1000);
    assert!(m.was_clicked(Mouse::Left));
    assert!(!m.was_dbl_clicked(Mouse::Left));
    m.dbl_click(Mouse::Left, 1499);
    assert!(m.was_dbl_clicked(Mouse::Left));
    m.dbl_click(Mouse::Left, 1500);
    assert!(!m.was_dbl_clicked(Mouse::Left));
    m.click(Mouse::Left, 1600);
    assert!(!m.was_dbl_clicked(Mouse::Left));
    assert_eq!(m.last_clicked(Mouse::Left), Some(1600));
    assert_eq!(m.last_clicked(Mouse::Right), None);
}

#[test]
fn labels_hide_what_follows_the_id_marker() {
    assert_eq!(get_label("Name##id"), "Name");
    assert_eq!(get_label("##hidden"), "");
    assert_eq!(get_label("Plain"), "Plain");
    assert_eq!(get_label("a#b##c##d"), "a#b");
    assert_eq!(hash_label("x", None), hash_label("x", None));
    assert_ne!(hash_label("x", None), hash_label("x", Some(1)));
}

#[test]
fn the_id_stack_seeds_identifiers() {
    let mut s = state();
    let plain = s.ui.get_id("label");
    s.push_id(7);
    let seeded = s.ui.get_id("label");
    assert_ne!(plain, seeded);
    s.pop_id();
    assert_eq!(s.ui.get_id("label"), plain);
    s.pop_id();
    assert_eq!(s.ui.get_id("label"), plain);
}

#[test]
fn hovering_with_the_button_down_makes_an_element_active() {
    let mut ui = UiState::new();
    let a = ElementId(1);
    let b = ElementId(2);
    let r = Rect::new(0, 0, 10, 10);
    ui.move_mouse(Point::new([5, 5]), 0, 0);
    ui.press_mouse(Mouse::Left);
    assert!(ui.try_hover(a, &r));
    assert!(ui.is_active(a));
    assert!(!ui.try_hover(b, &r));
    assert!(!ui.is_active(b));
    ui.clear_hovered();
    ui.move_mouse(Point::new([50, 5]), 0, 0);
    assert!(!ui.try_hover(b, &r));
}

#[test]
fn tab_moves_focus_and_shift_tab_returns_it() {
    let mut ui = UiState::new();
    let a = ElementId(1);
    let b = ElementId(2);
    assert!(ui.try_focus(a));
    ui.handle_events(a);
    assert!(!ui.try_focus(b));
    ui.handle_events(b);
    ui.blur();
    assert!(ui.try_focus(a));
    ui.press_key(Key::Tab, KeyMod::none());
    ui.handle_events(a);
    assert!(!ui.is_focused(a));
    assert_eq!(ui.key_entered(), None);
    assert!(ui.try_focus(b));
    ui.press_key(Key::Tab, KeyMod::shift());
    ui.handle_events(b);
    assert!(ui.is_focused(a));
}

#[test]
fn return_clicks_the_focused_element() {
    let mut ui = UiState::new();
    let a = ElementId(3);
    ui.focus(a);
    ui.press_key(Key::Return, KeyMod::none());
    assert!(ui.was_clicked(a));
    assert_eq!(ui.key_entered(), None);
    assert!(!ui.was_clicked(a));
}

#[test]
fn element_state_reads_back_what_was_written() {
    let mut ui = UiState::new();
    let a = ElementId(10);
    assert_eq!(ui.scroll(a).values(), [0, 0]);
    ui.set_scroll(a, Vector::new([3, 4]));
    assert_eq!(ui.scroll(a).values(), [3, 4]);
    ui.set_expanded(a, true);
    assert!(ui.expanded(a));
    assert_eq!(ui.scroll(a).values(), [3, 4]);
    ui.set_current_tab(a, 2);
    assert_eq!(ui.current_tab(a), 2);
    ui.set_text_edit(a, String::from("hello"));
    assert_eq!(ui.text_edit(a, String::from("initial")), "hello");
    assert_eq!(ui.text_edit(a, String::from("initial")), "");
    assert_eq!(ui.text_edit(ElementId(11), String::from("initial")), "initial");
    assert!(!ui.expanded(ElementId(12)));
    assert_eq!(ui.current_tab(ElementId(12)), 0);
}

#[test]
fn the_least_recently_used_element_state_is_dropped() {
    let mut ui = UiState::new();
    for i in 0..128u64 {
        ui.set_current_tab(ElementId(i), 1);
    }
    assert_eq!(ui.current_tab(ElementId(0)), 1);
    ui.set_current_tab(ElementId(1000), 5);
    assert_eq!(ui.current_tab(ElementId(1)), 0);
    assert_eq!(ui.current_tab(ElementId(0)), 1);
    assert_eq!(ui.current_tab(ElementId(1000)), 5);
}

#[test]
fn a_button_is_clicked_when_released_over_it() {
    let mut s = state();
    let rect = Rect::new(0, 0, 100, 20);
    s.ui.move_mouse(Point::new([10, 10]), 0, 0);
    s.ui.press_mouse(Mouse::Left);
    assert!(!s.button(rect, "Click"));
    s.ui.release_mouse(Mouse::Left);
    assert!(s.button(rect, "Click"));
    s.disable();
    assert!(!s.button(rect, "Click"));
}

#[test]
fn a_checkbox_toggles_when_clicked() {
    let mut s = state();
    let rect = Rect::new(0, 0, 100, 20);
    let mut checked = false;
    s.ui.move_mouse(Point::new([5, 5]), 0, 0);
    s.ui.press_mouse(Mouse::Left);
    assert!(!s.checkbox(rect, "Check", &mut checked, 10));
    s.ui.release_mouse(Mouse::Left);
    s.ui.clear_hovered();
    assert!(s.checkbox(rect, "Check", &mut checked, 10));
    assert!(checked);
}

#[test]
fn a_radio_selects_its_index_when_clicked() {
    let mut s = state();
    let rect = Rect::new(0, 0, 100, 18);
    let mut selected = 0;
    s.ui.move_mouse(Point::new([9, 17]), 0, 0);
    s.ui.press_mouse(Mouse::Left);
    assert!(!s.radio(rect, "Option", &mut selected, 2, 0));
    s.ui.release_mouse(Mouse::Left);
    assert!(s.radio(rect, "Option", &mut selected, 2, 0));
    assert_eq!(selected, 2);
}

#[test]
fn a_slider_refuses_a_non_positive_max_and_moves_by_keys() {
    let mut s = state();
    let rect = Rect::new(0, 0, 100, 16);
    let mut value = 5;
    assert_eq!(s.slider(rect, "s", 0, &mut value, Direction::Horizontal), Err(PixError::InvalidValue));
    assert_eq!(value, 5);
    s.ui.move_mouse(Point::new([500, 500]), 0, 0);
    s.ui.press_key(Key::Right, KeyMod::none());
    assert_eq!(s.slider(rect, "s", 6, &mut value, Direction::Horizontal), Ok(true));
    assert_eq!(value, 6);
    s.ui.press_key(Key::Left, KeyMod::none());
    assert_eq!(s.slider(rect, "s", 6, &mut value, Direction::Horizontal), Ok(true));
    assert_eq!(value, 4);
    s.ui.press_key(Key::Up, KeyMod::none());
    assert_eq!(s.slider(rect, "s", 6, &mut value, Direction::Horizontal), Ok(false));
    assert_eq!(value, 4);
}

#[test]
fn list_keys_stop_at_the_ends_and_the_scroll_follows() {
    assert_eq!(list_key_selection(0, Key::Up, 3), Some(0));
    assert_eq!(list_key_selection(1, Key::Up, 3), Some(0));
    assert_eq!(list_key_selection(2, Key::Down, 3), Some(2));
    assert_eq!(list_key_selection(0, Key::Down, 3), Some(1));
    assert_eq!(list_key_selection(0, Key::A, 3), None);
    // above the window: snap its top to the selection
    assert_eq!(snap_scroll(40, 20, 20, 60, 12, 6), 20);
    // below the window: snap its bottom to the selection
    assert_eq!(snap_scroll(0, 80, 20, 60, 12, 6), 100 - (60 - 12 - 6));
    // in view: stay
    assert_eq!(snap_scroll(0, 20, 20, 60, 12, 6), 0);
}

#[test]
fn a_select_list_moves_its_selection_with_the_arrow_keys() {
    let mut s = state();
    let items = ["a", "b", "c"];
    let mut selected = 7;
    let (changed, rect, _id) = s.select_list("List", &mut selected, &items, 2, (40, 12));
    assert_eq!(selected, 2);
    assert!(changed);
    assert_eq!(rect.height(), 2 * (12 + 12) + 2 * 8 + 2);
    s.ui.press_key(Key::Up, KeyMod::none());
    let (changed, _, _) = s.select_list("List", &mut selected, &items, 2, (40, 12));
    assert!(changed);
    assert_eq!(selected, 1);
    let (changed, _, _) = s.select_list("List", &mut selected, &items, 2, (40, 12));
    assert!(!changed);
}

#[test]
fn a_select_list_with_tall_lines_follows_the_arrow_keys() {
    let mut s = state();
    s.theme.spacing.item_pad = Point::new([8, 200_000_000]);
    let items = ["a", "b", "c"];
    let mut selected = 0;
    let (changed, rect, _id) = s.select_list("List", &mut selected, &items, 1, (40, 12));
    assert!(!changed);
    assert_eq!(rect.height(), (12 + 400_000_000) + 2 * 8 + 2);
    s.ui.press_key(Key::Down, KeyMod::none());
    let (changed, _, _) = s.select_list("List", &mut selected, &items, 1, (40, 12));
    assert!(changed);
    assert_eq!(selected, 1);
    s.ui.release_key(Key::Down, KeyMod::none());
    s.ui.press_key(Key::Down, KeyMod::none());
    let (changed, _, _) = s.select_list("List", &mut selected, &items, 1, (40, 12));
    assert!(changed);
    assert_eq!(selected, 2);
}

#[test]
fn text_editing_follows_the_shortcuts() {
    let mut v = String::from("hello big world");
    assert_eq!(edit_text(&mut v, Some(Key::Backspace), false, false, None, ""), (true, None));
    assert_eq!(v, "hello big worl");
    assert_eq!(edit_text(&mut v, Some(Key::Backspace), false, true, None, ""), (true, None));
    assert_eq!(v, "hello big ");
    assert_eq!(edit_text(&mut v, Some(Key::Backspace), false, true, None, ""), (true, None));
    assert_eq!(v, "hello ");
    let (changed, copy) = edit_text(&mut v, Some(Key::C), true, false, None, "");
    assert!(!changed);
    assert_eq!(copy.as_deref(), Some("hello "));
    assert_eq!(edit_text(&mut v, Some(Key::V), true, false, Some(String::from("!")), "there"), (true, None));
    assert_eq!(v, "hello there!");
    let (changed, copy) = edit_text(&mut v, Some(Key::X), true, false, None, "");
    assert!(changed);
    assert_eq!(copy.as_deref(), Some("hello there!"));
    assert_eq!(v, "");
    assert_eq!(edit_text(&mut v, Some(Key::Backspace), false, false, None, ""), (false, None));
    let mut w = String::from("word");
    edit_text(&mut w, Some(Key::Backspace), false, true, None, "");
    assert_eq!(w, "");
    let mut c = String::from("abc");
    edit_text(&mut c, Some(Key::Backspace), true, false, None, "");
    assert_eq!(c, "");
}

#[test]
fn layout_advances_to_the_next_line() {
    let mut s = state();
    s.set_cursor_pos(Point::new([8, 8]));
    s.advance_cursor([50, 20]);
    assert_eq!(s.cursor_pos().values(), [8, 8 + 20 + 6]);
    s.same_line(None);
    assert_eq!(s.cursor_pos().values(), [8 + 50 + 8, 8]);
    s.same_line(Some([5, 1]));
    assert_eq!(s.cursor_pos().values(), [8 + 50 + 8 + 5, 9]);
    s.next_width(u32::MAX);
    let line = s.separator(200);
    assert_eq!(line, [8, 9 + 6, 200, 9 + 6]);
}

#[test]
fn the_last_element_is_hovered_and_clicked() {
    let mut s = state();
    s.set_cursor_pos(Point::new([0, 0]));
    s.advance_cursor([50, 20]);
    s.ui.move_mouse(Point::new([10, 30]), 0, 0);
    assert!(s.hovered());
    assert!(!s.clicked());
    s.ui.click_mouse(Mouse::Left, 0);
    assert!(s.clicked());
    s.disable();
    assert!(!s.hovered());
}

#[test]
fn themes_carry_their_palettes() {
    let dark = Theme::dark();
    assert_eq!(dark.name, "Dark");
    assert_eq!(dark.colors.background, Color::from_hex(0x121212));
    assert_eq!(dark.font_size, 12);
    let light = Theme::light();
    assert_eq!(light.colors.primary, Color::from_hex(0x00796b));
    assert_eq!(Colors::default(), Colors::dark());
    let spacing = Spacing::builder().frame_pad(2, 3).scroll_size(5).build();
    assert_eq!(spacing.frame_pad.values(), [2, 3]);
    assert_eq!(spacing.item_pad.values(), [8, 6]);
    assert_eq!(spacing.scroll_size, 5);
    let mut b = Builder::new("Mine");
    b.with_font_size(20)
        .with_color(ColorType::Error, Color::rgb(1, 2, 3))
        .with_font(FontType::Heading, Font::named("Arial"), FontStyle::bold())
        .with_spacing(spacing);
    let t = b.build();
    assert_eq!(t.name, "Mine");
    assert_eq!(t.font_size, 20);
    assert_eq!(t.colors.error, Color::rgb(1, 2, 3));
    assert_eq!(t.colors.primary, Colors::dark().primary);
    assert_eq!(t.fonts.heading.name(), "Arial");
    assert_eq!(t.styles.heading, FontStyle::bold());
    assert_eq!(t.spacing, spacing);
    assert_eq!(Font::named("A").id(), Font::named("A").id());
    assert_ne!(Font::named("A").id(), Font::named("B").id());
}

#[test]
fn a_select_box_expands_with_focus_and_escape_collapses_it() {
    let mut s = state();
    let b = s.select_box("Box", 4, (30, 12), (50, 12));
    assert_eq!(b.rect.coords(), [38, 0, 66, 28]);
    assert_eq!(b.list.coords(), [38, 29, 66, 4 * 24 + 16]);
    assert!(b.focused);
    let mut selected = 0;
    assert!(!s.select_box_input(b, &mut selected, 0, 3));
    assert!(s.ui.expanded(b.id));
    s.ui.press_key(Key::Down, KeyMod::none());
    assert!(s.select_box_input(b, &mut selected, 0, 3));
    assert_eq!(selected, 1);
    assert!(s.ui.expanded(b.id));
    s.ui.press_key(Key::Escape, KeyMod::none());
    assert!(!s.select_box_input(b, &mut selected, 1, 3));
    assert!(!s.ui.expanded(b.id));
}

#[test]
fn a_scroll_bar_takes_focus_and_scrolls_with_the_keys() {
    let mut s = state();
    let id = ElementId(5);
    let r = s.scroll(id, Rect::new(0, 0, 100, 50), 100, 200).unwrap();
    assert_eq!(r.coords(), [0, 0, 112, 62]);
    assert_eq!(s.ui.scroll(id).values(), [0, 0]);
    s.ui.press_key(Key::Down, KeyMod::none());
    s.scroll(id, Rect::new(0, 0, 100, 50), 100, 200).unwrap();
    assert_eq!(s.ui.scroll(id).values(), [0, 3]);
}
