use pix_engine::event::Key;
use pix_engine::gui::element::Text;
use pix_engine::gui::selection::{ListRect, ListSelection};
use pix_engine::lighting::{Light, LightSource};
use pix_engine::pixel::Pixel;
use pix_engine::shape::Point;
use pix_engine::vector::Vector;

#[test]
fn text_measures_eight_pixels_per_byte_at_its_scale() {
    let mut t = Text::new("abc");
    assert_eq!((t.x(), t.y()), (0, 0));
    assert_eq!(t.width(), 2 * 3 * 8);
    assert_eq!(t.height(), 16);
    t.set_x(5);
    t.set_y(6);
    t.set_color(Pixel::red());
    assert_eq!((t.x(), t.y()), (5, 6));
}

#[test]
fn a_list_scrolls_once_the_selection_nears_the_last_row() {
    let items: Vec<Text> = (0..10).map(|i| Text::new(&format!("item {}", i))).collect();
    let mut list = ListSelection::with_items(ListRect { x: 0, y: 0, w: 100, h: 130 }, &items);
    // 130 / (16 + 10) = 5 rows
    assert_eq!(list.selected(), 0);
    assert!(list.update(Key::Down, true));
    assert!(list.update(Key::Down, true));
    assert_eq!(list.selected(), 2);
    assert!(list.update(Key::Down, true));
    assert_eq!(list.selected(), 3);
    assert!(list.update(Key::Up, true));
    assert_eq!(list.selected(), 2);
    assert!(!list.update(Key::A, true));
    assert!(list.update(Key::Up, false));
    assert_eq!(list.selected(), 2);
    let empty = ListSelection::new();
    assert_eq!(empty.selected(), 0);
}

#[test]
fn lights_keep_their_source_and_intensity() {
    let a: Light<i32, 3> = Light::ambient(5);
    assert_eq!(a.source, LightSource::Ambient);
    assert_eq!(a.intensity, 5);
    let p: Light<i32, 3> = Light::point(2, [1, 2, 3]);
    assert_eq!(p.source, LightSource::Point(Point::new([1, 2, 3])));
    let d: Light<i32, 3> = Light::direction(1, [0, 0, 1]);
    assert_eq!(d.source, LightSource::Direction(Vector::new([0, 0, 1])));
}
