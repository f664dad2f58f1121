use pix_engine::event::{character, Key};

#[test]
fn a_shifted_digit_maps_to_its_symbol() {
    // The logical key reports what the layout produced, so `Shift+1` arrives as `!`.
    assert_eq!(character('!'), Some(Key::Exclaim));
    assert_eq!(character('1'), Some(Key::Num1));
}

#[test]
fn a_letter_maps_to_one_variant_whatever_its_case() {
    assert_eq!(character('a'), Some(Key::A));
    assert_eq!(character('A'), Some(Key::A));
}

#[test]
fn characters_outside_the_table_map_to_no_key() {
    assert_eq!(character('é'), None);
    assert_eq!(character('\n'), None);
    assert_eq!(character('~'), None);
    assert_eq!(character('z'), Some(Key::Z));
    assert_eq!(character('`'), Some(Key::Backquote));
}
