use pix_engine::gui::field::keep_chars;
use pix_engine::random::{random, random_rng};

#[test]
fn random_rng_stays_in_its_range() {
    for _ in 0..200 {
        let x = random_rng(20, 50);
        assert!(x >= 20 && x < 50);
    }
    for _ in 0..50 {
        assert_eq!(random_rng(7, 8), 7);
    }
}

#[test]
fn random_lies_between_zero_and_the_value() {
    for _ in 0..200 {
        let x = random(100);
        assert!(x >= 0 && x < 100);
        let y = random(-10);
        assert!(y >= -10 && y < 0);
    }
    assert_eq!(random(1), 0);
    assert_eq!(random(-1), -1);
}

#[test]
fn keep_chars_keeps_what_the_filter_accepts_in_order() {
    assert_eq!(keep_chars("a1b2-c3.", |c: char| c.is_ascii_digit()), "123");
    assert_eq!(keep_chars("héllo wörld", |c: char| c != 'l'), "héo wörd");
    assert_eq!(keep_chars("abc", |_c: char| false), "");
    assert_eq!(keep_chars("", |_c: char| true), "");
    let only_upper: fn(char) -> bool = |c| c.is_uppercase();
    assert_eq!(keep_chars("AbCdÉ", only_upper), "ACÉ");
}
