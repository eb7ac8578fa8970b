use ecobridge::context::{is_festival, is_newbie};

#[test]
fn mask_bits_decode_independently() {
    assert!(!is_newbie(0) && !is_festival(0));
    assert!(is_newbie(1) && !is_festival(1));
    assert!(!is_newbie(2) && is_festival(2));
    assert!(is_newbie(3) && is_festival(3));
}

#[test]
fn higher_bits_are_ignored() {
    assert!(!is_newbie(4) && !is_festival(4));
    assert!(is_newbie(7) && is_festival(7));
}
