use gem::bitmap::{Bitmap, Canvas, Rgba};
use gem::compose::{place, place_codes};
use gem::qr::{synthesize, QrError};

#[test]
fn synthesis_reaches_both_sizes() {
    for size in [150u32, 350u32] {
        let code = synthesize("monero_wallet:4abc?seed=one%20two&height=7", (size, size)).unwrap();
        assert_eq!(code.width(), size);
        assert_eq!(code.height(), size);
        assert_eq!(code.pixels().len(), (size * size) as usize);
    }
}

#[test]
fn modules_stay_sharp() {
    let code = synthesize("4abc", (350, 350)).unwrap();
    assert!(code.pixels().iter().all(|p| *p == 0 || *p == 255));
    assert!(code.pixels().iter().any(|p| *p == 0));
    assert!(code.pixels().iter().any(|p| *p == 255));
    // the quiet zone is light
    assert_eq!(code.get(0, 0), 255);
}

#[test]
fn synthesis_is_repeatable() {
    let a = synthesize("4abc", (150, 150)).unwrap();
    let b = synthesize("4abc", (150, 150)).unwrap();
    assert_eq!(a.pixels(), b.pixels());
    let c = synthesize("4abd", (150, 150)).unwrap();
    assert_ne!(a.pixels(), c.pixels());
}

#[test]
fn text_beyond_capacity_is_too_large() {
    let text = "a".repeat(8000);
    assert_eq!(synthesize(&text, (350, 350)).err(), Some(QrError::TooLarge));
}

#[test]
fn bitmap_needs_one_sample_per_position() {
    assert!(Bitmap::new(2, 3, vec![0; 6]).is_some());
    assert!(Bitmap::new(2, 3, vec![0; 5]).is_none());
    assert!(Bitmap::new(0, 3, Vec::new()).is_some());
    let b = Bitmap::new(2, 2, vec![1, 2, 3, 4]).unwrap();
    assert_eq!(b.get(1, 0), 2);
    assert_eq!(b.get(0, 1), 3);
}

fn white(width: u32, height: u32) -> Canvas {
    let p = Rgba { r: 250, g: 240, b: 230, a: 200 };
    Canvas::new(width, height, vec![p; (width * height) as usize]).unwrap()
}

#[test]
fn canvas_needs_one_pixel_per_position() {
    let p = Rgba { r: 1, g: 2, b: 3, a: 4 };
    assert!(Canvas::new(2, 2, vec![p; 3]).is_none());
    let mut c = Canvas::new(2, 2, vec![p; 4]).unwrap();
    c.put(1, 1, Rgba { r: 9, g: 9, b: 9, a: 9 });
    assert_eq!(c.get(1, 1), Rgba { r: 9, g: 9, b: 9, a: 9 });
    assert_eq!(c.get(0, 1), p);
    assert_eq!(c.pixels()[3], Rgba { r: 9, g: 9, b: 9, a: 9 });
}

#[test]
fn placing_turns_samples_into_opaque_gray() {
    let code = Bitmap::new(2, 2, vec![0, 255, 7, 8]).unwrap();
    let out = place(white(5, 4), &code, 3, 1);
    let kept = Rgba { r: 250, g: 240, b: 230, a: 200 };
    assert_eq!(out.width(), 5);
    assert_eq!(out.height(), 4);
    assert_eq!(out.get(3, 1), Rgba { r: 0, g: 0, b: 0, a: 255 });
    assert_eq!(out.get(4, 1), Rgba { r: 255, g: 255, b: 255, a: 255 });
    assert_eq!(out.get(3, 2), Rgba { r: 7, g: 7, b: 7, a: 255 });
    assert_eq!(out.get(4, 2), Rgba { r: 8, g: 8, b: 8, a: 255 });
    assert_eq!(out.get(2, 1), kept);
    assert_eq!(out.get(3, 0), kept);
    assert_eq!(out.get(3, 3), kept);
    assert_eq!(out.get(0, 2), kept);
}

#[test]
fn codes_stand_at_their_fixed_places() {
    let main = synthesize("monero_wallet:4abc?seed=one", (350, 350)).unwrap();
    let addr = synthesize("4abc", (150, 150)).unwrap();
    let out = place_codes(white(1000, 600), &main, &addr);
    assert_eq!(out.width(), 1000);
    assert_eq!(out.height(), 600);
    let kept = Rgba { r: 250, g: 240, b: 230, a: 200 };
    assert_eq!(out.get(614, 55), kept);
    assert_eq!(out.get(615, 54), kept);
    assert_eq!(out.get(965, 55), kept);
    assert_eq!(out.get(619, 425), kept);
    assert_eq!(out.get(770, 425), kept);
    for (x, y) in [(0u32, 0u32), (349, 349), (100, 200), (37, 41)] {
        let s = main.get(x, y);
        assert_eq!(out.get(615 + x, 55 + y), Rgba { r: s, g: s, b: s, a: 255 });
    }
    for (x, y) in [(0u32, 0u32), (149, 149), (75, 20)] {
        let s = addr.get(x, y);
        assert_eq!(out.get(620 + x, 425 + y), Rgba { r: s, g: s, b: s, a: 255 });
    }
}

#[test]
fn placing_twice_changes_nothing_more() {
    let code = synthesize("4abc", (150, 150)).unwrap();
    let once = place(white(800, 600), &code, 620, 425);
    let twice = place(place(white(800, 600), &code, 620, 425), &code, 620, 425);
    assert_eq!(once.pixels(), twice.pixels());
}

#[test]
fn composing_uses_the_codes_of_the_state() {
    let mut state = gem::state::GiftCardState::new("27/10/2026".to_string());
    let empty = gem::compose::compose(white(1000, 600), &state);
    assert_eq!(empty.pixels(), white(1000, 600).pixels());
    state.apply_generate(vec!["one".to_string(), "two".to_string()], "4abc".to_string());
    assert!(gem::compose::check_fit(&white(1000, 600), &state));
    assert!(!gem::compose::check_fit(&white(900, 600), &state));
    assert!(!gem::compose::check_fit(&white(1000, 500), &state));
    let first = gem::compose::compose(white(1000, 600), &state);
    let second = gem::compose::compose(white(1000, 600), &state);
    assert_eq!(first.pixels(), second.pixels());
    assert_eq!((first.width(), first.height()), (1000, 600));
    let main = state.main_code.clone().unwrap();
    let addr = state.address_code.clone().unwrap();
    let by_hand = place_codes(white(1000, 600), &main, &addr);
    assert_eq!(first.pixels(), by_hand.pixels());
    let s = main.get(10, 10);
    assert_eq!(first.get(625, 65), Rgba { r: s, g: s, b: s, a: 255 });
}

#[test]
fn canvas_bytes_go_there_and_back() {
    let bytes: Vec<u8> = (0u8..24).collect();
    assert!(Canvas::from_bytes(3, 2, &bytes[..23].to_vec()).is_none());
    assert!(Canvas::from_bytes(2, 2, &bytes).is_none());
    let c = Canvas::from_bytes(3, 2, &bytes).unwrap();
    assert!(c.check());
    assert_eq!(c.get(0, 0), Rgba { r: 0, g: 1, b: 2, a: 3 });
    assert_eq!(c.get(2, 0), Rgba { r: 8, g: 9, b: 10, a: 11 });
    assert_eq!(c.get(0, 1), Rgba { r: 12, g: 13, b: 14, a: 15 });
    assert_eq!(c.to_bytes(), bytes);
}

#[test]
fn an_empty_target_gives_an_empty_bitmap() {
    let code = synthesize("4abc", (0, 0)).unwrap();
    assert_eq!((code.width(), code.height()), (0, 0));
    assert!(code.pixels().is_empty());
    let code = synthesize("4abc", (0, 7)).unwrap();
    assert_eq!((code.width(), code.height()), (0, 7));
    assert!(code.check());
    let code = synthesize("", (10, 10)).unwrap();
    assert_eq!(code.pixels().len(), 100);
}

#[test]
fn fitting_keeps_a_symbol_of_the_same_size() {
    let symbol = Bitmap::new(2, 2, vec![0, 255, 255, 0]).unwrap();
    let same = gem::qr::fit(&symbol, 2, 2);
    assert_eq!(same.pixels(), symbol.pixels());
    let doubled = gem::qr::fit(&symbol, 4, 4);
    assert_eq!(
        doubled.pixels(),
        &vec![0, 0, 255, 255, 0, 0, 255, 255, 255, 255, 0, 0, 255, 255, 0, 0]
    );
}
