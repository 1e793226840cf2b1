use gem::state::{GiftCardState, Mode};
use gem::text::{chars_of, decimal_chars, join, strip_spaces};
use gem::uri::redemption_uri;

const ADDRESS: &str = "48edfHu7V9Z84YzzMa6fUueoELZ9ZRXq9VetWzYGzKt52XU5xvqgzYnDK9URnRoJMk1j8nLwEVsaSWJ4fhdUyZijBGUicoD";

fn words(items: &[&str]) -> Vec<String> {
    items.iter().map(|w| w.to_string()).collect()
}

#[test]
fn abbey_wallet_with_height() {
    let seed = words(&["abbey"; 25]);
    let uri = redemption_uri(ADDRESS, &seed, 3000000, &Vec::new());
    let mut expected = format!("monero_wallet:{}?seed=abbey", ADDRESS);
    for _ in 0..24 {
        expected.push_str("%20abbey");
    }
    expected.push_str("&height=3000000");
    assert_eq!(uri, expected);
}

#[test]
fn all_three_parameters_in_fixed_order() {
    let uri = redemption_uri("4abc", &words(&["one", "two", "three"]), 42, &words(&["aa", "bb"]));
    assert_eq!(uri, "monero_wallet:4abc?seed=one%20two%20three&height=42&txids=aa,bb");
}

#[test]
fn height_zero_is_left_out() {
    let uri = redemption_uri("4abc", &words(&["one", "two"]), 0, &words(&["aa"]));
    assert_eq!(uri, "monero_wallet:4abc?seed=one%20two&txids=aa");
    assert!(!uri.contains("height="));
}

#[test]
fn empty_txids_are_left_out() {
    let uri = redemption_uri("4abc", &words(&["one", "two"]), 7, &Vec::new());
    assert_eq!(uri, "monero_wallet:4abc?seed=one%20two&height=7");
    assert!(!uri.contains("txids="));
}

#[test]
fn empty_seed_is_left_out() {
    let uri = redemption_uri("4abc", &Vec::new(), 7, &words(&["aa"]));
    assert_eq!(uri, "monero_wallet:4abc?height=7&txids=aa");
    assert!(!uri.contains("seed="));
}

#[test]
fn nothing_but_the_address() {
    let uri = redemption_uri("4abc", &Vec::new(), 0, &Vec::new());
    assert_eq!(uri, "monero_wallet:4abc");
}

#[test]
fn spaces_leave_the_txids() {
    let uri = redemption_uri("4abc", &Vec::new(), 0, &words(&[" a a ", "b b", "c"]));
    assert_eq!(uri, "monero_wallet:4abc?txids=aa,bb,c");
}

#[test]
fn one_seed_word_has_no_separator() {
    let uri = redemption_uri("4abc", &words(&["solo"]), 0, &Vec::new());
    assert_eq!(uri, "monero_wallet:4abc?seed=solo");
}

#[test]
fn encoding_twice_gives_the_same_text() {
    let seed = words(&["one", "two"]);
    let ids = words(&["aa"]);
    assert_eq!(redemption_uri("4abc", &seed, 9, &ids), redemption_uri("4abc", &seed, 9, &ids));
}

#[test]
fn state_encodes_uri_and_bare_address() {
    let mut state = GiftCardState::new("01/02/2024".to_string());
    state.address = ADDRESS.to_string();
    state.seed_phrase = words(&["abbey"; 25]);
    state.message = "Happy Birthday".to_string();
    let (uri, bare) = state.encode();
    assert_eq!(bare, ADDRESS);
    assert!(uri.starts_with("monero_wallet:48edfHu7"));
    assert!(uri.ends_with("%20abbey&height=3000000"));
    assert_eq!(state.mode, Mode::Generated);
}

#[test]
fn decimal_numerals() {
    assert_eq!(decimal_chars(0), vec!['0']);
    assert_eq!(decimal_chars(9), vec!['9']);
    assert_eq!(decimal_chars(10), vec!['1', '0']);
    assert_eq!(decimal_chars(3000000).iter().collect::<String>(), "3000000");
    assert_eq!(decimal_chars(u64::MAX).iter().collect::<String>(), "18446744073709551615");
}

#[test]
fn joining_and_stripping() {
    let parts = vec![chars_of("a"), chars_of(""), chars_of("bc")];
    assert_eq!(join(&parts, "%20").iter().collect::<String>(), "a%20%20bc");
    assert_eq!(join(&Vec::new(), ",").len(), 0);
    assert_eq!(strip_spaces(&chars_of(" x y  z ")).iter().collect::<String>(), "xyz");
    assert_eq!(chars_of("héllo"), vec!['h', 'é', 'l', 'l', 'o']);
}

#[test]
fn reading_gives_back_what_was_encoded() {
    let seed = words(&["abbey", "bacon", "cactus"]);
    let ids = words(&["aa11", "bb22"]);
    let uri = redemption_uri(ADDRESS, &seed, 3000000, &ids);
    let read = gem::parse::parse(&uri).unwrap();
    assert_eq!(read.address, ADDRESS);
    assert_eq!(read.seed, seed);
    assert_eq!(read.height, 3000000);
    assert_eq!(read.txids, ids);
}

#[test]
fn reading_absent_parameters() {
    let read = gem::parse::parse("monero_wallet:4abc").unwrap();
    assert_eq!(read.address, "4abc");
    assert!(read.seed.is_empty());
    assert_eq!(read.height, 0);
    assert!(read.txids.is_empty());
    let read = gem::parse::parse(&redemption_uri("4abc", &Vec::new(), 0, &words(&["aa"]))).unwrap();
    assert!(read.seed.is_empty());
    assert_eq!(read.height, 0);
    assert_eq!(read.txids, words(&["aa"]));
    let read = gem::parse::parse(&redemption_uri("4abc", &words(&["solo"]), u64::MAX, &Vec::new())).unwrap();
    assert_eq!(read.seed, words(&["solo"]));
    assert_eq!(read.height, u64::MAX);
}

#[test]
fn reading_refuses_other_texts() {
    assert!(gem::parse::parse("bitcoin:4abc").is_none());
    assert!(gem::parse::parse("monero_wallet:4abc?height=12x").is_none());
    assert!(gem::parse::parse("monero_wallet:4abc?height=").is_none());
    assert!(gem::parse::parse("monero_wallet:4abc?height=18446744073709551616").is_none());
    assert!(gem::parse::parse("monero_wallet:4abc?height=0012").is_some());
}

#[test]
fn splitting_and_numerals() {
    let s = chars_of("a%20b%20%20c");
    let parts = gem::parse::split(&s, '%', 3);
    assert_eq!(parts, vec![chars_of("a"), chars_of("b"), chars_of(""), chars_of("c")]);
    assert_eq!(gem::parse::split(&chars_of("ab%2"), '%', 3), vec![chars_of("ab%2")]);
    assert_eq!(gem::parse::split(&chars_of(""), ',', 1), vec![chars_of("")]);
    assert_eq!(gem::parse::find(&chars_of("abcabc"), 1, 'a'), 3);
    assert_eq!(gem::parse::find(&chars_of("abc"), 0, 'x'), 3);
    assert_eq!(gem::parse::read_numeral(&chars_of("3000000")), Some(3000000));
    assert_eq!(gem::parse::read_numeral(&chars_of("-1")), None);
    let params = vec![chars_of("seed=a"), chars_of("height=5")];
    assert_eq!(gem::parse::lookup(&params, "height="), Some(chars_of("5")));
    assert_eq!(gem::parse::lookup(&params, "txids="), None);
}

#[test]
fn blank_transaction_ids_are_left_out() {
    let mut state = GiftCardState::new("27/10/2026".to_string());
    state.switch_mode();
    state.enter_wallet("4A", "");
    state.block_height = 0;
    state.enter_transaction_ids(" ");
    assert_eq!(state.encode().0, "monero_wallet:4A");
    state.enter_transaction_ids("     ");
    assert_eq!(state.encode().0, "monero_wallet:4A");
    assert!(!state.encode().0.contains("txids="));
    state.block_height = 12;
    assert_eq!(state.encode().0, "monero_wallet:4A?height=12");
    state.enter_transaction_ids(" a b ");
    assert_eq!(state.encode().0, "monero_wallet:4A?height=12&txids=ab");
}

#[test]
fn empty_values_are_left_out() {
    assert_eq!(redemption_uri("4A", &words(&[""]), 0, &words(&["  "])), "monero_wallet:4A");
    assert_eq!(redemption_uri("4A", &words(&[""]), 3, &words(&[""])), "monero_wallet:4A?height=3");
    assert_eq!(redemption_uri("4A", &words(&["", ""]), 0, &words(&[" ", " "])), "monero_wallet:4A?seed=%20&txids=,");
}

#[test]
fn generated_cards_carry_no_transaction_ids() {
    let mut state = GiftCardState::new("27/10/2026".to_string());
    state.address = "4abc".to_string();
    state.seed_phrase = words(&["one", "two"]);
    state.enter_transaction_ids("aa,bb");
    assert_eq!(state.mode, Mode::Generated);
    assert_eq!(state.encode().0, "monero_wallet:4abc?seed=one%20two&height=3000000");
    state.switch_mode();
    assert_eq!(state.encode().0, "monero_wallet:4abc?seed=one%20two&height=3000000&txids=aa,bb");
}
