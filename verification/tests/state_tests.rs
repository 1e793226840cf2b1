use gem::credential::{derive_address, generate, key_shaped, CredentialError};
use gem::layout::{export_name, ink, lettering, SEPARATOR_BOTTOM, SEPARATOR_TOP, SEPARATOR_X};
use gem::market::{apply_node_reply, chain_height};
use gem::state::{GiftCardState, Mode};

fn words(items: &[&str]) -> Vec<String> {
    items.iter().map(|w| w.to_string()).collect()
}

#[test]
fn a_new_state_is_generated_and_empty() {
    let state = GiftCardState::new("27/10/2026".to_string());
    assert_eq!(state.mode, Mode::Generated);
    assert_eq!(state.block_height, 3000000);
    assert_eq!(state.amount, "1");
    assert_eq!(state.issue_date, "27/10/2026");
    assert!(state.address.is_empty());
    assert!(state.seed_phrase.is_empty());
    assert!(state.main_code.is_none());
    assert!(state.address_code.is_none());
}

#[test]
fn switching_twice_keeps_seed_and_address() {
    let mut state = GiftCardState::new("27/10/2026".to_string());
    let refused = state.apply_generate(words(&["one", "two"]), "4abc".to_string());
    assert_eq!(refused, (None, None));
    assert!(state.main_code.is_some());
    state.switch_mode();
    assert_eq!(state.mode, Mode::Imported);
    assert!(state.main_code.is_none());
    assert!(state.address_code.is_none());
    state.switch_mode();
    assert_eq!(state.mode, Mode::Generated);
    assert_eq!(state.address, "4abc");
    assert_eq!(state.seed_phrase, words(&["one", "two"]));
    assert!(state.main_code.is_none());
    assert!(state.address_code.is_none());
}

#[test]
fn update_with_empty_address_changes_nothing() {
    let mut state = GiftCardState::new("27/10/2026".to_string());
    state.switch_mode();
    state.address = "4abc".to_string();
    assert_eq!(state.apply_update_qr(), (None, None));
    let before = state.main_code.clone().unwrap();
    state.address = String::new();
    assert_eq!(state.apply_update_qr(), (None, None));
    assert_eq!(state.main_code.clone().unwrap().pixels(), before.pixels());
}

#[test]
fn imported_card_without_seed_still_gets_codes() {
    let mut state = GiftCardState::new("27/10/2026".to_string());
    state.switch_mode();
    state.address = "4abc".to_string();
    state.block_height = 0;
    let (uri, bare) = state.encode();
    assert_eq!(uri, "monero_wallet:4abc");
    assert_eq!(bare, "4abc");
    assert_eq!(state.apply_update_qr(), (None, None));
    let main = state.main_code.clone().unwrap();
    let addr = state.address_code.clone().unwrap();
    assert_eq!((main.width(), main.height()), (350, 350));
    assert_eq!((addr.width(), addr.height()), (150, 150));
}

#[test]
fn a_refused_code_keeps_the_one_before() {
    let mut state = GiftCardState::new("27/10/2026".to_string());
    state.switch_mode();
    state.address = "4abc".to_string();
    state.apply_update_qr();
    let before = state.main_code.clone().unwrap();
    state.message = "kept".to_string();
    state.transaction_ids = vec!["f".repeat(9000)];
    let refused = state.apply_update_qr();
    assert_eq!(refused.0, Some(gem::qr::QrError::TooLarge));
    assert_eq!(refused.1, None);
    assert_eq!(state.main_code.clone().unwrap().pixels(), before.pixels());
    assert_eq!(state.message, "kept");
}

#[test]
fn generated_wallet_is_ignored_in_imported_mode() {
    let mut state = GiftCardState::new("27/10/2026".to_string());
    state.switch_mode();
    state.address = "mine".to_string();
    state.apply_generate(words(&["one"]), "4abc".to_string());
    assert_eq!(state.address, "mine");
    assert!(state.seed_phrase.is_empty());
    assert!(state.main_code.is_none());
}

#[test]
fn height_is_a_thousand_below_the_tip() {
    let mut state = GiftCardState::new("27/10/2026".to_string());
    state.apply_chain_height(Some(3100000));
    assert_eq!(state.block_height, 3099000);
    state.apply_chain_height(None);
    assert_eq!(state.block_height, 3099000);
    state.apply_chain_height(Some(999));
    assert_eq!(state.block_height, 3099000);
    state.apply_chain_height(Some(1000));
    assert_eq!(state.block_height, 0);
}

#[test]
fn node_reply_is_read() {
    let body = "{\"id\":\"0\",\"jsonrpc\":\"2.0\",\"result\":{\"count\":3210987,\"status\":\"OK\"}}";
    assert_eq!(chain_height(body), Some(3210987));
    assert_eq!(chain_height("{\"result\":{}}"), None);
    assert_eq!(chain_height("{\"result\":{\"count\":\"12\"}}"), None);
    assert_eq!(chain_height("not json"), None);
    let mut state = GiftCardState::new("27/10/2026".to_string());
    apply_node_reply(&mut state, body);
    assert_eq!(state.block_height, 3209987);
    apply_node_reply(&mut state, "oops");
    assert_eq!(state.block_height, 3209987);
}

#[test]
fn lettering_follows_the_layout() {
    let mut state = GiftCardState::new("05/03/2024".to_string());
    state.message = "Happy Birthday".to_string();
    state.contact = "me@example.org".to_string();
    state.sender = "Ann".to_string();
    state.recipient = "Bob".to_string();
    state.amount = "2.5".to_string();
    state.total = "375.00".to_string();
    let lines = lettering(&state);
    assert_eq!(lines.len(), 20);
    let row = |i: usize| (lines[i].x, lines[i].y, lines[i].size, lines[i].text.as_str());
    assert_eq!(row(0), (160, 65, 60, "MONERO GIFT"));
    assert_eq!(row(1), (60, 160, 20, "Congratulations! You have been gifted 2.5 XMR (~375.00)"));
    assert_eq!(row(10), (60, 430, 20, "Message: "));
    assert_eq!(row(11), (60, 460, 20, "- Happy Birthday"));
    assert_eq!(row(12), (60, 490, 20, "Contact:"));
    assert_eq!(row(13), (60, 520, 20, "- me@example.org"));
    assert_eq!(row(14), (740, 30, 30, "WALLET"));
    assert_eq!(row(15), (660, 405, 20, "ADDRESS"));
    assert_eq!(row(16), (800, 440, 20, "Date: 05/03/2024"));
    assert_eq!(row(17), (800, 470, 20, "Height: 3000000"));
    assert_eq!(row(18), (800, 500, 20, "From Ann"));
    assert_eq!(row(19), (800, 530, 20, "To Bob"));
    assert_eq!((SEPARATOR_X, SEPARATOR_TOP, SEPARATOR_BOTTOM), (575, 0, 590));
    assert_eq!((ink().r, ink().g, ink().b, ink().a), (0, 0, 0, 0));
}

#[test]
fn export_name_embeds_the_stamp() {
    assert_eq!(export_name("27-10-2026-09-05"), "gem-wallet-27-10-2026-09-05.jpg");
}

#[test]
fn keys_are_64_hex_digits() {
    assert!(key_shaped(&"0123456789abcdefABCDEF0123456789abcdef0123456789abcdef0123456789"));
    assert!(!key_shaped(&"0123456789abcdef"));
    assert!(!key_shaped(&"g123456789abcdefABCDEF0123456789abcdef0123456789abcdef0123456789"));
    assert!(!key_shaped(""));
}

#[test]
fn a_generated_wallet_has_25_words_and_a_main_address() {
    let wallet = generate().unwrap();
    assert_eq!(wallet.seed_phrase.len(), 25);
    assert_eq!(wallet.address.len(), 95);
    assert!(wallet.address.starts_with('4'));
    assert_ne!(wallet.address, wallet.seed_phrase.join(" "));
    let again = derive_address(&wallet.seed_phrase).unwrap();
    assert_eq!(again, wallet.address);
    let other = generate().unwrap();
    assert_ne!(other.address, wallet.address);
}

#[test]
fn the_documented_wallet_is_derived() {
    let seed = words(&[
        "tissue", "raking", "haunted", "huts", "afraid", "volcano", "howls", "liar", "egotistic",
        "befit", "rounded", "older", "bluntly", "imbalance", "pivot", "exotic", "tuxedo", "amaze",
        "mostly", "lukewarm", "macro", "vocal", "hounded", "biplane", "rounded",
    ]);
    assert_eq!(
        derive_address(&seed),
        Ok("4AQ3jTJg91yNGTXjo9iWr1ekjBGJ5mM6HEsxKqoKddHnRwJTVJYnyLXeerff6iTys5Eo8dyG87tfqZNS5CcSd7U694YiR8J".to_string())
    );
}

#[test]
fn entries_are_cut_at_their_limits() {
    let mut state = GiftCardState::new("27/10/2026".to_string());
    let long = "x".repeat(200);
    state.enter_message(&long);
    state.enter_sender(&long);
    state.enter_recipient(&long);
    state.enter_contact(&long);
    assert_eq!(state.message.len(), 60);
    assert_eq!(state.sender.len(), 15);
    assert_eq!(state.recipient.len(), 18);
    assert_eq!(state.contact.len(), 60);
    state.enter_message("Happy Birthday");
    assert_eq!(state.message, "Happy Birthday");
    state.enter_sender("ÅÄÖåäöÅÄÖåäöÅÄÖåäö");
    assert_eq!(state.sender, "ÅÄÖåäöÅÄÖåäöÅÄÖ");
    assert_eq!(gem::state::clip("abc", 0), "");
    assert_eq!(gem::state::clip("abc", 3), "abc");
}

#[test]
fn lists_are_entered_as_one_text() {
    let mut state = GiftCardState::new("27/10/2026".to_string());
    state.enter_transaction_ids("aa, bb,cc");
    assert_eq!(state.transaction_ids, words(&["aa", " bb", "cc"]));
    state.enter_transaction_ids("");
    assert!(state.transaction_ids.is_empty());
    state.enter_wallet("4abc", "one two");
    assert!(state.address.is_empty());
    assert!(state.seed_phrase.is_empty());
    state.switch_mode();
    state.enter_wallet("4abc", "one two");
    assert_eq!(state.address, "4abc");
    assert_eq!(state.seed_phrase, words(&["one", "two"]));
    assert!(state.main_code.is_none());
    state.enter_transaction_ids("aa, bb");
    assert_eq!(state.encode().0, "monero_wallet:4abc?seed=one%20two&height=3000000&txids=aa,bb");
    state.enter_wallet("4abc", "");
    assert!(state.seed_phrase.is_empty());
    state.enter_figures("2".to_string(), "150.00".to_string(), "300.00".to_string(), "01/01/2027".to_string());
    assert_eq!(state.total, "300.00");
    assert_eq!(state.issue_date, "01/01/2027");
    assert_eq!(state.address, "4abc");
}

#[test]
fn credential_errors_are_told_apart() {
    assert_ne!(CredentialError::HexSeed, CredentialError::PrivateKey);
    assert_ne!(CredentialError::PrivateKey, CredentialError::PublicKey);
}

#[test]
fn generating_into_a_card_follows_its_mode() {
    let mut state = GiftCardState::new("27/10/2026".to_string());
    let refused = gem::credential::generate_into(&mut state);
    assert_eq!(refused, Ok((None, None)));
    assert_eq!(state.seed_phrase.len(), 25);
    assert_eq!(state.address.len(), 95);
    assert_eq!(derive_address(&state.seed_phrase), Ok(state.address.clone()));
    assert!(state.main_code.is_some());
    assert!(state.address_code.is_some());
    state.switch_mode();
    let seed = state.seed_phrase.clone();
    let address = state.address.clone();
    assert_eq!(gem::credential::generate_into(&mut state), Ok((None, None)));
    assert_eq!(state.seed_phrase, seed);
    assert_eq!(state.address, address);
    assert!(state.main_code.is_none());
    assert_eq!(state.mode, Mode::Imported);
}

#[test]
fn the_seed_is_shown_as_one_text() {
    let mut state = GiftCardState::new("27/10/2026".to_string());
    assert_eq!(state.seed_text(), "");
    state.apply_generate(words(&["one", "two", "three"]), "4abc".to_string());
    assert_eq!(state.seed_text(), "one two three");
    state.switch_mode();
    let shown = state.seed_text();
    state.enter_wallet("4abc", &shown);
    assert_eq!(state.seed_phrase, words(&["one", "two", "three"]));
}

#[test]
fn codes_made_anew_have_their_sizes() {
    let mut state = GiftCardState::new("27/10/2026".to_string());
    state.apply_chain_height(None);
    let refused = gem::credential::generate_into(&mut state);
    assert_eq!(refused, Ok((None, None)));
    assert_eq!(state.block_height, 3000000);
    let main = state.main_code.clone().unwrap();
    let addr = state.address_code.clone().unwrap();
    assert_eq!((main.width(), main.height()), (350, 350));
    assert_eq!((addr.width(), addr.height()), (150, 150));
    assert!(main.pixels().iter().all(|p| *p == 0 || *p == 255));
    assert!(addr.pixels().iter().all(|p| *p == 0 || *p == 255));
}
