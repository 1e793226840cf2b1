//! A fresh wallet: seed words from the key derivation library, and the
//! address derived from them step by step, each key checked for its shape
//! before it is handed on.

use vstd::prelude::*;
use crate::qr::QrError;
use crate::state::{wallet_taken, GiftCardState, Mode};
use crate::text::{chars_of, texts};

verus! {

/// The derivation step that handed back something the next step cannot take.
#[derive(Clone, Copy, Debug, PartialEq, Eq, Structural)]
pub enum CredentialError {
    /// The seed words gave no 64-digit hexadecimal seed.
    HexSeed,
    /// A private key is not 64 hexadecimal digits.
    PrivateKey,
    /// A public key is not 64 hexadecimal digits.
    PublicKey,
}

/// A seed phrase with the address derived from it.
pub struct Wallet {
    pub seed_phrase: Vec<String>,
    pub address: String,
}

/// What `derive_hex_seed` gives for seed words; none for words it refuses.
pub uninterp spec fn hex_seed_text(words: Seq<Seq<char>>) -> Option<Seq<char>>;

/// What `derive_priv_keys` gives for a hexadecimal seed: the private spend key
/// and the private view key.
pub uninterp spec fn private_key_texts(hex_seed: Seq<char>) -> (Seq<char>, Seq<char>);

/// What `derive_pub_key` gives for a private key.
pub uninterp spec fn public_key_text(private_key: Seq<char>) -> Seq<char>;

/// What `derive_address` gives on the main network for the two public keys.
pub uninterp spec fn address_text(spend: Seq<char>, view: Seq<char>) -> Seq<char>;

/// A hexadecimal digit of either case.
pub open spec fn is_hex_digit(c: char) -> bool {
    ('0' <= c && c <= '9') || ('a' <= c && c <= 'f') || ('A' <= c && c <= 'F')
}

/// The shape of a key: 64 hexadecimal digits.
pub open spec fn is_key(s: Seq<char>) -> bool {
    s.len() == 64 && forall|i: int| 0 <= i < s.len() ==> is_hex_digit(#[trigger] s[i])
}

/// The address that the derivation reaches from seed words which the first
/// step takes, or the step after which it stops.
pub open spec fn derived_address(words: Seq<Seq<char>>) -> Result<Seq<char>, CredentialError>
    recommends
        hex_seed_text(words) is Some,
{
    let hex = hex_seed_text(words)->0;
    let keys = private_key_texts(hex);
    let spend = public_key_text(keys.0);
    let view = public_key_text(keys.1);
    if !is_key(hex) {
        Err(CredentialError::HexSeed)
    } else if !is_key(keys.0) || !is_key(keys.1) {
        Err(CredentialError::PrivateKey)
    } else if !is_key(spend) || !is_key(view) {
        Err(CredentialError::PublicKey)
    } else {
        Ok(address_text(spend, view))
    }
}

/// The view of a derivation's outcome.
pub open spec fn outcome_text(r: Result<String, CredentialError>) -> Result<
    Seq<char>,
    CredentialError,
> {
    match r {
        Ok(a) => Ok(a@),
        Err(e) => Err(e),
    }
}

/// `libmonero::keys::generate_seed` for English words of the original kind:
/// 24 words drawn at random from the word list and a checksum word, so 25
/// words which `derive_hex_seed` takes.
#[verifier::external_body]
fn fresh_seed() -> (words: Vec<String>)
    ensures
        words@.len() == 25,
        hex_seed_text(texts(words@)) is Some,
{
    libmonero::keys::generate_seed("en", "original")
}

/// `libmonero::keys::derive_hex_seed`, which stops the program on words that
/// are in none of its word lists: those are left out.
#[verifier::external_body]
fn hex_seed_of(words: &Vec<String>) -> (hex: String)
    requires
        hex_seed_text(texts(words@)) is Some,
    ensures
        hex_seed_text(texts(words@)) == Some(hex@),
{
    libmonero::keys::derive_hex_seed(words.clone())
}

/// `libmonero::keys::derive_priv_keys` on a seed of 64 hexadecimal digits: the
/// private spend key, then the private view key.
#[verifier::external_body]
fn private_keys_of(hex_seed: String) -> (keys: (String, String))
    requires
        is_key(hex_seed@),
    ensures
        (keys.0@, keys.1@) == private_key_texts(hex_seed@),
{
    let mut keys = libmonero::keys::derive_priv_keys(hex_seed);
    let view = keys.pop().unwrap();
    let spend = keys.pop().unwrap();
    (spend, view)
}

/// `libmonero::keys::derive_pub_key` on a private key of 64 hexadecimal
/// digits.
#[verifier::external_body]
fn public_key_of(private_key: String) -> (key: String)
    requires
        is_key(private_key@),
    ensures
        key@ == public_key_text(private_key@),
{
    libmonero::keys::derive_pub_key(private_key)
}

/// `libmonero::keys::derive_address` on the main network, for two public keys
/// of 64 hexadecimal digits each.
#[verifier::external_body]
fn address_of(spend: String, view: String) -> (address: String)
    requires
        is_key(spend@),
        is_key(view@),
    ensures
        address@ == address_text(spend@, view@),
{
    libmonero::keys::derive_address(spend, view, 0)
}

/// Whether `s` is 64 hexadecimal digits.
pub fn key_shaped(s: &str) -> (ok: bool)
    ensures
        ok == is_key(s@),
{
    let chars = chars_of(s);
    if chars.len() != 64 {
        return false;
    }
    let mut i: usize = 0;
    while i < chars.len()
        invariant
            i <= chars.len(),
            chars@ == s@,
            chars.len() == 64,
            forall|k: int| 0 <= k < i ==> is_hex_digit(#[trigger] s@[k]),
        decreases chars.len() - i,
    {
        let c = chars[i];
        let hex = ('0' <= c && c <= '9') || ('a' <= c && c <= 'f') || ('A' <= c && c <= 'F');
        if !hex {
            assert(!is_hex_digit(s@[i as int]));
            return false;
        }
        i += 1;
    }
    true
}

/// Derives the address of a seed: the hexadecimal seed, the two private keys,
/// their public keys, the address. A step whose result is not shaped as the
/// next step needs ends the derivation with that step's error.
pub fn derive_address(words: &Vec<String>) -> (r: Result<String, CredentialError>)
    requires
        hex_seed_text(texts(words@)) is Some,
    ensures
        outcome_text(r) == derived_address(texts(words@)),
{
    let hex = hex_seed_of(words);
    if !key_shaped(hex.as_str()) {
        return Err(CredentialError::HexSeed);
    }
    let (private_spend, private_view) = private_keys_of(hex);
    if !key_shaped(private_spend.as_str()) || !key_shaped(private_view.as_str()) {
        return Err(CredentialError::PrivateKey);
    }
    let spend = public_key_of(private_spend);
    let view = public_key_of(private_view);
    if !key_shaped(spend.as_str()) || !key_shaped(view.as_str()) {
        return Err(CredentialError::PublicKey);
    }
    Ok(address_of(spend, view))
}

/// Makes a new wallet: 25 fresh seed words and the address derived from them.
/// Whatever words were drawn, the outcome is that of the derivation on them:
/// an error is the error of the derivation on 25 words that the first step
/// takes.
pub fn generate() -> (r: Result<Wallet, CredentialError>)
    ensures
        r matches Ok(w) ==> w.seed_phrase@.len() == 25 && derived_address(texts(w.seed_phrase@))
            == Ok::<Seq<char>, CredentialError>(w.address@),
        r matches Err(e) ==> exists|words: Seq<Seq<char>>|
            words.len() == 25 && hex_seed_text(words) is Some && #[trigger] derived_address(words)
                == Err::<
                Seq<char>,
                CredentialError,
            >(e),
{
    let seed_phrase = fresh_seed();
    match derive_address(&seed_phrase) {
        Ok(address) => Ok(Wallet { seed_phrase, address }),
        Err(e) => {
            assert(texts(seed_phrase@).len() == 25);
            Err(e)
        },
    }
}

/// Takes the outcome of a generation into the card. A failed generation
/// leaves the card as it is and hands the error on; a wallet is taken in and
/// both codes are made anew.
pub fn install(state: &mut GiftCardState, outcome: Result<Wallet, CredentialError>) -> (r: Result<
    (Option<QrError>, Option<QrError>),
    CredentialError,
>)
    requires
        old(state).well_formed(),
    ensures
        final(state).well_formed(),
        outcome matches Err(e) ==> r == Err::<(Option<QrError>, Option<QrError>), CredentialError>(e)
            && *final(state) == *old(state),
        outcome matches Ok(w) ==> r matches Ok(refused) && wallet_taken(
            *old(state),
            w.seed_phrase,
            w.address,
            *final(state),
            refused,
        ),
{
    match outcome {
        Ok(w) => Ok(state.apply_generate(w.seed_phrase, w.address)),
        Err(e) => Err(e),
    }
}

/// Generates a new wallet and takes it into the card. In imported mode no
/// wallet is generated: the card stays as it is and nothing is refused. In
/// generated mode a failure is that of the derivation on the 25 words that
/// were drawn, and leaves the card as it is; on success the card holds 25
/// seed words and the address derived from them, and both codes were made
/// anew.
pub fn generate_into(state: &mut GiftCardState) -> (r: Result<
    (Option<QrError>, Option<QrError>),
    CredentialError,
>)
    requires
        old(state).well_formed(),
    ensures
        final(state).well_formed(),
        old(state).mode == Mode::Imported ==> *final(state) == *old(state) && r == Ok::<
            (Option<QrError>, Option<QrError>),
            CredentialError,
        >((None, None)),
        r matches Err(e) ==> *final(state) == *old(state) && exists|words: Seq<Seq<char>>|
            words.len() == 25 && hex_seed_text(words) is Some && #[trigger] derived_address(words)
                == Err::<
                Seq<char>,
                CredentialError,
            >(e),
        r matches Ok(refused) ==> wallet_taken(
            *old(state),
            final(state).seed_phrase,
            final(state).address,
            *final(state),
            refused,
        ),
        r is Ok && old(state).mode == Mode::Generated ==> final(state).seed_phrase@.len() == 25
            && derived_address(texts(final(state).seed_phrase@)) == Ok::<
            Seq<char>,
            CredentialError,
        >(final(state).address@),
{
    match state.mode {
        Mode::Imported => Ok((None, None)),
        Mode::Generated => {
            let outcome = generate();
            install(state, outcome)
        },
    }
}

} // verus!
