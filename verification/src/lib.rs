//! Gift cards for a Monero wallet: the redemption URI, the two QR bitmaps and
//! the layout of the card, with the contracts of each stated over sequences of
//! characters and of bytes.

pub mod bitmap;
pub mod compose;
pub mod credential;
pub mod layout;
pub mod market;
pub mod parse;
pub mod qr;
pub mod state;
pub mod text;
pub mod uri;
