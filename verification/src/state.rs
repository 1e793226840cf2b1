//! The state of one gift card and the actions that change it.

use vstd::prelude::*;
use vstd::string::*;
use crate::bitmap::{Bitmap, BitmapView};
use crate::parse::{
    carried_whole, encode_then_parse, lacks, nothing_but_spaces, parsed, pieces, pieces_of_unmarked,
    slice, split, strings_of, Redemption,
};
use crate::qr::{synthesize, synthesized, QrError};
use crate::text::{
    chars_of, chars_of_each, each_without_spaces, join, joined, string_of, texts, without_spaces,
};
use crate::uri::{redemption_text, redemption_uri, txids_param};

verus! {

/// Width and height of the redemption code in pixels.
pub const MAIN_CODE_SIZE: u32 = 350;

/// Width and height of the address code in pixels.
pub const ADDRESS_CODE_SIZE: u32 = 150;

/// The safety margin between the chain's tip and the height a card carries.
pub const HEIGHT_MARGIN: u64 = 1000;

/// The longest message a card takes, in characters.
pub const MESSAGE_LIMIT: usize = 60;

/// The longest sender's name a card takes, in characters.
pub const SENDER_LIMIT: usize = 15;

/// The longest recipient's name a card takes, in characters.
pub const RECIPIENT_LIMIT: usize = 18;

/// The longest contact line a card takes, in characters.
pub const CONTACT_LIMIT: usize = 60;

/// The longest list of transaction ids a card takes, in characters.
pub const TXIDS_LIMIT: usize = 120;

/// Where seed and address come from.
#[derive(Clone, Copy, Debug, PartialEq, Eq, Structural)]
pub enum Mode {
    /// Seed and address were generated and are not edited.
    Generated,
    /// Address, and perhaps a seed, were entered by hand.
    Imported,
}

/// Everything a card shows. The amount, its worth and the date are held as
/// the text that is printed.
pub struct GiftCardState {
    pub seed_phrase: Vec<String>,
    pub address: String,
    pub amount: String,
    pub unit_price: String,
    pub total: String,
    pub block_height: u64,
    pub issue_date: String,
    pub message: String,
    pub sender: String,
    pub recipient: String,
    pub contact: String,
    pub transaction_ids: Vec<String>,
    pub mode: Mode,
    pub main_code: Option<Bitmap>,
    pub address_code: Option<Bitmap>,
}

/// The first `limit` characters of `s`, and all of `s` where it has no more.
pub open spec fn clipped(s: Seq<char>, limit: nat) -> Seq<char> {
    if s.len() <= limit {
        s
    } else {
        s.subrange(0, limit as int)
    }
}

/// The items of a list that was entered as one text with `mark` between the
/// items; an empty text is the empty list.
pub open spec fn entered_list(text: Seq<char>, mark: char) -> Seq<Seq<char>> {
    if text.len() == 0 {
        Seq::empty()
    } else {
        pieces(text, mark, 1)
    }
}

/// The first `limit` characters of `text`, and all of it where it has no more.
pub fn clip(text: &str, limit: usize) -> (out: String)
    ensures
        out@ == clipped(text@, limit as nat),
{
    let chars = chars_of(text);
    if chars.len() <= limit {
        string_of(&chars)
    } else {
        string_of(&slice(&chars, 0, limit))
    }
}

/// The items of a list that was entered as one text with `mark` between the
/// items.
pub fn list_of(text: &str, mark: char) -> (out: Vec<String>)
    ensures
        texts(out@) == entered_list(text@, mark),
{
    let chars = chars_of(text);
    if chars.len() == 0 {
        let out: Vec<String> = Vec::new();
        assert(texts(out@) =~= Seq::<Seq<char>>::empty());
        out
    } else {
        strings_of(&split(&chars, mark, 1))
    }
}

/// The other mode.
pub open spec fn other_mode(mode: Mode) -> Mode {
    match mode {
        Mode::Generated => Mode::Imported,
        Mode::Imported => Mode::Generated,
    }
}

/// The state after a switch of the mode: the other mode, no codes, every
/// other entry as before.
pub open spec fn switched(state: GiftCardState) -> GiftCardState {
    GiftCardState { mode: other_mode(state.mode), main_code: None, address_code: None, ..state }
}

/// What a code slot holds, as plain values.
pub open spec fn code_view(code: Option<Bitmap>) -> Option<BitmapView> {
    match code {
        Some(b) => Some(b@),
        None => None,
    }
}

/// A code slot after a synthesis: the new bitmap, or on a refusal what the
/// slot held before.
pub open spec fn slot_after(before: Option<Bitmap>, outcome: Result<BitmapView, QrError>) -> Option<
    BitmapView,
> {
    match outcome {
        Ok(b) => Some(b),
        Err(_) => code_view(before),
    }
}

/// Whether a code slot holds a bitmap of `size` by `size` pixels with one
/// sample for each position.
pub open spec fn slot_sized(code: Option<Bitmap>, size: nat) -> bool {
    code matches Some(b) && b.well_formed() && b@.width == size && b@.height == size
}

/// Whether `after` is `before` with both codes made anew: with an empty
/// address nothing changed and nothing was refused; else each code is the
/// synthesis of its text, the redemption URI at 350 by 350 pixels and the
/// address at 150 by 150, or on a refusal what it was, and `refused` holds
/// the refusals.
pub open spec fn codes_refreshed(
    before: GiftCardState,
    after: GiftCardState,
    refused: (Option<QrError>, Option<QrError>),
) -> bool {
    let main = synthesized(before.uri_text(), MAIN_CODE_SIZE as nat, MAIN_CODE_SIZE as nat);
    let addr = synthesized(before.address@, ADDRESS_CODE_SIZE as nat, ADDRESS_CODE_SIZE as nat);
    &&& after.same_entries(&before)
    &&& before.address@.len() == 0 ==> after == before && refused == (
        None::<QrError>,
        None::<QrError>,
    )
    &&& before.address@.len() > 0 ==> {
        &&& code_view(after.main_code) == slot_after(before.main_code, main)
        &&& code_view(after.address_code) == slot_after(before.address_code, addr)
        &&& main is Ok ==> slot_sized(after.main_code, MAIN_CODE_SIZE as nat)
        &&& addr is Ok ==> slot_sized(after.address_code, ADDRESS_CODE_SIZE as nat)
        &&& refused.0 == main.err()
        &&& refused.1 == addr.err()
    }
}

/// Whether `after` is `before` with a generated wallet taken in: in imported
/// mode nothing changed; in generated mode seed and address are the
/// wallet's and both codes were made anew from them.
pub open spec fn wallet_taken(
    before: GiftCardState,
    seed_phrase: Vec<String>,
    address: String,
    after: GiftCardState,
    refused: (Option<QrError>, Option<QrError>),
) -> bool {
    match before.mode {
        Mode::Imported => after == before && refused == (None::<QrError>, None::<QrError>),
        Mode::Generated => codes_refreshed(
            GiftCardState { seed_phrase, address, ..before },
            after,
            refused,
        ),
    }
}

/// Whether a code slot is empty or holds a bitmap with one sample for each
/// position.
pub open spec fn slot_well_formed(code: Option<Bitmap>) -> bool {
    match code {
        Some(b) => b.well_formed(),
        None => true,
    }
}

/// The height a card carries for a chain whose tip is at `remote`: a thousand
/// blocks below it, and the height held so far where the chain is shorter.
pub open spec fn margin_height(held: u64, remote: u64) -> u64 {
    if remote >= HEIGHT_MARGIN {
        (remote - HEIGHT_MARGIN) as u64
    } else {
        held
    }
}

impl GiftCardState {
    /// The transaction ids that the card's URI carries: those of the card in
    /// imported mode, none in generated mode.
    pub open spec fn carried_ids(&self) -> Seq<Seq<char>> {
        match self.mode {
            Mode::Imported => texts(self.transaction_ids@),
            Mode::Generated => Seq::empty(),
        }
    }

    /// The redemption URI of this card.
    pub open spec fn uri_text(&self) -> Seq<char> {
        redemption_text(
            self.address@,
            texts(self.seed_phrase@),
            self.block_height as nat,
            self.carried_ids(),
        )
    }

    /// The codes are empty or well formed.
    pub open spec fn well_formed(&self) -> bool {
        slot_well_formed(self.main_code) && slot_well_formed(self.address_code)
    }

    /// `self` and `other` agree in everything but the two codes.
    pub open spec fn same_entries(&self, other: &GiftCardState) -> bool {
        &&& self.seed_phrase == other.seed_phrase
        &&& self.address == other.address
        &&& self.amount == other.amount
        &&& self.unit_price == other.unit_price
        &&& self.total == other.total
        &&& self.block_height == other.block_height
        &&& self.issue_date == other.issue_date
        &&& self.message == other.message
        &&& self.sender == other.sender
        &&& self.recipient == other.recipient
        &&& self.contact == other.contact
        &&& self.transaction_ids == other.transaction_ids
        &&& self.mode == other.mode
    }

    /// Whether the codes are empty or well formed.
    pub fn check(&self) -> (ok: bool)
        ensures
            ok == self.well_formed(),
    {
        let main = match &self.main_code {
            Some(b) => b.check(),
            None => true,
        };
        let addr = match &self.address_code {
            Some(b) => b.check(),
            None => true,
        };
        main && addr
    }

    /// The state at the start of a session: generated mode, one coin, height
    /// three million, no wallet and no codes yet.
    pub fn new(issue_date: String) -> (out: GiftCardState)
        ensures
            out.mode == Mode::Generated,
            out.seed_phrase@.len() == 0,
            out.address@.len() == 0,
            out.amount@ == "1"@,
            out.unit_price@ == "150.00"@,
            out.total@ == "150.00"@,
            out.block_height == 3000000,
            out.issue_date == issue_date,
            out.message@.len() == 0,
            out.sender@.len() == 0,
            out.recipient@.len() == 0,
            out.contact@.len() == 0,
            out.transaction_ids@.len() == 0,
            out.main_code is None,
            out.address_code is None,
            out.well_formed(),
    {
        GiftCardState {
            seed_phrase: Vec::new(),
            address: String::new(),
            amount: String::from_str("1"),
            unit_price: String::from_str("150.00"),
            total: String::from_str("150.00"),
            block_height: 3000000,
            issue_date,
            message: String::new(),
            sender: String::new(),
            recipient: String::new(),
            contact: String::new(),
            transaction_ids: Vec::new(),
            mode: Mode::Generated,
            main_code: None,
            address_code: None,
        }
    }

    /// Enters the gift note, cut to its limit. Nothing else changes.
    pub fn enter_message(&mut self, text: &str)
        ensures
            final(self).message@ == clipped(text@, MESSAGE_LIMIT as nat),
            *final(self) == (GiftCardState { message: final(self).message, ..*old(self) }),
    {
        self.message = clip(text, MESSAGE_LIMIT);
    }

    /// Enters the sender's name, cut to its limit. Nothing else changes.
    pub fn enter_sender(&mut self, text: &str)
        ensures
            final(self).sender@ == clipped(text@, SENDER_LIMIT as nat),
            *final(self) == (GiftCardState { sender: final(self).sender, ..*old(self) }),
    {
        self.sender = clip(text, SENDER_LIMIT);
    }

    /// Enters the recipient's name, cut to its limit. Nothing else changes.
    pub fn enter_recipient(&mut self, text: &str)
        ensures
            final(self).recipient@ == clipped(text@, RECIPIENT_LIMIT as nat),
            *final(self) == (GiftCardState { recipient: final(self).recipient, ..*old(self) }),
    {
        self.recipient = clip(text, RECIPIENT_LIMIT);
    }

    /// Enters the contact line, cut to its limit. Nothing else changes.
    pub fn enter_contact(&mut self, text: &str)
        ensures
            final(self).contact@ == clipped(text@, CONTACT_LIMIT as nat),
            *final(self) == (GiftCardState { contact: final(self).contact, ..*old(self) }),
    {
        self.contact = clip(text, CONTACT_LIMIT);
    }

    /// Enters the transaction ids, written with commas between them and cut
    /// to the limit of the whole text. Nothing else changes.
    pub fn enter_transaction_ids(&mut self, text: &str)
        ensures
            texts(final(self).transaction_ids@) == entered_list(
                clipped(text@, TXIDS_LIMIT as nat),
                ',',
            ),
            *final(self) == (GiftCardState {
                transaction_ids: final(self).transaction_ids,
                ..*old(self)
            }),
    {
        let cut = clip(text, TXIDS_LIMIT);
        self.transaction_ids = list_of(cut.as_str(), ',');
    }

    /// Enters a wallet by hand: the address, and the seed words written with
    /// single spaces between them. It is for imported mode; in generated mode
    /// nothing changes. The codes stay as they are until they are made anew.
    pub fn enter_wallet(&mut self, address: &str, seed_text: &str)
        ensures
            old(self).mode == Mode::Generated ==> *final(self) == *old(self),
            old(self).mode == Mode::Imported ==> {
                &&& final(self).address@ == address@
                &&& texts(final(self).seed_phrase@) == entered_list(seed_text@, ' ')
                &&& *final(self) == (GiftCardState {
                    address: final(self).address,
                    seed_phrase: final(self).seed_phrase,
                    ..*old(self)
                })
            },
    {
        match self.mode {
            Mode::Generated => {},
            Mode::Imported => {
                self.address = String::from_str(address);
                self.seed_phrase = list_of(seed_text, ' ');
            },
        }
    }

    /// Takes the printed amount, unit price and total worth, and the printed
    /// date, into the card. Nothing else changes.
    pub fn enter_figures(&mut self, amount: String, unit_price: String, total: String, issue_date: String)
        ensures
            *final(self) == (GiftCardState { amount, unit_price, total, issue_date, ..*old(self) }),
    {
        self.amount = amount;
        self.unit_price = unit_price;
        self.total = total;
        self.issue_date = issue_date;
    }

    /// The seed as one text, as a form shows it: the words with single spaces
    /// between them.
    pub fn seed_text(&self) -> (out: String)
        ensures
            out@ == joined(texts(self.seed_phrase@), " "@),
    {
        let words = chars_of_each(&self.seed_phrase);
        string_of(&join(&words, " "))
    }

    /// The redemption URI and the bare address, the texts of the two codes.
    /// The URI carries the transaction ids in imported mode only.
    pub fn encode(&self) -> (out: (String, String))
        ensures
            out.0@ == self.uri_text(),
            out.1@ == self.address@,
    {
        let uri = match self.mode {
            Mode::Imported => redemption_uri(
                self.address.as_str(),
                &self.seed_phrase,
                self.block_height,
                &self.transaction_ids,
            ),
            Mode::Generated => {
                let none: Vec<String> = Vec::new();
                assert(texts(none@) =~= Seq::<Seq<char>>::empty());
                redemption_uri(self.address.as_str(), &self.seed_phrase, self.block_height, &none)
            },
        };
        (uri, self.address.clone())
    }

    /// Switches between generated and imported mode. Both codes are dropped
    /// until they are made anew; everything else stays.
    pub fn switch_mode(&mut self)
        ensures
            *final(self) == switched(*old(self)),
            final(self).well_formed(),
    {
        self.mode = match self.mode {
            Mode::Generated => Mode::Imported,
            Mode::Imported => Mode::Generated,
        };
        self.main_code = None;
        self.address_code = None;
    }

    /// Makes both codes anew from the entries as they stand. With an empty
    /// address nothing changes. A code whose text the encoder refuses keeps
    /// what it held; the refusals are handed back, the redemption code's first.
    pub fn apply_update_qr(&mut self) -> (refused: (Option<QrError>, Option<QrError>))
        requires
            old(self).well_formed(),
        ensures
            final(self).well_formed(),
            codes_refreshed(*old(self), *final(self), refused),
    {
        if self.address.as_str().unicode_len() == 0 {
            return (None, None);
        }
        let (uri, bare) = self.encode();
        let mut first: Option<QrError> = None;
        let mut second: Option<QrError> = None;
        match synthesize(uri.as_str(), (MAIN_CODE_SIZE, MAIN_CODE_SIZE)) {
            Ok(b) => {
                self.main_code = Some(b);
            },
            Err(e) => {
                first = Some(e);
            },
        }
        match synthesize(bare.as_str(), (ADDRESS_CODE_SIZE, ADDRESS_CODE_SIZE)) {
            Ok(b) => {
                self.address_code = Some(b);
            },
            Err(e) => {
                second = Some(e);
            },
        }
        (first, second)
    }

    /// Takes a generated wallet into the card and makes both codes anew. It
    /// is for generated mode; in imported mode nothing changes.
    pub fn apply_generate(&mut self, seed_phrase: Vec<String>, address: String) -> (refused: (
        Option<QrError>,
        Option<QrError>,
    ))
        requires
            old(self).well_formed(),
        ensures
            final(self).well_formed(),
            wallet_taken(*old(self), seed_phrase, address, *final(self), refused),
    {
        match self.mode {
            Mode::Imported => (None, None),
            Mode::Generated => {
                self.seed_phrase = seed_phrase;
                self.address = address;
                self.apply_update_qr()
            },
        }
    }

    /// Takes the height of the chain's tip, where one was obtained, into the
    /// card: a thousand blocks below the tip. Without one, or with a chain
    /// shorter than the margin, the height stays.
    pub fn apply_chain_height(&mut self, remote: Option<u64>)
        ensures
            *final(self) == (GiftCardState {
                block_height: match remote {
                    Some(h) => margin_height(old(self).block_height, h),
                    None => old(self).block_height,
                },
                ..*old(self)
            }),
    {
        match remote {
            Some(h) => {
                if h >= HEIGHT_MARGIN {
                    self.block_height = h - HEIGHT_MARGIN;
                }
            },
            None => {},
        }
    }
}

/// Switching the mode and switching it back leaves every entry as it was,
/// seed and address among them, and leaves both code slots empty: the codes
/// come back only when they are made anew.
pub proof fn switch_twice_keeps_entries(start: GiftCardState)
    ensures
        switched(switched(start)).same_entries(&start),
        switched(switched(start)).address == start.address,
        switched(switched(start)).seed_phrase == start.seed_phrase,
        switched(switched(start)).main_code is None,
        switched(switched(start)).address_code is None,
{
}

/// A text of transaction ids that is nothing but spaces gives no transaction
/// parameter: entered, its ids leave an empty value, and the parameter is
/// left out.
pub proof fn blank_ids_give_no_parameter(text: Seq<char>)
    requires
        without_spaces(text).len() == 0,
    ensures
        txids_param(entered_list(clipped(text, TXIDS_LIMIT as nat), ',')) == Seq::<
            Seq<char>,
        >::empty(),
{
    let cut = clipped(text, TXIDS_LIMIT as nat);
    let ids = entered_list(cut, ',');
    nothing_but_spaces(text);
    assert forall|i: int| 0 <= i < cut.len() implies cut[i] == ' ' by {
        assert(cut[i] == text[i]);
    }
    nothing_but_spaces(cut);
    if cut.len() > 0 {
        assert(lacks(cut, ','));
        pieces_of_unmarked(cut, ',', 1);
        assert(each_without_spaces(ids) =~= seq![without_spaces(cut)]);
    } else {
        assert(each_without_spaces(ids) =~= Seq::<Seq<char>>::empty());
    }
    assert(txids_param(ids) =~= Seq::<Seq<char>>::empty());
}

/// In generated mode the URI of a card is the scheme, the address, the seed
/// and the height, without transaction ids whatever the card holds, and
/// reading it gives address, seed words and height back, for an address and
/// words that a URI carries whole.
pub proof fn generated_uri_reads_back(state: GiftCardState)
    requires
        state.mode == Mode::Generated,
        carried_whole(state.address@, texts(state.seed_phrase@), Seq::empty()),
    ensures
        state.uri_text() == redemption_text(
            state.address@,
            texts(state.seed_phrase@),
            state.block_height as nat,
            Seq::empty(),
        ),
        parsed(state.uri_text()) == Some(
            Redemption {
                address: state.address@,
                seed: texts(state.seed_phrase@),
                height: state.block_height as nat,
                txids: Seq::empty(),
            },
        ),
{
    encode_then_parse(state.address@, texts(state.seed_phrase@), state.block_height, Seq::empty());
}

} // verus!
