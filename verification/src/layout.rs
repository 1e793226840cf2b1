//! The lettering of a card: each text with the place and the size at which
//! it is drawn, the separator between the two halves, and the name under
//! which a card is saved.

use vstd::prelude::*;
use vstd::string::*;
use crate::bitmap::Rgba;
use crate::state::GiftCardState;
use crate::text::{decimal, decimal_chars, string_of};

verus! {

/// Column of the separator between the text half and the wallet half.
pub const SEPARATOR_X: u32 = 575;

/// First row of the separator.
pub const SEPARATOR_TOP: u32 = 0;

/// Last row of the separator.
pub const SEPARATOR_BOTTOM: u32 = 590;

/// One text of the card: the left and top edge in pixels, the point size and
/// the characters.
pub struct TextDraw {
    pub x: i32,
    pub y: i32,
    pub size: u32,
    pub text: String,
}

/// A text of the card as plain values.
pub ghost struct Line {
    pub x: int,
    pub y: int,
    pub size: nat,
    pub text: Seq<char>,
}

/// The line with these values.
pub open spec fn line(x: int, y: int, size: nat, text: Seq<char>) -> Line {
    Line { x, y, size, text }
}

/// What a list of texts holds.
pub open spec fn lines(items: Seq<TextDraw>) -> Seq<Line> {
    Seq::new(items.len(), |i: int| line(items[i].x as int, items[i].y as int, items[i].size as nat, items[i].text@))
}

/// The lettering of a card, in the order in which it is drawn.
pub open spec fn lettering_of(state: &GiftCardState) -> Seq<Line> {
    seq![
        line(160, 65, 60, "MONERO GIFT"@),
        line(
            60,
            160,
            20,
            "Congratulations! You have been gifted "@ + state.amount@ + " XMR (~"@ + state.total@
                + ")"@,
        ),
        line(60, 190, 20, "You can redeem this gift at any time into a Monero wallet."@),
        line(60, 220, 20, "For example, you can use the instructions below for"@),
        line(60, 250, 20, "redeeming this gift into the Cake Wallet app:"@),
        line(60, 280, 20, "1 - Install and open the Cake Wallet app on your phone."@),
        line(60, 310, 20, "2 - Tap the 'Restore Wallet' button."@),
        line(60, 340, 20, "3 - Tap the 'Scan QR Code' button."@),
        line(60, 370, 20, "4 - Scan the big QR code on the side."@),
        line(60, 400, 20, "After importing, you can use the XMR in the wallet as you wish."@),
        line(60, 430, 20, "Message: "@),
        line(60, 460, 20, "- "@ + state.message@),
        line(60, 490, 20, "Contact:"@),
        line(60, 520, 20, "- "@ + state.contact@),
        line(740, 30, 30, "WALLET"@),
        line(660, 405, 20, "ADDRESS"@),
        line(800, 440, 20, "Date: "@ + state.issue_date@),
        line(800, 470, 20, "Height: "@ + decimal(state.block_height as nat)),
        line(800, 500, 20, "From "@ + state.sender@),
        line(800, 530, 20, "To "@ + state.recipient@),
    ]
}

/// The colour of glyphs and separator: black without opacity, so that glyphs
/// blend into the artwork below them.
pub fn ink() -> (c: Rgba)
    ensures
        c == (Rgba { r: 0, g: 0, b: 0, a: 0 }),
{
    Rgba { r: 0, g: 0, b: 0, a: 0 }
}

fn fixed(x: i32, y: i32, size: u32, text: &str) -> (t: TextDraw)
    ensures
        t.x == x,
        t.y == y,
        t.size == size,
        t.text@ == text@,
{
    TextDraw { x, y, size, text: String::from_str(text) }
}

fn labelled(x: i32, y: i32, size: u32, label: &str, value: &str) -> (t: TextDraw)
    ensures
        t.x == x,
        t.y == y,
        t.size == size,
        t.text@ == label@ + value@,
{
    let mut text = String::from_str(label);
    text.append(value);
    TextDraw { x, y, size, text }
}

/// The lettering of a card, in the order in which it is drawn.
pub fn lettering(state: &GiftCardState) -> (out: Vec<TextDraw>)
    ensures
        lines(out@) == lettering_of(state),
{
    let mut gifted = String::from_str("Congratulations! You have been gifted ");
    gifted.append(state.amount.as_str());
    gifted.append(" XMR (~");
    gifted.append(state.total.as_str());
    gifted.append(")");
    let height = string_of(&decimal_chars(state.block_height));
    let mut out: Vec<TextDraw> = Vec::new();
    out.push(fixed(160, 65, 60, "MONERO GIFT"));
    out.push(fixed(60, 160, 20, gifted.as_str()));
    out.push(fixed(60, 190, 20, "You can redeem this gift at any time into a Monero wallet."));
    out.push(fixed(60, 220, 20, "For example, you can use the instructions below for"));
    out.push(fixed(60, 250, 20, "redeeming this gift into the Cake Wallet app:"));
    out.push(fixed(60, 280, 20, "1 - Install and open the Cake Wallet app on your phone."));
    out.push(fixed(60, 310, 20, "2 - Tap the 'Restore Wallet' button."));
    out.push(fixed(60, 340, 20, "3 - Tap the 'Scan QR Code' button."));
    out.push(fixed(60, 370, 20, "4 - Scan the big QR code on the side."));
    out.push(fixed(60, 400, 20, "After importing, you can use the XMR in the wallet as you wish."));
    out.push(fixed(60, 430, 20, "Message: "));
    out.push(labelled(60, 460, 20, "- ", state.message.as_str()));
    out.push(fixed(60, 490, 20, "Contact:"));
    out.push(labelled(60, 520, 20, "- ", state.contact.as_str()));
    out.push(fixed(740, 30, 30, "WALLET"));
    out.push(fixed(660, 405, 20, "ADDRESS"));
    out.push(labelled(800, 440, 20, "Date: ", state.issue_date.as_str()));
    out.push(labelled(800, 470, 20, "Height: ", height.as_str()));
    out.push(labelled(800, 500, 20, "From ", state.sender.as_str()));
    out.push(labelled(800, 530, 20, "To ", state.recipient.as_str()));
    assert(lines(out@) =~= lettering_of(state));
    out
}

/// The name under which a card is saved, for a time stamp of the form
/// day-month-year-hour-minute.
pub fn export_name(stamp: &str) -> (name: String)
    ensures
        name@ == "gem-wallet-"@ + stamp@ + ".jpg"@,
{
    let mut name = String::from_str("gem-wallet-");
    name.append(stamp);
    name.append(".jpg");
    name
}

} // verus!
