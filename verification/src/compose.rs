//! The card: which texts stand where, and how the two QR bitmaps are laid
//! over the canvas.

use vstd::prelude::*;
use vstd::arithmetic::div_mod::{lemma_fundamental_div_mod, lemma_fundamental_div_mod_converse};
use crate::bitmap::{offset, offset_in_range, Bitmap, BitmapView, Canvas, CanvasView, Rgba};
use crate::bitmap::packed;
use crate::state::{code_view, GiftCardState};

verus! {

/// Left edge of the redemption code on the card.
pub const MAIN_CODE_X: u32 = 615;

/// Top edge of the redemption code on the card.
pub const MAIN_CODE_Y: u32 = 55;

/// Left edge of the address code on the card.
pub const ADDRESS_CODE_X: u32 = 620;

/// Top edge of the address code on the card.
pub const ADDRESS_CODE_Y: u32 = 425;

/// The opaque gray pixel of a luminance sample.
pub open spec fn gray(sample: u8) -> Rgba {
    Rgba { r: sample, g: sample, b: sample, a: 255 }
}

/// Whether a code of `code`'s size with its top left corner at (`left`, `top`)
/// covers the position (`x`, `y`).
pub open spec fn covers(code: BitmapView, left: nat, top: nat, x: int, y: int) -> bool {
    left <= x < left + code.width && top <= y < top + code.height
}

/// The pixel at offset `i` of a canvas after `code` was laid over it.
pub open spec fn placed_pixel(canvas: CanvasView, code: BitmapView, left: nat, top: nat, i: int) -> Rgba {
    let x = i % (canvas.width as int);
    let y = i / (canvas.width as int);
    if covers(code, left, top, x, y) {
        gray(code.pixels[(y - top) * code.width + (x - left)])
    } else {
        canvas.pixels[i]
    }
}

/// The canvas after `code` was laid over it with its top left corner at
/// (`left`, `top`): every covered pixel is the opaque gray of the code's
/// sample, every other pixel is as before.
pub open spec fn placed(canvas: CanvasView, code: BitmapView, left: nat, top: nat) -> CanvasView {
    CanvasView {
        width: canvas.width,
        height: canvas.height,
        pixels: Seq::new(canvas.pixels.len(), |i: int| placed_pixel(canvas, code, left, top, i)),
    }
}

/// The pixel at offset `i` while the code is being laid: the rows above `row`
/// and, in row `row`, the columns before `col` are done.
pub open spec fn partly_placed_pixel(
    canvas: CanvasView,
    code: BitmapView,
    left: nat,
    top: nat,
    row: nat,
    col: nat,
    i: int,
) -> Rgba {
    let x = i % (canvas.width as int);
    let y = i / (canvas.width as int);
    if covers(code, left, top, x, y) && (y - top < row || (y - top == row && x - left < col)) {
        gray(code.pixels[(y - top) * code.width + (x - left)])
    } else {
        canvas.pixels[i]
    }
}

/// Lays `code` over `canvas` with its top left corner at (`left`, `top`).
pub fn place(canvas: Canvas, code: &Bitmap, left: u32, top: u32) -> (out: Canvas)
    requires
        canvas.well_formed(),
        code.well_formed(),
        left + code@.width <= canvas@.width,
        top + code@.height <= canvas@.height,
    ensures
        out@ == placed(canvas@, code@, left as nat, top as nat),
        out.well_formed(),
{
    let ghost before = canvas@;
    let ghost cv = code@;
    let mut out = canvas;
    let cw = code.width();
    let ch = code.height();
    let w = out.width();
    let h = out.height();
    let mut row: u32 = 0;
    while row < ch
        invariant
            before.well_formed(),
            cv == code@,
            code.well_formed(),
            cw == cv.width,
            ch == cv.height,
            w == before.width,
            h == before.height,
            left + cv.width <= before.width,
            top + cv.height <= before.height,
            row <= ch,
            out.well_formed(),
            out@.width == before.width,
            out@.height == before.height,
            forall|i: int|
                0 <= i < before.pixels.len() ==> out@.pixels[i] == partly_placed_pixel(
                    before,
                    cv,
                    left as nat,
                    top as nat,
                    row as nat,
                    0,
                    i,
                ),
        decreases ch - row,
    {
        let mut col: u32 = 0;
        while col < cw
            invariant
                before.well_formed(),
                cv == code@,
                code.well_formed(),
                cw == cv.width,
                ch == cv.height,
                w == before.width,
                h == before.height,
                left + cv.width <= before.width,
                top + cv.height <= before.height,
                row < ch,
                col <= cw,
                out.well_formed(),
                out@.width == before.width,
                out@.height == before.height,
                forall|i: int|
                    0 <= i < before.pixels.len() ==> out@.pixels[i] == partly_placed_pixel(
                        before,
                        cv,
                        left as nat,
                        top as nat,
                        row as nat,
                        col as nat,
                        i,
                    ),
            decreases cw - col,
        {
            let sample = code.get(col, row);
            let x = left + col;
            let y = top + row;
            proof {
                offset_in_range(before.width, before.height, x as nat, y as nat);
                offset_in_range(cv.width, cv.height, col as nat, row as nat);
            }
            let ghost prev = out@;
            out.put(x, y, Rgba { r: sample, g: sample, b: sample, a: 255 });
            proof {
                let wi = before.width as int;
                let at = offset(before.width, x as nat, y as nat);
                lemma_fundamental_div_mod_converse(at as int, wi, y as int, x as int);
                assert forall|i: int| 0 <= i < before.pixels.len() implies out@.pixels[i]
                    == partly_placed_pixel(
                    before,
                    cv,
                    left as nat,
                    top as nat,
                    row as nat,
                    (col + 1) as nat,
                    i,
                ) by {
                    lemma_fundamental_div_mod(i, wi);
                    if i != at {
                        assert(out@.pixels[i] == prev.pixels[i]);
                        assert(!(i / wi == y && i % wi == x)) by (nonlinear_arith)
                            requires
                                i != y * wi + x,
                                i == wi * (i / wi) + i % wi,
                        ;
                    }
                }
            }
            col += 1;
        }
        row += 1;
    }
    assert(out@.pixels =~= placed(before, cv, left as nat, top as nat).pixels);
    out
}

/// The card after both codes were laid over it: the redemption code at
/// (615, 55), then the address code at (620, 425).
pub open spec fn finished(canvas: CanvasView, main_code: BitmapView, address_code: BitmapView) -> CanvasView {
    placed(
        placed(canvas, main_code, MAIN_CODE_X as nat, MAIN_CODE_Y as nat),
        address_code,
        ADDRESS_CODE_X as nat,
        ADDRESS_CODE_Y as nat,
    )
}

/// Lays the redemption code and then the address code over the lettered
/// canvas, each at its fixed place.
pub fn place_codes(canvas: Canvas, main_code: &Bitmap, address_code: &Bitmap) -> (out: Canvas)
    requires
        canvas.well_formed(),
        main_code.well_formed(),
        address_code.well_formed(),
        MAIN_CODE_X + main_code@.width <= canvas@.width,
        MAIN_CODE_Y + main_code@.height <= canvas@.height,
        ADDRESS_CODE_X + address_code@.width <= canvas@.width,
        ADDRESS_CODE_Y + address_code@.height <= canvas@.height,
    ensures
        out@ == finished(canvas@, main_code@, address_code@),
        out.well_formed(),
        out@.width == canvas@.width,
        out@.height == canvas@.height,
{
    let with_main = place(canvas, main_code, MAIN_CODE_X, MAIN_CODE_Y);
    place(with_main, address_code, ADDRESS_CODE_X, ADDRESS_CODE_Y)
}

/// Whether a code slot is empty or holds a well-formed code that lies inside
/// the canvas when its top left corner is at (`left`, `top`).
pub open spec fn fits(canvas: CanvasView, code: Option<Bitmap>, left: nat, top: nat) -> bool {
    match code {
        Some(b) => b.well_formed() && left + b@.width <= canvas.width && top + b@.height
            <= canvas.height,
        None => true,
    }
}

/// The canvas after the code of a slot was laid over it; an empty slot leaves
/// the canvas as it is.
pub open spec fn placed_if_any(canvas: CanvasView, code: Option<Bitmap>, left: nat, top: nat) -> CanvasView {
    match code {
        Some(b) => placed(canvas, b@, left, top),
        None => canvas,
    }
}

/// The finished card: the lettered canvas with the redemption code of the
/// state at (615, 55) and then its address code at (620, 425).
pub open spec fn composed(lettered: CanvasView, state: &GiftCardState) -> CanvasView {
    placed_if_any(
        placed_if_any(lettered, state.main_code, MAIN_CODE_X as nat, MAIN_CODE_Y as nat),
        state.address_code,
        ADDRESS_CODE_X as nat,
        ADDRESS_CODE_Y as nat,
    )
}

/// Whether both codes of the state lie inside the canvas at their places.
pub open spec fn card_fits(canvas: CanvasView, state: &GiftCardState) -> bool {
    fits(canvas, state.main_code, MAIN_CODE_X as nat, MAIN_CODE_Y as nat) && fits(
        canvas,
        state.address_code,
        ADDRESS_CODE_X as nat,
        ADDRESS_CODE_Y as nat,
    )
}

fn slot_fits(canvas: &Canvas, code: &Option<Bitmap>, left: u32, top: u32) -> (yes: bool)
    requires
        code matches Some(b) ==> b.well_formed(),
    ensures
        yes == fits(canvas@, *code, left as nat, top as nat),
{
    match code {
        Some(b) => {
            let w = canvas.width();
            let h = canvas.height();
            left <= w && b.width() <= w - left && top <= h && b.height() <= h - top
        },
        None => true,
    }
}

/// Whether both codes of the state lie inside the canvas at their places.
pub fn check_fit(canvas: &Canvas, state: &GiftCardState) -> (yes: bool)
    requires
        state.well_formed(),
    ensures
        yes == card_fits(canvas@, state),
{
    slot_fits(canvas, &state.main_code, MAIN_CODE_X, MAIN_CODE_Y) && slot_fits(
        canvas,
        &state.address_code,
        ADDRESS_CODE_X,
        ADDRESS_CODE_Y,
    )
}

/// Finishes a card: lays the codes of the state over the lettered canvas,
/// the redemption code first. The result depends on nothing but the canvas
/// and the two codes.
pub fn compose(lettered: Canvas, state: &GiftCardState) -> (out: Canvas)
    requires
        lettered.well_formed(),
        card_fits(lettered@, state),
    ensures
        out@ == composed(lettered@, state),
        out.well_formed(),
        out@.width == lettered@.width,
        out@.height == lettered@.height,
{
    let with_main = match &state.main_code {
        Some(b) => place(lettered, b, MAIN_CODE_X, MAIN_CODE_Y),
        None => lettered,
    };
    match &state.address_code {
        Some(b) => place(with_main, b, ADDRESS_CODE_X, ADDRESS_CODE_Y),
        None => with_main,
    }
}

/// Laying the same code over the same place a second time changes nothing,
/// so a card that is finished again from its own result is the same card.
pub proof fn placing_again_changes_nothing(canvas: CanvasView, code: BitmapView, left: nat, top: nat)
    ensures
        placed(placed(canvas, code, left, top), code, left, top) == placed(canvas, code, left, top),
{
    let once = placed(canvas, code, left, top);
    let twice = placed(once, code, left, top);
    assert(twice.pixels =~= once.pixels);
}

/// Under a code that was laid over a canvas, every pixel is the opaque gray
/// of the code's sample at that place.
pub proof fn placed_shows_code(canvas: CanvasView, code: BitmapView, left: nat, top: nat, x: nat, y: nat)
    requires
        canvas.well_formed(),
        left + code.width <= canvas.width,
        top + code.height <= canvas.height,
        x < code.width,
        y < code.height,
    ensures
        placed(canvas, code, left, top).at(left + x, top + y) == gray(code.at(x, y)),
{
    let i = offset(canvas.width, left + x, top + y);
    offset_in_range(canvas.width, canvas.height, left + x, top + y);
    lemma_fundamental_div_mod_converse(i, canvas.width as int, (top + y) as int, (left + x) as int);
    assert(covers(code, left, top, i % (canvas.width as int), i / (canvas.width as int)));
}

/// Beside a code that was laid over a canvas, every pixel is as it was.
pub proof fn placed_keeps_the_rest(canvas: CanvasView, code: BitmapView, left: nat, top: nat, x: nat, y: nat)
    requires
        canvas.well_formed(),
        x < canvas.width,
        y < canvas.height,
        !covers(code, left, top, x as int, y as int),
    ensures
        placed(canvas, code, left, top).at(x, y) == canvas.at(x, y),
{
    let i = offset(canvas.width, x, y);
    offset_in_range(canvas.width, canvas.height, x, y);
    lemma_fundamental_div_mod_converse(i, canvas.width as int, y as int, x as int);
}

/// On a finished card each code shows whole at its place: every pixel under
/// the address code at (620, 425) is the opaque gray of its sample, and so
/// is every pixel under the redemption code at (615, 55), where that code
/// ends above the address code's first row, as one of 350 rows does.
pub proof fn codes_show_on_the_card(lettered: CanvasView, state: &GiftCardState, x: nat, y: nat)
    requires
        lettered.well_formed(),
        card_fits(lettered, state),
    ensures
        state.main_code matches Some(b) ==> (x < b@.width && y < b@.height && MAIN_CODE_Y
            + b@.height <= ADDRESS_CODE_Y ==> composed(lettered, state).at(
            MAIN_CODE_X as nat + x,
            MAIN_CODE_Y as nat + y,
        ) == gray(b@.at(x, y))),
        state.address_code matches Some(b) ==> (x < b@.width && y < b@.height ==> composed(
            lettered,
            state,
        ).at(ADDRESS_CODE_X as nat + x, ADDRESS_CODE_Y as nat + y) == gray(b@.at(x, y))),
{
    let with_main = placed_if_any(lettered, state.main_code, MAIN_CODE_X as nat, MAIN_CODE_Y as nat);
    assert(with_main.width == lettered.width && with_main.height == lettered.height
        && with_main.well_formed());
    match state.main_code {
        Some(b) => {
            if x < b@.width && y < b@.height && MAIN_CODE_Y + b@.height <= ADDRESS_CODE_Y {
                placed_shows_code(lettered, b@, MAIN_CODE_X as nat, MAIN_CODE_Y as nat, x, y);
                match state.address_code {
                    Some(a) => {
                        placed_keeps_the_rest(
                            with_main,
                            a@,
                            ADDRESS_CODE_X as nat,
                            ADDRESS_CODE_Y as nat,
                            MAIN_CODE_X as nat + x,
                            MAIN_CODE_Y as nat + y,
                        );
                    },
                    None => {},
                }
            }
        },
        None => {},
    }
    match state.address_code {
        Some(a) => {
            if x < a@.width && y < a@.height {
                placed_shows_code(with_main, a@, ADDRESS_CODE_X as nat, ADDRESS_CODE_Y as nat, x, y);
            }
        },
        None => {},
    }
}

/// A finished card depends on nothing but the lettered canvas and what the
/// two code slots hold: two states with the same codes give the same card
/// from the same canvas, pixel for pixel and byte for byte.
pub proof fn same_codes_give_the_same_card(
    lettered: CanvasView,
    first: &GiftCardState,
    second: &GiftCardState,
)
    requires
        code_view(first.main_code) == code_view(second.main_code),
        code_view(first.address_code) == code_view(second.address_code),
    ensures
        composed(lettered, first) == composed(lettered, second),
        packed(composed(lettered, first).pixels) == packed(composed(lettered, second).pixels),
{
}

} // verus!
