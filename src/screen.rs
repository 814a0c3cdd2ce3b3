//! The text of the screen: a title, one aligned row per asset, and a hint
//! that names the quit key.

use crate::coin::{change_text, price_text, Coin};
use crate::text::{join, pad_left, pad_right, push_padded_left, push_padded_right};
use vstd::prelude::*;
use vstd::string::*;

verus! {

/// Width of the symbol column.
pub const SYMBOL_WIDTH: usize = 10;

/// Width of the name column.
pub const NAME_WIDTH: usize = 12;

/// Width of the price column, right-aligned.
pub const PRICE_WIDTH: usize = 14;

/// Width of the change column, right-aligned.
pub const CHANGE_WIDTH: usize = 9;

/// The key that ends the session.
pub const QUIT_KEY: char = 'q';

/// The three painted regions of the screen, top to bottom.
pub struct ScreenText {
    /// The one-line header.
    pub title: String,
    /// The rows of the body, one line per asset.
    pub body: String,
    /// The one-line footer.
    pub footer: String,
}

/// The row of one asset: symbol and name left-aligned, price and change
/// right-aligned, each in a column of fixed width, one space between columns.
pub open spec fn row_text(c: Coin) -> Seq<char> {
    pad_right(c.symbol@, SYMBOL_WIDTH as nat) + seq![' '] + pad_right(c.name@, NAME_WIDTH as nat)
        + seq![' '] + pad_left(price_text(c.current_price as nat), PRICE_WIDTH as nat) + seq![' ']
        + pad_left(change_text(c.price_change_24h as int), CHANGE_WIDTH as nat)
}

/// The rows of the assets, in order.
pub open spec fn rows_of(coins: Seq<Coin>) -> Seq<Seq<char>> {
    coins.map_values(|c: Coin| row_text(c))
}

/// The body of the screen: the rows of the assets, one per line.
pub open spec fn body_text(coins: Seq<Coin>) -> Seq<char> {
    join(rows_of(coins), '\n')
}

/// The title in the header.
pub open spec fn title_text() -> Seq<char> {
    "Crypto Tracker"@
}

/// The hint in the footer.
pub open spec fn footer_text() -> Seq<char> {
    "Press 'q' to quit"@
}

/// Appends the row of `c`.
fn push_row(out: &mut String, c: &Coin)
    ensures
        final(out)@ == old(out)@ + row_text(*c),
{
    push_padded_right(out, c.symbol.as_str(), SYMBOL_WIDTH);
    out.append(" ");
    push_padded_right(out, c.name.as_str(), NAME_WIDTH);
    out.append(" ");
    let price = c.price_formatted();
    push_padded_left(out, price.as_str(), PRICE_WIDTH);
    out.append(" ");
    let change = c.change_24h_formatted();
    push_padded_left(out, change.as_str(), CHANGE_WIDTH);
    proof {
        reveal_strlit(" ");
    }
    assert(final(out)@ =~= old(out)@ + row_text(*c));
}

/// The rows of `coins`, one per line, with no line break after the last.
pub fn format_coins(coins: &[Coin]) -> (r: String)
    ensures
        r@ == body_text(coins@),
{
    let mut out = String::new();
    let mut i: usize = 0;
    while i < coins.len()
        invariant
            i <= coins.len(),
            out@ == join(rows_of(coins@.take(i as int)), '\n'),
        decreases coins.len() - i,
    {
        if i > 0 {
            out.append("\n");
            proof {
                reveal_strlit("\n");
            }
        }
        push_row(&mut out, &coins[i]);
        i = i + 1;
        proof {
            let rows = rows_of(coins@.take(i as int));
            assert(rows.drop_last() =~= rows_of(coins@.take(i - 1)));
            assert(rows.last() == row_text(coins@[i - 1]));
            assert(out@ =~= join(rows, '\n'));
        }
    }
    assert(coins@.take(coins@.len() as int) =~= coins@);
    out
}

/// The text of every region of the screen for the given assets.
pub fn screen_text(coins: &[Coin]) -> (r: ScreenText)
    ensures
        r.title@ == title_text(),
        r.body@ == body_text(coins@),
        r.footer@ == footer_text(),
{
    ScreenText {
        title: String::from_str("Crypto Tracker"),
        body: format_coins(coins),
        footer: String::from_str("Press 'q' to quit"),
    }
}

} // verus!
