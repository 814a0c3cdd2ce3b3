//! The quote model: what the price service returns for one asset, the
//! display record derived from it, and the text of its figures.
//!
//! Amounts are fixed-point integers in millionths: a price of 11000.32
//! dollars is held as 11_000_320_000, a change of -5% (-0.05) as -50_000.

use crate::text::{hundredths, push_hundredths, rounded_div, round_div};
use vstd::prelude::*;
use vstd::string::*;

verus! {

/// Units of a fixed-point amount per whole unit.
pub const MICROS: u64 = 1_000_000;

/// One asset's figures as the price service reports them.
pub struct CoinGeckoData {
    /// Spot price in millionths of a dollar.
    pub usd: u64,
    /// Fractional change over the last day, in millionths.
    pub usd_24h_change: i64,
}

/// One asset as the screen shows it.
pub struct Coin {
    pub id: String,
    pub name: String,
    pub symbol: String,
    /// Price in millionths of a dollar.
    pub current_price: u64,
    /// Fractional change over the last day, in millionths.
    pub price_change_24h: i64,
}

/// What `str::to_uppercase` makes of a text.
pub uninterp spec fn upper_of(s: Seq<char>) -> Seq<char>;

/// Relies on `str::to_uppercase`: its result depends on the characters alone.
#[verifier::external_body]
fn to_upper(s: &str) -> (r: String)
    ensures
        r@ == upper_of(s@),
{
    s.to_uppercase()
}

/// A price in millionths of a dollar, as dollars and cents: "$11000.32".
pub open spec fn price_text(micros: nat) -> Seq<char> {
    seq!['$'] + hundredths(round_div(micros, 10_000))
}

/// A fractional change in millionths, as a signed percentage with two
/// decimals: -50_000 is "-5.00%", 0 is "+0.00%".
pub open spec fn change_text(micros: int) -> Seq<char> {
    let magnitude: nat = if micros < 0 { (-micros) as nat } else { micros as nat };
    seq![if micros < 0 { '-' } else { '+' }] + hundredths(round_div(magnitude, 100)) + seq!['%']
}

/// The record that the screen shows for the asset `id` quoted as `q`.
pub open spec fn record_of(id: Seq<char>, q: CoinGeckoData, c: Coin) -> bool {
    &&& c.id@ == id
    &&& c.name@ == id
    &&& c.symbol@ == upper_of(id)
    &&& c.current_price == q.usd
    &&& c.price_change_24h == q.usd_24h_change
}

impl Coin {
    /// The price as dollars and cents, rounded to the nearest cent.
    pub fn price_formatted(&self) -> (r: String)
        ensures
            r@ == price_text(self.current_price as nat),
    {
        let mut out = String::new();
        out.append("$");
        push_hundredths(&mut out, rounded_div(self.current_price, 10_000));
        proof {
            reveal_strlit("$");
        }
        assert(out@ =~= price_text(self.current_price as nat));
        out
    }

    /// The change as a percentage with an explicit sign, rounded to two
    /// decimals.
    pub fn change_24h_formatted(&self) -> (r: String)
        ensures
            r@ == change_text(self.price_change_24h as int),
    {
        let m = self.price_change_24h;
        let magnitude: u64 = if m < 0 { (0i128 - m as i128) as u64 } else { m as u64 };
        let mut out = String::new();
        if m < 0 {
            out.append("-");
        } else {
            out.append("+");
        }
        push_hundredths(&mut out, rounded_div(magnitude, 100));
        out.append("%");
        proof {
            reveal_strlit("-");
            reveal_strlit("+");
            reveal_strlit("%");
        }
        assert(out@ =~= change_text(self.price_change_24h as int));
        out
    }

    /// Whether the price rose over the last day; no change is not a rise.
    pub fn is_up(&self) -> (r: bool)
        ensures
            r == (self.price_change_24h > 0),
    {
        self.price_change_24h > 0
    }
}

/// The display records of the quoted assets, one for each entry, in the
/// order of the entries. The symbol is the upper-case identifier and the
/// name the identifier itself.
pub fn convert_to_coins(coin_map: Vec<(String, CoinGeckoData)>) -> (r: Vec<Coin>)
    ensures
        r.len() == coin_map.len(),
        forall|i: int|
            0 <= i < r.len() ==> record_of(#[trigger] coin_map[i].0@, coin_map[i].1, r[i]),
{
    let mut coins: Vec<Coin> = Vec::new();
    let mut i: usize = 0;
    while i < coin_map.len()
        invariant
            i <= coin_map.len(),
            coins.len() == i,
            forall|j: int| 0 <= j < i ==> record_of(#[trigger] coin_map[j].0@, coin_map[j].1, coins[j]),
        decreases coin_map.len() - i,
    {
        let coin_id = &coin_map[i].0;
        let coin = Coin {
            id: coin_id.clone(),
            symbol: to_upper(coin_id.as_str()),
            name: coin_id.clone(),
            current_price: coin_map[i].1.usd,
            price_change_24h: coin_map[i].1.usd_24h_change,
        };
        coins.push(coin);
        i = i + 1;
    }
    coins
}

} // verus!
