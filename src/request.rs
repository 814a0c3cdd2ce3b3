//! The request for quotes: which assets, in which currency, with the change
//! over the last day.

use crate::text::join;
use vstd::prelude::*;
use vstd::string::*;

verus! {

/// The endpoint of the price service, up to its query.
pub open spec fn endpoint() -> Seq<char> {
    "https://api.coingecko.com/api/v3/simple/price?"@
}

/// The query that follows the asset list: prices in dollars, with the
/// change over the last day.
pub open spec fn query_tail() -> Seq<char> {
    "&vs_currencies=usd&include_24hr_change=true"@
}

/// The identifiers, as text.
pub open spec fn id_texts(ids: Seq<String>) -> Seq<Seq<char>> {
    ids.map_values(|s: String| s@)
}

/// The address that asks for the quotes of `ids`.
pub open spec fn url_text(ids: Seq<String>) -> Seq<char> {
    endpoint() + "ids="@ + join(id_texts(ids), ',') + query_tail()
}

/// The assets that the ticker follows.
pub fn tracked_coins() -> (r: Vec<String>)
    ensures
        id_texts(r@) == seq!["bitcoin"@, "ethereum"@, "cardano"@],
{
    let r = vec![
        String::from_str("bitcoin"),
        String::from_str("ethereum"),
        String::from_str("cardano"),
    ];
    assert(id_texts(r@) =~= seq!["bitcoin"@, "ethereum"@, "cardano"@]);
    r
}

/// The address of the request for the quotes of `ids`, listed in order and
/// separated by commas.
pub fn request_url(ids: &[String]) -> (r: String)
    ensures
        r@ == url_text(ids@),
{
    let mut out = String::from_str("https://api.coingecko.com/api/v3/simple/price?");
    out.append("ids=");
    let ghost head = out@;
    let mut i: usize = 0;
    while i < ids.len()
        invariant
            i <= ids.len(),
            head == endpoint() + "ids="@,
            out@ == head + join(id_texts(ids@.take(i as int)), ','),
        decreases ids.len() - i,
    {
        if i > 0 {
            out.append(",");
            proof {
                reveal_strlit(",");
            }
        }
        out.append(ids[i].as_str());
        i = i + 1;
        proof {
            let parts = id_texts(ids@.take(i as int));
            assert(parts.drop_last() =~= id_texts(ids@.take(i - 1)));
            assert(out@ =~= head + join(parts, ','));
        }
    }
    out.append("&vs_currencies=usd&include_24hr_change=true");
    assert(ids@.take(ids@.len() as int) =~= ids@);
    assert(out@ =~= url_text(ids@));
    out
}

} // verus!
