//! The chain's height as a node reports it.

use vstd::prelude::*;
use crate::state::{margin_height, GiftCardState};

verus! {

/// What the JSON reader finds in a text under the key `inner` of the object
/// under the key `outer`: the unsigned number there; none where the text is
/// no JSON or holds no such number.
pub uninterp spec fn member_number_text(body: Seq<char>, outer: Seq<char>, inner: Seq<char>) -> Option<
    u64,
>;

/// The block count in a node's reply to `get_block_count`: the number under
/// `result`, `count`.
pub open spec fn block_count_text(body: Seq<char>) -> Option<u64> {
    member_number_text(body, "result"@, "count"@)
}

/// `serde_json::from_str` to a `Value`, then `Value::get` for `outer` and for
/// `inner`, then `Value::as_u64`.
#[verifier::external_body]
fn member_number_of(body: &str, outer: &str, inner: &str) -> (number: Option<u64>)
    ensures
        number == member_number_text(body@, outer@, inner@),
{
    let reply = serde_json::from_str::<serde_json::Value>(body).ok()?;
    reply.get(outer)?.get(inner)?.as_u64()
}

/// The block count in a node's reply, where it holds one.
pub fn chain_height(body: &str) -> (count: Option<u64>)
    ensures
        count == block_count_text(body@),
{
    member_number_of(body, "result", "count")
}

/// Takes a node's reply into the card: the height becomes the reported count
/// less the margin. A reply without a count, or with one below the margin,
/// changes nothing.
pub fn apply_node_reply(state: &mut GiftCardState, body: &str)
    ensures
        *final(state) == (GiftCardState {
            block_height: match block_count_text(body@) {
                Some(h) => margin_height(old(state).block_height, h),
                None => old(state).block_height,
            },
            ..*old(state)
        }),
{
    let count = chain_height(body);
    state.apply_chain_height(count);
}

} // verus!
