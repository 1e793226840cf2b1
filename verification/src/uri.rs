//! The redemption URI that a receiving wallet reads to restore the funds.

use vstd::prelude::*;
use crate::text::{chars_of, chars_of_each, decimal, decimal_chars, each_without_spaces, join, joined, push_chars, push_str, rows, rows_push, string_of, strip_spaces_of_each, texts};

verus! {

/// The value of the seed parameter: the words joined by `%20`.
pub open spec fn seed_value(seed: Seq<Seq<char>>) -> Seq<char> {
    joined(seed, "%20"@)
}

/// The value of the transaction parameter: the ids, each without its spaces,
/// joined by commas.
pub open spec fn txids_value(txids: Seq<Seq<char>>) -> Seq<char> {
    joined(each_without_spaces(txids), ","@)
}

/// The seed parameter: none where its value would be empty, as it is for an
/// empty seed; else the key and the value.
pub open spec fn seed_param(seed: Seq<Seq<char>>) -> Seq<Seq<char>> {
    if seed_value(seed).len() == 0 {
        Seq::empty()
    } else {
        seq!["seed="@ + seed_value(seed)]
    }
}

/// The height parameter: none for height zero, else the decimal numeral.
pub open spec fn height_param(height: nat) -> Seq<Seq<char>> {
    if height == 0 {
        Seq::empty()
    } else {
        seq!["height="@ + decimal(height)]
    }
}

/// The transaction parameter: none where its value would be empty, as it is
/// for an empty list and for ids that are nothing but spaces; else the key
/// and the value.
pub open spec fn txids_param(txids: Seq<Seq<char>>) -> Seq<Seq<char>> {
    if txids_value(txids).len() == 0 {
        Seq::empty()
    } else {
        seq!["txids="@ + txids_value(txids)]
    }
}

/// The parameters of the query in their fixed order: seed, height, transactions.
pub open spec fn query_params(seed: Seq<Seq<char>>, height: nat, txids: Seq<Seq<char>>) -> Seq<
    Seq<char>,
> {
    seed_param(seed) + height_param(height) + txids_param(txids)
}

/// The redemption URI: the scheme, the address, and, where there is any
/// parameter, a question mark and the parameters joined by `&`.
pub open spec fn redemption_text(
    address: Seq<char>,
    seed: Seq<Seq<char>>,
    height: nat,
    txids: Seq<Seq<char>>,
) -> Seq<char> {
    let params = query_params(seed, height, txids);
    if params.len() == 0 {
        "monero_wallet:"@ + address
    } else {
        "monero_wallet:"@ + address + "?"@ + joined(params, "&"@)
    }
}

/// Builds the query parameters in their fixed order.
fn build_params(seed: &Vec<String>, height: u64, txids: &Vec<String>) -> (params: Vec<Vec<char>>)
    ensures
        rows(params@) == query_params(texts(seed@), height as nat, texts(txids@)),
{
    let mut params: Vec<Vec<char>> = Vec::new();
    assert(rows(params@) =~= Seq::<Seq<char>>::empty());
    let words = chars_of_each(seed);
    let value = join(&words, "%20");
    if value.len() > 0 {
        let mut p = chars_of("seed=");
        push_chars(&mut p, &value);
        proof {
            rows_push(params@, p);
        }
        params.push(p);
    }
    assert(rows(params@) =~= seed_param(texts(seed@)));
    let ghost after_seed = rows(params@);
    if height > 0 {
        let mut p = chars_of("height=");
        let value = decimal_chars(height);
        push_chars(&mut p, &value);
        proof {
            rows_push(params@, p);
        }
        params.push(p);
    }
    assert(rows(params@) =~= after_seed + height_param(height as nat));
    let ghost after_height = rows(params@);
    let ids = chars_of_each(txids);
    let stripped = strip_spaces_of_each(&ids);
    let value = join(&stripped, ",");
    if value.len() > 0 {
        let mut p = chars_of("txids=");
        push_chars(&mut p, &value);
        proof {
            rows_push(params@, p);
        }
        params.push(p);
    }
    assert(rows(params@) =~= after_height + txids_param(texts(txids@)));
    params
}

/// The redemption URI of a wallet.
pub fn redemption_uri(address: &str, seed: &Vec<String>, height: u64, txids: &Vec<String>) -> (uri:
    String)
    ensures
        uri@ == redemption_text(address@, texts(seed@), height as nat, texts(txids@)),
{
    let params = build_params(seed, height, txids);
    let mut out = chars_of("monero_wallet:");
    push_str(&mut out, address);
    if params.len() > 0 {
        push_str(&mut out, "?");
        let query = join(&params, "&");
        push_chars(&mut out, &query);
    } else {
        assert(rows(params@).len() == 0);
    }
    string_of(&out)
}

} // verus!
