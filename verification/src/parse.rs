//! Reading a redemption URI back: what a receiving wallet recovers from the
//! text, and the proof that it recovers what the encoder was given.

use vstd::prelude::*;
use crate::text::{
    chars_of, decimal, digit_char, each_without_spaces, joined, rows, rows_push, string_of, texts,
    without_spaces,
};
use crate::uri::{
    height_param, query_params, redemption_text, seed_param, seed_value, txids_param, txids_value,
};

verus! {

/// What a redemption URI carries.
pub ghost struct Redemption {
    pub address: Seq<char>,
    pub seed: Seq<Seq<char>>,
    pub height: nat,
    pub txids: Seq<Seq<char>>,
}

/// No character of `s` is `c`.
pub open spec fn lacks(s: Seq<char>, c: char) -> bool {
    forall|i: int| 0 <= i < s.len() ==> s[i] != c
}

/// No item of `parts` holds `c`.
pub open spec fn all_lack(parts: Seq<Seq<char>>, c: char) -> bool {
    forall|k: int| 0 <= k < parts.len() ==> lacks(#[trigger] parts[k], c)
}

/// The place of the first `c` in `s`, or the length of `s` where it holds none.
pub open spec fn first_at(s: Seq<char>, c: char) -> int
    decreases s.len(),
{
    if s.len() == 0 {
        0
    } else if s[0] == c {
        0
    } else {
        1 + first_at(s.skip(1), c)
    }
}

/// The pieces of `s` between separators, where a separator begins with `mark`
/// and is `width` characters long.
pub open spec fn pieces(s: Seq<char>, mark: char, width: nat) -> Seq<Seq<char>>
    decreases s.len(),
{
    let i = first_at(s, mark);
    if 0 <= i && width > 0 && i + width <= s.len() {
        seq![s.subrange(0, i)] + pieces(s.subrange(i + width, s.len() as int), mark, width)
    } else {
        seq![s]
    }
}

/// Whether `s` begins with `prefix`.
pub open spec fn starts_with(s: Seq<char>, prefix: Seq<char>) -> bool {
    prefix.len() <= s.len() && s.subrange(0, prefix.len() as int) == prefix
}

/// The value of the first parameter that begins with `key`.
pub open spec fn value_of(params: Seq<Seq<char>>, key: Seq<char>) -> Option<Seq<char>>
    decreases params.len(),
{
    if params.len() == 0 {
        None
    } else if starts_with(params[0], key) {
        Some(params[0].skip(key.len() as int))
    } else {
        value_of(params.skip(1), key)
    }
}

/// The number that a decimal digit stands for.
pub open spec fn digit_value(c: char) -> nat {
    if c == '1' {
        1
    } else if c == '2' {
        2
    } else if c == '3' {
        3
    } else if c == '4' {
        4
    } else if c == '5' {
        5
    } else if c == '6' {
        6
    } else if c == '7' {
        7
    } else if c == '8' {
        8
    } else if c == '9' {
        9
    } else {
        0
    }
}

/// The number that a decimal numeral stands for.
pub open spec fn parsed_decimal(s: Seq<char>) -> nat
    decreases s.len(),
{
    if s.len() == 0 {
        0
    } else {
        parsed_decimal(s.drop_last()) * 10 + digit_value(s.last())
    }
}

/// Whether `c` is a decimal digit.
pub open spec fn is_digit(c: char) -> bool {
    digit_char(digit_value(c)) == c
}

/// Whether `s` is a decimal numeral of a height: one digit or more, and a
/// number of 64 bits.
pub open spec fn is_numeral(s: Seq<char>) -> bool {
    &&& s.len() >= 1
    &&& forall|i: int| 0 <= i < s.len() ==> is_digit(#[trigger] s[i])
    &&& parsed_decimal(s) <= u64::MAX
}

/// The parameters of a URI's body: what stands behind the first question
/// mark, split at each `&`; none where there is no question mark.
pub open spec fn params_of(body: Seq<char>) -> Seq<Seq<char>> {
    let q = first_at(body, '?');
    if q < body.len() {
        pieces(body.skip(q + 1), '&', 1)
    } else {
        Seq::empty()
    }
}

/// What a wallet reads from a redemption URI: the address up to the question
/// mark, then of the parameters between `&` the seed words between `%20`, the
/// height and the transaction ids between commas. A parameter that is absent
/// reads as empty, and as zero for the height. A text without the scheme, or
/// with a height that is no numeral, reads as nothing.
pub open spec fn parsed(uri: Seq<char>) -> Option<Redemption> {
    let scheme = "monero_wallet:"@;
    let body = uri.skip(scheme.len() as int);
    let params = params_of(body);
    let height = value_of(params, "height="@);
    if !starts_with(uri, scheme) {
        None
    } else if height is Some && !is_numeral(height->0) {
        None
    } else {
        Some(
            Redemption {
                address: body.subrange(0, first_at(body, '?')),
                seed: match value_of(params, "seed="@) {
                    Some(v) => pieces(v, '%', 3),
                    None => Seq::empty(),
                },
                height: match height {
                    Some(v) => parsed_decimal(v),
                    None => 0,
                },
                txids: match value_of(params, "txids="@) {
                    Some(v) => pieces(v, ',', 1),
                    None => Seq::empty(),
                },
            },
        )
    }
}

/// What was read from a redemption URI.
pub struct RedemptionData {
    pub address: String,
    pub seed: Vec<String>,
    pub height: u64,
    pub txids: Vec<String>,
}

impl View for RedemptionData {
    type V = Redemption;

    open spec fn view(&self) -> Redemption {
        Redemption {
            address: self.address@,
            seed: texts(self.seed@),
            height: self.height as nat,
            txids: texts(self.txids@),
        }
    }
}

/// The view of what a reading gave.
pub open spec fn reading_view(r: Option<RedemptionData>) -> Option<Redemption> {
    match r {
        Some(d) => Some(d@),
        None => None,
    }
}

/// The view of a value that may be absent.
pub open spec fn chars_view(v: Option<Vec<char>>) -> Option<Seq<char>> {
    match v {
        Some(s) => Some(s@),
        None => None,
    }
}

/// Behind a head without `c`, the first `c` is where the rest begins, when
/// the rest begins with `c` or is empty.
proof fn first_at_after(head: Seq<char>, rest: Seq<char>, c: char)
    requires
        lacks(head, c),
        rest.len() > 0 ==> rest[0] == c,
    ensures
        first_at(head + rest, c) == head.len(),
    decreases head.len(),
{
    let s = head + rest;
    if head.len() == 0 {
        assert(s =~= rest);
    } else {
        assert(s[0] == head[0]);
        assert(s.skip(1) =~= head.skip(1) + rest);
        assert(lacks(head.skip(1), c)) by {
            assert forall|i: int| 0 <= i < head.skip(1).len() implies head.skip(1)[i] != c by {
                assert(head.skip(1)[i] == head[i + 1]);
            }
        }
        first_at_after(head.skip(1), rest, c);
    }
}

/// The first `c` of `s` is at `i`, where no place before `i` holds `c` and
/// `i` holds it or is the end.
proof fn first_at_found(s: Seq<char>, c: char, i: int)
    requires
        0 <= i <= s.len(),
        forall|k: int| 0 <= k < i ==> s[k] != c,
        i < s.len() ==> s[i] == c,
    ensures
        first_at(s, c) == i,
{
    let head = s.subrange(0, i);
    let rest = s.skip(i);
    assert(s =~= head + rest);
    first_at_after(head, rest, c);
}

/// A numeral's beginning stands for no more than the numeral.
proof fn beginning_is_less(s: Seq<char>, i: int)
    requires
        0 <= i <= s.len(),
    ensures
        parsed_decimal(s.subrange(0, i)) <= parsed_decimal(s),
    decreases s.len() - i,
{
    if i == s.len() {
        assert(s.subrange(0, i) =~= s);
    } else {
        beginning_is_less(s.drop_last(), i);
        assert(s.drop_last().subrange(0, i) =~= s.subrange(0, i));
    }
}

/// A joined text of two or more parts is its first part, the separator and
/// the other parts joined.
proof fn joined_front(parts: Seq<Seq<char>>, sep: Seq<char>)
    requires
        parts.len() >= 2,
    ensures
        joined(parts, sep) == parts[0] + sep + joined(parts.skip(1), sep),
    decreases parts.len(),
{
    let tail = parts.skip(1);
    if parts.len() == 2 {
        assert(parts.drop_last().len() == 1);
        assert(joined(parts.drop_last(), sep) == parts[0]);
        assert(tail.len() == 1);
        assert(joined(tail, sep) == tail[0]);
        assert(tail[0] == parts.last());
    } else {
        joined_front(parts.drop_last(), sep);
        assert(parts.drop_last().skip(1) =~= tail.drop_last());
        assert(tail.last() == parts.last());
        assert(parts.drop_last()[0] == parts[0]);
        assert(joined(parts, sep) =~= parts[0] + sep + joined(tail, sep));
    }
}

/// Parts without `c`, joined by a separator without `c`, hold no `c`.
proof fn joined_lacks(parts: Seq<Seq<char>>, sep: Seq<char>, c: char)
    requires
        all_lack(parts, c),
        lacks(sep, c),
    ensures
        lacks(joined(parts, sep), c),
    decreases parts.len(),
{
    if parts.len() >= 2 {
        assert(all_lack(parts.drop_last(), c)) by {
            assert forall|k: int| 0 <= k < parts.drop_last().len() implies lacks(
                #[trigger] parts.drop_last()[k],
                c,
            ) by {
                assert(parts.drop_last()[k] == parts[k]);
            }
        }
        joined_lacks(parts.drop_last(), sep, c);
        assert(lacks(parts.last(), c));
    } else if parts.len() == 1 {
        assert(lacks(parts[0], c));
    }
}

/// Splitting a joined text gives the parts back, where no part holds the
/// separator's first character.
pub proof fn pieces_of_joined(parts: Seq<Seq<char>>, sep: Seq<char>)
    requires
        parts.len() >= 1,
        sep.len() >= 1,
        all_lack(parts, sep[0]),
    ensures
        pieces(joined(parts, sep), sep[0], sep.len()) == parts,
    decreases parts.len(),
{
    let mark = sep[0];
    let s = joined(parts, sep);
    assert(lacks(parts[0], mark));
    if parts.len() == 1 {
        first_at_after(parts[0], Seq::empty(), mark);
        assert(parts[0] + Seq::<char>::empty() =~= parts[0]);
        assert(pieces(s, mark, sep.len()) =~= parts);
    } else {
        let tail = parts.skip(1);
        let rest = joined(tail, sep);
        joined_front(parts, sep);
        assert(s =~= parts[0] + (sep + rest));
        first_at_after(parts[0], sep + rest, mark);
        let i = parts[0].len() as int;
        assert(s.subrange(0, i) =~= parts[0]);
        assert(s.subrange(i + sep.len(), s.len() as int) =~= rest);
        assert(all_lack(tail, mark)) by {
            assert forall|k: int| 0 <= k < tail.len() implies lacks(#[trigger] tail[k], mark) by {
                assert(tail[k] == parts[k + 1]);
            }
        }
        pieces_of_joined(tail, sep);
        assert(seq![parts[0]] + tail =~= parts);
    }
}

/// Every character of a decimal numeral is a digit, and the numeral reads as
/// the number it was written for.
pub proof fn decimal_reads_back(n: nat)
    ensures
        parsed_decimal(decimal(n)) == n,
        lacks(decimal(n), '&'),
        decimal(n).len() >= 1,
        forall|i: int| 0 <= i < decimal(n).len() ==> is_digit(#[trigger] decimal(n)[i]),
    decreases n,
{
    if n < 10 {
        let s = decimal(n);
        assert(s.drop_last() =~= Seq::<char>::empty());
        assert(s.last() == digit_char(n));
        assert(parsed_decimal(s.drop_last()) == 0);
    } else {
        decimal_reads_back(n / 10);
        let s = decimal(n);
        assert(s.drop_last() =~= decimal(n / 10));
        assert(s.last() == digit_char(n % 10));
        assert forall|i: int| 0 <= i < s.len() implies is_digit(#[trigger] s[i]) by {
            if i < s.len() - 1 {
                assert(s[i] == decimal(n / 10)[i]);
            }
        }
    }
}

/// Leaving the spaces out of a text without spaces changes nothing.
pub proof fn without_spaces_of_spaceless(s: Seq<char>)
    requires
        lacks(s, ' '),
    ensures
        without_spaces(s) == s,
    decreases s.len(),
{
    reveal(Seq::filter);
    if s.len() > 0 {
        assert(lacks(s.drop_last(), ' ')) by {
            assert forall|i: int| 0 <= i < s.drop_last().len() implies s.drop_last()[i] != ' ' by {
                assert(s.drop_last()[i] == s[i]);
            }
        }
        without_spaces_of_spaceless(s.drop_last());
        assert(s.last() != ' ');
        assert(s.drop_last().push(s.last()) =~= s);
    } else {
        assert(without_spaces(s) =~= s);
    }
}

/// What the literals of the URI hold.
proof fn literals()
    ensures
        "monero_wallet:"@.len() == 14,
        lacks("monero_wallet:"@, '?'),
        "seed="@ == seq!['s', 'e', 'e', 'd', '='],
        "height="@ == seq!['h', 'e', 'i', 'g', 'h', 't', '='],
        "txids="@ == seq!['t', 'x', 'i', 'd', 's', '='],
        "%20"@ == seq!['%', '2', '0'],
        ","@ == seq![','],
        "&"@ == seq!['&'],
        "?"@ == seq!['?'],
{
    reveal_strlit("monero_wallet:");
    reveal_strlit("seed=");
    reveal_strlit("height=");
    reveal_strlit("txids=");
    reveal_strlit("%20");
    reveal_strlit(",");
    reveal_strlit("&");
    reveal_strlit("?");
    assert("seed="@ =~= seq!['s', 'e', 'e', 'd', '=']);
    assert("height="@ =~= seq!['h', 'e', 'i', 'g', 'h', 't', '=']);
    assert("txids="@ =~= seq!['t', 'x', 'i', 'd', 's', '=']);
    assert("%20"@ =~= seq!['%', '2', '0']);
    assert(","@ =~= seq![',']);
    assert("&"@ =~= seq!['&']);
    assert("?"@ =~= seq!['?']);
}

/// A key followed by a value begins with the key, and the value is what
/// follows it; it begins with no key that has another first character.
proof fn keyed(key: Seq<char>, value: Seq<char>, other: Seq<char>)
    requires
        key.len() >= 1,
        other.len() >= 1,
        key[0] != other[0],
    ensures
        starts_with(key + value, key),
        (key + value).skip(key.len() as int) == value,
        !starts_with(key + value, other),
{
    let p = key + value;
    assert(p.subrange(0, key.len() as int) =~= key);
    assert(p.skip(key.len() as int) =~= value);
    if starts_with(p, other) {
        assert(p.subrange(0, other.len() as int)[0] == other[0]);
        assert(p[0] == key[0]);
    }
}

/// The inputs that a URI carries without loss: an address without a question
/// mark, seed words without `%` and `&`, transaction ids without comma, `&`
/// and space, and neither the seed nor the ids a list of one empty item, of
/// which the parameter would have an empty value and is left out.
pub open spec fn carried_whole(address: Seq<char>, seed: Seq<Seq<char>>, txids: Seq<Seq<char>>) -> bool {
    &&& lacks(address, '?')
    &&& all_lack(seed, '%')
    &&& all_lack(seed, '&')
    &&& all_lack(txids, ',')
    &&& all_lack(txids, '&')
    &&& all_lack(txids, ' ')
    &&& seed.len() == 1 ==> seed[0].len() > 0
    &&& txids.len() == 1 ==> txids[0].len() > 0
}

/// A joined text is empty only for no parts and for one empty part.
pub proof fn joined_is_empty(parts: Seq<Seq<char>>, sep: Seq<char>)
    requires
        sep.len() >= 1,
    ensures
        joined(parts, sep).len() == 0 <==> parts.len() == 0 || (parts.len() == 1 && parts[0].len()
            == 0),
{
    if parts.len() >= 2 {
        assert(joined(parts, sep).len() >= sep.len());
    }
}

/// A text without the separator's first character is one piece.
pub proof fn pieces_of_unmarked(s: Seq<char>, mark: char, width: nat)
    requires
        lacks(s, mark),
    ensures
        pieces(s, mark, width) == seq![s],
{
    first_at_found(s, mark, s.len() as int);
}

/// A text is nothing but spaces exactly where nothing is left of it without
/// them.
pub proof fn nothing_but_spaces(s: Seq<char>)
    ensures
        without_spaces(s).len() == 0 <==> (forall|i: int| 0 <= i < s.len() ==> s[i] == ' '),
    decreases s.len(),
{
    reveal(Seq::filter);
    if s.len() > 0 {
        nothing_but_spaces(s.drop_last());
        let front = s.drop_last();
        assert(forall|i: int| 0 <= i < front.len() ==> front[i] == s[i]);
        if forall|i: int| 0 <= i < s.len() ==> s[i] == ' ' {
            assert(forall|i: int| 0 <= i < front.len() ==> front[i] == ' ');
            assert(s.last() == ' ');
        }
        if without_spaces(s).len() == 0 {
            assert(s.last() == ' ');
            assert(without_spaces(front).len() == 0);
            assert forall|i: int| 0 <= i < s.len() implies s[i] == ' ' by {
                if i < front.len() {
                    assert(front[i] == s[i]);
                }
            }
        }
    }
}

/// The parameters of a query are found again by their keys.
proof fn params_read_back(seed: Seq<Seq<char>>, height: nat, txids: Seq<Seq<char>>)
    ensures
        ({
            let params = query_params(seed, height, txids);
            &&& value_of(params, "seed="@) == (if seed_value(seed).len() == 0 {
                None
            } else {
                Some(seed_value(seed))
            })
            &&& value_of(params, "height="@) == (if height == 0 {
                None
            } else {
                Some(decimal(height))
            })
            &&& value_of(params, "txids="@) == (if txids_value(txids).len() == 0 {
                None
            } else {
                Some(txids_value(txids))
            })
        }),
{
    literals();
    let ks = "seed="@;
    let kh = "height="@;
    let kt = "txids="@;
    let vs = joined(seed, "%20"@);
    let vh = decimal(height);
    let vt = joined(each_without_spaces(txids), ","@);
    keyed(ks, vs, kh);
    keyed(ks, vs, kt);
    keyed(kh, vh, ks);
    keyed(kh, vh, kt);
    keyed(kt, vt, ks);
    keyed(kt, vt, kh);
    let a = seed_param(seed);
    let b = height_param(height);
    let c = txids_param(txids);
    let params = query_params(seed, height, txids);
    value_of_concat(a, b + c, ks);
    value_of_concat(b, c, ks);
    value_of_concat(a, b + c, kh);
    value_of_concat(b, c, kh);
    value_of_concat(a, b + c, kt);
    value_of_concat(b, c, kt);
    assert(params =~= a + (b + c));
    value_of_one(a, ks);
    value_of_one(a, kh);
    value_of_one(a, kt);
    value_of_one(b, ks);
    value_of_one(b, kh);
    value_of_one(b, kt);
    value_of_one(c, ks);
    value_of_one(c, kh);
    value_of_one(c, kt);
}

/// Looking through two lists in a row: what the first holds, else what the
/// second holds.
proof fn value_of_concat(first: Seq<Seq<char>>, second: Seq<Seq<char>>, key: Seq<char>)
    requires
        first.len() <= 1,
    ensures
        value_of(first + second, key) == (match value_of(first, key) {
            Some(v) => Some(v),
            None => value_of(second, key),
        }),
{
    reveal_with_fuel(value_of, 3);
    if first.len() == 0 {
        assert(first + second =~= second);
    } else {
        assert((first + second)[0] == first[0]);
        assert((first + second).skip(1) =~= second);
        assert(first.skip(1) =~= Seq::<Seq<char>>::empty());
    }
}

/// Looking through a list of at most one parameter.
proof fn value_of_one(list: Seq<Seq<char>>, key: Seq<char>)
    requires
        list.len() <= 1,
    ensures
        value_of(list, key) == (if list.len() == 1 && starts_with(list[0], key) {
            Some(list[0].skip(key.len() as int))
        } else {
            None
        }),
{
    reveal_with_fuel(value_of, 3);
    if list.len() == 1 {
        assert(list.skip(1).len() == 0);
    }
}

/// No parameter of a query holds `&`, where seed words and transaction ids
/// hold none.
proof fn params_lack_ampersand(seed: Seq<Seq<char>>, height: nat, txids: Seq<Seq<char>>)
    requires
        all_lack(seed, '&'),
        all_lack(each_without_spaces(txids), '&'),
    ensures
        all_lack(query_params(seed, height, txids), '&'),
{
    literals();
    joined_lacks(seed, "%20"@, '&');
    decimal_reads_back(height);
    joined_lacks(each_without_spaces(txids), ","@, '&');
    let params = query_params(seed, height, txids);
    assert forall|k: int| 0 <= k < params.len() implies lacks(#[trigger] params[k], '&') by {
        let p = params[k];
        assert(p == "seed="@ + joined(seed, "%20"@) || p == "height="@ + decimal(height) || p
            == "txids="@ + joined(each_without_spaces(txids), ","@));
    }
}

/// Reading a redemption URI gives back exactly the address, the seed words,
/// the height and the transaction ids from which it was made, for every
/// input that the URI carries whole.
pub proof fn encode_then_parse(
    address: Seq<char>,
    seed: Seq<Seq<char>>,
    height: u64,
    txids: Seq<Seq<char>>,
)
    requires
        carried_whole(address, seed, txids),
    ensures
        parsed(redemption_text(address, seed, height as nat, txids)) == Some(
            Redemption { address, seed, height: height as nat, txids },
        ),
{
    let height = height as nat;
    literals();
    let scheme = "monero_wallet:"@;
    let uri = redemption_text(address, seed, height, txids);
    let params = query_params(seed, height, txids);
    let stripped = each_without_spaces(txids);
    assert(stripped =~= txids) by {
        assert forall|k: int| 0 <= k < txids.len() implies stripped[k] == txids[k] by {
            assert(lacks(txids[k], ' '));
            without_spaces_of_spaceless(txids[k]);
        }
    }
    params_read_back(seed, height, txids);
    params_lack_ampersand(seed, height, txids);
    decimal_reads_back(height);
    joined_is_empty(seed, "%20"@);
    joined_is_empty(txids, ","@);
    if seed.len() > 0 {
        pieces_of_joined(seed, "%20"@);
    }
    if txids.len() > 0 {
        pieces_of_joined(txids, ","@);
    }
    let query = joined(params, "&"@);
    let tail = if params.len() == 0 {
        Seq::<char>::empty()
    } else {
        "?"@ + query
    };
    assert(uri =~= scheme + (address + tail));
    assert(uri.subrange(0, scheme.len() as int) =~= scheme);
    let body = uri.skip(scheme.len() as int);
    assert(body =~= address + tail);
    first_at_after(address, tail, '?');
    let q = first_at(body, '?');
    assert(body.subrange(0, q) =~= address);
    assert(height > 0 ==> is_numeral(decimal(height)));
    if params.len() == 0 {
        assert(body =~= address);
        assert(params_of(body) =~= Seq::<Seq<char>>::empty());
        assert(seed.len() == 0 && height == 0 && txids.len() == 0);
        assert(value_of(Seq::<Seq<char>>::empty(), "seed="@) is None);
        assert(value_of(Seq::<Seq<char>>::empty(), "height="@) is None);
        assert(value_of(Seq::<Seq<char>>::empty(), "txids="@) is None);
        assert(parsed(uri)->0.seed =~= seed);
        assert(parsed(uri)->0.txids =~= txids);
    } else {
        assert(body.skip(q + 1) =~= query);
        pieces_of_joined(params, "&"@);
        assert(pieces(body.skip(q + 1), '&', 1) == params);
        assert(params_of(body) == params);
        assert(parsed(uri)->0.seed =~= seed);
        assert(parsed(uri)->0.txids =~= txids);
    }
}

/// What is not set is left out: a card without a height carries no height
/// parameter, one whose transaction ids leave an empty value (no ids, or one
/// id of nothing but spaces) no transaction parameter, and one whose seed
/// leaves an empty value no seed parameter. Reading the parameters of the
/// query finds none under that key.
pub proof fn unset_entries_are_left_out(seed: Seq<Seq<char>>, height: nat, txids: Seq<Seq<char>>)
    ensures
        txids.len() == 0 ==> txids_value(txids).len() == 0,
        seed.len() == 0 ==> seed_value(seed).len() == 0,
        height == 0 ==> value_of(query_params(seed, height, txids), "height="@) is None,
        height == 0 ==> query_params(seed, height, txids) == seed_param(seed) + txids_param(txids),
        txids_value(txids).len() == 0 ==> value_of(query_params(seed, height, txids), "txids="@)
            is None,
        txids_value(txids).len() == 0 ==> query_params(seed, height, txids) == seed_param(seed)
            + height_param(height),
        seed_value(seed).len() == 0 ==> value_of(query_params(seed, height, txids), "seed="@)
            is None,
        seed_value(seed).len() == 0 ==> query_params(seed, height, txids) == height_param(height)
            + txids_param(txids),
{
    params_read_back(seed, height, txids);
    assert(each_without_spaces(txids).len() == txids.len());
    assert(height == 0 ==> query_params(seed, height, txids) =~= seed_param(seed) + txids_param(txids));
    assert(txids_value(txids).len() == 0 ==> query_params(seed, height, txids) =~= seed_param(seed)
        + height_param(height));
    assert(seed_value(seed).len() == 0 ==> query_params(seed, height, txids) =~= height_param(height)
        + txids_param(txids));
}

/// The place of the first `c` in `s` at or behind `start`, or the length of
/// `s` where there is none.
pub fn find(s: &Vec<char>, start: usize, c: char) -> (at: usize)
    requires
        start <= s.len(),
    ensures
        start <= at <= s.len(),
        at - start == first_at(s@.skip(start as int), c),
{
    let mut i: usize = start;
    while i < s.len() && s[i] != c
        invariant
            start <= i <= s.len(),
            forall|k: int| start <= k < i ==> s@[k] != c,
        decreases s.len() - i,
    {
        i += 1;
    }
    proof {
        let t = s@.skip(start as int);
        assert forall|k: int| 0 <= k < i - start implies t[k] != c by {
            assert(t[k] == s@[k + start]);
        }
        first_at_found(t, c, i - start);
    }
    i
}

/// The characters of `s` from `from` up to `to`.
pub fn slice(s: &Vec<char>, from: usize, to: usize) -> (out: Vec<char>)
    requires
        from <= to <= s.len(),
    ensures
        out@ == s@.subrange(from as int, to as int),
{
    let mut out: Vec<char> = Vec::new();
    let mut i: usize = from;
    while i < to
        invariant
            from <= i <= to <= s.len(),
            out@ == s@.subrange(from as int, i as int),
        decreases to - i,
    {
        out.push(s[i]);
        i += 1;
        assert(out@ =~= s@.subrange(from as int, i as int));
    }
    out
}

/// The pieces of `s` between separators, where a separator begins with `mark`
/// and is `width` characters long.
pub fn split(s: &Vec<char>, mark: char, width: usize) -> (out: Vec<Vec<char>>)
    ensures
        rows(out@) == pieces(s@, mark, width as nat),
{
    let mut out: Vec<Vec<char>> = Vec::new();
    let n = s.len();
    let mut start: usize = 0;
    let mut done = false;
    assert(s@.skip(0) =~= s@);
    assert(rows(out@) + pieces(s@, mark, width as nat) =~= pieces(s@, mark, width as nat));
    while !done
        invariant
            n == s.len(),
            start <= n,
            !done ==> pieces(s@, mark, width as nat) == rows(out@) + pieces(
                s@.skip(start as int),
                mark,
                width as nat,
            ),
            done ==> pieces(s@, mark, width as nat) == rows(out@),
        decreases n - start + (if done { 0int } else { 1int }),
    {
        let at = find(s, start, mark);
        let ghost t = s@.skip(start as int);
        if width > 0 && width <= n - at {
            let piece = slice(s, start, at);
            proof {
                rows_push(out@, piece);
                let rest = s@.skip(at + width);
                assert(t.subrange(0, at - start) =~= piece@);
                assert(t.subrange(at - start + width, t.len() as int) =~= rest);
                assert(pieces(t, mark, width as nat) == seq![piece@] + pieces(rest, mark, width as nat));
                assert(rows(out@) + (seq![piece@] + pieces(rest, mark, width as nat)) =~= rows(
                    out@,
                ).push(piece@) + pieces(rest, mark, width as nat));
            }
            out.push(piece);
            start = at + width;
        } else {
            let piece = slice(s, start, n);
            proof {
                rows_push(out@, piece);
                assert(piece@ =~= t);
                assert(pieces(t, mark, width as nat) == seq![t]);
                assert(rows(out@) + seq![t] =~= rows(out@).push(t));
            }
            out.push(piece);
            done = true;
        }
    }
    out
}

/// Whether `s` begins with `prefix`.
pub fn begins_with(s: &Vec<char>, prefix: &Vec<char>) -> (yes: bool)
    ensures
        yes == starts_with(s@, prefix@),
{
    if prefix.len() > s.len() {
        return false;
    }
    let mut i: usize = 0;
    while i < prefix.len()
        invariant
            i <= prefix.len() <= s.len(),
            forall|k: int| 0 <= k < i ==> s@[k] == prefix@[k],
        decreases prefix.len() - i,
    {
        if s[i] != prefix[i] {
            assert(s@.subrange(0, prefix.len() as int)[i as int] != prefix@[i as int]);
            return false;
        }
        i += 1;
    }
    assert(s@.subrange(0, prefix.len() as int) =~= prefix@);
    true
}

/// The value of the first parameter that begins with `key`.
pub fn lookup(params: &Vec<Vec<char>>, key: &str) -> (value: Option<Vec<char>>)
    ensures
        chars_view(value) == value_of(rows(params@), key@),
{
    let k = chars_of(key);
    let ghost all = rows(params@);
    let mut i: usize = 0;
    assert(all.skip(0) =~= all);
    while i < params.len()
        invariant
            i <= params.len(),
            k@ == key@,
            all == rows(params@),
            value_of(all, key@) == value_of(all.skip(i as int), key@),
        decreases params.len() - i,
    {
        let ghost r = all.skip(i as int);
        assert(r[0] == params@[i as int]@);
        if begins_with(&params[i], &k) {
            let v = slice(&params[i], k.len(), params[i].len());
            assert(v@ =~= r[0].skip(k.len() as int));
            return Some(v);
        }
        assert(r.skip(1) =~= all.skip(i + 1));
        i += 1;
    }
    assert(all.skip(i as int).len() == 0);
    None
}

fn digit_value_of(c: char) -> (d: Option<u64>)
    ensures
        d is Some <==> is_digit(c),
        d matches Some(v) ==> v == digit_value(c) && v < 10,
{
    if c == '0' {
        Some(0)
    } else if c == '1' {
        Some(1)
    } else if c == '2' {
        Some(2)
    } else if c == '3' {
        Some(3)
    } else if c == '4' {
        Some(4)
    } else if c == '5' {
        Some(5)
    } else if c == '6' {
        Some(6)
    } else if c == '7' {
        Some(7)
    } else if c == '8' {
        Some(8)
    } else if c == '9' {
        Some(9)
    } else {
        None
    }
}

/// The number of a numeral of 64 bits; none for any other text.
pub fn read_numeral(s: &Vec<char>) -> (n: Option<u64>)
    ensures
        n is Some <==> is_numeral(s@),
        n matches Some(v) ==> v == parsed_decimal(s@),
{
    if s.len() == 0 {
        return None;
    }
    let mut acc: u64 = 0;
    let mut i: usize = 0;
    assert(s@.subrange(0, 0) =~= Seq::<char>::empty());
    while i < s.len()
        invariant
            i <= s.len(),
            forall|k: int| 0 <= k < i ==> is_digit(#[trigger] s@[k]),
            acc == parsed_decimal(s@.subrange(0, i as int)),
        decreases s.len() - i,
    {
        let ghost next = s@.subrange(0, i + 1);
        assert(next.drop_last() =~= s@.subrange(0, i as int));
        assert(next.last() == s@[i as int]);
        match digit_value_of(s[i]) {
            None => {
                return None;
            },
            Some(d) => {
                if acc > (u64::MAX - d) / 10 {
                    proof {
                        beginning_is_less(s@, i + 1);
                    }
                    return None;
                }
                acc = acc * 10 + d;
                i += 1;
            },
        }
    }
    assert(s@.subrange(0, s.len() as int) =~= s@);
    Some(acc)
}

/// Each item of `items` as a string.
pub fn strings_of(items: &Vec<Vec<char>>) -> (out: Vec<String>)
    ensures
        texts(out@) == rows(items@),
{
    let mut out: Vec<String> = Vec::new();
    let mut i: usize = 0;
    while i < items.len()
        invariant
            i <= items.len(),
            out.len() == i,
            forall|k: int| 0 <= k < i ==> out[k]@ == items[k]@,
        decreases items.len() - i,
    {
        out.push(string_of(&items[i]));
        i += 1;
    }
    assert(texts(out@) =~= rows(items@));
    out
}

/// Reads a redemption URI as a wallet does.
pub fn parse(uri: &str) -> (out: Option<RedemptionData>)
    ensures
        reading_view(out) == parsed(uri@),
{
    let s = chars_of(uri);
    let scheme = chars_of("monero_wallet:");
    if !begins_with(&s, &scheme) {
        return None;
    }
    let body = slice(&s, scheme.len(), s.len());
    assert(body@ =~= uri@.skip("monero_wallet:"@.len() as int));
    let q = find(&body, 0, '?');
    assert(body@.skip(0) =~= body@);
    let address = slice(&body, 0, q);
    let mut params: Vec<Vec<char>> = Vec::new();
    assert(rows(params@) =~= Seq::<Seq<char>>::empty());
    if q < body.len() {
        let query = slice(&body, q + 1, body.len());
        assert(query@ =~= body@.skip(q + 1));
        params = split(&query, '&', 1);
    }
    assert(rows(params@) == params_of(body@));
    let mut height: u64 = 0;
    match lookup(&params, "height=") {
        Some(v) => {
            match read_numeral(&v) {
                Some(h) => {
                    height = h;
                },
                None => {
                    return None;
                },
            }
        },
        None => {},
    }
    let mut seed: Vec<Vec<char>> = Vec::new();
    assert(rows(seed@) =~= Seq::<Seq<char>>::empty());
    match lookup(&params, "seed=") {
        Some(v) => {
            seed = split(&v, '%', 3);
        },
        None => {},
    }
    let mut txids: Vec<Vec<char>> = Vec::new();
    assert(rows(txids@) =~= Seq::<Seq<char>>::empty());
    match lookup(&params, "txids=") {
        Some(v) => {
            txids = split(&v, ',', 1);
        },
        None => {},
    }
    Some(
        RedemptionData {
            address: string_of(&address),
            seed: strings_of(&seed),
            height,
            txids: strings_of(&txids),
        },
    )
}

} // verus!
