//! What the headers of a response are, name by name and pair by pair.

use hyper::header::{HeaderMap, HeaderValue};
use vstd::prelude::*;

use crate::headers::{
    adapt_headers, fields, header_pairs, header_table, is_name, is_value, law_few_pairs_fit,
    law_header_values, lower, pair_values, pairs_complete, server_name, value_bytes,
};
use crate::types::{ASGIError, Lookup};

verus! {

/// A header name is made of letters, digits and fifteen signs, is not empty and
/// no longer than 65535; a header value is made of tabs and what is no control
/// byte; lower case changes the capital letters alone.
pub proof fn law_header_bytes(raw: Seq<u8>, i: int)
    requires
        0 <= i < raw.len(),
    ensures
        is_name(raw) ==> raw.len() <= 65535 && {
            ||| 97 <= raw[i] <= 122
            ||| 65 <= raw[i] <= 90
            ||| 48 <= raw[i] <= 57
            ||| raw[i] == 33 || raw[i] == 42 || raw[i] == 43 || raw[i] == 45 || raw[i] == 46
            ||| 35 <= raw[i] <= 39
            ||| 94 <= raw[i] <= 96
            ||| raw[i] == 124 || raw[i] == 126
        },
        is_value(raw) ==> raw[i] == 9 || 32 <= raw[i] <= 126 || 128 <= raw[i],
        lower(raw).len() == raw.len(),
        65 <= raw[i] <= 90 ==> lower(raw)[i] == raw[i] + 32,
        !(65 <= raw[i] <= 90) ==> lower(raw)[i] == raw[i],
{
}

/// Every string of such bytes is a name, and every string of such bytes a value.
pub proof fn law_header_strings(raw: Seq<u8>)
    ensures
        !is_name(Seq::empty()),
        is_value(Seq::empty()),
        0 < raw.len() <= 65535 && (forall|i: int|
            0 <= i < raw.len() ==> {
                ||| 97 <= #[trigger] raw[i] <= 122
                ||| 65 <= raw[i] <= 90
                ||| 48 <= raw[i] <= 57
                ||| raw[i] == 33 || raw[i] == 42 || raw[i] == 43 || raw[i] == 45 || raw[i] == 46
                ||| 35 <= raw[i] <= 39
                ||| 94 <= raw[i] <= 96
                ||| raw[i] == 124 || raw[i] == 126
            }) ==> is_name(raw),
        (forall|i: int|
            0 <= i < raw.len() ==> (#[trigger] raw[i] == 9 || 32 <= raw[i] <= 126 || 128
                <= raw[i])) ==> is_value(raw),
{
    let signs = seq!['!', '#', '$', '%', '&', '\'', '*', '+', '-', '.', '^', '_', '`', '|', '~'];
    assert(signs[0] == '!' && signs[1] == '#' && signs[2] == '$' && signs[3] == '%' && signs[4]
        == '&' && signs[5] == '\'' && signs[6] == '*' && signs[7] == '+' && signs[8] == '-'
        && signs[9] == '.' && signs[10] == '^' && signs[11] == '_' && signs[12] == '`' && signs[13]
        == '|' && signs[14] == '~');
}

/// The pairs under `headers` are those of the list that it holds; any other item
/// gives none.
pub proof fn law_header_pairs<E>(headers: Lookup<Option<Vec<Vec<Vec<u8>>>>, E>)
    ensures
        headers matches Lookup::Present(Some(pairs)) ==> header_pairs(headers) == pairs@,
        !(headers matches Lookup::Present(Some(_))) ==> header_pairs(headers).len() == 0,
{
}

/// `adapt_headers` takes any list of pairs with two parts each.
pub proof fn law_adapt_headers_takes<E>(
    server: HeaderValue,
    headers: Lookup<Option<Vec<Vec<Vec<u8>>>>, E>,
)
    requires
        headers matches Lookup::Present(Some(pairs)) ==> forall|i: int|
            0 <= i < pairs@.len() ==> (#[trigger] pairs@[i])@.len() >= 2,
    ensures
        call_requires(adapt_headers::<E>, (server, &headers)),
{
    law_header_pairs(headers);
    assert(pairs_complete(header_pairs(headers)));
}

/// Under each name, `adapt_headers` gives the server's value, where the name is
/// that of the `Server` header, and then the values of all pairs of that name
/// that are headers, in the order of the pairs. No name is there without one. It
/// fails only where the names in all are 6554 or more, so never up to 6552 pairs,
/// and always where they are more than 24576.
pub proof fn law_adapt_headers<E>(
    server: HeaderValue,
    headers: Lookup<Option<Vec<Vec<Vec<u8>>>>, E>,
    pairs: Seq<Vec<Vec<u8>>>,
    name: Seq<u8>,
    res: Result<HeaderMap<HeaderValue>, ASGIError>,
)
    requires
        call_ensures(adapt_headers::<E>, (server, &headers), res),
        headers matches Lookup::Present(Some(list)) ==> pairs == list@,
        !(headers matches Lookup::Present(Some(_))) ==> pairs.len() == 0,
    ensures
        pairs.len() <= 6552 ==> res is Ok,
        res matches Err(err) ==> err == ASGIError::HeaderOverflow && header_table(
            value_bytes(server),
            pairs,
        ).dom().len() >= 6554,
        header_table(value_bytes(server), pairs).dom().len() > 24576 ==> res is Err,
        res matches Ok(table) ==> {
            let own = if name == seq![115u8, 101u8, 114u8, 118u8, 101u8, 114u8] {
                seq![value_bytes(server)]
            } else {
                Seq::empty()
            };
            let given = pairs.filter(
                |pair: Vec<Vec<u8>>|
                    is_name(pair@[0]@) && is_value(pair@[1]@) && lower(pair@[0]@) == name,
            ).map_values(|pair: Vec<Vec<u8>>| pair@[1]@);
            &&& fields(table).contains_key(name) <==> (own + given).len() > 0
            &&& fields(table).contains_key(name) ==> fields(table)[name] == own + given
        },
{
    law_header_pairs(headers);
    assert(pairs =~= header_pairs(headers));
    law_few_pairs_fit(value_bytes(server), pairs);
    law_header_values(value_bytes(server), pairs, name);
    assert(server_name() =~= seq![115u8, 101u8, 114u8, 118u8, 101u8, 114u8]);
    assert(pair_values(pairs, name) =~= pairs.filter(
        |pair: Vec<Vec<u8>>|
            is_name(pair@[0]@) && is_value(pair@[1]@) && lower(pair@[0]@) == name,
    ).map_values(|pair: Vec<Vec<u8>>| pair@[1]@)) by {
        assert((|pair: Vec<Vec<u8>>| crate::headers::is_header_of(pair, name)) =~= (
            |pair: Vec<Vec<u8>>|
                is_name(pair@[0]@) && is_value(pair@[1]@) && lower(pair@[0]@) == name));
    }
}

/// One more pair adds its value behind those of its name and changes no other; a
/// pair that is no header changes nothing. Without pairs there is the server's
/// header alone.
pub proof fn law_one_more_pair(server: Seq<u8>, pairs: Seq<Vec<Vec<u8>>>, pair: Vec<Vec<u8>>)
    ensures
        header_table(server, Seq::empty()) == Map::<Seq<u8>, Seq<Seq<u8>>>::empty().insert(
            seq![115u8, 101u8, 114u8, 118u8, 101u8, 114u8],
            seq![server],
        ),
        ({
            let before = header_table(server, pairs);
            let after = header_table(server, pairs.push(pair));
            let name = lower(pair@[0]@);
            if is_name(pair@[0]@) && is_value(pair@[1]@) {
                &&& after.contains_key(name)
                &&& after[name].last() == pair@[1]@
                &&& after[name].drop_last() == if before.contains_key(name) {
                    before[name]
                } else {
                    Seq::empty()
                }
                &&& after.remove(name) == before.remove(name)
            } else {
                after == before
            }
        }),
{
    assert(pairs.push(pair).drop_last() =~= pairs);
    assert(server_name() =~= seq![115u8, 101u8, 114u8, 118u8, 101u8, 114u8]);
    let before = header_table(server, pairs);
    let after = header_table(server, pairs.push(pair));
    let name = lower(pair@[0]@);
    if is_name(pair@[0]@) && is_value(pair@[1]@) {
        assert(after[name].drop_last() =~= if before.contains_key(name) {
            before[name]
        } else {
            Seq::empty()
        });
        assert(after.remove(name) =~= before.remove(name));
    }
}

} // verus!
