//! Response headers: the table that goes out with a response, built from the
//! list of pairs that an application hands over.

use hyper::header::{
    HeaderMap, HeaderName, HeaderValue, InvalidHeaderName, InvalidHeaderValue, MaxSizeReached,
};
use vstd::prelude::*;

use crate::types::{ASGIError, Lookup};

verus! {

/// Header names, as the HTTP types hold them.
#[verifier::external_type_specification]
#[verifier::external_body]
pub struct ExHeaderName(hyper::header::HeaderName);

/// Header values, as the HTTP types hold them.
#[verifier::external_type_specification]
#[verifier::external_body]
pub struct ExHeaderValue(hyper::header::HeaderValue);

/// The error of a byte string that is no header name.
#[verifier::external_type_specification]
#[verifier::external_body]
pub struct ExInvalidHeaderName(hyper::header::InvalidHeaderName);

/// The error of a byte string that is no header value.
#[verifier::external_type_specification]
#[verifier::external_body]
pub struct ExInvalidHeaderValue(hyper::header::InvalidHeaderValue);

/// The error of a header table that takes no further name.
#[verifier::external_type_specification]
#[verifier::external_body]
pub struct ExMaxSizeReached(hyper::header::MaxSizeReached);

/// The multimap from header names to header values.
#[verifier::external_type_specification]
#[verifier::external_body]
#[verifier::reject_recursive_types(T)]
pub struct ExHeaderMap<T>(hyper::header::HeaderMap<T>);

/// The bytes that a header name holds: lower case throughout.
pub uninterp spec fn name_bytes(name: HeaderName) -> Seq<u8>;

/// The bytes that a header value holds.
pub uninterp spec fn value_bytes(value: HeaderValue) -> Seq<u8>;

/// What a header table holds: for each name its values, oldest first.
pub uninterp spec fn fields(headers: HeaderMap<HeaderValue>) -> Map<Seq<u8>, Seq<Seq<u8>>>;

/// The bytes that may stand in a header name (the `tchar` of HTTP).
pub open spec fn is_token_byte(b: u8) -> bool {
    ||| 'a' as u8 <= b <= 'z' as u8
    ||| 'A' as u8 <= b <= 'Z' as u8
    ||| '0' as u8 <= b <= '9' as u8
    ||| seq![
        '!', '#', '$', '%', '&', '\'', '*', '+', '-', '.', '^', '_', '`', '|', '~',
    ].contains(b as char)
}

/// The bytes that may stand in a header value.
pub open spec fn is_value_byte(b: u8) -> bool {
    b == '\t' as u8 || (b >= 32 && b != 127)
}

/// Whether `raw` is a header name.
pub open spec fn is_name(raw: Seq<u8>) -> bool {
    &&& 0 < raw.len() <= 65535
    &&& forall|i: int| 0 <= i < raw.len() ==> is_token_byte(#[trigger] raw[i])
}

/// Whether `raw` is a header value.
pub open spec fn is_value(raw: Seq<u8>) -> bool {
    forall|i: int| 0 <= i < raw.len() ==> is_value_byte(#[trigger] raw[i])
}

/// `b` in lower case.
pub open spec fn lower_byte(b: u8) -> u8 {
    if 'A' as u8 <= b <= 'Z' as u8 {
        (b + 32) as u8
    } else {
        b
    }
}

/// `raw` in lower case.
pub open spec fn lower(raw: Seq<u8>) -> Seq<u8> {
    raw.map_values(|b: u8| lower_byte(b))
}

/// `HeaderName::from_bytes` accepts exactly the non-empty strings of token
/// bytes up to 65535 long, and holds them in lower case.
pub assume_specification[ HeaderName::from_bytes ](src: &[u8]) -> (res: Result<
    HeaderName,
    InvalidHeaderName,
>)
    ensures
        res is Ok <==> is_name(src@),
        res matches Ok(name) ==> name_bytes(name) == lower(src@),
;

/// `HeaderValue::from_bytes` accepts exactly the strings of value bytes, and
/// holds them unchanged.
pub assume_specification[ HeaderValue::from_bytes ](src: &[u8]) -> (res: Result<
    HeaderValue,
    InvalidHeaderValue,
>)
    ensures
        res is Ok <==> is_value(src@),
        res matches Ok(value) ==> value_bytes(value) == src@,
;

/// `HeaderValue::clone` keeps the bytes.
pub assume_specification[ <HeaderValue as Clone>::clone ](value: &HeaderValue) -> (res: HeaderValue)
    ensures
        value_bytes(res) == value_bytes(*value),
;

/// Whether a table always takes one more value: it does while its names are
/// this few. A fuller one may or may not, by how its names hash.
pub open spec fn is_roomy(table: Map<Seq<u8>, Seq<Seq<u8>>>) -> bool {
    table.dom().finite() && table.dom().len() < 6554
}

/// Whether a table never takes one more value: its names are this many.
pub open spec fn is_full(table: Map<Seq<u8>, Seq<Seq<u8>>>) -> bool {
    table.dom().finite() && table.dom().len() >= 24576
}

/// The table that holds nothing.
pub open spec fn no_fields() -> Map<Seq<u8>, Seq<Seq<u8>>> {
    Map::empty()
}

/// The lower-case name of the `Server` header.
pub open spec fn server_name() -> Seq<u8> {
    seq!['s' as u8, 'e' as u8, 'r' as u8, 'v' as u8, 'e' as u8, 'r' as u8]
}

/// The constant `SERVER`: the name of the `Server` header.
#[verifier::external_body]
fn server_header() -> (res: HeaderName)
    ensures
        name_bytes(res) == server_name(),
{
    hyper::header::SERVER
}

/// `HeaderMap::new` gives a table that holds nothing.
#[verifier::external_body]
fn new_headers() -> (res: HeaderMap<HeaderValue>)
    ensures
        fields(res) == no_fields(),
{
    HeaderMap::new()
}

/// `HeaderMap::insert` makes `value` the only value of `name` and touches no
/// other name. It panics where the table is full, which no roomy one is.
#[verifier::external_body]
fn insert_header(headers: &mut HeaderMap<HeaderValue>, name: HeaderName, value: HeaderValue)
    requires
        is_roomy(fields(*old(headers))),
    ensures
        fields(*final(headers)) == fields(*old(headers)).insert(
            name_bytes(name),
            seq![value_bytes(value)],
        ),
{
    headers.insert(name, value);
}

/// The values of `name` in a table that holds `table`.
pub open spec fn values_of(table: Map<Seq<u8>, Seq<Seq<u8>>>, name: Seq<u8>) -> Seq<Seq<u8>> {
    if table.contains_key(name) {
        table[name]
    } else {
        Seq::empty()
    }
}

/// The table with one more value of `name`, after those that it has.
pub open spec fn appended(
    table: Map<Seq<u8>, Seq<Seq<u8>>>,
    name: Seq<u8>,
    value: Seq<u8>,
) -> Map<Seq<u8>, Seq<Seq<u8>>> {
    table.insert(name, values_of(table, name).push(value))
}

/// `HeaderMap::try_append` puts `value` behind the values that `name` has and
/// tells whether it had any. Where it fails it leaves the table as it is: on a
/// roomy table it never does, on a full one always.
#[verifier::external_body]
fn append_header(
    headers: &mut HeaderMap<HeaderValue>,
    name: HeaderName,
    value: HeaderValue,
) -> (res: Result<bool, MaxSizeReached>)
    ensures
        res matches Ok(present) ==> {
            &&& !is_full(fields(*old(headers)))
            &&& present == fields(*old(headers)).contains_key(name_bytes(name))
            &&& fields(*final(headers)) == appended(
                fields(*old(headers)),
                name_bytes(name),
                value_bytes(value),
            )
        },
        res is Err ==> {
            &&& fields(*final(headers)) == fields(*old(headers))
            &&& !is_roomy(fields(*old(headers)))
        },
{
    headers.try_append(name, value)
}

/// The pairs of an event's `headers`: none where the key is missing or holds
/// something else.
pub open spec fn header_pairs<E>(
    headers: Lookup<Option<Vec<Vec<Vec<u8>>>>, E>,
) -> Seq<Vec<Vec<u8>>> {
    match headers {
        Lookup::Present(Some(pairs)) => pairs@,
        _ => Seq::empty(),
    }
}

/// Whether each pair has its two parts.
pub open spec fn pairs_complete(pairs: Seq<Vec<Vec<u8>>>) -> bool {
    forall|i: int| 0 <= i < pairs.len() ==> (#[trigger] pairs[i])@.len() >= 2
}

/// The table with one more pair. A pair that is no header is left out.
pub open spec fn with_pair(
    table: Map<Seq<u8>, Seq<Seq<u8>>>,
    pair: Seq<Vec<u8>>,
) -> Map<Seq<u8>, Seq<Seq<u8>>> {
    if is_name(pair[0]@) && is_value(pair[1]@) {
        appended(table, lower(pair[0]@), pair[1]@)
    } else {
        table
    }
}

/// The headers of a response: the server's own, then the pairs in their order.
pub open spec fn header_table(server: Seq<u8>, pairs: Seq<Vec<Vec<u8>>>) -> Map<
    Seq<u8>,
    Seq<Seq<u8>>,
>
    decreases pairs.len(),
{
    if pairs.len() == 0 {
        no_fields().insert(server_name(), seq![server])
    } else {
        with_pair(header_table(server, pairs.drop_last()), pairs.last()@)
    }
}

/// Whether the header table always holds these headers: their names, with that
/// of the server, are few enough.
pub open spec fn sure_to_fit(server: Seq<u8>, pairs: Seq<Vec<Vec<u8>>>) -> bool {
    header_table(server, pairs).dom().len() < 6554
}

/// Whether the header table never holds these headers: their names, with that of
/// the server, are too many.
pub open spec fn sure_to_overflow(server: Seq<u8>, pairs: Seq<Vec<Vec<u8>>>) -> bool {
    header_table(server, pairs).dom().len() > 24576
}

/// The table of a part of the pairs has no more names than that of all.
proof fn lemma_table_grows(server: Seq<u8>, pairs: Seq<Vec<Vec<u8>>>, k: int)
    requires
        0 <= k <= pairs.len(),
    ensures
        header_table(server, pairs).dom().finite(),
        header_table(server, pairs.take(k)).dom().finite(),
        header_table(server, pairs.take(k)).dom().len() <= header_table(server, pairs).dom().len(),
    decreases pairs.len(),
{
    if pairs.len() > 0 && k < pairs.len() {
        lemma_table_grows(server, pairs.drop_last(), k);
        assert(pairs.drop_last().take(k) =~= pairs.take(k));
    } else {
        assert(pairs.take(k) =~= pairs);
        if pairs.len() > 0 {
            lemma_table_grows(server, pairs.drop_last(), k - 1);
        }
    }
}

/// A table has at most one name more than the pairs that fill it, so up to 6552
/// pairs always fit.
pub proof fn law_few_pairs_fit(server: Seq<u8>, pairs: Seq<Vec<Vec<u8>>>)
    ensures
        header_table(server, pairs).dom().finite(),
        header_table(server, pairs).dom().len() <= pairs.len() + 1,
        pairs.len() <= 6552 ==> sure_to_fit(server, pairs),
        !(sure_to_fit(server, pairs) && sure_to_overflow(server, pairs)),
    decreases pairs.len(),
{
    if pairs.len() > 0 {
        law_few_pairs_fit(server, pairs.drop_last());
    }
}

/// Builds the headers of a response. Fails only where the header table cannot
/// hold them.
pub fn adapt_headers<E>(
    server: HeaderValue,
    headers: &Lookup<Option<Vec<Vec<Vec<u8>>>>, E>,
) -> (res: Result<HeaderMap<HeaderValue>, ASGIError>)
    requires
        pairs_complete(header_pairs(*headers)),
    ensures
        res matches Ok(table) ==> fields(table) == header_table(
            value_bytes(server),
            header_pairs(*headers),
        ),
        res matches Err(err) ==> err == ASGIError::HeaderOverflow,
        sure_to_fit(value_bytes(server), header_pairs(*headers)) ==> res is Ok,
        sure_to_overflow(value_bytes(server), header_pairs(*headers)) ==> res is Err,
{
    let mut table = new_headers();
    let ghost own = value_bytes(server);
    insert_header(&mut table, server_header(), server);
    proof {
        law_few_pairs_fit(own, header_pairs(*headers));
    }
    if let Lookup::Present(Some(pairs)) = headers {
        let mut i: usize = 0;
        assert(pairs@.take(0) =~= Seq::empty());
        while i < pairs.len()
            invariant
                i <= pairs@.len(),
                pairs_complete(pairs@),
                fields(table) == header_table(own, pairs@.take(i as int)),
                fields(table).dom().finite(),
                fields(table).dom().len() <= 24576,
                header_pairs(*headers) == pairs@,
                own == value_bytes(server),
            decreases pairs@.len() - i,
        {
            let pair = &pairs[i];
            proof {
                assert(pairs@.take(i + 1).drop_last() =~= pairs@.take(i as int));
                assert(pairs@.take(i + 1).last() == *pair);
                lemma_table_grows(own, pairs@, i as int);
            }
            if let (Ok(name), Ok(value)) = (
                HeaderName::from_bytes(pair[0].as_slice()),
                HeaderValue::from_bytes(pair[1].as_slice()),
            ) {
                if append_header(&mut table, name, value).is_err() {
                    return Err(ASGIError::HeaderOverflow);
                }
            }
            i += 1;
        }
        assert(pairs@.take(i as int) =~= pairs@);
    }
    Ok(table)
}

/// Whether a pair is a header of this name.
pub open spec fn is_header_of(pair: Vec<Vec<u8>>, name: Seq<u8>) -> bool {
    is_name(pair@[0]@) && is_value(pair@[1]@) && lower(pair@[0]@) == name
}

/// The values that the pairs give a name, in the order of the pairs.
pub open spec fn pair_values(pairs: Seq<Vec<Vec<u8>>>, name: Seq<u8>) -> Seq<Seq<u8>> {
    pairs.filter(|pair: Vec<Vec<u8>>| is_header_of(pair, name)).map_values(
        |pair: Vec<Vec<u8>>| pair@[1]@,
    )
}

/// The values that the server itself gives a name.
pub open spec fn own_values(server: Seq<u8>, name: Seq<u8>) -> Seq<Seq<u8>> {
    if name == server_name() {
        seq![server]
    } else {
        Seq::empty()
    }
}

/// A response has, under each name, the server's own value and then those of
/// the pairs of that name in their order; no name is there without a value.
pub proof fn law_header_values(server: Seq<u8>, pairs: Seq<Vec<Vec<u8>>>, name: Seq<u8>)
    ensures
        values_of(header_table(server, pairs), name) == own_values(server, name) + pair_values(
            pairs,
            name,
        ),
        header_table(server, pairs).contains_key(name) <==> values_of(
            header_table(server, pairs),
            name,
        ).len() > 0,
    decreases pairs.len(),
{
    reveal(Seq::filter);
    if pairs.len() == 0 {
        assert(pair_values(pairs, name) =~= Seq::empty());
    } else {
        let earlier = pairs.drop_last();
        let pair = pairs.last();
        law_header_values(server, earlier, name);
        if is_header_of(pair, name) {
            assert(pair_values(pairs, name) =~= pair_values(earlier, name).push(pair@[1]@));
        } else {
            assert(pair_values(pairs, name) =~= pair_values(earlier, name));
        }
    }
}

/// Every response names the server first under the `Server` header.
pub proof fn law_server_first(server: Seq<u8>, pairs: Seq<Vec<Vec<u8>>>)
    ensures
        header_table(server, pairs).contains_key(server_name()),
        header_table(server, pairs)[server_name()][0] == server,
{
    law_header_values(server, pairs, server_name());
}

} // verus!
