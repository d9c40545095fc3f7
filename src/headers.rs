//! A message's header map, turned into the broker client's header list.
use std::collections::HashMap;
use rdkafka::message::Header;
use rdkafka::message::OwnedHeaders;
use vstd::prelude::*;

verus! {

#[verifier::external_type_specification]
#[verifier::external_body]
pub struct ExOwnedHeaders(OwnedHeaders);

/// The key-value pairs that an `OwnedHeaders` holds, in insertion order.
pub uninterp spec fn header_entries(h: OwnedHeaders) -> Seq<(Seq<char>, Seq<char>)>;

/// Relies on `OwnedHeaders::new`: an empty header list.
#[verifier::external_body]
fn new_headers() -> (r: OwnedHeaders)
    ensures
        header_entries(r).len() == 0,
{
    OwnedHeaders::new()
}

/// Relies on `OwnedHeaders::insert`: appends the header `key` with the bytes
/// of `value`.
#[verifier::external_body]
fn insert_header(h: OwnedHeaders, key: &str, value: &str) -> (r: OwnedHeaders)
    ensures
        header_entries(r) == header_entries(h).push((key@, value@)),
{
    h.insert(Header { key, value: Some(value) })
}

/// Whether `pairs` lists the entries of `map`, each key once, in some order.
pub open spec fn lists_entries(pairs: Seq<(String, String)>, map: Map<String, String>) -> bool {
    &&& pairs.len() == map.dom().len()
    &&& forall|i: int|
        0 <= i < pairs.len() ==> map.contains_key(#[trigger] pairs[i].0) && map[pairs[i].0]
            == pairs[i].1
    &&& forall|i: int, j: int|
        0 <= i < j < pairs.len() ==> #[trigger] pairs[i].0 != #[trigger] pairs[j].0
}

/// Relies on `HashMap::iter`: visits every entry once, in an order that
/// the map's hasher decides.
#[verifier::external_body]
fn map_entries(map: &HashMap<String, String>) -> (r: Vec<(String, String)>)
    ensures
        lists_entries(r@, map@),
{
    map.iter().map(|(k, v)| (k.clone(), v.clone())).collect()
}

/// The texts of each key and value, in order.
pub open spec fn entry_views(pairs: Seq<(String, String)>) -> Seq<(Seq<char>, Seq<char>)> {
    pairs.map_values(|p: (String, String)| (p.0@, p.1@))
}

/// Appends every entry of `hmap` to `owned_headers`, each once, in the order
/// the map is walked.
pub fn convert_hashmap_headers_to_ownedheaders(
    hmap: HashMap<String, String>,
    owned_headers: OwnedHeaders,
) -> (r: OwnedHeaders)
    ensures
        exists|pairs: Seq<(String, String)>|
            lists_entries(pairs, hmap@) && header_entries(r) == header_entries(owned_headers)
                + entry_views(pairs),
{
    let pairs = map_entries(&hmap);
    let mut out = owned_headers;
    let mut i: usize = 0;
    while i < pairs.len()
        invariant
            i <= pairs@.len(),
            header_entries(out) == header_entries(owned_headers) + entry_views(pairs@.take(i as int)),
        decreases pairs@.len() - i,
    {
        out = insert_header(out, pairs[i].0.as_str(), pairs[i].1.as_str());
        proof {
            assert(entry_views(pairs@.take(i + 1)) =~= entry_views(pairs@.take(i as int)).push(
                (pairs@[i as int].0@, pairs@[i as int].1@),
            ));
            assert(header_entries(out) =~= header_entries(owned_headers) + entry_views(
                pairs@.take(i + 1),
            ));
        }
        i = i + 1;
    }
    assert(pairs@.take(i as int) =~= pairs@);
    out
}

/// The header list of a message: its map's entries, or none.
pub fn message_headers(headers: &Option<HashMap<String, String>>) -> (r: OwnedHeaders)
    ensures
        headers.is_none() ==> header_entries(r).len() == 0,
        headers matches Some(h) ==> exists|pairs: Seq<(String, String)>|
            lists_entries(pairs, h@) && header_entries(r) =~= entry_views(pairs),
{
    let owned = new_headers();
    match headers {
        Some(h) => {
            let r = convert_hashmap_headers_to_ownedheaders(h.clone(), owned);
            proof {
                let pairs = choose|pairs: Seq<(String, String)>|
                    lists_entries(pairs, h@) && header_entries(r) == header_entries(owned)
                        + entry_views(pairs);
                assert(header_entries(r) =~= entry_views(pairs));
            }
            r
        },
        None => owned,
    }
}

} // verus!
