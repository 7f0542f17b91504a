//! What the envelope takes from the `flexbuffers` and `bytes` crates.
use crate::layout::lookup_safe;
use bytes::Bytes;
use vstd::prelude::*;

verus! {

/// The `bytes` crate's shared byte buffer, carried as an opaque value.
#[verifier::external_type_specification]
#[verifier::external_body]
pub struct ExBytes(Bytes);

/// The bytes that a `Bytes` buffer holds.
pub uninterp spec fn bytes_content(b: Bytes) -> Seq<u8>;

/// The flexbuffer that `flexbuffers::Builder` lays out for a map with the one
/// key `tag`, whose value is a map from each key of `fields` to its string.
pub uninterp spec fn flex_tagged_map(
    tag: Seq<char>,
    fields: Seq<(Seq<char>, Seq<char>)>,
) -> Seq<u8>;

/// The first key, in the map's sorted order, of the map at the root of `buf`.
pub uninterp spec fn flex_first_key(buf: Seq<u8>) -> Option<Seq<char>>;

/// The string found under `key` in the map found under `tag` in the map at
/// the root of `buf`.
pub uninterp spec fn flex_nested_str(buf: Seq<u8>, tag: Seq<char>, key: Seq<char>) -> Option<
    Seq<char>,
>;

/// A flexbuffer map key: keys are stored NUL-terminated.
pub open spec fn valid_key(k: Seq<char>) -> bool {
    !k.contains('\0')
}

/// Keys that a flexbuffer map can hold: valid and pairwise distinct.
pub open spec fn valid_fields(fields: Seq<(Seq<char>, Seq<char>)>) -> bool {
    &&& forall|i: int| 0 <= i < fields.len() ==> valid_key(#[trigger] fields[i].0)
    &&& forall|i: int, j: int|
        0 <= i < j < fields.len() ==> #[trigger] fields[i].0 != #[trigger] fields[j].0
}

/// The string that `fields` gives to `key`, if any.
pub open spec fn field_lookup(fields: Seq<(Seq<char>, Seq<char>)>, key: Seq<char>) -> Option<
    Seq<char>,
> {
    if exists|i: int| 0 <= i < fields.len() && #[trigger] fields[i].0 == key {
        Some(fields[choose|i: int| 0 <= i < fields.len() && #[trigger] fields[i].0 == key].1)
    } else {
        None
    }
}

/// The strings of a list of key and value pairs.
pub open spec fn pairs_model(fields: Seq<(&str, &str)>) -> Seq<(Seq<char>, Seq<char>)> {
    fields.map_values(|p: (&str, &str)| (p.0@, p.1@))
}

/// The model of an optional string.
pub open spec fn opt_string_model(o: Option<String>) -> Option<Seq<char>> {
    match o {
        Some(s) => Some(s@),
        None => None,
    }
}

/// Relies on `From<Vec<u8>> for bytes::Bytes`, which hands the vector's bytes
/// over to the buffer.
#[verifier::external_body]
pub(crate) fn bytes_from_vec(v: Vec<u8>) -> (r: Bytes)
    ensures
        bytes_content(r) == v@,
{
    Bytes::from(v)
}

/// Relies on `flexbuffers::Builder`: `start_map` on the builder and on a
/// `MapBuilder`, `MapBuilder::push` of a `&str`, and `take_buffer`. A key with
/// an internal NUL trips a debug assertion in `push_key`, so none is admitted.
/// The result is a well-formed flexbuffer: a root map of one entry, stored by
/// offset, whose value is a map of strings, with every offset, length and
/// slot inside the buffer.
#[verifier::external_body]
pub(crate) fn build_tagged_map(tag: &str, fields: &[(&str, &str)]) -> (r: Vec<u8>)
    requires
        valid_key(tag@),
        valid_fields(pairs_model(fields@)),
    ensures
        r@ == flex_tagged_map(tag@, pairs_model(fields@)),
        fields@.len() > 0 ==> lookup_safe(r@),
{
    let mut builder = flexbuffers::Builder::default();
    let mut root = builder.start_map();
    let mut inner = root.start_map(tag);
    for (key, value) in fields.iter() {
        inner.push(key, *value);
    }
    inner.end_map();
    root.end_map();
    builder.take_buffer()
}

/// Relies on `flexbuffers::Reader::get_root`, `Reader::get_map`,
/// `MapReader::keys_vector`, `VectorReader::idx` and `Reader::get_key`: the
/// first key of the root map. `get_root` refuses a buffer of fewer than three
/// bytes, and every read here stays below the root's address. A map that
/// `build_tagged_map` laid out has its one key first.
#[verifier::external_body]
pub(crate) fn first_key(buf: &[u8]) -> (r: Option<String>)
    ensures
        opt_string_model(r) == flex_first_key(buf@),
        buf@.len() < 3 ==> r is None,
        forall|tag: Seq<char>, fields: Seq<(Seq<char>, Seq<char>)>|
            valid_key(tag) && valid_fields(fields) && buf@ == #[trigger] flex_tagged_map(
                tag,
                fields,
            ) ==> opt_string_model(r) == Some(tag),
{
    let root = flexbuffers::Reader::get_root(buf).ok()?;
    let map = root.get_map().ok()?;
    let key = map.keys_vector().idx(0).get_key().ok()?;
    Some(key.to_owned())
}

/// Relies on `flexbuffers::Reader::get_root`, `Reader::get_map`,
/// `MapReader::index` with a key and `Reader::get_str`: the string at
/// `root[tag][key]`. In a map that `build_tagged_map` laid out, that is the
/// string pushed under `key`, and a key that was not pushed is not found.
/// The key search and the string read index the buffer at addresses and
/// lengths that the buffer holds, and panic where those point past its end:
/// `lookup_safe` admits only buffers on which every such read is in bounds.
#[verifier::external_body]
pub(crate) fn nested_str(buf: &[u8], tag: &str, key: &str) -> (r: Option<String>)
    requires
        lookup_safe(buf@),
    ensures
        opt_string_model(r) == flex_nested_str(buf@, tag@, key@),
        forall|fields: Seq<(Seq<char>, Seq<char>)>|
            valid_key(tag@) && valid_key(key@) && valid_fields(fields) && buf@
                == #[trigger] flex_tagged_map(tag@, fields) ==> opt_string_model(r)
                == field_lookup(fields, key@),
{
    let root = flexbuffers::Reader::get_root(buf).ok()?;
    let inner = root.get_map().ok()?.index(tag).ok()?;
    let value = inner.get_map().ok()?.index(key).ok()?.get_str().ok()?;
    Some(value.to_owned())
}

} // verus!
