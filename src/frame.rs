//! The output frame: a four-byte little-endian length header followed by the
//! JSON text of the palette.

use vstd::prelude::*;

use crate::palette::{
    all_hex, field_name, is_hex_color, lemma_field_name_len, spec_field_name, spec_field_names, Colors,
    FIELD_COUNT,
};

verus! {

#[verifier::external_type_specification]
#[verifier::external_body]
pub struct ExJsonError(serde_json::Error);

/// The compact JSON text, as UTF-8 bytes, of the object whose string-valued
/// members are `keys[i]: values[i]`.
pub uninterp spec fn json_object_bytes(keys: Seq<Seq<char>>, values: Seq<Seq<char>>) -> Seq<u8>;

pub open spec fn string_views(v: Seq<String>) -> Seq<Seq<char>> {
    v.map_values(|s: String| s@)
}

/// An upper bound on the length of the compact JSON text of the object
/// `keys[i]: values[i]`: two braces, and for each member its two quoted
/// strings, a colon and a comma, each character written in at most six bytes.
pub open spec fn json_size_bound(keys: Seq<Seq<char>>, values: Seq<Seq<char>>) -> nat
    decreases keys.len(),
{
    if keys.len() == 0 || values.len() == 0 {
        2
    } else {
        json_size_bound(keys.drop_last(), values.drop_last())
            + 6 * (keys.last().len() + values.last().len() + 1)
    }
}

/// Relies on serde_json::to_vec applied to a `serde_json::Map` of string
/// values: the compact JSON text of that object, which depends on the members
/// alone. It cannot fail: the keys are strings and the writer is a `Vec`. Each
/// character is written raw (at most four UTF-8 bytes) or as an escape of at
/// most six bytes (`\u00XX`), so the text stays within `json_size_bound`.
#[verifier::external_body]
fn json_string_object(keys: &Vec<String>, values: &Vec<String>) -> (r: Result<Vec<u8>, serde_json::Error>)
    requires
        keys@.len() == values@.len(),
    ensures
        r is Ok,
        r matches Ok(b) ==> b@ == json_object_bytes(string_views(keys@), string_views(values@)),
        r matches Ok(b) ==> b@.len() <= json_size_bound(string_views(keys@), string_views(values@)),
{
    let map: serde_json::Map<String, serde_json::Value> = keys
        .iter()
        .zip(values.iter())
        .map(|(k, v)| (k.clone(), serde_json::Value::String(v.clone())))
        .collect();
    serde_json::to_vec(&map)
}

/// The JSON text of a palette: one string member per slot, named as the slot.
pub fn colors_json(colors: &Colors) -> (r: Vec<u8>)
    ensures
        r@ == json_object_bytes(spec_field_names(), colors.values()),
        r@.len() <= json_size_bound(spec_field_names(), colors.values()),
{
    let mut keys: Vec<String> = Vec::new();
    let mut values: Vec<String> = Vec::new();
    let mut i: usize = 0;
    while i < FIELD_COUNT
        invariant
            i <= FIELD_COUNT,
            keys@.len() == i,
            values@.len() == i,
            forall|j: int| 0 <= j < i ==> #[trigger] keys@[j]@ == spec_field_names()[j],
            forall|j: int| 0 <= j < i ==> #[trigger] values@[j]@ == colors.values()[j],
        decreases FIELD_COUNT - i,
    {
        keys.push(field_name(i).to_string());
        values.push(colors.field(i).clone());
        i = i + 1;
    }
    assert(string_views(keys@) =~= spec_field_names());
    assert(string_views(values@) =~= colors.values());
    json_string_object(&keys, &values).unwrap()
}

/// Where every key has at most 6 characters and every value at most 9, the
/// bound grows by at most 96 per member.
pub(crate) proof fn lemma_json_size_bound(keys: Seq<Seq<char>>, values: Seq<Seq<char>>)
    requires
        keys.len() == values.len(),
        forall|i: int| 0 <= i < keys.len() ==> (#[trigger] keys[i]).len() <= 6,
        forall|i: int| 0 <= i < values.len() ==> (#[trigger] values[i]).len() <= 9,
    ensures
        json_size_bound(keys, values) <= 2 + 96 * keys.len(),
    decreases keys.len(),
{
    if keys.len() > 0 {
        let k = keys.drop_last();
        let v = values.drop_last();
        assert forall|i: int| 0 <= i < k.len() implies (#[trigger] k[i]).len() <= 6 by {
            assert(k[i] == keys[i]);
        }
        assert forall|i: int| 0 <= i < v.len() implies (#[trigger] v[i]).len() <= 9 by {
            assert(v[i] == values[i]);
        }
        lemma_json_size_bound(k, v);
        assert(keys.last() == keys[keys.len() - 1]);
        assert(values.last() == values[values.len() - 1]);
    }
}

/// The JSON text of a palette whose slots all hold hex colors is at most
/// 1538 bytes long.
pub proof fn lemma_palette_json_size(colors: Colors)
    requires
        all_hex(colors.values()),
    ensures
        json_size_bound(spec_field_names(), colors.values()) <= 1538,
{
    let keys = spec_field_names();
    let values = colors.values();
    assert forall|i: int| 0 <= i < keys.len() implies (#[trigger] keys[i]).len() <= 6 by {
        lemma_field_name_len(i);
    }
    assert forall|i: int| 0 <= i < values.len() implies (#[trigger] values[i]).len() <= 9 by {
        assert(is_hex_color(values[i]));
    }
    lemma_json_size_bound(keys, values);
}

/// The four bytes of `n`, least significant first.
pub open spec fn le_bytes(n: nat) -> Seq<u8> {
    seq![(n % 256) as u8, ((n / 256) % 256) as u8, ((n / 65536) % 256) as u8, ((n / 16777216) % 256) as u8]
}

/// The number that four bytes encode, least significant first.
pub open spec fn le_value(b: Seq<u8>) -> nat {
    (b[0] + 256 * b[1] + 65536 * b[2] + 16777216 * b[3]) as nat
}

/// The frame of `payload`: its length as a four-byte header, then the payload.
pub open spec fn spec_frame(payload: Seq<u8>) -> Seq<u8> {
    le_bytes(payload.len()) + payload
}

/// Prefixes `payload` with its byte length.
pub fn frame(payload: &[u8]) -> (r: Vec<u8>)
    requires
        payload@.len() <= u32::MAX,
    ensures
        r@ == spec_frame(payload@),
{
    let n: usize = payload.len();
    let mut out: Vec<u8> = Vec::new();
    out.push((n % 256) as u8);
    out.push(((n / 256) % 256) as u8);
    out.push(((n / 65536) % 256) as u8);
    out.push(((n / 16777216) % 256) as u8);
    let mut i: usize = 0;
    while i < n
        invariant
            n == payload@.len(),
            i <= n,
            out@ == le_bytes(n as nat) + payload@.subrange(0, i as int),
        decreases n - i,
    {
        out.push(payload[i]);
        i = i + 1;
        assert(out@ =~= le_bytes(n as nat) + payload@.subrange(0, i as int));
    }
    assert(payload@.subrange(0, n as int) =~= payload@);
    out
}

/// A frame is four bytes longer than its payload, and its first four bytes
/// read as a little-endian unsigned integer give the payload's length.
pub proof fn lemma_frame_layout(payload: Seq<u8>)
    requires
        payload.len() <= u32::MAX,
    ensures
        spec_frame(payload).len() == 4 + payload.len(),
        le_value(spec_frame(payload).subrange(0, 4)) == payload.len(),
        spec_frame(payload).subrange(4, 4 + payload.len() as int) == payload,
{
    let f = spec_frame(payload);
    let n = payload.len();
    assert(f.subrange(4, 4 + n as int) =~= payload);
    assert(f[0] == (n % 256) as u8);
    assert(f[1] == ((n / 256) % 256) as u8);
    assert(f[2] == ((n / 65536) % 256) as u8);
    assert(f[3] == ((n / 16777216) % 256) as u8);
    assert(n % 256 + 256 * ((n / 256) % 256) + 65536 * ((n / 65536) % 256) + 16777216 * ((n / 16777216) % 256) == n) by (nonlinear_arith)
        requires n <= u32::MAX;
}

} // verus!
