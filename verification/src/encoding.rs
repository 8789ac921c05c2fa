//! Length-prefixed byte encoding for the wasm binary format: strings,
//! vectors and sections all start with their unsigned LEB128 length.
use vstd::prelude::*;
use vstd::string::StrSliceExecFns;
use vstd::utf8::encode_utf8;

use crate::leb128::{encode_unsigned, spec_leb_unsigned};

verus! {

/// A name: the UTF-8 bytes of the string, preceded by their count.
pub open spec fn spec_encoded_string(s: Seq<char>) -> Seq<u8> {
    spec_leb_unsigned(encode_utf8(s).len()) + encode_utf8(s)
}

pub fn encode_string(s: String) -> (r: Vec<u8>)
    requires
        encode_utf8(s@).len() <= usize::MAX,
    ensures
        r@ == spec_encoded_string(s@),
{
    let mut buffer: Vec<u8> = Vec::new();
    let len: u64 = s.as_str().len() as u64;
    let mut prefix = encode_unsigned(len);
    buffer.append(&mut prefix);

    let mut bytes: Vec<u8> = s.as_str().as_bytes_vec();
    buffer.append(&mut bytes);

    buffer
}

/// A byte vector preceded by its length.
pub open spec fn spec_encoded_vector(v: Seq<u8>) -> Seq<u8> {
    spec_leb_unsigned(v.len()) + v
}

pub fn encode_vector(v: Vec<u8>) -> (r: Vec<u8>)
    ensures
        r@ == spec_encoded_vector(v@),
{
    let mut v = v;
    let mut buffer: Vec<u8> = Vec::new();
    let len: u64 = v.len() as u64;
    let mut prefix = encode_unsigned(len);
    buffer.append(&mut prefix);
    buffer.append(&mut v);
    buffer
}

/// Several already-encoded items, preceded by their count.
pub open spec fn spec_encoded_nested_vector(v: Seq<Seq<u8>>) -> Seq<u8> {
    spec_leb_unsigned(v.len()) + v.flatten()
}

pub fn encode_nested_vector(v: Vec<Vec<u8>>) -> (r: Vec<u8>)
    ensures
        r@ == spec_encoded_nested_vector(v.deep_view()),
{
    let mut buffer: Vec<u8> = Vec::new();
    let len: u64 = v.len() as u64;
    let mut prefix = encode_unsigned(len);
    buffer.append(&mut prefix);
    // Append the sub-vectors in order.
    let ghost all = v.deep_view();
    let mut i: usize = 0;
    while i < v.len()
        invariant
            i <= v.len(),
            all == v.deep_view(),
            buffer@ == spec_leb_unsigned(all.len()) + all.take(i as int).flatten(),
        decreases v.len() - i,
    {
        let sv = &v[i];
        let mut j: usize = 0;
        while j < sv.len()
            invariant
                j <= sv.len(),
                0 <= i < v.len(),
                sv == &v[i as int],
                all == v.deep_view(),
                buffer@ == spec_leb_unsigned(all.len()) + all.take(i as int).flatten()
                    + sv@.take(j as int),
            decreases sv.len() - j,
        {
            buffer.push(sv[j]);
            assert(sv@.take(j + 1 as int) =~= sv@.take(j as int).push(sv@[j as int]));
            j = j + 1;
        }
        proof {
            assert(sv@.take(sv@.len() as int) =~= sv@);
            assert(all.take(i + 1 as int) =~= all.take(i as int).push(all[i as int]));
            all.take(i as int).lemma_flatten_push(all[i as int]);
            assert(all[i as int] == sv@);
        }
        i = i + 1;
    }
    proof {
        assert(all.take(all.len() as int) =~= all);
    }
    buffer
}

/// A section: its one-byte id, then its payload as a length-prefixed
/// vector.
pub open spec fn spec_encoded_section(section: u8, data: Seq<u8>) -> Seq<u8> {
    seq![section] + spec_encoded_vector(data)
}

pub fn encode_section(section: u8, data: Vec<u8>) -> (r: Vec<u8>)
    ensures
        r@ == spec_encoded_section(section, data@),
{
    let mut buffer: Vec<u8> = Vec::new();
    buffer.push(section);
    let mut encoded = encode_vector(data);
    buffer.append(&mut encoded);
    buffer
}

} // verus!
