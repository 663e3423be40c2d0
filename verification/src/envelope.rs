//! The envelope format for boundary-crossing byte buffers.
//!
//! Every field of a call request or response crosses the boundary as one
//! self-contained byte buffer.  A binary value is encoded as a four-byte
//! little-endian length prefix followed by the payload; a list is encoded as a
//! four-byte little-endian element count followed by the encodings of its
//! elements; a string is the encoding of its UTF-8 bytes.  A buffer decodes
//! only if it is consumed exactly: trailing bytes are rejected.
//!
//! The spec functions here are the reference semantics of the format; every
//! exec encoder and decoder is proved to agree with them exactly.

use vstd::prelude::*;
use vstd::bytes::lemma_auto_spec_u32_to_from_le_bytes;
use vstd::bytes::spec_u32_from_le_bytes;
use vstd::bytes::spec_u32_to_le_bytes;
use vstd::bytes::u32_from_le_bytes;
use vstd::bytes::u32_to_le_bytes;
use vstd::slice::slice_subrange;
use vstd::slice::slice_to_vec;
use vstd::utf8::decode_utf8;
use vstd::utf8::encode_utf8;
use vstd::utf8::valid_utf8;

verus! {

/// A binary value fits the format when its length fits the four-byte prefix.
pub open spec fn binary_fits(v: Seq<u8>) -> bool {
    v.len() <= u32::MAX
}

/// A list fits the format when its count and every element fit.
pub open spec fn binary_list_fits(vs: Seq<Seq<u8>>) -> bool {
    &&& vs.len() <= u32::MAX
    &&& forall|i: int| 0 <= i < vs.len() ==> binary_fits(#[trigger] vs[i])
}

/// Encoding of one binary value: length prefix, then payload.
pub open spec fn enc_binary(v: Seq<u8>) -> Seq<u8> {
    spec_u32_to_le_bytes(v.len() as u32) + v
}

/// Concatenated encodings of a sequence of binary values.
pub open spec fn enc_items(vs: Seq<Seq<u8>>) -> Seq<u8>
    decreases vs.len(),
{
    if vs.len() == 0 {
        Seq::empty()
    } else {
        enc_binary(vs[0]) + enc_items(vs.drop_first())
    }
}

/// Encoding of a list of binary values: count prefix, then the elements.
pub open spec fn enc_binary_list(vs: Seq<Seq<u8>>) -> Seq<u8> {
    spec_u32_to_le_bytes(vs.len() as u32) + enc_items(vs)
}

/// Encoding of a string: its UTF-8 bytes as a binary value.
pub open spec fn enc_string(s: Seq<char>) -> Seq<u8> {
    enc_binary(encode_utf8(s))
}

/// A string fits the format when its UTF-8 encoding fits.
pub open spec fn string_fits(s: Seq<char>) -> bool {
    binary_fits(encode_utf8(s))
}

/// Decodes one length-prefixed item starting at `pos`; yields the payload and
/// the position just past it.
pub open spec fn dec_item_at(b: Seq<u8>, pos: int) -> Option<(Seq<u8>, int)> {
    if pos + 4 <= b.len() {
        let n = spec_u32_from_le_bytes(b.subrange(pos, pos + 4)) as int;
        if pos + 4 + n <= b.len() {
            Some((b.subrange(pos + 4, pos + 4 + n), pos + 4 + n))
        } else {
            None
        }
    } else {
        None
    }
}

/// Decodes `count` consecutive length-prefixed items starting at `pos`.
pub open spec fn dec_items_at(b: Seq<u8>, pos: int, count: nat) -> Option<(Seq<Seq<u8>>, int)>
    decreases count,
{
    if count == 0 {
        Some((Seq::empty(), pos))
    } else {
        match dec_item_at(b, pos) {
            Some(t) => match dec_items_at(b, t.1, (count - 1) as nat) {
                Some(u) => Some((seq![t.0] + u.0, u.1)),
                None => None,
            },
            None => None,
        }
    }
}

/// Reference semantics of a whole-buffer binary value.
pub open spec fn dec_binary(b: Seq<u8>) -> Option<Seq<u8>> {
    match dec_item_at(b, 0) {
        Some(t) => if t.1 == b.len() {
            Some(t.0)
        } else {
            None
        },
        None => None,
    }
}

/// Reference semantics of a whole-buffer list of binary values.
pub open spec fn dec_binary_list(b: Seq<u8>) -> Option<Seq<Seq<u8>>> {
    if b.len() >= 4 {
        match dec_items_at(b, 4, spec_u32_from_le_bytes(b.subrange(0, 4)) as nat) {
            Some(t) => if t.1 == b.len() {
                Some(t.0)
            } else {
                None
            },
            None => None,
        }
    } else {
        None
    }
}

/// Reference semantics of a whole-buffer string.
pub open spec fn dec_string(b: Seq<u8>) -> Option<Seq<char>> {
    match dec_binary(b) {
        Some(bytes) => if valid_utf8(bytes) {
            Some(decode_utf8(bytes))
        } else {
            None
        },
        None => None,
    }
}

/// Relies on `String::from_utf8` of std: it returns `Ok` exactly when the
/// bytes are valid UTF-8, and the returned string is their decoding.
#[verifier::external_body]
pub(crate) fn string_from_utf8(b: &Vec<u8>) -> (r: Option<String>)
    ensures
        r is Some <==> valid_utf8(b@),
        r is Some ==> r.unwrap()@ == decode_utf8(b@),
{
    match String::from_utf8(b.clone()) {
        Ok(s) => Some(s),
        Err(_) => None,
    }
}

/// Reads the four-byte little-endian word starting at `pos`.
pub fn read_u32_at(b: &Vec<u8>, pos: usize) -> (r: Option<u32>)
    requires
        pos <= b@.len(),
    ensures
        match r {
            Some(n) => pos + 4 <= b@.len() && n == spec_u32_from_le_bytes(
                b@.subrange(pos as int, pos + 4),
            ),
            None => pos + 4 > b@.len(),
        },
{
    if b.len() - pos < 4 {
        return None;
    }
    let s = slice_subrange(b.as_slice(), pos, pos + 4);
    Some(u32_from_le_bytes(s))
}

/// Reads one length-prefixed item starting at `pos`, returning the payload and
/// the position just past it.
pub fn read_item_at(b: &Vec<u8>, pos: usize) -> (r: Option<(Vec<u8>, usize)>)
    requires
        pos <= b@.len(),
    ensures
        match r {
            Some(t) => {
                &&& dec_item_at(b@, pos as int) == Some((t.0@, t.1 as int))
                &&& pos + 4 <= t.1 <= b@.len()
            },
            None => dec_item_at(b@, pos as int) is None,
        },
{
    let n32 = match read_u32_at(b, pos) {
        Some(n) => n,
        None => {
            return None;
        },
    };
    let n = n32 as usize;
    if n > b.len() - (pos + 4) {
        return None;
    }
    let payload = slice_to_vec(slice_subrange(b.as_slice(), pos + 4, pos + 4 + n));
    Some((payload, pos + 4 + n))
}

/// Decodes a whole buffer as one binary value.
pub fn decode_binary(b: &Vec<u8>) -> (r: Option<Vec<u8>>)
    ensures
        match r {
            Some(v) => dec_binary(b@) == Some(v@),
            None => dec_binary(b@) is None,
        },
{
    match read_item_at(b, 0) {
        Some((v, end)) => if end == b.len() {
            Some(v)
        } else {
            None
        },
        None => None,
    }
}

/// Decodes a whole buffer as a list of binary values.
pub fn decode_binary_list(b: &Vec<u8>) -> (r: Option<Vec<Vec<u8>>>)
    ensures
        match r {
            Some(vs) => dec_binary_list(b@) == Some(vs.deep_view()),
            None => dec_binary_list(b@) is None,
        },
{
    let count32 = match read_u32_at(b, 0) {
        Some(n) => n,
        None => {
            return None;
        },
    };
    let count = count32 as usize;
    let mut items: Vec<Vec<u8>> = Vec::new();
    let mut pos: usize = 4;
    let mut i: usize = 0;
    while i < count
        invariant
            i <= count,
            4 <= pos <= b@.len(),
            items.deep_view().len() == i,
            count < 0x1_0000_0000,
            count == spec_u32_from_le_bytes(b@.subrange(0, 4)),
            match dec_items_at(b@, pos as int, (count - i) as nat) {
                Some(t) => dec_items_at(b@, 4, count as nat) == Some(
                    (items.deep_view() + t.0, t.1),
                ),
                None => dec_items_at(b@, 4, count as nat) is None,
            },
        decreases count - i,
    {
        let (v, next) = match read_item_at(b, pos) {
            Some(t) => t,
            None => {
                return None;
            },
        };
        let ghost items0 = items.deep_view();
        items.push(v);
        proof {
            assert(items.deep_view() =~~= items0.push(v@));
            let k = (count - i) as nat;
            assert(dec_item_at(b@, pos as int) == Some((v@, next as int)));
            match dec_items_at(b@, next as int, (k - 1) as nat) {
                Some(u) => {
                    assert(dec_items_at(b@, pos as int, k) == Some((seq![v@] + u.0, u.1)));
                    assert(items0.push(v@) + u.0 =~= items0 + (seq![v@] + u.0));
                },
                None => {
                    assert(dec_items_at(b@, pos as int, k) is None);
                },
            }
        }
        pos = next;
        i = i + 1;
    }
    proof {
        assert(items.deep_view() + Seq::<Seq<u8>>::empty() =~= items.deep_view());
    }
    if pos == b.len() {
        Some(items)
    } else {
        None
    }
}

/// Decodes a whole buffer as a string.
pub fn decode_string(b: &Vec<u8>) -> (r: Option<String>)
    ensures
        match r {
            Some(s) => dec_string(b@) == Some(s@),
            None => dec_string(b@) is None,
        },
{
    let bytes = match decode_binary(b) {
        Some(v) => v,
        None => {
            return None;
        },
    };
    string_from_utf8(&bytes)
}

/// Reference semantics of a whole-buffer list of strings.
pub open spec fn dec_string_list(b: Seq<u8>) -> Option<Seq<Seq<char>>> {
    match dec_binary_list(b) {
        Some(items) => if forall|i: int| 0 <= i < items.len() ==> valid_utf8(#[trigger] items[i]) {
            Some(Seq::new(items.len(), |i: int| decode_utf8(items[i])))
        } else {
            None
        },
        None => None,
    }
}

/// Decodes a whole buffer as a list of strings.
pub fn decode_string_list(b: &Vec<u8>) -> (r: Option<Vec<String>>)
    ensures
        match r {
            Some(ss) => dec_string_list(b@) == Some(ss.deep_view()),
            None => dec_string_list(b@) is None,
        },
{
    let items = match decode_binary_list(b) {
        Some(vs) => vs,
        None => {
            return None;
        },
    };
    let ghost dv = items.deep_view();
    let mut out: Vec<String> = Vec::new();
    let mut i: usize = 0;
    while i < items.len()
        invariant
            i <= items@.len(),
            dv == items.deep_view(),
            dv.len() == items@.len(),
            dec_binary_list(b@) == Some(dv),
            out@.len() == i,
            forall|j: int| 0 <= j < i ==> valid_utf8(#[trigger] dv[j]),
            forall|j: int| 0 <= j < i ==> out.deep_view()[j] == decode_utf8(#[trigger] dv[j]),
        decreases items@.len() - i,
    {
        proof {
            assert(dv[i as int] == items@[i as int]@);
        }
        let s = match string_from_utf8(&items[i]) {
            Some(s) => s,
            None => {
                proof {
                    assert(!valid_utf8(dv[i as int]));
                    assert(!(forall|j: int|
                        0 <= j < dv.len() ==> valid_utf8(#[trigger] dv[j])));
                }
                return None;
            },
        };
        out.push(s);
        i = i + 1;
    }
    proof {
        assert(out.deep_view() =~~= Seq::new(dv.len(), |i: int| decode_utf8(dv[i])));
    }
    Some(out)
}

/// Encodes one binary value; `None` when the payload is longer than the
/// length prefix can carry.
pub fn encode_binary(v: &Vec<u8>) -> (r: Option<Vec<u8>>)
    ensures
        match r {
            Some(out) => binary_fits(v@) && out@ == enc_binary(v@),
            None => !binary_fits(v@),
        },
{
    if v.len() > u32::MAX as usize {
        return None;
    }
    let mut out = u32_to_le_bytes(v.len() as u32);
    let mut i: usize = 0;
    while i < v.len()
        invariant
            i <= v@.len(),
            binary_fits(v@),
            out@ == spec_u32_to_le_bytes(v@.len() as u32) + v@.subrange(0, i as int),
        decreases v@.len() - i,
    {
        out.push(v[i]);
        proof {
            assert(spec_u32_to_le_bytes(v@.len() as u32) + v@.subrange(0, i + 1)
                =~= (spec_u32_to_le_bytes(v@.len() as u32) + v@.subrange(0, i as int)).push(
                v@[i as int],
            ));
        }
        i = i + 1;
    }
    proof {
        assert(v@.subrange(0, v@.len() as int) =~= v@);
    }
    Some(out)
}

/// `enc_items` distributes over concatenation.
pub proof fn lemma_enc_items_concat(a: Seq<Seq<u8>>, b: Seq<Seq<u8>>)
    ensures
        enc_items(a + b) == enc_items(a) + enc_items(b),
    decreases a.len(),
{
    if a.len() == 0 {
        assert(a + b =~= b);
        assert(enc_items(a) + enc_items(b) =~= enc_items(b));
    } else {
        assert((a + b).drop_first() =~= a.drop_first() + b);
        lemma_enc_items_concat(a.drop_first(), b);
        assert(enc_items(a + b) =~= enc_items(a) + enc_items(b));
    }
}

/// Encodes a list of binary values; `None` when the count or an element
/// overruns its prefix.
pub fn encode_binary_list(vs: &Vec<Vec<u8>>) -> (r: Option<Vec<u8>>)
    ensures
        match r {
            Some(out) => binary_list_fits(vs.deep_view()) && out@ == enc_binary_list(
                vs.deep_view(),
            ),
            None => !binary_list_fits(vs.deep_view()),
        },
{
    if vs.len() > u32::MAX as usize {
        return None;
    }
    let mut out = u32_to_le_bytes(vs.len() as u32);
    let mut i: usize = 0;
    while i < vs.len()
        invariant
            i <= vs@.len(),
            vs.deep_view().len() == vs@.len() <= u32::MAX,
            forall|j: int| 0 <= j < i ==> binary_fits(#[trigger] vs.deep_view()[j]),
            out@ == spec_u32_to_le_bytes(vs@.len() as u32) + enc_items(
                vs.deep_view().subrange(0, i as int),
            ),
        decreases vs@.len() - i,
    {
        proof {
            assert(vs.deep_view()[i as int] == vs@[i as int]@);
        }
        let mut piece = match encode_binary(&vs[i]) {
            Some(p) => p,
            None => {
                proof {
                    assert(!binary_fits(vs.deep_view()[i as int]));
                }
                return None;
            },
        };
        let mut k: usize = 0;
        let ghost out0 = out@;
        while k < piece.len()
            invariant
                k <= piece@.len(),
                out@ == out0 + piece@.subrange(0, k as int),
            decreases piece@.len() - k,
        {
            out.push(piece[k]);
            proof {
                assert(out0 + piece@.subrange(0, k + 1) =~= (out0 + piece@.subrange(
                    0,
                    k as int,
                )).push(piece@[k as int]));
            }
            k = k + 1;
        }
        proof {
            assert(piece@.subrange(0, piece@.len() as int) =~= piece@);
            let pre = vs.deep_view().subrange(0, i as int);
            let post = vs.deep_view().subrange(0, i + 1);
            assert(post =~= pre + seq![vs.deep_view()[i as int]]);
            lemma_enc_items_concat(pre, seq![vs.deep_view()[i as int]]);
            let single = seq![vs.deep_view()[i as int]];
            assert(single.drop_first() =~= Seq::<Seq<u8>>::empty());
            assert(single[0] == vs.deep_view()[i as int]);
            assert(enc_binary(vs.deep_view()[i as int]) + enc_items(Seq::<Seq<u8>>::empty())
                =~= enc_binary(vs.deep_view()[i as int]));
            assert(enc_items(single) == enc_binary(vs.deep_view()[i as int]));
            assert(out0 + piece@ =~= spec_u32_to_le_bytes(vs@.len() as u32) + enc_items(post));
        }
        i = i + 1;
    }
    proof {
        assert(vs.deep_view().subrange(0, vs@.len() as int) =~= vs.deep_view());
    }
    Some(out)
}

/// Encodes a string; `None` when its UTF-8 form overruns the length prefix.
pub fn encode_string(s: &String) -> (r: Option<Vec<u8>>)
    ensures
        match r {
            Some(out) => string_fits(s@) && out@ == enc_string(s@),
            None => !string_fits(s@),
        },
{
    let bytes = s.as_str().as_bytes_vec();
    encode_binary(&bytes)
}

/// Decoding inverts encoding for a single binary value.
pub proof fn lemma_binary_round_trip(v: Seq<u8>)
    requires
        binary_fits(v),
    ensures
        dec_binary(enc_binary(v)) == Some(v),
{
    lemma_auto_spec_u32_to_from_le_bytes();
    let b = enc_binary(v);
    assert(b.subrange(0, 4) =~= spec_u32_to_le_bytes(v.len() as u32));
    assert(b.subrange(4, 4 + v.len() as int) =~= v);
}

/// Consecutive item decoding inverts `enc_items` wherever its encoding sits
/// as a block inside a larger buffer.
pub proof fn lemma_dec_items_of_enc(b: Seq<u8>, pos: int, vs: Seq<Seq<u8>>)
    requires
        forall|i: int| 0 <= i < vs.len() ==> binary_fits(#[trigger] vs[i]),
        0 <= pos,
        pos + enc_items(vs).len() <= b.len(),
        b.subrange(pos, pos + enc_items(vs).len()) == enc_items(vs),
    ensures
        dec_items_at(b, pos, vs.len()) == Some((vs, pos + enc_items(vs).len())),
    decreases vs.len(),
{
    lemma_auto_spec_u32_to_from_le_bytes();
    if vs.len() == 0 {
        assert(vs =~= Seq::<Seq<u8>>::empty());
    } else {
        let head = vs[0];
        let rest = vs.drop_first();
        let block = enc_items(vs);
        assert(block == enc_binary(head) + enc_items(rest));
        let n = head.len() as int;
        assert(forall|k: int|
            0 <= k < block.len() ==> b[pos + k] == #[trigger] block[k]) by {
            assert(forall|k: int|
                0 <= k < block.len() ==> #[trigger] block[k] == b.subrange(
                    pos,
                    pos + block.len(),
                )[k]);
        }
        assert(b.subrange(pos, pos + 4) =~= spec_u32_to_le_bytes(head.len() as u32));
        assert forall|j: int| 0 <= j < n implies b.subrange(pos + 4, pos + 4 + n)[j] == head[j] by {
            assert(block[4 + j] == b[pos + (4 + j)]);
            assert(block[4 + j] == enc_binary(head)[4 + j]);
        }
        assert(b.subrange(pos + 4, pos + 4 + n) =~= head);
        assert(dec_item_at(b, pos) == Some((head, pos + 4 + n)));
        let rest_len = enc_items(rest).len() as int;
        assert forall|j: int|
            0 <= j < rest_len implies b.subrange(pos + 4 + n, pos + 4 + n + rest_len)[j]
            == enc_items(rest)[j] by {
            assert(block[4 + n + j] == b[pos + (4 + n + j)]);
            assert(block[4 + n + j] == enc_items(rest)[j]);
        }
        assert(b.subrange(pos + 4 + n, pos + 4 + n + rest_len) =~= enc_items(rest));
        assert(forall|i: int| 0 <= i < rest.len() ==> binary_fits(#[trigger] rest[i])) by {
            assert(forall|i: int| 0 <= i < rest.len() ==> rest[i] == vs[i + 1]);
        }
        lemma_dec_items_of_enc(b, pos + 4 + n, rest);
        assert(seq![head] + rest =~= vs);
    }
}

/// Decoding inverts encoding for a list of binary values.
pub proof fn lemma_binary_list_round_trip(vs: Seq<Seq<u8>>)
    requires
        binary_list_fits(vs),
    ensures
        dec_binary_list(enc_binary_list(vs)) == Some(vs),
{
    lemma_auto_spec_u32_to_from_le_bytes();
    let b = enc_binary_list(vs);
    assert(b.subrange(0, 4) =~= spec_u32_to_le_bytes(vs.len() as u32));
    assert(b.subrange(4, b.len() as int) =~= enc_items(vs));
    lemma_dec_items_of_enc(b, 4, vs);
}

/// Decoding inverts encoding for a string.
pub proof fn lemma_string_round_trip(s: Seq<char>)
    requires
        string_fits(s),
    ensures
        dec_string(enc_string(s)) == Some(s),
{
    lemma_binary_round_trip(encode_utf8(s));
    broadcast use vstd::utf8::encode_utf8_valid_utf8;
    broadcast use vstd::utf8::encode_utf8_decode_utf8;

}

} // verus!
