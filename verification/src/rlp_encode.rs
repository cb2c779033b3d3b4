//! Verified construction of the RLP forms that signing messages are built
//! from.
//!
//! Sender recovery needs the exact byte string that was originally signed,
//! so the library re-encodes the signed fields itself: a byte-string item,
//! a list wrapped around an already-encoded payload, minimal big-endian
//! scalars, and the nested access-list shape.  Each executable function is
//! proved to produce exactly the encoding its specification states.

use vstd::prelude::*;

use crate::codec::pow256;
use crate::eip_2930::AccessTuple;
use crate::eip_2930::AccessTupleView;
use crate::types::Address;
use crate::types::U256;

verus! {

/// The minimal big-endian encoding of a non-negative scalar: no leading
/// zero bytes, and zero itself is the empty string.
pub open spec fn be_min_bytes(n: int) -> Seq<u8>
    decreases n,
{
    if n <= 0 {
        Seq::empty()
    } else {
        be_min_bytes(n / 256).push((n % 256) as u8)
    }
}

/// A scalar below `256^k` needs at most `k` big-endian bytes.
pub proof fn lemma_be_min_bytes_len(n: int, k: nat)
    requires
        0 <= n < pow256(k),
    ensures
        be_min_bytes(n).len() <= k,
    decreases k,
{
    if n > 0 {
        lemma_be_min_bytes_len(n / 256, (k - 1) as nat);
    }
}

/// The byte string with its leading zero bytes removed.
pub open spec fn strip_zeros(s: Seq<u8>) -> Seq<u8>
    decreases s.len(),
{
    if s.len() == 0 {
        s
    } else if s[0] != 0 {
        s
    } else {
        strip_zeros(s.skip(1))
    }
}

/// Stripping removes exactly the zero prefix: if the first `i` bytes are
/// zero and byte `i` (when present) is not, what remains is the tail from
/// `i`.
pub proof fn lemma_strip_zeros_at(s: Seq<u8>, i: int)
    requires
        0 <= i <= s.len(),
        forall|k: int| 0 <= k < i ==> s[k] == 0,
        i < s.len() ==> s[i] != 0,
    ensures
        strip_zeros(s) == s.skip(i),
    decreases i,
{
    if i == 0 {
        assert(s.skip(0) =~= s);
    } else {
        let tail = s.skip(1);
        assert forall|k: int| 0 <= k < i - 1 implies tail[k] == 0 by {
            assert(tail[k] == s[k + 1]);
        }
        if i - 1 < tail.len() {
            assert(tail[i - 1] == s[i]);
        }
        lemma_strip_zeros_at(tail, i - 1);
        assert(tail.skip(i - 1) =~= s.skip(i));
    }
}

/// The RLP encoding of a byte string: a single byte below `0x80` stands for
/// itself, up to 55 bytes get a one-byte header, and longer strings get a
/// header holding the length's own big-endian length.
pub open spec fn rlp_enc_bytes(s: Seq<u8>) -> Seq<u8> {
    if s.len() == 1 && s[0] < 0x80 {
        s
    } else if s.len() <= 55 {
        seq![(0x80 + s.len()) as u8] + s
    } else {
        seq![(0xb7 + be_min_bytes(s.len() as int).len()) as u8] + be_min_bytes(s.len() as int) + s
    }
}

/// The RLP list form wrapped around an already-encoded payload.
pub open spec fn rlp_enc_list_payload(p: Seq<u8>) -> Seq<u8> {
    if p.len() <= 55 {
        seq![(0xc0 + p.len()) as u8] + p
    } else {
        seq![(0xf7 + be_min_bytes(p.len() as int).len()) as u8] + be_min_bytes(p.len() as int) + p
    }
}

/// A 256-bit scalar encodes as the byte string left after stripping its
/// leading zeroes.
pub open spec fn rlp_enc_scalar_bytes(s: Seq<u8>) -> Seq<u8> {
    rlp_enc_bytes(strip_zeros(s))
}

/// A `u64` scalar encodes as its minimal big-endian byte string.
pub open spec fn rlp_enc_u64(v: u64) -> Seq<u8> {
    rlp_enc_bytes(be_min_bytes(v as int))
}

/// An optional recipient encodes as the empty byte string or as the
/// 20-byte address.
pub open spec fn rlp_enc_to(to: Option<Seq<u8>>) -> Seq<u8> {
    match to {
        None => seq![0x80u8],
        Some(a) => rlp_enc_bytes(a),
    }
}

/// The concatenated encodings of a list of storage keys.
pub open spec fn rlp_enc_keys(ks: Seq<Seq<u8>>) -> Seq<u8>
    decreases ks.len(),
{
    if ks.len() == 0 {
        Seq::empty()
    } else {
        rlp_enc_keys(ks.drop_last()) + rlp_enc_bytes(ks.last())
    }
}

/// One access-list entry: a two-item list of the address and the key list.
pub open spec fn rlp_enc_access_entry(t: AccessTupleView) -> Seq<u8> {
    rlp_enc_list_payload(rlp_enc_bytes(t.address) + rlp_enc_list_payload(rlp_enc_keys(t.storage_keys)))
}

/// The concatenated encodings of the access-list entries.
pub open spec fn rlp_enc_access_entries(al: Seq<AccessTupleView>) -> Seq<u8>
    decreases al.len(),
{
    if al.len() == 0 {
        Seq::empty()
    } else {
        rlp_enc_access_entries(al.drop_last()) + rlp_enc_access_entry(al.last())
    }
}

/// A whole access list: the list form around its concatenated entries.
pub open spec fn rlp_enc_access_list(al: Seq<AccessTupleView>) -> Seq<u8> {
    rlp_enc_list_payload(rlp_enc_access_entries(al))
}

/// Appends a byte slice to a buffer.
pub(crate) fn push_all(out: &mut Vec<u8>, s: &[u8])
    ensures
        final(out)@ == old(out)@ + s@,
{
    let mut i: usize = 0;
    proof {
        assert(out@ + s@.take(0) =~= out@);
    }
    while i < s.len()
        invariant
            i <= s@.len(),
            out@ == old(out)@ + s@.take(i as int),
        decreases s@.len() - i,
    {
        proof {
            assert((old(out)@ + s@.take(i + 1)) =~= (old(out)@ + s@.take(i as int)).push(
                s@[i as int],
            ));
        }
        let b = *vstd::slice::slice_index_get(s, i);
        out.push(b);
        i = i + 1;
    }
    proof {
        assert(s@.take(s@.len() as int) =~= s@);
    }
}

/// Builds the minimal big-endian byte string of a scalar.
pub(crate) fn be_min_bytes_exec(n: u64) -> (r: Vec<u8>)
    ensures
        r@ == be_min_bytes(n as int),
    decreases n,
{
    if n == 0 {
        Vec::new()
    } else {
        let mut r = be_min_bytes_exec(n / 256);
        r.push((n % 256) as u8);
        r
    }
}

/// Appends the RLP encoding of a byte string.
pub(crate) fn append_str_item(out: &mut Vec<u8>, payload: &[u8])
    ensures
        final(out)@ == old(out)@ + rlp_enc_bytes(payload@),
{
    if payload.len() == 1 && *vstd::slice::slice_index_get(payload, 0) < 0x80 {
        let b = *vstd::slice::slice_index_get(payload, 0);
        out.push(b);
        proof {
            assert(out@ =~= old(out)@ + payload@);
        }
    } else if payload.len() <= 55 {
        let hdr: u8 = 0x80 + (payload.len() as u8);
        out.push(hdr);
        push_all(out, payload);
        proof {
            assert(out@ =~= old(out)@ + rlp_enc_bytes(payload@));
        }
    } else {
        let lenb = be_min_bytes_exec(payload.len() as u64);
        proof {
            assert(pow256(8) == 0x1_0000_0000_0000_0000) by {
                reveal_with_fuel(pow256, 9);
            }
            lemma_be_min_bytes_len(payload@.len() as int, 8);
        }
        let hdr: u8 = 0xb7 + (lenb.len() as u8);
        out.push(hdr);
        push_all(out, lenb.as_slice());
        push_all(out, payload);
        proof {
            assert(out@ =~= old(out)@ + rlp_enc_bytes(payload@));
        }
    }
}

/// Wraps an already-encoded payload in the RLP list form.
pub(crate) fn wrap_list(payload: Vec<u8>) -> (r: Vec<u8>)
    ensures
        r@ == rlp_enc_list_payload(payload@),
{
    let mut out: Vec<u8> = Vec::new();
    if payload.len() <= 55 {
        let hdr: u8 = 0xc0 + (payload.len() as u8);
        out.push(hdr);
        push_all(&mut out, payload.as_slice());
        proof {
            assert(out@ =~= rlp_enc_list_payload(payload@));
        }
    } else {
        let lenb = be_min_bytes_exec(payload.len() as u64);
        proof {
            assert(pow256(8) == 0x1_0000_0000_0000_0000) by {
                reveal_with_fuel(pow256, 9);
            }
            lemma_be_min_bytes_len(payload@.len() as int, 8);
        }
        let hdr: u8 = 0xf7 + (lenb.len() as u8);
        out.push(hdr);
        push_all(&mut out, lenb.as_slice());
        push_all(&mut out, payload.as_slice());
        proof {
            assert(out@ =~= rlp_enc_list_payload(payload@));
        }
    }
    out
}

/// Builds the byte string of a 256-bit scalar with leading zeroes removed.
pub(crate) fn strip_zeros32(bytes: &[u8; 32]) -> (r: Vec<u8>)
    ensures
        r@ == strip_zeros(bytes@),
{
    let mut i: usize = 0;
    while i < 32 && bytes[i] == 0
        invariant
            i <= 32,
            forall|k: int| 0 <= k < i ==> bytes@[k] == 0,
        decreases 32 - i,
    {
        i = i + 1;
    }
    proof {
        lemma_strip_zeros_at(bytes@, i as int);
    }
    let mut out: Vec<u8> = Vec::new();
    let mut j: usize = i;
    while j < 32
        invariant
            i <= j <= 32,
            out@ == bytes@.subrange(i as int, j as int),
        decreases 32 - j,
    {
        proof {
            assert(bytes@.subrange(i as int, j + 1) =~= bytes@.subrange(i as int, j as int).push(
                bytes@[j as int],
            ));
        }
        out.push(bytes[j]);
        j = j + 1;
    }
    proof {
        assert(bytes@.subrange(i as int, 32) =~= bytes@.skip(i as int));
    }
    out
}

/// Appends the scalar encoding of a 256-bit value.
pub(crate) fn append_scalar32(out: &mut Vec<u8>, v: &U256)
    ensures
        final(out)@ == old(out)@ + rlp_enc_scalar_bytes(v@),
{
    let stripped = strip_zeros32(&v.bytes);
    append_str_item(out, stripped.as_slice());
}

/// Appends the scalar encoding of a `u64` value.
pub(crate) fn append_u64_scalar(out: &mut Vec<u8>, v: u64)
    ensures
        final(out)@ == old(out)@ + rlp_enc_u64(v),
{
    let be = be_min_bytes_exec(v);
    append_str_item(out, be.as_slice());
}

/// Appends the encoding of an optional recipient.
pub(crate) fn append_to(out: &mut Vec<u8>, to: &Option<Address>)
    ensures
        final(out)@ == old(out)@ + rlp_enc_to(
            match to {
                Some(a) => Some(a@),
                None => None,
            },
        ),
{
    match to {
        None => {
            out.push(0x80);
            proof {
                assert(out@ =~= old(out)@ + seq![0x80u8]);
            }
        },
        Some(a) => {
            append_str_item(out, a.bytes.as_slice());
        },
    }
}

/// Builds the encoding of one access-list entry.
fn encode_access_entry(t: &AccessTuple) -> (r: Vec<u8>)
    ensures
        r@ == rlp_enc_access_entry(t@),
{
    let mut keys_payload: Vec<u8> = Vec::new();
    let ghost mapped = t.storage_keys@.map_values(|k: crate::types::H256| k@);
    proof {
        assert(mapped.take(0) =~= Seq::<Seq<u8>>::empty());
    }
    let mut k: usize = 0;
    while k < t.storage_keys.len()
        invariant
            k <= t.storage_keys@.len(),
            mapped == t.storage_keys@.map_values(|key: crate::types::H256| key@),
            keys_payload@ == rlp_enc_keys(mapped.take(k as int)),
        decreases t.storage_keys@.len() - k,
    {
        proof {
            assert(mapped.take(k + 1).drop_last() =~= mapped.take(k as int));
        }
        append_str_item(&mut keys_payload, t.storage_keys[k].bytes.as_slice());
        k = k + 1;
    }
    proof {
        assert(mapped.take(mapped.len() as int) =~= mapped);
    }
    let keys_wrapped = wrap_list(keys_payload);
    let mut entry_payload: Vec<u8> = Vec::new();
    append_str_item(&mut entry_payload, t.address.bytes.as_slice());
    push_all(&mut entry_payload, keys_wrapped.as_slice());
    wrap_list(entry_payload)
}

/// Appends the encoding of a whole access list.
pub(crate) fn append_access_list(out: &mut Vec<u8>, al: &Vec<AccessTuple>)
    ensures
        final(out)@ == old(out)@ + rlp_enc_access_list(al@.map_values(|t: AccessTuple| t@)),
{
    let mut payload: Vec<u8> = Vec::new();
    let ghost mapped = al@.map_values(|t: AccessTuple| t@);
    proof {
        assert(mapped.take(0) =~= Seq::<AccessTupleView>::empty());
    }
    let mut j: usize = 0;
    while j < al.len()
        invariant
            j <= al@.len(),
            mapped == al@.map_values(|t: AccessTuple| t@),
            payload@ == rlp_enc_access_entries(mapped.take(j as int)),
        decreases al@.len() - j,
    {
        proof {
            assert(mapped.take(j + 1).drop_last() =~= mapped.take(j as int));
        }
        let entry = encode_access_entry(&al[j]);
        push_all(&mut payload, entry.as_slice());
        j = j + 1;
    }
    proof {
        assert(mapped.take(mapped.len() as int) =~= mapped);
    }
    let wrapped = wrap_list(payload);
    push_all(out, wrapped.as_slice());
}

} // verus!
