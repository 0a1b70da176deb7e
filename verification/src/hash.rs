//! The identity fingerprint: FNV-1a over an unambiguous byte encoding of a
//! (name, version) pair.

use crate::version::{Version, VersionView};
use std::hash::Hasher;
use vstd::bytes::*;
use vstd::prelude::*;
use vstd::utf8::*;

verus! {

/// The state of an FNV-1a hasher that has seen no byte.
pub const FNV_OFFSET: u64 = 0xcbf29ce484222325;

/// The multiplier of FNV-1a on 64 bits.
pub const FNV_PRIME: u64 = 0x100000001b3;

/// The byte that closes a text inside the encoding of a pair. It occurs in no
/// UTF-8 text, so a text followed by it can be told from every longer one.
pub const TEXT_END: u8 = 0xff;

/// One step of FNV-1a: fold the byte in with XOR, then multiply by the prime,
/// keeping the low 64 bits.
pub open spec fn fnv1a_step(h: u64, b: u8) -> u64 {
    (((h ^ (b as u64)) as int * (FNV_PRIME as int)) % 0x1_0000_0000_0000_0000) as u64
}

/// FNV-1a run over `bytes`, first byte first, from the state `h`.
pub open spec fn fnv1a_fold(h: u64, bytes: Seq<u8>) -> u64
    decreases bytes.len(),
{
    if bytes.len() == 0 {
        h
    } else {
        fnv1a_step(fnv1a_fold(h, bytes.drop_last()), bytes.last())
    }
}

/// A text as it enters the hash: its UTF-8 bytes, then [`TEXT_END`].
pub open spec fn text_bytes(s: Seq<char>) -> Seq<u8> {
    encode_utf8(s).push(TEXT_END)
}

/// The three numbers of a version as they enter the hash: eight bytes each,
/// least significant first.
pub open spec fn number_bytes(v: VersionView) -> Seq<u8> {
    spec_u64_to_le_bytes(v.major) + spec_u64_to_le_bytes(v.minor) + spec_u64_to_le_bytes(v.patch)
}

/// The byte encoding of a (name, version) pair: the fields one after another,
/// each text closed, each number at a fixed width.
pub open spec fn pair_bytes(name: Seq<char>, v: VersionView) -> Seq<u8> {
    text_bytes(name) + number_bytes(v) + text_bytes(v.pre) + text_bytes(v.build)
}

/// The fingerprint of a (name, version) pair.
pub open spec fn fingerprint(name: Seq<char>, v: VersionView) -> u64 {
    fnv1a_fold(FNV_OFFSET, pair_bytes(name, v))
}

/// Hashing two byte strings one after the other is hashing their
/// concatenation.
pub proof fn lemma_fold_concat(h: u64, a: Seq<u8>, b: Seq<u8>)
    ensures
        fnv1a_fold(h, a + b) == fnv1a_fold(fnv1a_fold(h, a), b),
    decreases b.len(),
{
    if b.len() == 0 {
        assert(a + b =~= a);
    } else {
        assert((a + b).drop_last() =~= a + b.drop_last());
        assert((a + b).last() == b.last());
        lemma_fold_concat(h, a, b.drop_last());
    }
}

/// The fingerprint is a function of the pair: equal names and equal versions
/// have equal fingerprints.
pub proof fn fingerprint_deterministic(
    name_a: Seq<char>,
    version_a: VersionView,
    name_b: Seq<char>,
    version_b: VersionView,
)
    requires
        name_a == name_b,
        version_a == version_b,
    ensures
        fingerprint(name_a, version_a) == fingerprint(name_b, version_b),
{
}

/// No byte of the UTF-8 form of a character is [`TEXT_END`].
proof fn lemma_scalar_bytes(c: u32)
    ensures
        forall|i: int| 0 <= i < encode_scalar(c).len() ==> encode_scalar(c)[i] != TEXT_END,
{
    assert((c & 0x7F) as u8 != 0xffu8) by (bit_vector);
    assert(0xC0u8 | ((c >> 6) & 0x1F) as u8 != 0xffu8) by (bit_vector);
    assert(0xE0u8 | ((c >> 12) & 0x0F) as u8 != 0xffu8) by (bit_vector);
    assert(0xF0u8 | ((c >> 18) & 0x7) as u8 != 0xffu8) by (bit_vector);
    assert(0x80u8 | (c & 0x3F) as u8 != 0xffu8) by (bit_vector);
    assert(0x80u8 | ((c >> 6) & 0x3F) as u8 != 0xffu8) by (bit_vector);
    assert(0x80u8 | ((c >> 12) & 0x3F) as u8 != 0xffu8) by (bit_vector);
}

/// No byte of the UTF-8 form of a text is [`TEXT_END`].
pub proof fn lemma_text_has_no_end(s: Seq<char>)
    ensures
        forall|i: int| 0 <= i < encode_utf8(s).len() ==> encode_utf8(s)[i] != TEXT_END,
    decreases s.len(),
{
    if s.len() > 0 {
        let head = encode_scalar(s[0] as u32);
        let tail = encode_utf8(s.drop_first());
        lemma_scalar_bytes(s[0] as u32);
        lemma_text_has_no_end(s.drop_first());
        assert(encode_utf8(s) == head + tail);
        assert forall|i: int| 0 <= i < encode_utf8(s).len() implies encode_utf8(s)[i]
            != TEXT_END by {
            if i < head.len() {
                assert(encode_utf8(s)[i] == head[i]);
            } else {
                assert(encode_utf8(s)[i] == tail[i - head.len()]);
            }
        }
    }
}

/// A closed text in front of other bytes can be read off in one way only.
pub proof fn lemma_text_prefix(a: Seq<char>, x: Seq<u8>, b: Seq<char>, y: Seq<u8>)
    requires
        text_bytes(a) + x == text_bytes(b) + y,
    ensures
        a == b,
        x == y,
{
    let ea = encode_utf8(a);
    let eb = encode_utf8(b);
    let l = text_bytes(a) + x;
    let r = text_bytes(b) + y;
    lemma_text_has_no_end(a);
    lemma_text_has_no_end(b);
    if ea.len() < eb.len() {
        assert(l[ea.len() as int] == TEXT_END);
        assert(r[ea.len() as int] == eb[ea.len() as int]);
        assert(false);
    }
    if eb.len() < ea.len() {
        assert(r[eb.len() as int] == TEXT_END);
        assert(l[eb.len() as int] == ea[eb.len() as int]);
        assert(false);
    }
    assert(ea =~= eb) by {
        assert forall|i: int| 0 <= i < ea.len() implies ea[i] == eb[i] by {
            assert(l[i] == ea[i]);
            assert(r[i] == eb[i]);
        }
    }
    encode_utf8_decode_utf8(a);
    encode_utf8_decode_utf8(b);
    assert(x =~= y) by {
        assert(l.len() == ea.len() + 1 + x.len());
        assert(r.len() == eb.len() + 1 + y.len());
        assert forall|i: int| 0 <= i < x.len() implies x[i] == y[i] by {
            assert(l[ea.len() + 1 + i] == x[i]);
            assert(r[eb.len() + 1 + i] == y[i]);
        }
    }
}

/// Pairs that differ in the name or in any part of the version have
/// different byte encodings: what enters the hash tells the pairs apart.
pub proof fn pair_bytes_injective(
    name_a: Seq<char>,
    version_a: VersionView,
    name_b: Seq<char>,
    version_b: VersionView,
)
    requires
        pair_bytes(name_a, version_a) == pair_bytes(name_b, version_b),
    ensures
        name_a == name_b,
        version_a == version_b,
{
    lemma_auto_spec_u64_to_from_le_bytes();
    let na = number_bytes(version_a);
    let nb = number_bytes(version_b);
    let ta = text_bytes(version_a.pre) + text_bytes(version_a.build);
    let tb = text_bytes(version_b.pre) + text_bytes(version_b.build);
    assert(pair_bytes(name_a, version_a) =~= text_bytes(name_a) + (na + ta));
    assert(pair_bytes(name_b, version_b) =~= text_bytes(name_b) + (nb + tb));
    lemma_text_prefix(name_a, na + ta, name_b, nb + tb);
    assert(na.len() == 24 && nb.len() == 24);
    assert(na =~= (na + ta).subrange(0, 24));
    assert(nb =~= (nb + tb).subrange(0, 24));
    assert(ta =~= (na + ta).subrange(24, (na + ta).len() as int));
    assert(tb =~= (nb + tb).subrange(24, (nb + tb).len() as int));
    assert(spec_u64_to_le_bytes(version_a.major) =~= na.subrange(0, 8));
    assert(spec_u64_to_le_bytes(version_b.major) =~= nb.subrange(0, 8));
    assert(spec_u64_to_le_bytes(version_a.minor) =~= na.subrange(8, 16));
    assert(spec_u64_to_le_bytes(version_b.minor) =~= nb.subrange(8, 16));
    assert(spec_u64_to_le_bytes(version_a.patch) =~= na.subrange(16, 24));
    assert(spec_u64_to_le_bytes(version_b.patch) =~= nb.subrange(16, 24));
    assert(version_a.major == version_b.major);
    assert(version_a.minor == version_b.minor);
    assert(version_a.patch == version_b.patch);
    lemma_text_prefix(
        version_a.pre,
        text_bytes(version_a.build),
        version_b.pre,
        text_bytes(version_b.build),
    );
    assert(text_bytes(version_a.build) =~= text_bytes(version_a.build) + Seq::<u8>::empty());
    assert(text_bytes(version_b.build) =~= text_bytes(version_b.build) + Seq::<u8>::empty());
    lemma_text_prefix(version_a.build, Seq::empty(), version_b.build, Seq::empty());
}

/// `fnv::FnvHasher::default` followed by `finish`: the state of a fresh
/// hasher, which the crate fixes at the FNV offset basis.
#[verifier::external_body]
fn fnv_start() -> (h: u64)
    ensures
        h == FNV_OFFSET,
{
    fnv::FnvHasher::default().finish()
}

/// `fnv::FnvHasher::write` on a hasher made by `with_key(h)`, read back with
/// `finish`: for each byte in order the state is XORed with the byte and
/// multiplied, wrapping, by the FNV prime.
#[verifier::external_body]
fn fnv_write(h: u64, bytes: &[u8]) -> (r: u64)
    ensures
        r == fnv1a_fold(h, bytes@),
{
    let mut hasher = fnv::FnvHasher::with_key(h);
    hasher.write(bytes);
    hasher.finish()
}

/// Folds a text and its closing byte into the state `h`.
fn write_text(h: u64, s: &str) -> (r: u64)
    ensures
        r == fnv1a_fold(h, text_bytes(s@)),
{
    let mid = fnv_write(h, s.as_bytes());
    let mut end: Vec<u8> = Vec::new();
    end.push(TEXT_END);
    let r = fnv_write(mid, end.as_slice());
    proof {
        assert(text_bytes(s@) =~= encode_utf8(s@) + end@);
        lemma_fold_concat(h, encode_utf8(s@), end@);
    }
    r
}

/// Folds a number into the state `h`.
fn write_number(h: u64, x: u64) -> (r: u64)
    ensures
        r == fnv1a_fold(h, spec_u64_to_le_bytes(x)),
{
    let bytes = u64_to_le_bytes(x);
    fnv_write(h, bytes.as_slice())
}

/// The 64-bit fingerprint of a crate name and version. It depends on nothing
/// but the two arguments.
pub fn fnv_key(name: &str, version: &Version) -> (key: u64)
    ensures
        key == fingerprint(name@, version@),
{
    let h0 = fnv_start();
    let h1 = write_text(h0, name);
    let h2 = write_number(h1, version.major);
    let h3 = write_number(h2, version.minor);
    let h4 = write_number(h3, version.patch);
    let h5 = write_text(h4, version.pre.as_str());
    let h6 = write_text(h5, version.build.as_str());
    proof {
        let v = version@;
        let a = text_bytes(name@);
        let b1 = spec_u64_to_le_bytes(v.major);
        let b2 = spec_u64_to_le_bytes(v.minor);
        let b3 = spec_u64_to_le_bytes(v.patch);
        let c = text_bytes(v.pre);
        let d = text_bytes(v.build);
        lemma_fold_concat(FNV_OFFSET, a, b1);
        lemma_fold_concat(FNV_OFFSET, a + b1, b2);
        lemma_fold_concat(FNV_OFFSET, a + b1 + b2, b3);
        lemma_fold_concat(FNV_OFFSET, a + b1 + b2 + b3, c);
        lemma_fold_concat(FNV_OFFSET, a + b1 + b2 + b3 + c, d);
        assert(pair_bytes(name@, v) =~= a + b1 + b2 + b3 + c + d);
    }
    h6
}

} // verus!
