//! Content digests for integrity checks, built on BLAKE3.
use vstd::prelude::*;
use crate::path_map::same_text;

verus! {

/// The BLAKE3 digest of some bytes, as `blake3::hash` computes it.
pub uninterp spec fn blake3_of(data: Seq<u8>) -> Seq<u8>;

/// Relies on `blake3::hash` and `Hash::as_bytes`: the 32-byte digest depends
/// on the input alone.
#[verifier::external_body]
fn blake3_digest(data: &[u8]) -> (r: Vec<u8>)
    ensures
        r@ == blake3_of(data@),
        r@.len() == 32,
{
    blake3::hash(data).as_bytes().to_vec()
}

/// Above this size, content is digested chunk by chunk.
pub const CHUNKED_THRESHOLD: usize = 10485760;

/// The chunk size of a chunked digest.
pub const CHUNK_SIZE: usize = 1048576;

/// The lower-case hexadecimal digit of `d`.
pub open spec fn hex_char(d: nat) -> char {
    if d < 10 {
        crate::text::digit_char(d)
    } else if d == 10 {
        'a'
    } else if d == 11 {
        'b'
    } else if d == 12 {
        'c'
    } else if d == 13 {
        'd'
    } else if d == 14 {
        'e'
    } else {
        'f'
    }
}

/// Two lower-case hexadecimal digits per byte, high digit first.
pub open spec fn hex_of(bytes: Seq<u8>) -> Seq<char>
    decreases bytes.len(),
{
    if bytes.len() == 0 {
        Seq::empty()
    } else {
        hex_of(bytes.drop_last()) + seq![
            hex_char((bytes.last() / 16) as nat),
            hex_char((bytes.last() % 16) as nat),
        ]
    }
}

fn hex_digit_text(d: u8) -> (r: &'static str)
    requires
        d < 16,
    ensures
        r@ == seq![hex_char(d as nat)],
{
    proof {
        reveal_strlit("0");
        reveal_strlit("1");
        reveal_strlit("2");
        reveal_strlit("3");
        reveal_strlit("4");
        reveal_strlit("5");
        reveal_strlit("6");
        reveal_strlit("7");
        reveal_strlit("8");
        reveal_strlit("9");
        reveal_strlit("a");
        reveal_strlit("b");
        reveal_strlit("c");
        reveal_strlit("d");
        reveal_strlit("e");
        reveal_strlit("f");
    }
    let table: [&'static str; 16] = [
        "0", "1", "2", "3", "4", "5", "6", "7", "8", "9", "a", "b", "c", "d", "e", "f",
    ];
    let r = table[d as usize];
    assert(r@ =~= seq![hex_char(d as nat)]);
    r
}

/// The lower-case hexadecimal text of `bytes`.
pub fn to_hex(bytes: &[u8]) -> (r: String)
    ensures
        r@ == hex_of(bytes@),
{
    let mut out = String::new();
    let mut i: usize = 0;
    while i < bytes.len()
        invariant
            i <= bytes@.len(),
            out@ == hex_of(bytes@.subrange(0, i as int)),
        decreases bytes@.len() - i,
    {
        let b = bytes[i];
        let ghost start = out@;
        out.append(hex_digit_text(b / 16));
        out.append(hex_digit_text(b % 16));
        assert(bytes@.subrange(0, i + 1).drop_last() =~= bytes@.subrange(0, i as int));
        assert(out@ =~= hex_of(bytes@.subrange(0, i + 1)));
        i += 1;
    }
    assert(bytes@.subrange(0, bytes@.len() as int) =~= bytes@);
    out
}

/// The digests of the chunks of `c` from `start` on, concatenated.
pub open spec fn chunk_digests_from(c: Seq<u8>, start: int) -> Seq<u8>
    decreases c.len() - start,
{
    if start < 0 || start >= c.len() {
        Seq::empty()
    } else {
        let step = 1048576int;
        if start + step < c.len() {
            blake3_of(c.subrange(start, start + step)) + chunk_digests_from(c, start + step)
        } else {
            blake3_of(c.subrange(start, c.len() as int))
        }
    }
}

/// The digest of some content: of the bytes themselves up to the threshold;
/// above it, of the concatenated digests of its chunks.
pub open spec fn content_digest_spec(c: Seq<u8>) -> Seq<char> {
    if c.len() > CHUNKED_THRESHOLD {
        hex_of(blake3_of(chunk_digests_from(c, 0)))
    } else {
        hex_of(blake3_of(c))
    }
}

/// The digest of some content, as lower-case hexadecimal text.
pub fn content_digest(content: &[u8]) -> (r: String)
    ensures
        r@ == content_digest_spec(content@),
{
    if content.len() <= CHUNKED_THRESHOLD {
        let d = blake3_digest(content);
        return to_hex(d.as_slice());
    }
    let n = content.len();
    let mut acc: Vec<u8> = Vec::new();
    let mut start: usize = 0;
    while start < n
        invariant
            n == content@.len(),
            acc@ + chunk_digests_from(content@, start as int) == chunk_digests_from(content@, 0),
        decreases n - start,
    {
        let end = if n - start > CHUNK_SIZE {
            start + CHUNK_SIZE
        } else {
            n
        };
        let chunk = vstd::slice::slice_subrange(content, start, end);
        let mut d = blake3_digest(chunk);
        let ghost before = acc@;
        acc.append(&mut d);
        if n - start <= CHUNK_SIZE {
            assert(chunk_digests_from(content@, start as int) == blake3_of(chunk@));
            start = n;
            assert(chunk_digests_from(content@, start as int) =~= Seq::<u8>::empty());
            assert(acc@ + chunk_digests_from(content@, start as int) =~= before + blake3_of(
                chunk@,
            ));
        } else {
            assert(chunk_digests_from(content@, start as int) == blake3_of(chunk@)
                + chunk_digests_from(content@, start + CHUNK_SIZE));
            assert(before + chunk_digests_from(content@, start as int) =~= acc@
                + chunk_digests_from(content@, start + CHUNK_SIZE));
            start = start + CHUNK_SIZE;
        }
    }
    assert(chunk_digests_from(content@, start as int) =~= Seq::<u8>::empty());
    assert(acc@ + chunk_digests_from(content@, start as int) =~= acc@);
    let d = blake3_digest(acc.as_slice());
    to_hex(d.as_slice())
}

/// Whether two contents have the same digest.
pub fn verify_file_integrity(content1: &[u8], content2: &[u8]) -> (r: bool)
    ensures
        r == (content_digest_spec(content1@) == content_digest_spec(content2@)),
{
    let d1 = content_digest(content1);
    let d2 = content_digest(content2);
    same_text(d1.as_str(), d2.as_str())
}

} // verus!
