use vstd::prelude::*;
use vstd::utf8::encode_utf8;

verus! {

/// The 32-byte BLAKE3 digest of `data`.
pub uninterp spec fn blake3_of(data: Seq<u8>) -> Seq<u8>;

/// Relies on `blake3::hash`: the BLAKE3 digest of `data`, a function of the
/// bytes alone.
#[verifier::external_body]
fn blake3_digest(data: &[u8]) -> (r: [u8; 32])
    ensures
        r@ == blake3_of(data@),
{
    *blake3::hash(data).as_bytes()
}

/// Little-endian bytes of `v`.
pub open spec fn le_bytes(v: u32) -> Seq<u8> {
    seq![
        (v % 256) as u8,
        ((v / 256) % 256) as u8,
        ((v / 65536) % 256) as u8,
        ((v / 16777216) % 256) as u8,
    ]
}

fn push_le(out: &mut Vec<u8>, v: u32)
    ensures
        final(out)@ == old(out)@ + le_bytes(v),
{
    out.push((v % 256) as u8);
    out.push(((v / 256) % 256) as u8);
    out.push(((v / 65536) % 256) as u8);
    out.push(((v / 16777216) % 256) as u8);
    assert(out@ =~= old(out)@ + le_bytes(v));
}

fn push_bytes(out: &mut Vec<u8>, b: &[u8])
    ensures
        final(out)@ == old(out)@ + b@,
{
    let mut i: usize = 0;
    while i < b.len()
        invariant
            i <= b@.len(),
            out@ == old(out)@ + b@.subrange(0, i as int),
        decreases b.len() - i,
    {
        out.push(b[i]);
        proof {
            assert(b@.subrange(0, i + 1) =~= b@.subrange(0, i as int).push(b@[i as int]));
        }
        i = i + 1;
    }
    assert(b@.subrange(0, b@.len() as int) =~= b@);
}

/// What the translation cache key digests:
/// `src_lang | tgt_lang | glossary_version | normalized_text`.
pub open spec fn key_material(src: Seq<u8>, tgt: Seq<u8>, glossary_version: u32, text: Seq<u8>) -> Seq<
    u8,
> {
    src + seq![124u8] + tgt + seq![124u8] + le_bytes(glossary_version) + seq![124u8] + text
}

/// Cache key of a translation: the digest of its languages, the glossary
/// version and the normalised text, so that a glossary edit invalidates
/// older entries.
pub fn compute_key(src_lang: &str, tgt_lang: &str, glossary_ver: u32, normalized_text: &str) -> (r:
    [u8; 32])
    ensures
        r@ == blake3_of(
            key_material(
                encode_utf8(src_lang@),
                encode_utf8(tgt_lang@),
                glossary_ver,
                encode_utf8(normalized_text@),
            ),
        ),
{
    let mut m: Vec<u8> = Vec::new();
    push_bytes(&mut m, src_lang.as_bytes());
    m.push(124u8);
    push_bytes(&mut m, tgt_lang.as_bytes());
    m.push(124u8);
    push_le(&mut m, glossary_ver);
    m.push(124u8);
    push_bytes(&mut m, normalized_text.as_bytes());
    assert(m@ =~= key_material(
        encode_utf8(src_lang@),
        encode_utf8(tgt_lang@),
        glossary_ver,
        encode_utf8(normalized_text@),
    ));
    blake3_digest(m.as_slice())
}

/// Vertical bucket of a line: its centre rounded down to a multiple of 8.
pub open spec fn y_bucket(y_center: u32) -> u32 {
    ((y_center / 8) * 8) as u32
}

/// What the line key digests: `text | y_bucket`.
pub open spec fn line_material(text: Seq<u8>, y_center: u32) -> Seq<u8> {
    text + seq![124u8] + le_bytes(y_bucket(y_center))
}

/// Key of an OCR line for the frame-to-frame diff.
pub fn line_hash(text: &str, y_center: u32) -> (r: [u8; 32])
    ensures
        r@ == blake3_of(line_material(encode_utf8(text@), y_center)),
{
    let bucket = (y_center / 8) * 8;
    let mut m: Vec<u8> = Vec::new();
    push_bytes(&mut m, text.as_bytes());
    m.push(124u8);
    push_le(&mut m, bucket);
    assert(m@ =~= line_material(encode_utf8(text@), y_center));
    blake3_digest(m.as_slice())
}

/// Line keys depend only on the text and the vertical bucket: two lines
/// with the same text whose centres fall in the same 8-pixel bucket get the
/// same key.
pub proof fn lemma_line_hash_bucket(text: Seq<u8>, y1: u32, y2: u32)
    requires
        y1 / 8 == y2 / 8,
    ensures
        blake3_of(line_material(text, y1)) == blake3_of(line_material(text, y2)),
{
    assert(y_bucket(y1) == y_bucket(y2));
}

/// Whether two digests are equal.
pub fn same_digest(a: &[u8; 32], b: &[u8; 32]) -> (r: bool)
    ensures
        r == (a@ == b@),
{
    let mut i: usize = 0;
    while i < 32
        invariant
            i <= 32,
            a@.len() == 32,
            b@.len() == 32,
            forall|k: int| 0 <= k < i ==> a@[k] == b@[k],
        decreases 32 - i,
    {
        if a[i] != b[i] {
            assert(a@[i as int] != b@[i as int]);
            return false;
        }
        i = i + 1;
    }
    assert(a@ =~= b@);
    true
}

} // verus!
