//! Content fingerprints: SHA-256 digests in lower-case hexadecimal, and the
//! byte string an image is fingerprinted by.
use vstd::prelude::*;
use sha2::Digest;
use crate::text::string_push;

verus! {

/// The SHA-256 digest of a byte string.
pub uninterp spec fn sha256_digest(data: Seq<u8>) -> Seq<u8>;

/// Computes the SHA-256 digest of `data`.
///
/// Trusted: calls `sha2::Sha256::digest`, and claims that the digest is
/// `sha256_digest` of the input and is 32 bytes long (the output size of
/// SHA-256).
#[verifier::external_body]
pub(crate) fn sha256(data: &[u8]) -> (res: Vec<u8>)
    ensures
        res@ == sha256_digest(data@),
        res@.len() == 32,
{
    sha2::Sha256::digest(data).to_vec()
}

/// The lower-case hexadecimal character of a value below 16.
pub open spec fn hex_char(d: nat) -> char
    recommends
        d < 16,
{
    if d == 0 { '0' }
    else if d == 1 { '1' }
    else if d == 2 { '2' }
    else if d == 3 { '3' }
    else if d == 4 { '4' }
    else if d == 5 { '5' }
    else if d == 6 { '6' }
    else if d == 7 { '7' }
    else if d == 8 { '8' }
    else if d == 9 { '9' }
    else if d == 10 { 'a' }
    else if d == 11 { 'b' }
    else if d == 12 { 'c' }
    else if d == 13 { 'd' }
    else if d == 14 { 'e' }
    else { 'f' }
}

/// Lower-case hexadecimal, two characters per byte, high half first (what
/// `{:x}` prints for a digest).
pub open spec fn hex_lower_spec(b: Seq<u8>) -> Seq<char> {
    Seq::new(
        2 * b.len(),
        |i: int|
            if i % 2 == 0 {
                hex_char((b[i / 2] / 16) as nat)
            } else {
                hex_char((b[i / 2] % 16) as nat)
            },
    )
}

fn hex_digit(d: u8) -> (c: char)
    requires
        d < 16,
    ensures
        c == hex_char(d as nat),
{
    if d == 0 { '0' }
    else if d == 1 { '1' }
    else if d == 2 { '2' }
    else if d == 3 { '3' }
    else if d == 4 { '4' }
    else if d == 5 { '5' }
    else if d == 6 { '6' }
    else if d == 7 { '7' }
    else if d == 8 { '8' }
    else if d == 9 { '9' }
    else if d == 10 { 'a' }
    else if d == 11 { 'b' }
    else if d == 12 { 'c' }
    else if d == 13 { 'd' }
    else if d == 14 { 'e' }
    else { 'f' }
}

/// Encodes bytes as lower-case hexadecimal.
pub fn hex_lower(b: &[u8]) -> (res: String)
    ensures
        res@ == hex_lower_spec(b@),
{
    let mut res = String::new();
    let n: usize = b.len();
    let mut i: usize = 0;
    while i < n
        invariant
            n == b@.len(),
            i <= n,
            res@.len() == 2 * i,
            forall|j: int| 0 <= j < 2 * i ==> res@[j] == #[trigger] hex_lower_spec(b@)[j],
        decreases n - i,
    {
        let byte: u8 = b[i];
        let ghost before = res@;
        string_push(&mut res, hex_digit(byte / 16));
        string_push(&mut res, hex_digit(byte % 16));
        assert forall|j: int| 0 <= j < 2 * (i + 1) implies res@[j] == #[trigger] hex_lower_spec(b@)[j] by {
            if j >= 2 * i {
                assert(j / 2 == i);
            } else {
                assert(res@[j] == before[j]);
            }
        }
        i = i + 1;
    }
    assert(res@ =~= hex_lower_spec(b@));
    res
}

/// The SHA-256 digest of `data` in lower-case hexadecimal: 64 characters.
pub fn sha256_hex(data: &[u8]) -> (res: String)
    ensures
        res@ == hex_lower_spec(sha256_digest(data@)),
        res@.len() == 64,
{
    let digest = sha256(data);
    hex_lower(digest.as_slice())
}

proof fn lemma_hex_char_injective(a: nat, b: nat)
    requires
        a < 16,
        b < 16,
        hex_char(a) == hex_char(b),
    ensures
        a == b,
{
}

/// Hexadecimal encoding loses nothing: different byte strings never share
/// an encoding.
pub proof fn lemma_hex_lower_injective(a: Seq<u8>, b: Seq<u8>)
    requires
        hex_lower_spec(a) == hex_lower_spec(b),
    ensures
        a == b,
{
    assert(a.len() == b.len()) by {
        assert(hex_lower_spec(a).len() == 2 * a.len());
    }
    assert forall|i: int| 0 <= i < a.len() implies a[i] == b[i] by {
        assert(hex_lower_spec(a)[2 * i] == hex_lower_spec(b)[2 * i]);
        assert(hex_lower_spec(a)[2 * i + 1] == hex_lower_spec(b)[2 * i + 1]);
        assert((2 * i) / 2 == i);
        assert((2 * i + 1) / 2 == i);
        assert((2 * i) % 2 == 0);
        assert((2 * i + 1) % 2 == 1);
        assert(hex_lower_spec(a)[2 * i] == hex_char((a[(2 * i) / 2] / 16) as nat));
        assert(hex_lower_spec(b)[2 * i] == hex_char((b[(2 * i) / 2] / 16) as nat));
        assert(hex_lower_spec(a)[2 * i + 1] == hex_char((a[(2 * i + 1) / 2] % 16) as nat));
        assert(hex_lower_spec(b)[2 * i + 1] == hex_char((b[(2 * i + 1) / 2] % 16) as nat));
        lemma_hex_char_injective((a[i] / 16) as nat, (b[i] / 16) as nat);
        lemma_hex_char_injective((a[i] % 16) as nat, (b[i] % 16) as nat);
    }
    assert(a =~= b);
}

} // verus!

verus! {

/// The little-endian bytes of the low `k` bytes of `x`.
pub open spec fn le_bytes(x: nat, k: nat) -> Seq<u8>
    decreases k,
{
    if k == 0 {
        Seq::empty()
    } else {
        seq![(x % 256) as u8] + le_bytes(x / 256, (k - 1) as nat)
    }
}

/// What an image is fingerprinted by: its width and its height as 8-byte
/// little-endian integers, followed by its pixel bytes.
pub open spec fn image_fingerprint_input(width: nat, height: nat, pixels: Seq<u8>) -> Seq<u8> {
    le_bytes(width, 8) + le_bytes(height, 8) + pixels
}

/// Appends the 8 little-endian bytes of `x` (`x.to_le_bytes()`).
fn push_u64_le(out: &mut Vec<u8>, x: u64)
    ensures
        final(out)@ == old(out)@ + le_bytes(x as nat, 8),
{
    let mut v: u64 = x;
    let mut i: usize = 0;
    while i < 8
        invariant
            i <= 8,
            out@ + le_bytes(v as nat, (8 - i) as nat) == old(out)@ + le_bytes(x as nat, 8),
        decreases 8 - i,
    {
        let ghost before = out@;
        assert(le_bytes(v as nat, (8 - i) as nat) == seq![(v % 256) as u8] + le_bytes(
            (v / 256) as nat,
            (8 - i - 1) as nat,
        ));
        out.push((v % 256) as u8);
        assert(out@ + le_bytes((v / 256) as nat, (8 - (i + 1)) as nat) =~= before + le_bytes(
            v as nat,
            (8 - i) as nat,
        ));
        v = v / 256;
        i = i + 1;
    }
    assert(le_bytes(v as nat, 0) =~= Seq::<u8>::empty());
    assert(out@ =~= out@ + le_bytes(v as nat, 0));
}

/// The bytes an image of the given size and pixels is fingerprinted by.
pub fn image_fingerprint_bytes(width: usize, height: usize, pixels: &[u8]) -> (res: Vec<u8>)
    ensures
        res@ == image_fingerprint_input(width as nat, height as nat, pixels@),
{
    let mut out: Vec<u8> = Vec::new();
    push_u64_le(&mut out, width as u64);
    push_u64_le(&mut out, height as u64);
    let n: usize = pixels.len();
    let mut i: usize = 0;
    let ghost head = out@;
    while i < n
        invariant
            n == pixels@.len(),
            i <= n,
            out@ == head + pixels@.subrange(0, i as int),
        decreases n - i,
    {
        out.push(pixels[i]);
        assert(pixels@.subrange(0, i + 1) =~= pixels@.subrange(0, i as int).push(pixels@[i as int]));
        i = i + 1;
    }
    assert(pixels@.subrange(0, n as int) =~= pixels@);
    assert(out@ =~= image_fingerprint_input(width as nat, height as nat, pixels@));
    out
}

/// The fingerprint of an image: the SHA-256 of its size and pixels, in
/// lower-case hexadecimal.
pub fn image_fingerprint(width: usize, height: usize, pixels: &[u8]) -> (res: String)
    ensures
        res@ == hex_lower_spec(sha256_digest(image_fingerprint_input(width as nat, height as nat, pixels@))),
        res@.len() == 64,
{
    let input = image_fingerprint_bytes(width, height, pixels);
    sha256_hex(input.as_slice())
}

/// The fingerprint of a text: the SHA-256 of its UTF-8 bytes, in lower-case
/// hexadecimal.
pub fn text_fingerprint(text: &str) -> (res: String)
    ensures
        res@ == hex_lower_spec(sha256_digest(vstd::utf8::encode_utf8(text@))),
        res@.len() == 64,
{
    sha256_hex(text.as_bytes())
}

} // verus!

verus! {

/// 256 to the power `k`.
pub open spec fn pow256(k: nat) -> nat
    decreases k,
{
    if k == 0 {
        1
    } else {
        256 * pow256((k - 1) as nat)
    }
}

proof fn lemma_le_bytes_len(x: nat, k: nat)
    ensures
        le_bytes(x, k).len() == k,
    decreases k,
{
    if k > 0 {
        lemma_le_bytes_len(x / 256, (k - 1) as nat);
    }
}

/// Numbers below `256^k` have distinct `k`-byte little-endian forms.
pub proof fn lemma_le_bytes_injective(x: nat, y: nat, k: nat)
    requires
        x < pow256(k),
        y < pow256(k),
        le_bytes(x, k) == le_bytes(y, k),
    ensures
        x == y,
    decreases k,
{
    if k > 0 {
        let p = pow256((k - 1) as nat);
        assert(x / 256 < p) by (nonlinear_arith)
            requires
                x < 256 * p,
        ;
        assert(y / 256 < p) by (nonlinear_arith)
            requires
                y < 256 * p,
        ;
        assert(le_bytes(x, k)[0] == (x % 256) as u8);
        assert(le_bytes(y, k)[0] == (y % 256) as u8);
        assert(le_bytes(x, k).drop_first() =~= le_bytes(x / 256, (k - 1) as nat));
        assert(le_bytes(y, k).drop_first() =~= le_bytes(y / 256, (k - 1) as nat));
        lemma_le_bytes_injective(x / 256, y / 256, (k - 1) as nat);
    }
}

/// Two images share the bytes they are fingerprinted by only when they have
/// the same width, height and pixels.
pub proof fn lemma_image_fingerprint_input_injective(
    w1: usize,
    h1: usize,
    p1: Seq<u8>,
    w2: usize,
    h2: usize,
    p2: Seq<u8>,
)
    requires
        image_fingerprint_input(w1 as nat, h1 as nat, p1) == image_fingerprint_input(w2 as nat, h2 as nat, p2),
    ensures
        w1 == w2,
        h1 == h2,
        p1 == p2,
{
    let a = image_fingerprint_input(w1 as nat, h1 as nat, p1);
    lemma_le_bytes_len(w1 as nat, 8);
    lemma_le_bytes_len(h1 as nat, 8);
    lemma_le_bytes_len(w2 as nat, 8);
    lemma_le_bytes_len(h2 as nat, 8);
    assert(pow256(8) == 0x1_0000_0000_0000_0000) by {
        reveal_with_fuel(pow256, 9);
    }
    assert(a.subrange(0, 8) =~= le_bytes(w1 as nat, 8));
    assert(a.subrange(0, 8) =~= le_bytes(w2 as nat, 8));
    assert(a.subrange(8, 16) =~= le_bytes(h1 as nat, 8));
    assert(a.subrange(8, 16) =~= le_bytes(h2 as nat, 8));
    assert(a.subrange(16, a.len() as int) =~= p1);
    assert(a.subrange(16, a.len() as int) =~= p2);
    lemma_le_bytes_injective(w1 as nat, w2 as nat, 8);
    lemma_le_bytes_injective(h1 as nat, h2 as nat, 8);
}

} // verus!
