use vstd::prelude::*;
use vstd::string::*;
use vstd::utf8::*;
use sha2::{Digest, Sha256};

verus! {

/// The SHA-256 digest of a byte sequence.
pub uninterp spec fn sha256(data: Seq<u8>) -> Seq<u8>;

/// `sha2::Sha256::digest` over the UTF-8 bytes of `input`.
/// Trusted: the result is the digest named `sha256` of those bytes, and it is
/// 32 bytes long (the output size of `Sha256`).
#[verifier::external_body]
fn sha256_of_str(input: &str) -> (digest: Vec<u8>)
    ensures
        digest@ == sha256(encode_utf8(input@)),
        digest@.len() == 32,
{
    Sha256::digest(input.as_bytes()).to_vec()
}

/// The lower-case hexadecimal digit of a value below sixteen.
pub open spec fn hex_digit(nibble: u8) -> char {
    if nibble == 0 { '0' }
    else if nibble == 1 { '1' }
    else if nibble == 2 { '2' }
    else if nibble == 3 { '3' }
    else if nibble == 4 { '4' }
    else if nibble == 5 { '5' }
    else if nibble == 6 { '6' }
    else if nibble == 7 { '7' }
    else if nibble == 8 { '8' }
    else if nibble == 9 { '9' }
    else if nibble == 10 { 'a' }
    else if nibble == 11 { 'b' }
    else if nibble == 12 { 'c' }
    else if nibble == 13 { 'd' }
    else if nibble == 14 { 'e' }
    else { 'f' }
}

/// Lower-case hexadecimal text of a byte sequence: two digits per byte, high
/// nibble first.
pub open spec fn hex_lower(data: Seq<u8>) -> Seq<char>
    decreases data.len(),
{
    if data.len() == 0 {
        Seq::empty()
    } else {
        seq![hex_digit(data[0] / 16), hex_digit(data[0] % 16)] + hex_lower(data.drop_first())
    }
}

/// `hex::encode` on a byte slice.
/// Trusted: the result is the lower-case hexadecimal text of the bytes, two
/// digits per byte with the high nibble first (the crate's `HEX_CHARS_LOWER`
/// table).
#[verifier::external_body]
fn hex_encode(data: &[u8]) -> (text: String)
    ensures
        text@ == hex_lower(data@),
{
    hex::encode(data)
}

/// The hexadecimal text is twice as long as the data.
pub proof fn lemma_hex_lower_len(data: Seq<u8>)
    ensures
        hex_lower(data).len() == 2 * data.len(),
    decreases data.len(),
{
    if data.len() > 0 {
        lemma_hex_lower_len(data.drop_first());
    }
}

/// Every character of the hexadecimal text is a digit or a letter from `a` to `f`.
pub proof fn lemma_hex_lower_digits(data: Seq<u8>)
    ensures
        forall|i: int|
            0 <= i < hex_lower(data).len() ==> is_lower_hex_digit(#[trigger] hex_lower(data)[i]),
    decreases data.len(),
{
    lemma_hex_lower_len(data);
    if data.len() > 0 {
        lemma_hex_lower_digits(data.drop_first());
        let head = seq![hex_digit(data[0] / 16), hex_digit(data[0] % 16)];
        let rest = hex_lower(data.drop_first());
        assert(hex_lower(data) == head + rest);
        assert forall|i: int| 0 <= i < hex_lower(data).len() implies is_lower_hex_digit(
            #[trigger] hex_lower(data)[i],
        ) by {
            if i >= 2 {
                assert(hex_lower(data)[i] == rest[i - 2]);
            }
        }
    }
}

/// Byte `i` of the data is written at positions `2 * i` (high nibble) and
/// `2 * i + 1` (low nibble), with the digits of "0123456789abcdef".
pub proof fn lemma_hex_lower_positions(data: Seq<u8>)
    ensures
        hex_lower(data).len() == 2 * data.len(),
        forall|i: int| 0 <= i < data.len() ==> hex_lower(data)[2 * i] == "0123456789abcdef"@[(#[trigger] data[i] / 16) as int]
            && hex_lower(data)[2 * i + 1] == "0123456789abcdef"@[(data[i] % 16) as int],
    decreases data.len(),
{
    reveal_strlit("0123456789abcdef");
    lemma_hex_lower_len(data);
    if data.len() > 0 {
        lemma_hex_lower_positions(data.drop_first());
        let rest = hex_lower(data.drop_first());
        assert(hex_lower(data) == seq![hex_digit(data[0] / 16), hex_digit(data[0] % 16)] + rest);
        assert forall|i: int| 0 <= i < data.len() implies hex_lower(data)[2 * i] == "0123456789abcdef"@[(#[trigger] data[i] / 16) as int]
            && hex_lower(data)[2 * i + 1] == "0123456789abcdef"@[(data[i] % 16) as int] by {
            if i == 0 {
                let hi = data[0] / 16;
                let lo = data[0] % 16;
                assert(hex_digit(hi) == "0123456789abcdef"@[hi as int]);
                assert(hex_digit(lo) == "0123456789abcdef"@[lo as int]);
            } else {
                assert(data.drop_first()[i - 1] == data[i]);
                assert(hex_lower(data)[2 * i] == rest[2 * (i - 1)]);
                assert(hex_lower(data)[2 * i + 1] == rest[2 * (i - 1) + 1]);
            }
        }
    }
}

/// Different data give different hexadecimal text.
pub proof fn lemma_hex_lower_injective(a: Seq<u8>, b: Seq<u8>)
    ensures
        hex_lower(a) == hex_lower(b) ==> a == b,
{
    reveal_strlit("0123456789abcdef");
    lemma_hex_lower_positions(a);
    lemma_hex_lower_positions(b);
    if hex_lower(a) == hex_lower(b) {
        assert forall|i: int| 0 <= i < a.len() implies a[i] == b[i] by {
            assert(hex_lower(a)[2 * i] == hex_lower(b)[2 * i]);
            assert(hex_lower(a)[2 * i + 1] == hex_lower(b)[2 * i + 1]);
            let (ha, la, hb, lb) = (a[i] / 16, a[i] % 16, b[i] / 16, b[i] % 16);
            assert(ha == hb && la == lb);
        }
        assert(a =~= b);
    }
}

/// The cache file name is the lower-case hexadecimal SHA-256 digest of the
/// whole URL text followed by `.txt`; URL texts with different digests get
/// different file names.
pub proof fn lemma_filter_file_name_distinct(u: Seq<char>, v: Seq<char>)
    ensures
        filter_file_name(u) == hex_lower(sha256(encode_utf8(u))) + ".txt"@,
        sha256(encode_utf8(u)) != sha256(encode_utf8(v)) ==> filter_file_name(u) != filter_file_name(v),
{
    let hu = hex_lower(sha256(encode_utf8(u)));
    let hv = hex_lower(sha256(encode_utf8(v)));
    lemma_hex_lower_injective(sha256(encode_utf8(u)), sha256(encode_utf8(v)));
    if filter_file_name(u) == filter_file_name(v) {
        assert(filter_file_name(u).len() == hu.len() + ".txt"@.len());
        assert(filter_file_name(v).len() == hv.len() + ".txt"@.len());
        assert(hu.len() == hv.len());
        assert(hu =~= filter_file_name(u).subrange(0, hu.len() as int));
        assert(hv =~= filter_file_name(v).subrange(0, hv.len() as int));
    }
}

/// A character that `hex_lower` can produce.
pub open spec fn is_lower_hex_digit(c: char) -> bool {
    ('0' <= c && c <= '9') || ('a' <= c && c <= 'f')
}

/// The local file name of a filter list fetched from `url`: the lower-case
/// hexadecimal SHA-256 digest of the URL text followed by `.txt`.
pub open spec fn filter_file_name(url: Seq<char>) -> Seq<char> {
    hex_lower(sha256(encode_utf8(url))) + ".txt"@
}

/// Lower-case hexadecimal SHA-256 digest of the UTF-8 bytes of `input`.
pub fn calculate_sha256_hex(input: &str) -> (digest: String)
    ensures
        digest@ == hex_lower(sha256(encode_utf8(input@))),
        digest@.len() == 64,
{
    let bytes = sha256_of_str(input);
    let digest = hex_encode(bytes.as_slice());
    proof {
        lemma_hex_lower_len(bytes@);
    }
    digest
}

/// The name of the file in which the filter list at `filename` (its URL) is
/// cached: 64 lower-case hexadecimal digits and the extension `.txt`.
pub fn calc_filter_filename(filename: &str) -> (name: String)
    ensures
        name@ == filter_file_name(filename@),
        name@ == hex_lower(sha256(encode_utf8(filename@))) + ".txt"@,
        name@.len() == 68,
        forall|i: int| 0 <= i < 64 ==> is_lower_hex_digit(#[trigger] name@[i]),
        name@.subrange(64, 68) == ".txt"@,
{
    let mut name = calculate_sha256_hex(filename);
    name.append(".txt");
    proof {
        reveal_strlit(".txt");
        let digest = hex_lower(sha256(encode_utf8(filename@)));
        lemma_hex_lower_digits(sha256(encode_utf8(filename@)));
        assert(name@.subrange(64, 68) =~= ".txt"@);
        assert forall|i: int| 0 <= i < 64 implies is_lower_hex_digit(#[trigger] name@[i]) by {
            assert(name@[i] == digest[i]);
        }
    }
    name
}

} // verus!
