//! Digests of content.
use sha2::Digest;
use vstd::prelude::*;
use vstd::string::*;

verus! {

/// The name given to what `sha2::Sha256::digest` returns: the SHA-256 of some
/// bytes. The library does not restate the algorithm.
pub uninterp spec fn sha256(content: Seq<u8>) -> Seq<u8>;

/// `sha2::Sha256::digest` depends on the content alone, and returns 32 bytes.
#[verifier::external_body]
pub(crate) fn sha256_of(content: &[u8]) -> (digest: Vec<u8>)
    ensures
        digest@ == sha256(content@),
        digest@.len() == 32,
{
    sha2::Sha256::digest(content).to_vec()
}

/// A hexadecimal digit in lower case.
pub open spec fn hex_digit(value: int) -> char {
    if value < 10 {
        (48 + value) as char
    } else {
        (87 + value) as char
    }
}

/// The written form of bytes: two hexadecimal digits each, the higher first.
pub open spec fn hex_form(bytes: Seq<u8>) -> Seq<char> {
    Seq::new(
        2 * bytes.len(),
        |i: int|
            if i % 2 == 0 {
                hex_digit(bytes[i / 2] as int / 16)
            } else {
                hex_digit(bytes[i / 2] as int % 16)
            },
    )
}

fn hex_char(value: u8) -> (c: char)
    requires
        value < 16,
    ensures
        c == hex_digit(value as int),
{
    if value < 10 {
        (48 + value) as char
    } else {
        (87 + value) as char
    }
}

/// The written form of bytes.
pub fn hex_text(bytes: &Vec<u8>) -> (text: String)
    ensures
        text@ == hex_form(bytes@),
{
    let mut text = String::new();
    for i in 0..bytes.len()
        invariant
            text@ == hex_form(bytes@.take(i as int)),
    {
        let byte: u8 = bytes[i];
        let ghost before = text@;
        text.push(hex_char(byte / 16));
        text.push(hex_char(byte % 16));
        proof {
            let longer = hex_form(bytes@.take(i + 1));
            assert(text@ =~= before.push(hex_digit(byte as int / 16)).push(
                hex_digit(byte as int % 16),
            ));
            assert(longer =~= text@) by {
                assert forall|k: int| 0 <= k < longer.len() implies longer[k] == text@[k] by {
                    if k < 2 * i {
                        assert(bytes@.take(i + 1)[k / 2] == bytes@.take(i as int)[k / 2]);
                        assert(before[k] == longer[k]);
                    } else if k == 2 * i {
                        assert(k / 2 == i && k % 2 == 0);
                    } else {
                        assert(k / 2 == i && k % 2 == 1);
                    }
                }
            }
        }
    }
    assert(bytes@.take(bytes@.len() as int) =~= bytes@);
    text
}

/// The SHA-256 of a file, as it is written in manifests.
pub fn snapshot_file_sha256(content: &[u8]) -> (text: String)
    ensures
        text@ == hex_form(sha256(content@)),
        text@.len() == 64,
{
    let digest = sha256_of(content);
    hex_text(&digest)
}

proof fn lemma_digits(bytes: Seq<u8>, i: int)
    requires
        0 <= i < bytes.len(),
    ensures
        hex_form(bytes)[2 * i] == hex_digit(bytes[i] as int / 16),
        hex_form(bytes)[2 * i + 1] == hex_digit(bytes[i] as int % 16),
{
    assert((2 * i) % 2 == 0 && (2 * i) / 2 == i);
    assert((2 * i + 1) % 2 == 1 && (2 * i + 1) / 2 == i);
}

/// Two files with one digest as text have one digest: the written form tells
/// digests apart.
pub proof fn law_written_forms_tell_apart(left: Seq<u8>, right: Seq<u8>)
    requires
        hex_form(left) == hex_form(right),
    ensures
        left == right,
{
    assert(hex_form(left).len() == 2 * left.len());
    assert(hex_form(right).len() == 2 * right.len());
    assert forall|i: int| 0 <= i < left.len() implies left[i] == right[i] by {
        lemma_digits(left, i);
        lemma_digits(right, i);
    }
    assert(left =~= right);
}

/// A byte is written with two digits in lower case, the higher first.
pub proof fn law_bytes_are_written_with_two_digits(bytes: Seq<u8>, at: int)
    requires
        0 <= at < bytes.len(),
    ensures
        hex_form(bytes).len() == 2 * bytes.len(),
        ({
            let high = hex_form(bytes)[2 * at];
            let low = hex_form(bytes)[2 * at + 1];
            &&& bytes[at] < 160 ==> high as u32 == '0' as u32 + bytes[at] / 16
            &&& bytes[at] >= 160 ==> high as u32 == 'a' as u32 + bytes[at] / 16 - 10
            &&& bytes[at] % 16 < 10 ==> low as u32 == '0' as u32 + bytes[at] % 16
            &&& bytes[at] % 16 >= 10 ==> low as u32 == 'a' as u32 + bytes[at] % 16 - 10
        }),
{
    assert((2 * at) / 2 == at && (2 * at) % 2 == 0);
    assert((2 * at + 1) / 2 == at && (2 * at + 1) % 2 == 1);
}

} // verus!
