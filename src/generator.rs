//! Synthetic records: an identifier and a text body.
use vstd::prelude::*;
use fake::Fake;

verus! {

/// Fewest words in a generated body.
pub const BODY_MIN_WORDS: usize = 100;

/// One past the most words in a generated body.
pub const BODY_MAX_WORDS: usize = 102;

/// Length of a hyphenated UUID in characters.
pub const UUID_TEXT_LEN: usize = 36;

/// A lowercase hexadecimal digit.
pub open spec fn is_lower_hex(c: char) -> bool {
    ('0' <= c && c <= '9') || ('a' <= c && c <= 'f')
}

/// `s` is a random (version 4, RFC 4122 variant) UUID in lowercase
/// hyphenated form: 36 characters, hyphens at 8, 13, 18 and 23, the version
/// digit `4` at 14, a variant digit `8`, `9`, `a` or `b` at 19, and lowercase
/// hex digits everywhere else.
pub open spec fn is_uuid_v4_text(s: Seq<char>) -> bool {
    &&& s.len() == UUID_TEXT_LEN
    &&& forall|i: int|
        0 <= i < s.len() ==> if i == 8 || i == 13 || i == 18 || i == 23 {
            #[trigger] s[i] == '-'
        } else {
            is_lower_hex(s[i])
        }
    &&& s[14] == '4'
    &&& (s[19] == '8' || s[19] == '9' || s[19] == 'a' || s[19] == 'b')
}

/// `s` is a generated sentence: not empty, and ending with a full stop.
pub open spec fn is_sentence_text(s: Seq<char>) -> bool {
    s.len() > 0 && s.last() == '.'
}

/// One synthetic record.
#[derive(Debug, Clone)]
pub struct FakeData {
    pub id: String,
    pub body: String,
}

impl FakeData {
    /// The record's identifier.
    pub fn id(&self) -> (r: &String)
        ensures
            r@ == self.id@,
    {
        &self.id
    }

    /// The record's text body.
    pub fn body(&self) -> (r: &String)
        ensures
            r@ == self.body@,
    {
        &self.body
    }
}

/// Relies on fake's `UUIDv4` faker for `String`: random bytes given the
/// RFC 4122 variant and version 4, written by uuid's hyphenated `Display`,
/// which uses lowercase hex.
#[verifier::external_body]
fn fake_uuid() -> (r: String)
    ensures
        is_uuid_v4_text(r@),
{
    fake::uuid::UUIDv4.fake::<String>()
}

/// Relies on fake's simplified-Chinese lorem `Sentence` faker: a random
/// sentence whose word count is drawn from `min_words..max_words` (an empty
/// range would panic there). The words are joined by spaces and a full stop
/// is appended.
#[verifier::external_body]
fn fake_sentence(min_words: usize, max_words: usize) -> (r: String)
    requires
        min_words < max_words,
    ensures
        is_sentence_text(r@),
{
    fake::faker::lorem::zh_cn::Sentence(min_words..max_words).fake::<String>()
}

/// A fresh batch of `num` records, each with a random UUID as identifier and
/// a random sentence as body.
pub fn init_fake_data(num: usize) -> (r: Vec<FakeData>)
    ensures
        r.len() == num,
        forall|i: int|
            0 <= i < r.len() ==> is_uuid_v4_text((#[trigger] r[i]).id@) && is_sentence_text(
                r[i].body@,
            ),
{
    let mut out: Vec<FakeData> = Vec::new();
    let mut k: usize = 0;
    while k < num
        invariant
            k <= num,
            out.len() == k,
            forall|i: int|
                0 <= i < out.len() ==> is_uuid_v4_text((#[trigger] out[i]).id@) && is_sentence_text(
                    out[i].body@,
                ),
        decreases num - k,
    {
        let id = fake_uuid();
        let body = fake_sentence(BODY_MIN_WORDS, BODY_MAX_WORDS);
        out.push(FakeData { id, body });
        k = k + 1;
    }
    out
}

} // verus!
