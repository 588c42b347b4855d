//! The identity of a deployment: the Keccak-256 digest of its serialized
//! configuration, in lower-case hexadecimal without a prefix.

use vstd::prelude::*;
use vstd::utf8::encode_utf8;

use crate::simplets::{CommonConfig, CommonConfigView, SmtpConfig, SmtpConfigView};

verus! {

/// `serde_json::Error`, the error type of `serde_json::to_string`. It is
/// carried through and never looked into.
#[verifier::external_type_specification]
#[verifier::external_body]
pub struct ExJsonError(serde_json::Error);

/// What stands for the character `c` inside a JSON string literal: the
/// double quote and the backslash behind a backslash, the five control
/// characters that have a letter of their own as that letter behind a
/// backslash, every other character below the space as `\u00` and its two
/// lower-case hexadecimal digits, and any other character as itself.
pub open spec fn json_escape(c: char) -> Seq<char> {
    if c == '"' {
        seq!['\\', '"']
    } else if c == '\\' {
        seq!['\\', '\\']
    } else if c == '\u{08}' {
        seq!['\\', 'b']
    } else if c == '\t' {
        seq!['\\', 't']
    } else if c == '\n' {
        seq!['\\', 'n']
    } else if c == '\u{0c}' {
        seq!['\\', 'f']
    } else if c == '\r' {
        seq!['\\', 'r']
    } else if (c as u32) < 0x20 {
        seq![
            '\\',
            'u',
            '0',
            '0',
            hex_digits()[c as u32 as int / 16],
            hex_digits()[c as u32 as int % 16],
        ]
    } else {
        seq![c]
    }
}

/// The characters of `text`, each as [`json_escape`] gives it.
pub open spec fn json_escaped(text: Seq<char>) -> Seq<char> {
    text.map_values(|c: char| json_escape(c)).flatten()
}

/// The JSON string literal that stands for `text`: its characters,
/// escaped, between double quotes.
pub open spec fn json_string(text: Seq<char>) -> Seq<char> {
    seq!['"'] + json_escaped(text) + seq!['"']
}

/// The Keccak-256 digest of `data`.
pub uninterp spec fn keccak_256_digest(data: Seq<u8>) -> Seq<u8>;

/// `serde_json::to_string` on a string slice. It returns the JSON string
/// literal for the slice, in the compact form whose escapes [`json_escape`]
/// lists, and it returns `Ok`: the serializer writes into a buffer in
/// memory, and a string slice is neither a map nor a value whose own
/// serialization can refuse.
#[verifier::external_body]
fn to_json_string(text: &str) -> (json: Result<String, serde_json::Error>)
    ensures
        json is Ok,
        json->Ok_0@ == json_string(text@),
{
    serde_json::to_string(text)
}

/// `sp_crypto_hashing::keccak_256` returns the Keccak-256 digest of its
/// argument, which has 32 bytes.
pub assume_specification[ sp_crypto_hashing::keccak_256 ](data: &[u8]) -> (digest: [u8; 32])
    ensures
        digest@ == keccak_256_digest(data@),
;

/// The sixteen digits of lower-case hexadecimal, by value.
pub open spec fn hex_digits() -> Seq<char> {
    "0123456789abcdef"@
}

/// `bytes` in lower-case hexadecimal: two digits for each byte, the high
/// half first.
pub open spec fn hex_lower(bytes: Seq<u8>) -> Seq<char> {
    Seq::new(
        2 * bytes.len(),
        |i: int|
            if i % 2 == 0 {
                hex_digits()[bytes[i / 2] as int / 16]
            } else {
                hex_digits()[bytes[i / 2] as int % 16]
            },
    )
}

/// The identity that belongs to a serialized configuration.
pub open spec fn identity_of(serialized: Seq<char>) -> Seq<char> {
    hex_lower(keccak_256_digest(encode_utf8(serialized)))
}

/// An optional string in JSON: its literal, or `null`.
pub open spec fn json_optional(value: Option<Seq<char>>) -> Seq<char> {
    match value {
        Some(text) => json_string(text),
        None => "null"@,
    }
}

/// A mail server record in JSON, its fields in the order of declaration.
pub open spec fn json_smtp(smtp: SmtpConfigView) -> Seq<char> {
    "{\"host\":"@ + json_string(smtp.host) + ",\"port\":"@ + json_string(smtp.port)
        + ",\"username\":"@ + json_string(smtp.username) + ",\"password\":"@ + json_string(
        smtp.password,
    ) + ",\"email_from\":"@ + json_string(smtp.email_from) + ",\"name_from\":"@ + json_string(
        smtp.name_from,
    ) + "}"@
}

/// An optional mail server record in JSON: the record, or `null`.
pub open spec fn json_optional_smtp(value: Option<SmtpConfigView>) -> Seq<char> {
    match value {
        Some(smtp) => json_smtp(smtp),
        None => "null"@,
    }
}

/// The common configuration in JSON: every field in the order of
/// declaration, an absent one as `null`.
pub open spec fn json_common(config: CommonConfigView) -> Seq<char> {
    "{\"app_secret\":"@ + json_optional(config.app_secret) + ",\"app_url\":"@ + json_optional(
        config.app_url,
    ) + ",\"mysql_password\":"@ + json_optional(config.mysql_password) + ",\"mysql_db\":"@
        + json_optional(config.mysql_db) + ",\"admin_wallet\":"@ + json_optional(
        config.admin_wallet,
    ) + ",\"apillon_key\":"@ + json_optional(config.apillon_key) + ",\"apillon_secret\":"@
        + json_optional(config.apillon_secret) + ",\"smtp_config\":"@ + json_optional_smtp(
        config.smtp_config,
    ) + "}"@
}

/// The sixteen hexadecimal digits are the characters `0` to `9` and `a` to
/// `f`, in this order, so that no two values share a digit.
pub proof fn lemma_hex_digits(value: int)
    requires
        0 <= value < 16,
    ensures
        hex_digits().len() == 16,
        hex_digits()[value] as int == if value < 10 {
            '0' as int + value
        } else {
            'a' as int + value - 10
        },
{
    reveal_strlit("0123456789abcdef");
}

/// Hexadecimal loses nothing: byte strings that are written alike are the
/// same byte string.
pub proof fn lemma_hex_is_injective(first: Seq<u8>, second: Seq<u8>)
    requires
        hex_lower(first) == hex_lower(second),
    ensures
        first == second,
{
    assert(hex_lower(first).len() == 2 * first.len());
    assert(hex_lower(second).len() == 2 * second.len());
    assert forall|i: int| 0 <= i < first.len() implies first[i] == second[i] by {
        let a = first[i] as int;
        let b = second[i] as int;
        assert(hex_lower(first)[2 * i] == hex_digits()[a / 16]);
        assert(hex_lower(second)[2 * i] == hex_digits()[b / 16]);
        assert(hex_lower(first)[2 * i + 1] == hex_digits()[a % 16]);
        assert(hex_lower(second)[2 * i + 1] == hex_digits()[b % 16]);
        lemma_hex_digits(a / 16);
        lemma_hex_digits(b / 16);
        lemma_hex_digits(a % 16);
        lemma_hex_digits(b % 16);
        assert(a / 16 == b / 16);
        assert(a % 16 == b % 16);
    }
    assert(first =~= second);
}

/// Identities collide only where digests collide: serialized
/// configurations whose digests differ have different identities.
pub proof fn lemma_identities_differ_with_digests(first: Seq<char>, second: Seq<char>)
    requires
        keccak_256_digest(encode_utf8(first)) != keccak_256_digest(encode_utf8(second)),
    ensures
        identity_of(first) != identity_of(second),
{
    if identity_of(first) == identity_of(second) {
        lemma_hex_is_injective(
            keccak_256_digest(encode_utf8(first)),
            keccak_256_digest(encode_utf8(second)),
        );
    }
}

/// Writes `bytes` in lower-case hexadecimal.
pub fn encode_hex(bytes: &[u8]) -> (hex: String)
    ensures
        hex@ == hex_lower(bytes@),
{
    let digits = "0123456789abcdef";
    proof {
        reveal_strlit("0123456789abcdef");
    }
    let mut hex = String::new();
    let mut index: usize = 0;
    assert(hex@ =~= hex_lower(bytes@.take(0)));
    while index < bytes.len()
        invariant
            index <= bytes.len(),
            digits@ == hex_digits(),
            digits@.len() == 16,
            hex@ == hex_lower(bytes@.take(index as int)),
        decreases bytes.len() - index,
    {
        let byte = bytes[index];
        let high: usize = (byte / 16) as usize;
        let low: usize = (byte % 16) as usize;
        hex.append(digits.substring_char(high, high + 1));
        hex.append(digits.substring_char(low, low + 1));
        assert(hex@ =~= hex_lower(bytes@.take(index as int + 1)));
        index = index + 1;
    }
    assert(bytes@.take(index as int) =~= bytes@);
    hex
}

/// The identity of a serialized configuration: the Keccak-256 digest of
/// its bytes, in lower-case hexadecimal.
pub fn derive_id(serialized: &str) -> (id: String)
    ensures
        id@ == identity_of(serialized@),
        id@.len() == 64,
{
    let digest = sp_crypto_hashing::keccak_256(serialized.as_bytes());
    encode_hex(digest.as_slice())
}

/// Appends the JSON string literal for `text`.
fn push_json_string(out: &mut String, text: &str)
    ensures
        final(out)@ == old(out)@ + json_string(text@),
{
    let literal = to_json_string(text).unwrap();
    out.append(literal.as_str());
}

/// Appends an optional string in JSON.
pub(crate) fn push_json_optional(out: &mut String, value: &Option<String>)
    ensures
        final(out)@ == old(out)@ + json_optional(crate::simplets::text_of(*value)),
{
    match value {
        Some(text) => push_json_string(out, text.as_str()),
        None => out.append("null"),
    }
}

/// Serializes a mail server record.
fn smtp_to_json(smtp: &SmtpConfig) -> (json: String)
    ensures
        json@ == json_smtp(smtp@),
{
    let mut json = String::from_str("{\"host\":");
    push_json_string(&mut json, smtp.host.as_str());
    json.append(",\"port\":");
    push_json_string(&mut json, smtp.port.as_str());
    json.append(",\"username\":");
    push_json_string(&mut json, smtp.username.as_str());
    json.append(",\"password\":");
    push_json_string(&mut json, smtp.password.as_str());
    json.append(",\"email_from\":");
    push_json_string(&mut json, smtp.email_from.as_str());
    json.append(",\"name_from\":");
    push_json_string(&mut json, smtp.name_from.as_str());
    json.append("}");
    json
}

/// Serializes the common configuration.
pub(crate) fn common_to_json(config: &CommonConfig) -> (json: String)
    ensures
        json@ == json_common(config@),
{
    let mut json = String::from_str("{\"app_secret\":");
    push_json_optional(&mut json, &config.app_secret);
    json.append(",\"app_url\":");
    push_json_optional(&mut json, &config.app_url);
    json.append(",\"mysql_password\":");
    push_json_optional(&mut json, &config.mysql_password);
    json.append(",\"mysql_db\":");
    push_json_optional(&mut json, &config.mysql_db);
    json.append(",\"admin_wallet\":");
    push_json_optional(&mut json, &config.admin_wallet);
    json.append(",\"apillon_key\":");
    push_json_optional(&mut json, &config.apillon_key);
    json.append(",\"apillon_secret\":");
    push_json_optional(&mut json, &config.apillon_secret);
    json.append(",\"smtp_config\":");
    match &config.smtp_config {
        Some(smtp) => {
            let record = smtp_to_json(smtp);
            json.append(record.as_str());
        },
        None => json.append("null"),
    }
    json.append("}");
    json
}

} // verus!
