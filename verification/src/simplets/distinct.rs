//! Serialization loses nothing: configurations that differ are written
//! differently, so that their identities differ wherever the digest tells
//! their serialized forms apart.

use vstd::prelude::*;

use vstd::utf8::{decode_utf8, encode_utf8, encode_utf8_decode_utf8};

use crate::simplets::email_airdrop::{json_email_airdrop, EmailAirdropConfigView};
use crate::simplets::identity::{
    identity_of, json_common, json_escape, json_escaped, json_optional, json_optional_smtp,
    json_smtp, json_string, keccak_256_digest, lemma_hex_digits, lemma_identities_differ_with_digests,
};
use crate::simplets::proof_of_attendance::json_proof_of_attendance;
use crate::simplets::{CommonConfigView, SmtpConfigView};

verus! {

/// Sequences that follow the same prefix and make the same whole are the
/// same.
proof fn lemma_cancel_prefix(prefix: Seq<char>, first: Seq<char>, second: Seq<char>)
    requires
        prefix + first == prefix + second,
    ensures
        first == second,
{
    let whole = prefix + first;
    assert(first =~= whole.subrange(prefix.len() as int, whole.len() as int));
    assert(second =~= (prefix + second).subrange(prefix.len() as int, whole.len() as int));
}

/// An escape never begins with a double quote, and it tells where it
/// ends and which character it stands for: escapes that begin two equal
/// sequences are escapes of one character, and what follows them is equal.
pub proof fn lemma_escape_delimits(a: char, rest_a: Seq<char>, b: char, rest_b: Seq<char>)
    requires
        json_escape(a) + rest_a == json_escape(b) + rest_b,
    ensures
        a == b,
        rest_a == rest_b,
        json_escape(a).len() >= 1,
        json_escape(a)[0] != '"',
{
    let left = json_escape(a) + rest_a;
    let right = json_escape(b) + rest_b;
    if (a as u32) < 0x20 {
        lemma_hex_digits(a as u32 as int / 16);
        lemma_hex_digits(a as u32 as int % 16);
    }
    if (b as u32) < 0x20 {
        lemma_hex_digits(b as u32 as int / 16);
        lemma_hex_digits(b as u32 as int % 16);
    }
    assert(left[0] == right[0]);
    assert(left[0] == json_escape(a)[0]);
    assert(right[0] == json_escape(b)[0]);
    if json_escape(a).len() >= 2 {
        assert(left[1] == json_escape(a)[1]);
    }
    if json_escape(b).len() >= 2 {
        assert(right[1] == json_escape(b)[1]);
    }
    if json_escape(a).len() >= 6 {
        assert(left[4] == json_escape(a)[4]);
        assert(left[5] == json_escape(a)[5]);
    }
    if json_escape(b).len() >= 6 {
        assert(right[4] == json_escape(b)[4]);
        assert(right[5] == json_escape(b)[5]);
    }
    if json_escape(a).len() == 1 && json_escape(b).len() >= 2 {
        assert(left[0] == a);
    }
    if json_escape(b).len() == 1 && json_escape(a).len() >= 2 {
        assert(right[0] == b);
    }
    assert(a as u32 == b as u32);
    assert(a == b);
    lemma_cancel_prefix(json_escape(a), rest_a, rest_b);
}

/// The escaped form of a text that is not empty begins with the escape
/// of its first character.
proof fn lemma_escaped_unfolds(text: Seq<char>)
    requires
        text.len() > 0,
    ensures
        json_escaped(text) == json_escape(text[0]) + json_escaped(text.drop_first()),
{
    let escapes = text.map_values(|c: char| json_escape(c));
    assert(escapes.first() == json_escape(text[0]));
    assert(escapes.drop_first() =~= text.drop_first().map_values(|c: char| json_escape(c)));
}

/// An escaped text tells where it ends: the first double quote after it
/// closes it.
pub proof fn lemma_escaped_delimits(
    first: Seq<char>,
    rest_first: Seq<char>,
    second: Seq<char>,
    rest_second: Seq<char>,
)
    requires
        json_escaped(first) + (seq!['"'] + rest_first) == json_escaped(second) + (seq!['"']
            + rest_second),
    ensures
        first == second,
        rest_first == rest_second,
    decreases first.len(),
{
    let tail_first = seq!['"'] + rest_first;
    let tail_second = seq!['"'] + rest_second;
    if first.len() == 0 && second.len() == 0 {
        assert(json_escaped(first) + tail_first =~= tail_first);
        assert(json_escaped(second) + tail_second =~= tail_second);
        lemma_cancel_prefix(seq!['"'], rest_first, rest_second);
        assert(first =~= second);
    } else if first.len() == 0 {
        lemma_escaped_unfolds(second);
        let after = json_escaped(second.drop_first()) + tail_second;
        assert(json_escaped(second) + tail_second =~= json_escape(second[0]) + after);
        lemma_escape_delimits(second[0], after, second[0], after);
        assert(json_escaped(first) + tail_first =~= tail_first);
        assert(tail_first[0] == '"');
        assert((json_escape(second[0]) + after)[0] == json_escape(second[0])[0]);
        assert(false);
    } else if second.len() == 0 {
        lemma_escaped_unfolds(first);
        let after = json_escaped(first.drop_first()) + tail_first;
        assert(json_escaped(first) + tail_first =~= json_escape(first[0]) + after);
        lemma_escape_delimits(first[0], after, first[0], after);
        assert(json_escaped(second) + tail_second =~= tail_second);
        assert(tail_second[0] == '"');
        assert((json_escape(first[0]) + after)[0] == json_escape(first[0])[0]);
        assert(false);
    } else {
        lemma_escaped_unfolds(first);
        lemma_escaped_unfolds(second);
        let after_first = json_escaped(first.drop_first()) + tail_first;
        let after_second = json_escaped(second.drop_first()) + tail_second;
        assert(json_escaped(first) + tail_first =~= json_escape(first[0]) + after_first);
        assert(json_escaped(second) + tail_second =~= json_escape(second[0]) + after_second);
        lemma_escape_delimits(first[0], after_first, second[0], after_second);
        lemma_escaped_delimits(first.drop_first(), rest_first, second.drop_first(), rest_second);
        assert(first =~= seq![first[0]] + first.drop_first());
        assert(second =~= seq![second[0]] + second.drop_first());
    }
}

/// A JSON string literal tells where it ends and what it stands for.
pub proof fn lemma_string_delimits(
    first: Seq<char>,
    rest_first: Seq<char>,
    second: Seq<char>,
    rest_second: Seq<char>,
)
    requires
        json_string(first) + rest_first == json_string(second) + rest_second,
    ensures
        first == second,
        rest_first == rest_second,
{
    let after_first = json_escaped(first) + (seq!['"'] + rest_first);
    let after_second = json_escaped(second) + (seq!['"'] + rest_second);
    assert(json_string(first) + rest_first =~= seq!['"'] + after_first);
    assert(json_string(second) + rest_second =~= seq!['"'] + after_second);
    lemma_cancel_prefix(seq!['"'], after_first, after_second);
    lemma_escaped_delimits(first, rest_first, second, rest_second);
}

/// An optional string in JSON tells where it ends and what it stands
/// for: `null` is no string literal.
pub proof fn lemma_optional_delimits(
    first: Option<Seq<char>>,
    rest_first: Seq<char>,
    second: Option<Seq<char>>,
    rest_second: Seq<char>,
)
    requires
        json_optional(first) + rest_first == json_optional(second) + rest_second,
    ensures
        first == second,
        rest_first == rest_second,
{
    reveal_strlit("null");
    let left = json_optional(first) + rest_first;
    let right = json_optional(second) + rest_second;
    assert(left[0] == right[0]);
    match (first, second) {
        (Some(a), Some(b)) => {
            lemma_string_delimits(a, rest_first, b, rest_second);
        },
        (None, None) => {
            lemma_cancel_prefix("null"@, rest_first, rest_second);
        },
        (Some(a), None) => {
            assert(left[0] == json_string(a)[0]);
            assert(json_string(a)[0] == '"');
            assert(right[0] == "null"@[0]);
            assert(false);
        },
        (None, Some(b)) => {
            assert(right[0] == json_string(b)[0]);
            assert(json_string(b)[0] == '"');
            assert(left[0] == "null"@[0]);
            assert(false);
        },
    }
}

/// Concatenation may be grouped either way.
proof fn lemma_regroup(head: Seq<char>, piece: Seq<char>, tail: Seq<char>)
    ensures
        (head + piece) + tail == head + (piece + tail),
{
    assert((head + piece) + tail =~= head + (piece + tail));
}

/// A mail server record in JSON, followed by `rest`, read from the left:
/// each piece before all that follows it.
spec fn smtp_then(smtp: SmtpConfigView, rest: Seq<char>) -> Seq<char> {
    "{\"host\":"@
    + (json_string(smtp.host)
    + (",\"port\":"@
    + (json_string(smtp.port)
    + (",\"username\":"@
    + (json_string(smtp.username)
    + (",\"password\":"@
    + (json_string(smtp.password)
    + (",\"email_from\":"@
    + (json_string(smtp.email_from)
    + (",\"name_from\":"@
    + (json_string(smtp.name_from)
    + ("}"@
    + (rest)))))))))))))
}

/// A common configuration in JSON, followed by `rest`, read from the
/// left: each piece before all that follows it.
spec fn common_then(config: CommonConfigView, rest: Seq<char>) -> Seq<char> {
    "{\"app_secret\":"@
    + (json_optional(config.app_secret)
    + (",\"app_url\":"@
    + (json_optional(config.app_url)
    + (",\"mysql_password\":"@
    + (json_optional(config.mysql_password)
    + (",\"mysql_db\":"@
    + (json_optional(config.mysql_db)
    + (",\"admin_wallet\":"@
    + (json_optional(config.admin_wallet)
    + (",\"apillon_key\":"@
    + (json_optional(config.apillon_key)
    + (",\"apillon_secret\":"@
    + (json_optional(config.apillon_secret)
    + (",\"smtp_config\":"@
    + (json_optional_smtp(config.smtp_config)
    + ("}"@
    + (rest)))))))))))))))))
}

/// [`smtp_then`] is the record followed by `rest`.
proof fn lemma_smtp_then(smtp: SmtpConfigView, rest: Seq<char>)
    ensures
        json_smtp(smtp) + rest == smtp_then(smtp, rest),
{
    let p1 = "{\"host\":"@;
    let p2 = p1 + json_string(smtp.host);
    let p3 = p2 + ",\"port\":"@;
    let p4 = p3 + json_string(smtp.port);
    let p5 = p4 + ",\"username\":"@;
    let p6 = p5 + json_string(smtp.username);
    let p7 = p6 + ",\"password\":"@;
    let p8 = p7 + json_string(smtp.password);
    let p9 = p8 + ",\"email_from\":"@;
    let p10 = p9 + json_string(smtp.email_from);
    let p11 = p10 + ",\"name_from\":"@;
    let p12 = p11 + json_string(smtp.name_from);
    let p13 = p12 + "}"@;
    let t14 = rest;
    let t13 = "}"@ + t14;
    let t12 = json_string(smtp.name_from) + t13;
    let t11 = ",\"name_from\":"@ + t12;
    let t10 = json_string(smtp.email_from) + t11;
    let t9 = ",\"email_from\":"@ + t10;
    let t8 = json_string(smtp.password) + t9;
    let t7 = ",\"password\":"@ + t8;
    let t6 = json_string(smtp.username) + t7;
    let t5 = ",\"username\":"@ + t6;
    let t4 = json_string(smtp.port) + t5;
    let t3 = ",\"port\":"@ + t4;
    let t2 = json_string(smtp.host) + t3;
    assert(json_smtp(smtp) == p13);
    lemma_regroup(p12, "}"@, t14);
    assert(p13 + t14 == p12 + t13);
    lemma_regroup(p11, json_string(smtp.name_from), t13);
    assert(p12 + t13 == p11 + t12);
    lemma_regroup(p10, ",\"name_from\":"@, t12);
    assert(p11 + t12 == p10 + t11);
    lemma_regroup(p9, json_string(smtp.email_from), t11);
    assert(p10 + t11 == p9 + t10);
    lemma_regroup(p8, ",\"email_from\":"@, t10);
    assert(p9 + t10 == p8 + t9);
    lemma_regroup(p7, json_string(smtp.password), t9);
    assert(p8 + t9 == p7 + t8);
    lemma_regroup(p6, ",\"password\":"@, t8);
    assert(p7 + t8 == p6 + t7);
    lemma_regroup(p5, json_string(smtp.username), t7);
    assert(p6 + t7 == p5 + t6);
    lemma_regroup(p4, ",\"username\":"@, t6);
    assert(p5 + t6 == p4 + t5);
    lemma_regroup(p3, json_string(smtp.port), t5);
    assert(p4 + t5 == p3 + t4);
    lemma_regroup(p2, ",\"port\":"@, t4);
    assert(p3 + t4 == p2 + t3);
    lemma_regroup(p1, json_string(smtp.host), t3);
    assert(p2 + t3 == p1 + t2);
}

/// [`common_then`] is the configuration followed by `rest`.
proof fn lemma_common_then(config: CommonConfigView, rest: Seq<char>)
    ensures
        json_common(config) + rest == common_then(config, rest),
{
    let p1 = "{\"app_secret\":"@;
    let p2 = p1 + json_optional(config.app_secret);
    let p3 = p2 + ",\"app_url\":"@;
    let p4 = p3 + json_optional(config.app_url);
    let p5 = p4 + ",\"mysql_password\":"@;
    let p6 = p5 + json_optional(config.mysql_password);
    let p7 = p6 + ",\"mysql_db\":"@;
    let p8 = p7 + json_optional(config.mysql_db);
    let p9 = p8 + ",\"admin_wallet\":"@;
    let p10 = p9 + json_optional(config.admin_wallet);
    let p11 = p10 + ",\"apillon_key\":"@;
    let p12 = p11 + json_optional(config.apillon_key);
    let p13 = p12 + ",\"apillon_secret\":"@;
    let p14 = p13 + json_optional(config.apillon_secret);
    let p15 = p14 + ",\"smtp_config\":"@;
    let p16 = p15 + json_optional_smtp(config.smtp_config);
    let p17 = p16 + "}"@;
    let t18 = rest;
    let t17 = "}"@ + t18;
    let t16 = json_optional_smtp(config.smtp_config) + t17;
    let t15 = ",\"smtp_config\":"@ + t16;
    let t14 = json_optional(config.apillon_secret) + t15;
    let t13 = ",\"apillon_secret\":"@ + t14;
    let t12 = json_optional(config.apillon_key) + t13;
    let t11 = ",\"apillon_key\":"@ + t12;
    let t10 = json_optional(config.admin_wallet) + t11;
    let t9 = ",\"admin_wallet\":"@ + t10;
    let t8 = json_optional(config.mysql_db) + t9;
    let t7 = ",\"mysql_db\":"@ + t8;
    let t6 = json_optional(config.mysql_password) + t7;
    let t5 = ",\"mysql_password\":"@ + t6;
    let t4 = json_optional(config.app_url) + t5;
    let t3 = ",\"app_url\":"@ + t4;
    let t2 = json_optional(config.app_secret) + t3;
    assert(json_common(config) == p17);
    lemma_regroup(p16, "}"@, t18);
    assert(p17 + t18 == p16 + t17);
    lemma_regroup(p15, json_optional_smtp(config.smtp_config), t17);
    assert(p16 + t17 == p15 + t16);
    lemma_regroup(p14, ",\"smtp_config\":"@, t16);
    assert(p15 + t16 == p14 + t15);
    lemma_regroup(p13, json_optional(config.apillon_secret), t15);
    assert(p14 + t15 == p13 + t14);
    lemma_regroup(p12, ",\"apillon_secret\":"@, t14);
    assert(p13 + t14 == p12 + t13);
    lemma_regroup(p11, json_optional(config.apillon_key), t13);
    assert(p12 + t13 == p11 + t12);
    lemma_regroup(p10, ",\"apillon_key\":"@, t12);
    assert(p11 + t12 == p10 + t11);
    lemma_regroup(p9, json_optional(config.admin_wallet), t11);
    assert(p10 + t11 == p9 + t10);
    lemma_regroup(p8, ",\"admin_wallet\":"@, t10);
    assert(p9 + t10 == p8 + t9);
    lemma_regroup(p7, json_optional(config.mysql_db), t9);
    assert(p8 + t9 == p7 + t8);
    lemma_regroup(p6, ",\"mysql_db\":"@, t8);
    assert(p7 + t8 == p6 + t7);
    lemma_regroup(p5, json_optional(config.mysql_password), t7);
    assert(p6 + t7 == p5 + t6);
    lemma_regroup(p4, ",\"mysql_password\":"@, t6);
    assert(p5 + t6 == p4 + t5);
    lemma_regroup(p3, json_optional(config.app_url), t5);
    assert(p4 + t5 == p3 + t4);
    lemma_regroup(p2, ",\"app_url\":"@, t4);
    assert(p3 + t4 == p2 + t3);
    lemma_regroup(p1, json_optional(config.app_secret), t3);
    assert(p2 + t3 == p1 + t2);
}

/// A mail server record in JSON tells where it ends and what it holds.
pub proof fn lemma_smtp_delimits(
    first: SmtpConfigView,
    rest_first: Seq<char>,
    second: SmtpConfigView,
    rest_second: Seq<char>,
)
    requires
        json_smtp(first) + rest_first == json_smtp(second) + rest_second,
    ensures
        first == second,
        rest_first == rest_second,
{
    let a6 = "}"@ + rest_first;
    let b6 = "}"@ + rest_second;
    let a5 = ",\"name_from\":"@ + (json_string(first.name_from) + a6);
    let b5 = ",\"name_from\":"@ + (json_string(second.name_from) + b6);
    let a4 = ",\"email_from\":"@ + (json_string(first.email_from) + a5);
    let b4 = ",\"email_from\":"@ + (json_string(second.email_from) + b5);
    let a3 = ",\"password\":"@ + (json_string(first.password) + a4);
    let b3 = ",\"password\":"@ + (json_string(second.password) + b4);
    let a2 = ",\"username\":"@ + (json_string(first.username) + a3);
    let b2 = ",\"username\":"@ + (json_string(second.username) + b3);
    let a1 = ",\"port\":"@ + (json_string(first.port) + a2);
    let b1 = ",\"port\":"@ + (json_string(second.port) + b2);
    let a0 = "{\"host\":"@ + (json_string(first.host) + a1);
    let b0 = "{\"host\":"@ + (json_string(second.host) + b1);
    lemma_smtp_then(first, rest_first);
    lemma_smtp_then(second, rest_second);
    assert(smtp_then(first, rest_first) == a0);
    assert(smtp_then(second, rest_second) == b0);
    lemma_cancel_prefix("{\"host\":"@, json_string(first.host) + a1, json_string(second.host) + b1);
    lemma_string_delimits(first.host, a1, second.host, b1);
    lemma_cancel_prefix(",\"port\":"@, json_string(first.port) + a2, json_string(second.port) + b2);
    lemma_string_delimits(first.port, a2, second.port, b2);
    lemma_cancel_prefix(
        ",\"username\":"@,
        json_string(first.username) + a3,
        json_string(second.username) + b3,
    );
    lemma_string_delimits(first.username, a3, second.username, b3);
    lemma_cancel_prefix(
        ",\"password\":"@,
        json_string(first.password) + a4,
        json_string(second.password) + b4,
    );
    lemma_string_delimits(first.password, a4, second.password, b4);
    lemma_cancel_prefix(
        ",\"email_from\":"@,
        json_string(first.email_from) + a5,
        json_string(second.email_from) + b5,
    );
    lemma_string_delimits(first.email_from, a5, second.email_from, b5);
    lemma_cancel_prefix(
        ",\"name_from\":"@,
        json_string(first.name_from) + a6,
        json_string(second.name_from) + b6,
    );
    lemma_string_delimits(first.name_from, a6, second.name_from, b6);
    lemma_cancel_prefix("}"@, rest_first, rest_second);
}

/// An optional mail server record in JSON tells where it ends and what
/// it holds: `null` is no record.
pub proof fn lemma_optional_smtp_delimits(
    first: Option<SmtpConfigView>,
    rest_first: Seq<char>,
    second: Option<SmtpConfigView>,
    rest_second: Seq<char>,
)
    requires
        json_optional_smtp(first) + rest_first == json_optional_smtp(second) + rest_second,
    ensures
        first == second,
        rest_first == rest_second,
{
    reveal_strlit("null");
    reveal_strlit("{\"host\":");
    let left = json_optional_smtp(first) + rest_first;
    let right = json_optional_smtp(second) + rest_second;
    assert(left[0] == right[0]);
    match (first, second) {
        (Some(a), Some(b)) => {
            lemma_smtp_delimits(a, rest_first, b, rest_second);
        },
        (None, None) => {
            lemma_cancel_prefix("null"@, rest_first, rest_second);
        },
        (Some(a), None) => {
            assert(left[0] == json_smtp(a)[0]);
            assert(json_smtp(a)[0] == "{\"host\":"@[0]);
            assert(right[0] == "null"@[0]);
            assert(false);
        },
        (None, Some(b)) => {
            assert(right[0] == json_smtp(b)[0]);
            assert(json_smtp(b)[0] == "{\"host\":"@[0]);
            assert(left[0] == "null"@[0]);
            assert(false);
        },
    }
}

/// A common configuration in JSON tells where it ends and what it holds.
pub proof fn lemma_common_delimits(
    first: CommonConfigView,
    rest_first: Seq<char>,
    second: CommonConfigView,
    rest_second: Seq<char>,
)
    requires
        json_common(first) + rest_first == json_common(second) + rest_second,
    ensures
        first == second,
        rest_first == rest_second,
{
    let a8 = "}"@ + rest_first;
    let b8 = "}"@ + rest_second;
    let a7 = ",\"smtp_config\":"@ + (json_optional_smtp(first.smtp_config) + a8);
    let b7 = ",\"smtp_config\":"@ + (json_optional_smtp(second.smtp_config) + b8);
    let a6 = ",\"apillon_secret\":"@ + (json_optional(first.apillon_secret) + a7);
    let b6 = ",\"apillon_secret\":"@ + (json_optional(second.apillon_secret) + b7);
    let a5 = ",\"apillon_key\":"@ + (json_optional(first.apillon_key) + a6);
    let b5 = ",\"apillon_key\":"@ + (json_optional(second.apillon_key) + b6);
    let a4 = ",\"admin_wallet\":"@ + (json_optional(first.admin_wallet) + a5);
    let b4 = ",\"admin_wallet\":"@ + (json_optional(second.admin_wallet) + b5);
    let a3 = ",\"mysql_db\":"@ + (json_optional(first.mysql_db) + a4);
    let b3 = ",\"mysql_db\":"@ + (json_optional(second.mysql_db) + b4);
    let a2 = ",\"mysql_password\":"@ + (json_optional(first.mysql_password) + a3);
    let b2 = ",\"mysql_password\":"@ + (json_optional(second.mysql_password) + b3);
    let a1 = ",\"app_url\":"@ + (json_optional(first.app_url) + a2);
    let b1 = ",\"app_url\":"@ + (json_optional(second.app_url) + b2);
    let a0 = "{\"app_secret\":"@ + (json_optional(first.app_secret) + a1);
    let b0 = "{\"app_secret\":"@ + (json_optional(second.app_secret) + b1);
    lemma_common_then(first, rest_first);
    lemma_common_then(second, rest_second);
    assert(common_then(first, rest_first) == a0);
    assert(common_then(second, rest_second) == b0);
    lemma_cancel_prefix(
        "{\"app_secret\":"@,
        json_optional(first.app_secret) + a1,
        json_optional(second.app_secret) + b1,
    );
    lemma_optional_delimits(first.app_secret, a1, second.app_secret, b1);
    lemma_cancel_prefix(
        ",\"app_url\":"@,
        json_optional(first.app_url) + a2,
        json_optional(second.app_url) + b2,
    );
    lemma_optional_delimits(first.app_url, a2, second.app_url, b2);
    lemma_cancel_prefix(
        ",\"mysql_password\":"@,
        json_optional(first.mysql_password) + a3,
        json_optional(second.mysql_password) + b3,
    );
    lemma_optional_delimits(first.mysql_password, a3, second.mysql_password, b3);
    lemma_cancel_prefix(
        ",\"mysql_db\":"@,
        json_optional(first.mysql_db) + a4,
        json_optional(second.mysql_db) + b4,
    );
    lemma_optional_delimits(first.mysql_db, a4, second.mysql_db, b4);
    lemma_cancel_prefix(
        ",\"admin_wallet\":"@,
        json_optional(first.admin_wallet) + a5,
        json_optional(second.admin_wallet) + b5,
    );
    lemma_optional_delimits(first.admin_wallet, a5, second.admin_wallet, b5);
    lemma_cancel_prefix(
        ",\"apillon_key\":"@,
        json_optional(first.apillon_key) + a6,
        json_optional(second.apillon_key) + b6,
    );
    lemma_optional_delimits(first.apillon_key, a6, second.apillon_key, b6);
    lemma_cancel_prefix(
        ",\"apillon_secret\":"@,
        json_optional(first.apillon_secret) + a7,
        json_optional(second.apillon_secret) + b7,
    );
    lemma_optional_delimits(first.apillon_secret, a7, second.apillon_secret, b7);
    lemma_cancel_prefix(
        ",\"smtp_config\":"@,
        json_optional_smtp(first.smtp_config) + a8,
        json_optional_smtp(second.smtp_config) + b8,
    );
    lemma_optional_smtp_delimits(first.smtp_config, a8, second.smtp_config, b8);
    lemma_cancel_prefix("}"@, rest_first, rest_second);
}

/// Proof-of-attendance configurations that are serialized alike hold the
/// same values.
pub proof fn lemma_proof_of_attendance_json_is_injective(
    first: CommonConfigView,
    second: CommonConfigView,
)
    requires
        json_proof_of_attendance(first) == json_proof_of_attendance(second),
    ensures
        first == second,
{
    let a = json_common(first) + "}"@;
    let b = json_common(second) + "}"@;
    lemma_regroup("{\"common\":"@, json_common(first), "}"@);
    lemma_regroup("{\"common\":"@, json_common(second), "}"@);
    lemma_cancel_prefix("{\"common\":"@, a, b);
    lemma_common_delimits(first, "}"@, second, "}"@);
}

/// An email-airdrop configuration in JSON, read from the left: each
/// piece before all that follows it.
proof fn lemma_email_airdrop_then(config: EmailAirdropConfigView)
    ensures
        json_email_airdrop(config) == "{\"common\":"@ + (json_common(config.common) + (
            ",\"collection_uuid\":"@ + (json_optional(config.collection_uuid) + "}"@))),
{
    let p1 = "{\"common\":"@;
    let p2 = p1 + json_common(config.common);
    let p3 = p2 + ",\"collection_uuid\":"@;
    let p4 = p3 + json_optional(config.collection_uuid);
    let t5 = "}"@;
    let t4 = json_optional(config.collection_uuid) + t5;
    let t3 = ",\"collection_uuid\":"@ + t4;
    assert(json_email_airdrop(config) == p4 + t5);
    lemma_regroup(p3, json_optional(config.collection_uuid), t5);
    lemma_regroup(p2, ",\"collection_uuid\":"@, t4);
    lemma_regroup(p1, json_common(config.common), t3);
}

/// Email-airdrop configurations that are serialized alike hold the same
/// values.
pub proof fn lemma_email_airdrop_json_is_injective(
    first: EmailAirdropConfigView,
    second: EmailAirdropConfigView,
)
    requires
        json_email_airdrop(first) == json_email_airdrop(second),
    ensures
        first == second,
{
    let a2 = json_optional(first.collection_uuid) + "}"@;
    let b2 = json_optional(second.collection_uuid) + "}"@;
    let a1 = ",\"collection_uuid\":"@ + a2;
    let b1 = ",\"collection_uuid\":"@ + b2;
    let a0 = json_common(first.common) + a1;
    let b0 = json_common(second.common) + b1;
    lemma_email_airdrop_then(first);
    lemma_email_airdrop_then(second);
    lemma_cancel_prefix("{\"common\":"@, a0, b0);
    lemma_common_delimits(first.common, a1, second.common, b1);
    lemma_cancel_prefix(",\"collection_uuid\":"@, a2, b2);
    lemma_optional_delimits(first.collection_uuid, "}"@, second.collection_uuid, "}"@);
}

/// Whether the digest tells the two serialized configurations apart
/// wherever their bytes differ.
pub open spec fn digest_separates(first: Seq<char>, second: Seq<char>) -> bool {
    encode_utf8(first) != encode_utf8(second) ==> keccak_256_digest(encode_utf8(first))
        != keccak_256_digest(encode_utf8(second))
}

/// Serialized configurations that differ have different identities,
/// wherever the digest does not make their bytes collide.
pub proof fn lemma_distinct_serializations_distinct_identities(
    first: Seq<char>,
    second: Seq<char>,
)
    requires
        first != second,
        digest_separates(first, second),
    ensures
        identity_of(first) != identity_of(second),
{
    encode_utf8_decode_utf8(first);
    encode_utf8_decode_utf8(second);
    assert(decode_utf8(encode_utf8(first)) == first);
    assert(decode_utf8(encode_utf8(second)) == second);
    lemma_identities_differ_with_digests(first, second);
}

/// Proof-of-attendance configurations that differ in any field have
/// different identities, wherever the digest does not make their
/// serialized forms collide.
pub proof fn lemma_proof_of_attendance_identities_differ(
    first: CommonConfigView,
    second: CommonConfigView,
)
    requires
        first != second,
        digest_separates(json_proof_of_attendance(first), json_proof_of_attendance(second)),
    ensures
        identity_of(json_proof_of_attendance(first)) != identity_of(
            json_proof_of_attendance(second),
        ),
{
    if json_proof_of_attendance(first) == json_proof_of_attendance(second) {
        lemma_proof_of_attendance_json_is_injective(first, second);
    }
    lemma_distinct_serializations_distinct_identities(
        json_proof_of_attendance(first),
        json_proof_of_attendance(second),
    );
}

/// Email-airdrop configurations that differ in any field have different
/// identities, wherever the digest does not make their serialized forms
/// collide.
pub proof fn lemma_email_airdrop_identities_differ(
    first: EmailAirdropConfigView,
    second: EmailAirdropConfigView,
)
    requires
        first != second,
        digest_separates(json_email_airdrop(first), json_email_airdrop(second)),
    ensures
        identity_of(json_email_airdrop(first)) != identity_of(json_email_airdrop(second)),
{
    if json_email_airdrop(first) == json_email_airdrop(second) {
        lemma_email_airdrop_json_is_injective(first, second);
    }
    lemma_distinct_serializations_distinct_identities(
        json_email_airdrop(first),
        json_email_airdrop(second),
    );
}

} // verus!
