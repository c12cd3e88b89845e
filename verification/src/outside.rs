//! The calls into other crates that the logic makes, each with what is believed of it.
//!
//! Nothing in this module is proved. Every other module rests on the contracts stated here.

use vstd::prelude::*;

use crate::instant::{has_four_digit_year, rfc3339_text, INSTANT_BOUND, YEAR_10000};
use crate::json::{writable, Json};
use crate::text::decimal;

verus! {

/// The opaque type `std::path::PathBuf`. Paths are carried through and derived from each other, and
/// never looked into.
#[verifier::external_type_specification]
#[verifier::external_body]
pub struct ExPathBuf(std::path::PathBuf);

/// Copies a path with the `Clone` of `std::path::PathBuf`.
///
/// Believed: the copy is the same path.
pub assume_specification[ <std::path::PathBuf as Clone>::clone ](path: &std::path::PathBuf) -> (r:
    std::path::PathBuf)
    ensures
        r == *path,
;

/// What `std::path::Path::with_file_name` makes of a path.
pub uninterp spec fn renamed_path(path: std::path::PathBuf, name: Seq<char>) -> std::path::PathBuf;

/// Replaces the file name of a path with `std::path::Path::with_file_name`.
///
/// Believed: the new path depends on the path and the name alone.
#[verifier::external_body]
pub(crate) fn with_file_name(path: &std::path::PathBuf, name: &str) -> (r: std::path::PathBuf)
    ensures
        r == renamed_path(*path, name@),
{
    path.with_file_name(name)
}

/// What `std::path::Path::with_extension` makes of a path.
pub uninterp spec fn extended_path(
    path: std::path::PathBuf,
    extension: Seq<char>,
) -> std::path::PathBuf;

/// Replaces the extension of a path with `std::path::Path::with_extension`, which panics on an
/// extension with a path separator in it.
///
/// Believed: the new path depends on the path and the extension alone.
#[verifier::external_body]
pub(crate) fn with_extension(path: &std::path::PathBuf, extension: &str) -> (r: std::path::PathBuf)
    requires
        is_plain_name(extension@),
    ensures
        r == extended_path(*path, extension@),
{
    path.with_extension(extension)
}

/// The opaque error with which a keyed hash refuses its key.
#[verifier::external_type_specification]
#[verifier::external_body]
pub struct ExInvalidLength(hmac::digest::InvalidLength);

/// The opaque error of the XML serializer.
#[verifier::external_type_specification]
#[verifier::external_body]
pub struct ExSeError(quick_xml::SeError);

/// The opaque type of JSON documents of `serde_json`.
#[verifier::external_type_specification]
#[verifier::external_body]
pub struct ExValue(serde_json::Value);

/// The opaque error of `serde_json`.
#[verifier::external_type_specification]
#[verifier::external_body]
pub struct ExJsonError(serde_json::Error);

/// What a JSON document of `serde_json` holds. A document with anything but null, unsigned
/// numbers, strings, arrays and objects in it counts as foreign.
pub uninterp spec fn document(value: serde_json::Value) -> Json;

/// The document `serde_json::Value::Null`.
///
/// Believed: it holds null.
#[verifier::external_body]
pub(crate) fn json_null() -> (r: serde_json::Value)
    ensures
        document(r) == Json::Null,
{
    serde_json::Value::Null
}

/// Makes a document of a number with the `From<u64>` of `serde_json::Value`.
///
/// Believed: it holds the number.
#[verifier::external_body]
pub(crate) fn json_number(n: u64) -> (r: serde_json::Value)
    ensures
        document(r) == Json::Number(n as nat),
{
    serde_json::Value::from(n)
}

/// Makes a document of a text with the `From<&str>` of `serde_json::Value`.
///
/// Believed: it holds the text.
#[verifier::external_body]
pub(crate) fn json_string(s: &str) -> (r: serde_json::Value)
    ensures
        document(r) == Json::Text(s@),
{
    serde_json::Value::from(s)
}

/// Makes an array of documents with the `From<Vec<_>>` of `serde_json::Value`.
///
/// Believed: it holds what they hold, in order.
#[verifier::external_body]
pub(crate) fn json_array(items: Vec<serde_json::Value>) -> (r: serde_json::Value)
    ensures
        document(r) == Json::Array(items@.map_values(|v: serde_json::Value| document(v))),
{
    serde_json::Value::from(items)
}

/// Makes an object of named documents with the `FromIterator<(_, _)>` of `serde_json::Value`,
/// which keeps the order of the members under the feature `preserve_order`.
///
/// Believed: it holds what they hold, under their names and in order, as long as no name comes
/// twice.
#[verifier::external_body]
pub(crate) fn json_object(members: Vec<(String, serde_json::Value)>) -> (r: serde_json::Value)
    requires
        forall|i: int, j: int|
            0 <= i < j < members@.len() ==> (#[trigger] members@[i]).0@ != (
            #[trigger] members@[j]).0@,
    ensures
        document(r) == Json::Object(
            members@.map_values(|m: (String, serde_json::Value)| (m.0@, document(m.1))),
        ),
{
    serde_json::Value::from_iter(members)
}

/// A JSON value on one line.
pub uninterp spec fn compact_json(value: Json) -> Seq<char>;

/// A JSON value over several lines, indented.
pub uninterp spec fn pretty_json(value: Json) -> Seq<char>;

/// What `serde_json::from_str` reads from a text, where it is JSON.
pub uninterp spec fn read_json(text: Seq<char>) -> Option<Json>;

/// Writes a document with `serde_json::to_string`.
///
/// Believed: a document of this shape is never refused; the text depends on what the document
/// holds alone, reads back as that, and has no line break in it.
#[verifier::external_body]
pub(crate) fn json_to_string(value: &serde_json::Value) -> (r: Result<String, serde_json::Error>)
    requires
        writable(document(*value), 100),
    ensures
        r is Ok,
        r matches Ok(t) ==> {
            &&& t@ == compact_json(document(*value))
            &&& read_json(t@) == Some(document(*value))
            &&& !t@.contains('\n')
        },
{
    serde_json::to_string(value)
}

/// Writes a document with `serde_json::to_string_pretty`.
///
/// Believed: a document of this shape is never refused; the text depends on what the document
/// holds alone, and reads back as that.
#[verifier::external_body]
pub(crate) fn json_to_string_pretty(value: &serde_json::Value) -> (r: Result<
    String,
    serde_json::Error,
>)
    requires
        writable(document(*value), 100),
    ensures
        r is Ok,
        r matches Ok(t) ==> {
            &&& t@ == pretty_json(document(*value))
            &&& read_json(t@) == Some(document(*value))
        },
{
    serde_json::to_string_pretty(value)
}

/// The HMAC of a message under a key, with SHA-256 as the hash.
pub uninterp spec fn hmac_sha256_tag(key: Seq<u8>, message: Seq<u8>) -> Seq<u8>;

/// Computes an HMAC-SHA256 tag with `hmac::Hmac<sha2::Sha256>`: `new_from_slice`, one `update`,
/// `finalize`.
///
/// Believed: a key of any length is accepted, the tag depends on key and message alone, and it is
/// 32 bytes long.
#[verifier::external_body]
pub(crate) fn hmac_sha256(key: &[u8], message: &[u8]) -> (r: Result<
    Vec<u8>,
    hmac::digest::InvalidLength,
>)
    ensures
        r is Ok,
        r matches Ok(tag) ==> tag@ == hmac_sha256_tag(key@, message@) && tag@.len() == 32,
{
    let mut mac = <hmac::Hmac<sha2::Sha256> as hmac::Mac>::new_from_slice(key)?;
    hmac::Mac::update(&mut mac, message);
    Ok(hmac::Mac::finalize(mac).into_bytes().to_vec())
}

/// The lower-case hexadecimal digit of a value below sixteen.
pub open spec fn hex_digit(v: int) -> char {
    if v < 10 {
        (48 + v) as char
    } else {
        (87 + v) as char
    }
}

/// Two lower-case hexadecimal digits for each byte, the high half first.
pub open spec fn hex_text(bytes: Seq<u8>) -> Seq<char> {
    Seq::new(
        2 * bytes.len(),
        |i: int|
            hex_digit(
                if i % 2 == 0 {
                    bytes[i / 2] as int / 16
                } else {
                    bytes[i / 2] as int % 16
                },
            ),
    )
}

/// Writes bytes in hexadecimal with `hex::encode`.
///
/// Believed: each byte becomes two lower-case digits, in order.
#[verifier::external_body]
pub(crate) fn hex_encode(bytes: &[u8]) -> (r: String)
    ensures
        r@ == hex_text(bytes@),
{
    hex::encode(bytes)
}

/// Reads the clock with `time::OffsetDateTime::now_utc`, in nanoseconds from the Unix epoch.
///
/// Believed: the instant is one that the `time` crate can hold, so it comes before the year 10000.
/// Which one it is depends on the machine. A clock set past the year 9999 stops the call with a
/// panic.
#[verifier::external_body]
pub(crate) fn now_utc() -> (r: i128)
    ensures
        -INSTANT_BOUND <= r < YEAR_10000,
{
    time::OffsetDateTime::now_utc().unix_timestamp_nanos()
}

/// Formats a UTC instant with `time::OffsetDateTime::format` and `Rfc3339`.
///
/// Believed: formatting succeeds exactly for years of four digits, and gives the date and the time
/// of the instant in the Gregorian calendar, the fraction of a second without zeros at its end, and
/// `Z` for the zone.
#[verifier::external_body]
pub(crate) fn rfc3339(nanos: i128) -> (r: Option<String>)
    ensures
        r is Some <==> has_four_digit_year(nanos as int),
        r matches Some(t) ==> t@ == rfc3339_text(nanos as int),
{
    let instant = time::OffsetDateTime::from_unix_timestamp_nanos(nanos).ok()?;
    instant.format(&time::format_description::well_known::Rfc3339).ok()
}

/// The instant that an RFC 2822 date denotes, in nanoseconds from the Unix epoch.
pub uninterp spec fn rfc2822_instant(value: Seq<char>) -> Option<int>;

/// Parses a date with `time::OffsetDateTime::parse` and `Rfc2822`.
///
/// Believed: whether the text is a date, and which instant it denotes, depends on the text alone;
/// the instant is one that the `time` crate can hold.
#[verifier::external_body]
pub(crate) fn rfc2822(value: &str) -> (r: Option<i128>)
    ensures
        r is Some <==> rfc2822_instant(value@) is Some,
        r matches Some(n) ==> rfc2822_instant(value@) == Some(n as int) && -INSTANT_BOUND <= n
            <= INSTANT_BOUND,
{
    let format = time::format_description::well_known::Rfc2822;
    time::OffsetDateTime::parse(value, &format).ok().map(|d| d.unix_timestamp_nanos())
}

/// Draws a random number with `rand::Rng::gen_range` on `rand::thread_rng`.
///
/// Believed: the number lies between zero and `max`, both included.
#[verifier::external_body]
pub(crate) fn random_up_to(max: u64) -> (r: u64)
    ensures
        r <= max,
{
    rand::Rng::gen_range(&mut rand::thread_rng(), 0..=max)
}

/// Whether `c` is a lower-case hexadecimal digit.
pub open spec fn is_hex_digit(c: char) -> bool {
    ||| 48 <= c as u32 <= 57
    ||| 97 <= c as u32 <= 102
}

/// Whether `s` is a random (version 4) UUID in its hyphenated lower-case form.
pub open spec fn is_uuid_v4(s: Seq<char>) -> bool {
    &&& s.len() == 36
    &&& s[8] == '-' && s[13] == '-' && s[18] == '-' && s[23] == '-'
    &&& s[14] == '4'
    &&& s[19] == '8' || s[19] == '9' || s[19] == 'a' || s[19] == 'b'
    &&& forall|i: int|
        0 <= i < 36 && i != 8 && i != 13 && i != 18 && i != 23 ==> is_hex_digit(#[trigger] s[i])
}

/// Draws a UUID with `uuid::Uuid::new_v4` and writes it with its `Display`.
///
/// Believed: the text is a version 4 UUID. Which one it is depends on chance.
#[verifier::external_body]
pub(crate) fn random_uuid() -> (r: String)
    ensures
        is_uuid_v4(r@),
{
    uuid::Uuid::new_v4().to_string()
}

/// What `url::Url` makes of a text: the scheme of the URL, or the message of the error.
pub uninterp spec fn url_scheme(s: Seq<char>) -> Result<Seq<char>, Seq<char>>;

/// Parses a URL with `url::Url::parse` and hands out its `scheme`, or the text of the error.
///
/// Believed: the outcome depends on the text alone.
#[verifier::external_body]
pub(crate) fn parse_url_scheme(s: &str) -> (r: Result<String, String>)
    ensures
        match r {
            Ok(scheme) => url_scheme(s@) == Ok::<Seq<char>, Seq<char>>(scheme@),
            Err(message) => url_scheme(s@) == Err::<Seq<char>, Seq<char>>(message@),
        },
{
    let url = url::Url::parse(s).map_err(|e| e.to_string())?;
    Ok(url.scheme().to_string())
}

/// What follows the number in the text of an HTTP status.
pub uninterp spec fn status_reason(status: u16) -> Seq<char>;

/// Writes an HTTP status with the `Display` of `reqwest::StatusCode`.
///
/// Believed: the codes from 100 to 999 are statuses and no others; the text is the number, a
/// space, and words that depend on the number alone.
#[verifier::external_body]
pub(crate) fn status_text(status: u16) -> (r: Option<String>)
    ensures
        r is Some <==> 100 <= status <= 999,
        r matches Some(t) ==> t@ == decimal(status as nat).push(' ') + status_reason(status),
{
    reqwest::StatusCode::from_u16(status).ok().map(|s| s.to_string())
}

/// The texts of a list of names and values.
pub open spec fn texts(fields: Seq<(String, String)>) -> Seq<(Seq<char>, Seq<char>)> {
    fields.map_values(|f: (String, String)| (f.0@, f.1@))
}

/// Whether `s` is made of lower-case ASCII letters and underscores, and is not empty.
pub open spec fn is_plain_name(s: Seq<char>) -> bool {
    &&& s.len() > 0
    &&& forall|i: int| 0 <= i < s.len() ==> (#[trigger] s[i] == '_' || 97 <= s[i] as u32 <= 122)
}

/// A text with the characters that XML gives a meaning replaced.
pub open spec fn xml_escape(s: Seq<char>) -> Seq<char>
    decreases s.len(),
{
    if s.len() == 0 {
        s
    } else {
        let c = s.last();
        xml_escape(s.drop_last()) + if c == '&' {
            "&amp;"@
        } else if c == '<' {
            "&lt;"@
        } else if c == '>' {
            "&gt;"@
        } else {
            seq![c]
        }
    }
}

/// The lines of child elements, one for each name and value.
pub open spec fn xml_children(fields: Seq<(Seq<char>, Seq<char>)>, indent: nat) -> Seq<char>
    decreases fields.len(),
{
    if fields.len() == 0 {
        Seq::empty()
    } else {
        let (name, value) = fields.last();
        xml_children(fields.drop_last(), indent) + "\n"@ + Seq::new(indent, |i: int| ' ') + "<"@
            + name + if value.len() == 0 {
            "/>"@
        } else {
            ">"@ + xml_escape(value) + "</"@ + name + ">"@
        }
    }
}

/// The element `root` with one child element for each field, on lines of their own.
pub open spec fn xml_text(
    root: Seq<char>,
    fields: Seq<(Seq<char>, Seq<char>)>,
    indent: nat,
) -> Seq<char> {
    "<"@ + root + ">"@ + xml_children(fields, indent) + "\n"@ + "</"@ + root + ">"@
}

/// Serializes names and values with `quick_xml::se::Serializer` (`with_root`, `indent`) through
/// serde's `Serializer::collect_map`.
///
/// Believed: plain names are never refused; each field becomes a child element on a line of its
/// own, indented once, with `&`, `<` and `>` in its value replaced.
#[verifier::external_body]
pub(crate) fn xml_element(root: &str, fields: &Vec<(String, String)>, indent: usize) -> (r: Result<
    String,
    quick_xml::SeError,
>)
    requires
        indent <= 64,
        fields@.len() > 0,
        is_plain_name(root@),
        forall|i: int| 0 <= i < fields@.len() ==> is_plain_name((#[trigger] fields@[i]).0@),
    ensures
        r is Ok,
        r matches Ok(t) ==> t@ == xml_text(root@, texts(fields@), indent as nat),
{
    let mut buffer = String::new();
    let mut ser = quick_xml::se::Serializer::with_root(&mut buffer, Some(root))?;
    ser.indent(' ', indent);
    serde::Serializer::collect_map(ser, fields.iter().map(|f| (&f.0, &f.1)))?;
    Ok(buffer)
}

} // verus!
