//! Text from the game in whatever single-byte or multi-byte encoding it came
//! in, made into UTF-8: the character set is detected, the bytes decoded
//! with it, and bytes that still cannot be read are read leniently.

use encoding::Encoding;
use vstd::prelude::*;

verus! {

/// The name of the character set that `chardet` detects for the bytes.
pub uninterp spec fn detected_charset(bytes: Seq<u8>) -> Seq<char>;

/// What decoding the bytes gives with the encoding that a WHATWG label
/// names, replacing what cannot be decoded; none when the label names no
/// encoding or the decoding fails.
pub uninterp spec fn labeled_decoding(label: Seq<char>, bytes: Seq<u8>) -> Option<Seq<char>>;

/// What `String::from_utf8_lossy` makes of the bytes.
pub uninterp spec fn lossy_utf8(bytes: Seq<u8>) -> Seq<char>;

/// The encoding label for a character set name that `chardet` reports: a
/// few Windows and Mac names are mapped, the rest are labels already.
pub open spec fn charset_label(charset: Seq<char>) -> Seq<char> {
    if charset == "CP932"@ {
        "windows-31j"@
    } else if charset == "CP949"@ {
        "windows-949"@
    } else if charset == "MacCyrillic"@ {
        "x-mac-cyrillic"@
    } else {
        charset
    }
}

/// Calls `chardet::detect` and keeps the character set name it returns;
/// the name is the one `detected_charset` names for the bytes, and nothing
/// more is claimed about it. That the detector returns on any bytes
/// without panicking is taken on trust: its probers were not read to show
/// it.
#[verifier::external_body]
fn detect_charset(bytes: &[u8]) -> (r: String)
    ensures
        r@ == detected_charset(bytes@),
{
    let (charset, _confidence, _language) = chardet::detect(bytes);
    charset
}

/// Calls `chardet::charset2encoding`, which maps three character set names
/// to encoding labels and returns any other name as it is.
#[verifier::external_body]
fn charset_to_label(charset: &String) -> (r: String)
    ensures
        r@ == charset_label(charset@),
{
    chardet::charset2encoding(charset).to_string()
}

/// Calls `encoding::label::encoding_from_whatwg_label` and, when the label
/// names an encoding, that encoding's `decode` with `DecoderTrap::Replace`.
/// The encoding is a trait object that verified code cannot hold, so the two
/// calls stand together; the result is what `labeled_decoding` names.
#[verifier::external_body]
fn decode_labeled(label: &str, bytes: &[u8]) -> (r: Option<String>)
    ensures
        r.deep_view() == labeled_decoding(label@, bytes@),
{
    match encoding::label::encoding_from_whatwg_label(label) {
        Some(coder) => coder.decode(bytes, encoding::DecoderTrap::Replace).ok(),
        None => None,
    }
}

/// Calls `String::from_utf8_lossy`: valid UTF-8 is read as it is; the text
/// for other bytes is what `lossy_utf8` names.
#[verifier::external_body]
pub(crate) fn utf8_lossy(bytes: &[u8]) -> (r: String)
    ensures
        r@ == lossy_utf8(bytes@),
        vstd::utf8::valid_utf8(bytes@) ==> r@ == vstd::utf8::decode_utf8(bytes@),
{
    String::from_utf8_lossy(bytes).to_string()
}

/// The text bytes from the game become: nothing for no bytes; else the
/// bytes decoded with the detected character set, or read leniently as
/// UTF-8 when that fails.
pub open spec fn converted_text(bytes: Seq<u8>) -> Seq<char> {
    if bytes.len() == 0 {
        Seq::empty()
    } else {
        match labeled_decoding(charset_label(detected_charset(bytes)), bytes) {
            Some(s) => s,
            None => lossy_utf8(bytes),
        }
    }
}

/// The bytes of a C string without its terminating NUL, if it has one.
pub open spec fn without_nul(bytes: Seq<u8>) -> Seq<u8> {
    if bytes.len() > 0 && bytes.last() == 0 {
        bytes.drop_last()
    } else {
        bytes
    }
}

/// Make UTF-8 text of bytes from the game, by hook or by crook.
pub fn convert_to_utf8(bytes: Vec<u8>) -> (r: String)
    ensures
        r@ == converted_text(bytes@),
{
    if bytes.len() == 0 {
        let r = String::new();
        assert(r@ =~= Seq::<char>::empty());
        return r;
    }
    let charset = detect_charset(bytes.as_slice());
    let label = charset_to_label(&charset);
    match decode_labeled(label.as_str(), bytes.as_slice()) {
        Some(text) => text,
        None => utf8_lossy(bytes.as_slice()),
    }
}

/// Make UTF-8 text of string bytes from the game.
pub fn string_to_utf8(bytes: Vec<u8>) -> (r: String)
    ensures
        r@ == converted_text(bytes@),
{
    convert_to_utf8(bytes)
}

/// Make UTF-8 text of the bytes of a C string from the game: a terminating
/// NUL is dropped first.
pub fn cstr_to_utf8(bytes: Vec<u8>) -> (r: String)
    ensures
        r@ == converted_text(without_nul(bytes@)),
{
    let ghost given = bytes@;
    let mut bytes = bytes;
    if bytes.len() > 0 && bytes[bytes.len() - 1] == 0 {
        bytes.pop();
    }
    assert(bytes@ =~= without_nul(given));
    convert_to_utf8(bytes)
}

} // verus!
