//! What the library takes from outside crates and from parts of std that have no
//! specification: each item states what it relies on.
use vstd::prelude::*;

use crate::addresses::{mac_text, uuid_text, MacAddress, Uuid};

verus! {

/// Whether the character has the Unicode White_Space property.
pub open spec fn white_space(c: char) -> bool {
    ||| '\u{9}' <= c <= '\u{d}'
    ||| c == '\u{20}' || c == '\u{85}' || c == '\u{a0}' || c == '\u{1680}'
    ||| '\u{2000}' <= c <= '\u{200a}'
    ||| c == '\u{2028}' || c == '\u{2029}' || c == '\u{202f}' || c == '\u{205f}' || c == '\u{3000}'
}

/// `char::is_whitespace`: whether the character has the Unicode White_Space property, which is
/// the property of the characters that `white_space` lists.
pub assume_specification[ char::is_whitespace ](c: char) -> (b: bool)
    ensures
        b == white_space(c),
;

/// What `str::to_lowercase` makes of a text.
pub uninterp spec fn lowercase(s: Seq<char>) -> Seq<char>;

/// `str::to_lowercase`: the text with every character replaced by its Unicode lower-case
/// form. The case tables are not restated here.
#[verifier::external_body]
pub(crate) fn to_lowercase(s: &str) -> (r: String)
    ensures
        r@ == lowercase(s@),
{
    s.to_lowercase()
}

/// `String::push` appends one character.
pub assume_specification[ String::push ](s: &mut String, c: char)
    ensures
        final(s)@ == old(s)@.push(c),
;

/// What `mac_address` reads from a text: the six octets, or nothing where it refuses the text.
pub uninterp spec fn mac_parsed(s: Seq<char>) -> Option<Seq<u8>>;

/// `MacAddress::from_str` of the `mac_address` crate. Which texts it accepts is not restated
/// here; what it makes of a text depends on the text alone.
#[verifier::external_body]
pub(crate) fn parse_mac(s: &str) -> (r: Option<MacAddress>)
    ensures
        mac_parsed(s@) == (match r {
            Some(mac) => Some(mac.octets()),
            None => None,
        }),
{
    match s.parse::<mac_address::MacAddress>() {
        Ok(mac) => Some(MacAddress::new(mac.bytes())),
        Err(_) => None,
    }
}

/// `Display` of the `mac_address` crate: upper-case hexadecimal pairs with colons between
/// them, a form that its parser reads back.
#[verifier::external_body]
pub(crate) fn format_mac(mac: MacAddress) -> (r: String)
    ensures
        r@ == mac_text(mac.octets()),
        mac_parsed(r@) == Some(mac.octets()),
{
    mac_address::MacAddress::new([mac.0, mac.1, mac.2, mac.3, mac.4, mac.5]).to_string()
}

/// What `uuid` reads from a text: the number, or nothing where it refuses the text.
pub uninterp spec fn uuid_parsed(s: Seq<char>) -> Option<u128>;

/// `Uuid::parse_str` of the `uuid` crate. Which texts it accepts is not restated here; what
/// it makes of a text depends on the text alone.
#[verifier::external_body]
pub(crate) fn parse_uuid(s: &str) -> (r: Option<Uuid>)
    ensures
        uuid_parsed(s@) == (match r {
            Some(uuid) => Some(uuid.value),
            None => None,
        }),
{
    match uuid::Uuid::parse_str(s) {
        Ok(uuid) => Some(Uuid { value: uuid.as_u128() }),
        Err(_) => None,
    }
}

/// `Display` of the `uuid` crate: thirty-two lower-case hexadecimal digits in five groups
/// with hyphens between them, a form that its parser reads back.
#[verifier::external_body]
pub(crate) fn format_uuid(uuid: Uuid) -> (r: String)
    ensures
        r@ == uuid_text(uuid.value),
        uuid_parsed(r@) == Some(uuid.value),
{
    uuid::Uuid::from_u128(uuid.value).to_string()
}

/// What `Debug` of `std::time::Duration` prints for a span of seconds and nanoseconds.
pub uninterp spec fn duration_debug(seconds: u64, nanoseconds: u32) -> Seq<char>;

/// `Debug` of `std::time::Duration`: a number with the largest unit that suits it. How many
/// digits it prints is not restated here. `Duration::new` carries nanoseconds that make up a
/// second over and panics where the seconds then overflow, so there must be fewer.
#[verifier::external_body]
pub(crate) fn format_duration(seconds: u64, nanoseconds: u32) -> (r: String)
    requires
        nanoseconds < 1_000_000_000,
    ensures
        r@ == duration_debug(seconds, nanoseconds),
{
    format!("{:?}", std::time::Duration::new(seconds, nanoseconds))
}

} // verus!
