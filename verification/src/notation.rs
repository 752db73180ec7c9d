//! The notations that other crates read for this library: instance
//! identifiers, connection URIs and network CIDRs.
//!
//! Each reader is a function of the text alone. Its result has a name here,
//! and the library's contracts speak of that name: what the notation admits
//! is the other crate's business, what follows from its answer is proved.

use vstd::prelude::*;

verus! {

/// What `uuid::Uuid::parse_str` makes of a text: the identifier in its
/// lower-case hyphenated form, or nothing where the text is no identifier.
pub uninterp spec fn uuid_text(s: Seq<char>) -> Option<Seq<char>>;

/// What `url::Url::parse` makes of a text: the URI as the parser serialises
/// it, or nothing where the text is no absolute URI.
pub uninterp spec fn uri_text(s: Seq<char>) -> Option<Seq<char>>;

/// What `cidr::IpCidr` reads from a text: the network as the crate writes
/// it, or nothing where the text is no IPv4 or IPv6 network.
pub uninterp spec fn ip_cidr_text(s: Seq<char>) -> Option<Seq<char>>;

/// What `cidr::Ipv4Cidr` reads from a text: the network as the crate writes
/// it, or nothing where the text is no IPv4 network.
pub uninterp spec fn ipv4_cidr_text(s: Seq<char>) -> Option<Seq<char>>;

/// What `str::to_lowercase` returns for a text.
pub uninterp spec fn lowercase_text(s: Seq<char>) -> Seq<char>;

/// A reader's answer, by the characters of the text it hands out.
pub open spec fn answer(r: Option<String>) -> Option<Seq<char>> {
    match r {
        Some(text) => Some(text@),
        None => None,
    }
}

/// `uuid::Uuid::parse_str`, with the identifier written back by its
/// `Display`: the result is `uuid_text` of the input.
#[verifier::external_body]
pub(crate) fn read_uuid(s: &str) -> (r: Option<String>)
    ensures
        answer(r) == uuid_text(s@),
{
    match uuid::Uuid::parse_str(s) {
        Ok(id) => Some(id.to_string()),
        Err(_) => None,
    }
}

/// `url::Url::parse`, with the URI handed out as its serialisation: the
/// result is `uri_text` of the input.
#[verifier::external_body]
pub(crate) fn read_uri(s: &str) -> (r: Option<String>)
    ensures
        answer(r) == uri_text(s@),
{
    match url::Url::parse(s) {
        Ok(uri) => Some(String::from(uri)),
        Err(_) => None,
    }
}

/// `cidr::IpCidr::from_str`, with the network written back by its
/// `Display`: the result is `ip_cidr_text` of the input.
#[verifier::external_body]
pub(crate) fn read_ip_cidr(s: &str) -> (r: Option<String>)
    ensures
        answer(r) == ip_cidr_text(s@),
{
    match s.parse::<cidr::IpCidr>() {
        Ok(net) => Some(net.to_string()),
        Err(_) => None,
    }
}

/// `cidr::Ipv4Cidr::from_str`, with the network written back by its
/// `Display`: the result is `ipv4_cidr_text` of the input.
#[verifier::external_body]
pub(crate) fn read_ipv4_cidr(s: &str) -> (r: Option<String>)
    ensures
        answer(r) == ipv4_cidr_text(s@),
{
    match s.parse::<cidr::Ipv4Cidr>() {
        Ok(net) => Some(net.to_string()),
        Err(_) => None,
    }
}

/// `str::to_lowercase`: the result is `lowercase_text` of the input.
#[verifier::external_body]
pub(crate) fn to_lowercase(s: &str) -> (r: String)
    ensures
        r@ == lowercase_text(s@),
{
    s.to_lowercase()
}

} // verus!
