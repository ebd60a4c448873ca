//! Where a request comes from: the client's IP address as proxies report
//! it.
use crate::text::{split_on, split_text, trim_text, trimmed};
use vstd::prelude::*;

verus! {

/// An IP address: IPv4 as its 32 bits, IPv6 as its 128 bits.
#[derive(Debug, Clone, Copy, PartialEq, Eq, Structural)]
pub enum IpAddress {
    V4(u32),
    V6(u128),
}

/// The address `core::net::IpAddr`'s `FromStr` reads from the text, if
/// any.
pub uninterp spec fn ip_address_named(text: Seq<char>) -> Option<IpAddress>;

/// Parses a `core::net::IpAddr` and gives its bits.
#[verifier::external_body]
fn parse_ip_address(text: &str) -> (r: Option<IpAddress>)
    ensures
        r == ip_address_named(text@),
{
    match text.parse::<core::net::IpAddr>() {
        Ok(core::net::IpAddr::V4(a)) => Some(IpAddress::V4(u32::from(a))),
        Ok(core::net::IpAddr::V6(a)) => Some(IpAddress::V6(u128::from(a))),
        Err(_) => None,
    }
}

/// The first of the pieces that reads as an address once trimmed.
pub open spec fn first_ip_in(parts: Seq<Seq<char>>) -> Option<IpAddress>
    decreases parts.len(),
{
    if parts.len() == 0 {
        None
    } else {
        match ip_address_named(trimmed(parts[0])) {
            Some(ip) => Some(ip),
            None => first_ip_in(parts.drop_first()),
        }
    }
}

/// What the `X-Forwarded-For` values give.
pub enum ForwardedScan {
    /// The first address found, value by value and piece by piece.
    Found(IpAddress),
    /// A value before any address was found could not be read as text.
    Unreadable,
    /// No value holds an address.
    NotFound,
}

/// Scans the `X-Forwarded-For` values in order (`None` for a value that is
/// not visible ASCII), each split on commas.
pub open spec fn scan_forwarded(values: Seq<Option<Seq<char>>>) -> ForwardedScan
    decreases values.len(),
{
    if values.len() == 0 {
        ForwardedScan::NotFound
    } else {
        match values[0] {
            None => ForwardedScan::Unreadable,
            Some(v) => match first_ip_in(split_on(v, ',')) {
                Some(ip) => ForwardedScan::Found(ip),
                None => scan_forwarded(values.drop_first()),
            },
        }
    }
}

/// The client's address: the first one `X-Forwarded-For` gives; when no
/// value holds one, the trimmed `X-Real-IP`; nothing when a forwarded value
/// could not be read.
pub open spec fn client_ip(forwarded: Seq<Option<Seq<char>>>, real_ip: Option<Seq<char>>) -> Option<
    IpAddress,
> {
    match scan_forwarded(forwarded) {
        ForwardedScan::Found(ip) => Some(ip),
        ForwardedScan::Unreadable => None,
        ForwardedScan::NotFound => match real_ip {
            Some(v) => ip_address_named(trimmed(v)),
            None => None,
        },
    }
}

/// The texts of header values, `None` for those that are not text.
pub open spec fn header_texts(values: Seq<Option<String>>) -> Seq<Option<Seq<char>>> {
    values.map_values(
        |v: Option<String>|
            match v {
                Some(s) => Some(s@),
                None => None,
            },
    )
}

proof fn lemma_first_ip_step(parts: Seq<Seq<char>>, j: int)
    requires
        0 <= j < parts.len(),
        ip_address_named(trimmed(parts[j])) is None,
    ensures
        first_ip_in(parts.subrange(j, parts.len() as int)) == first_ip_in(
            parts.subrange(j + 1, parts.len() as int),
        ),
{
    assert(parts.subrange(j, parts.len() as int).drop_first() =~= parts.subrange(
        j + 1,
        parts.len() as int,
    ));
}

proof fn lemma_scan_step(values: Seq<Option<Seq<char>>>, i: int)
    requires
        0 <= i < values.len(),
        values[i] matches Some(v) && first_ip_in(split_on(v, ',')) is None,
    ensures
        scan_forwarded(values.subrange(i, values.len() as int)) == scan_forwarded(
            values.subrange(i + 1, values.len() as int),
        ),
{
    assert(values.subrange(i, values.len() as int).drop_first() =~= values.subrange(
        i + 1,
        values.len() as int,
    ));
}

/// The first address among the comma-separated pieces of one value.
fn first_ip_in_value(value: &str) -> (r: Option<IpAddress>)
    ensures
        r == first_ip_in(split_on(value@, ',')),
{
    let parts = split_text(value, ',');
    let ghost views = split_on(value@, ',');
    let mut j: usize = 0;
    assert(views.subrange(0, views.len() as int) =~= views);
    while j < parts.len()
        invariant
            views == split_on(value@, ','),
            parts@.len() == views.len(),
            forall|k: int| 0 <= k < parts@.len() ==> #[trigger] parts@[k]@ == views[k],
            j <= parts@.len(),
            first_ip_in(views) == first_ip_in(views.subrange(j as int, views.len() as int)),
        decreases parts@.len() - j,
    {
        let piece = trim_text(parts[j]);
        let parsed = parse_ip_address(piece);
        if parsed.is_some() {
            let ghost rest = views.subrange(j as int, views.len() as int);
            assert(rest[0] == views[j as int]);
            assert(piece@ == trimmed(rest[0]));
            assert(first_ip_in(rest) == parsed);
            return parsed;
        }
        proof {
            lemma_first_ip_step(views, j as int);
        }
        j = j + 1;
    }
    assert(views.subrange(j as int, views.len() as int) =~= Seq::<Seq<char>>::empty());
    None
}

/// What a request tells of itself.
pub struct RequestInfoExtractr {
    pub url: String,
    pub user_agent: Option<String>,
    pub ip: Option<IpAddress>,
}

impl RequestInfoExtractr {
    /// The client's address from the `X-Forwarded-For` values (each `None`
    /// when it is not text) and the `X-Real-IP` text.
    pub fn get_ip_from_headers(forwarded: &Vec<Option<String>>, real_ip: Option<String>) -> (r:
        Option<IpAddress>)
        ensures
            r == client_ip(
                header_texts(forwarded@),
                match real_ip {
                    Some(s) => Some(s@),
                    None => None,
                },
            ),
    {
        let ghost texts = header_texts(forwarded@);
        let mut i: usize = 0;
        assert(texts.subrange(0, texts.len() as int) =~= texts);
        while i < forwarded.len()
            invariant
                texts == header_texts(forwarded@),
                texts.len() == forwarded@.len(),
                i <= forwarded@.len(),
                scan_forwarded(texts) == scan_forwarded(texts.subrange(i as int, texts.len() as int)),
            decreases forwarded@.len() - i,
        {
            let ghost rest = texts.subrange(i as int, texts.len() as int);
            assert(rest[0] == texts[i as int]);
            match &forwarded[i] {
                None => {
                    return None;
                },
                Some(value) => {
                    let found = first_ip_in_value(value.as_str());
                    if found.is_some() {
                        return found;
                    }
                    proof {
                        lemma_scan_step(texts, i as int);
                    }
                },
            }
            i = i + 1;
        }
        assert(texts.subrange(i as int, texts.len() as int) =~= Seq::<Option<Seq<char>>>::empty());
        match real_ip {
            Some(v) => parse_ip_address(trim_text(v.as_str())),
            None => None,
        }
    }
}

} // verus!
