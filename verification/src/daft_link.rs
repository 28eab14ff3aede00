//! Where the Diagnose buttons point: the Daft robot-data-curation console.
//!
//! Web viewer only. The console lives behind the same gateway domain as the web viewer
//! (`/` = viewer, `/curation` = console), so the web viewer can always derive the target;
//! a deployment can override it in its configuration.
//!
//! The native viewer has no part in this: there is no address to derive, [`base_url`] gives
//! none, and that hides every Diagnose button.
use vstd::prelude::*;
use vstd::string::*;
use vstd::utf8::*;

use crate::platform::Platform;
use crate::text;

verus! {

/// What is known of the console's address.
#[derive(Debug)]
pub struct Console {
    pub platform: Platform,
    /// The configured address; only a web viewer ever records one.
    pub configured: Option<String>,
}

impl Console {
    /// Nothing configured yet.
    pub fn new(platform: Platform) -> (r: Self)
        ensures
            r.platform == platform,
            r.configured is None,
    {
        Console { platform, configured: None }
    }
}

/// A configured address as it is recorded: without white space around it, without slashes
/// at its end, and not at all where nothing is left.
pub open spec fn recorded_address(url: Seq<char>) -> Option<Seq<char>> {
    let u = text::without_trailing(text::trimmed(url), '/');
    if u.len() == 0 {
        None
    } else {
        Some(u)
    }
}

/// The console address that `console` stands for.
pub open spec fn address(console: Console) -> Option<Seq<char>> {
    match console.platform {
        Platform::Native => None,
        Platform::Web => match console.configured {
            Some(url) => Some(url@),
            None => Some("/curation"@),
        },
    }
}

/// Record the configured console address (empty = not configured). Web only; native
/// callers may call it, it just has no observable effect there.
pub fn set_base_url(console: &mut Console, url: &str)
    ensures
        final(console).platform == old(console).platform,
        old(console).platform == Platform::Native ==> *final(console) == *old(console),
        old(console).platform == Platform::Web ==> text::opt_view(final(console).configured)
            == recorded_address(url@),
{
    if console.platform == Platform::Web {
        let url: &str = text::trim_end_char(text::trim(url), '/');
        console.configured = if url.is_empty() {
            None
        } else {
            Some(url.to_owned())
        };
    }
}

/// The console address: on the web the configured one, else the same-domain `/curation`
/// sibling path. `None` natively: no address, no buttons.
pub fn base_url(console: &Console) -> (r: Option<String>)
    ensures
        text::opt_view(r) == address(*console),
{
    match console.platform {
        Platform::Native => None,
        Platform::Web => match &console.configured {
            Some(url) => Some(url.clone()),
            None => Some("/curation".to_owned()),
        },
    }
}

/// The dataset segment of a `tos://` URL, where it has one.
pub open spec fn dataset_segment(tos_url: Seq<char>) -> Option<Seq<char>> {
    let path = text::without_trailing(tos_url.skip("tos://"@.len() as int), '/');
    if text::starts_with(tos_url, "tos://"@) && path.contains('/') && text::before_last(path, '/').len() > 0
        && text::after_last(path, '/').len() > 0 {
        Some(text::after_last(path, '/'))
    } else {
        None
    }
}

/// The dataset's directory name: the last path segment of a `tos://bucket/prefix/name/` URL.
///
/// Used as the validity gate for [`diagnose_url`]: only URLs with an actual dataset
/// segment get a Diagnose link.
pub fn dataset_name_from_tos_url(tos_url: &str) -> (r: Option<&str>)
    ensures
        r is Some <==> dataset_segment(tos_url@) is Some,
        r matches Some(name) ==> Some(name@) == dataset_segment(tos_url@),
{
    match text::strip_prefix(tos_url, "tos://") {
        None => None,
        Some(rest) => {
            let rest: &str = text::trim_end_char(rest, '/');
            match text::rsplit_once(rest, '/') {
                None => None,
                // `tos://bucket` alone has no dataset segment.
                Some((bucket_or_prefix, name)) => if bucket_or_prefix.is_empty()
                    || name.is_empty() {
                    None
                } else {
                    Some(name)
                },
            }
        },
    }
}

// ---------------------------------------------------------------------------------------
// Percent-encoding

/// The bytes that stand for themselves in a query value (RFC 3986 "unreserved").
pub open spec fn is_unreserved(b: u8) -> bool {
    ||| 65 <= b <= 90
    ||| 97 <= b <= 122
    ||| 48 <= b <= 57
    ||| b == 45
    ||| b == 46
    ||| b == 95
    ||| b == 126
}

/// The upper-case hexadecimal digit for `d`, for `d` below sixteen.
pub open spec fn hex_digit(d: u8) -> char {
    if d < 10 {
        (d + 48) as char
    } else {
        (d + 55) as char
    }
}

/// One byte of a query value, percent-encoded.
pub open spec fn encoded_byte(b: u8) -> Seq<char> {
    if is_unreserved(b) {
        seq![b as char]
    } else {
        seq!['%', hex_digit((b / 16) as u8), hex_digit((b % 16) as u8)]
    }
}

/// The bytes of a query value, percent-encoded one by one.
pub open spec fn encoded(bytes: Seq<u8>) -> Seq<char>
    decreases bytes.len(),
{
    if bytes.len() == 0 {
        Seq::empty()
    } else {
        encoded(bytes.drop_last()) + encoded_byte(bytes.last())
    }
}

fn hex_char(d: u8) -> (c: char)
    requires
        d < 16,
    ensures
        c == hex_digit(d),
{
    if d < 10 {
        (d + 48u8) as char
    } else {
        (d + 55u8) as char
    }
}

/// Percent-encode a query-string value (RFC 3986 unreserved characters pass through).
pub fn encode_query_value(value: &str) -> (r: String)
    ensures
        r@ == encoded(encode_utf8(value@)),
{
    let bytes: &[u8] = value.as_bytes();
    let mut out: String = String::new();
    let mut i: usize = 0;
    while i < bytes.len()
        invariant
            bytes@ == encode_utf8(value@),
            i <= bytes@.len(),
            out@ == encoded(bytes@.take(i as int)),
        decreases bytes@.len() - i,
    {
        let byte: u8 = bytes[i];
        assert(bytes@.take(i + 1).drop_last() == bytes@.take(i as int));
        let ghost before = out@;
        if (65 <= byte && byte <= 90) || (97 <= byte && byte <= 122) || (48 <= byte && byte <= 57)
            || byte == 45 || byte == 46 || byte == 95 || byte == 126 {
            out.push(byte as char);
        } else {
            out.push('%');
            out.push(hex_char(byte / 16));
            out.push(hex_char(byte % 16));
        }
        assert(out@ == before + encoded_byte(byte));
        i += 1;
    }
    assert(bytes@.take(bytes@.len() as int) == bytes@);
    out
}

// ---------------------------------------------------------------------------------------
// The deep link

/// The deep link to a dataset on the console at `base`; `region` is left out where it is
/// unknown or empty.
pub open spec fn deep_link(base: Seq<char>, tos_url: Seq<char>, region: Option<Seq<char>>) -> Seq<
    char,
> {
    let url = base + "?dataset="@ + encoded(encode_utf8(tos_url));
    match region {
        Some(r) if r.len() > 0 => url + "&region="@ + encoded(encode_utf8(r)),
        _ => url,
    }
}

/// The view of an optional borrowed text.
pub open spec fn opt_str_view(s: Option<&str>) -> Option<Seq<char>> {
    match s {
        Some(s) => Some(s@),
        None => None,
    }
}

/// What [`diagnose_url`] gives.
pub open spec fn diagnose_link(
    console: Console,
    tos_url: Seq<char>,
    region: Option<Seq<char>>,
) -> Option<Seq<char>> {
    match address(console) {
        Some(base) => if dataset_segment(tos_url) is Some {
            Some(deep_link(base, tos_url, region))
        } else {
            None
        },
        None => None,
    }
}

/// The full deep link for a TOS dataset, e.g.
/// `/curation?dataset=tos%3A%2F%2Fbucket%2Fprefix%2Fdemo%2F`:
/// `None` when there is no console address (always, natively) or the URL has no
/// dataset segment.
///
/// The payload is the complete `tos://` path plus, when known, the bucket's region
/// (`&region=cn-beijing`).
pub fn diagnose_url(console: &Console, tos_url: &str, region: Option<&str>) -> (r: Option<String>)
    ensures
        text::opt_view(r) == diagnose_link(*console, tos_url@, opt_str_view(region)),
{
    match base_url(console) {
        None => None,
        Some(base) => {
            // Only link datasets that actually have a dataset segment.
            if dataset_name_from_tos_url(tos_url).is_none() {
                return None;
            }
            let mut url: String = base;
            url.append("?dataset=");
            url.append(encode_query_value(tos_url).as_str());
            if let Some(region) = region {
                if !region.is_empty() {
                    url.append("&region=");
                    url.append(encode_query_value(region).as_str());
                }
            }
            Some(url)
        },
    }
}

// ---------------------------------------------------------------------------------------
// Laws

/// The number that a hexadecimal digit stands for.
pub open spec fn hex_value(c: char) -> Option<u8> {
    if '0' <= c <= '9' {
        Some((c as u32 - 48) as u8)
    } else if 'A' <= c <= 'F' {
        Some((c as u32 - 55) as u8)
    } else {
        None
    }
}

/// The bytes that a percent-encoded text stands for, read from its start.
pub open spec fn decoded(s: Seq<char>) -> Option<Seq<u8>>
    decreases s.len(),
{
    if s.len() == 0 {
        Some(Seq::empty())
    } else if s[0] != '%' {
        match decoded(s.skip(1)) {
            Some(rest) => Some(seq![s[0] as u8] + rest),
            None => None,
        }
    } else if s.len() < 3 {
        None
    } else {
        match (hex_value(s[1]), hex_value(s[2]), decoded(s.skip(3))) {
            (Some(hi), Some(lo), Some(rest)) => Some(seq![(hi * 16 + lo) as u8] + rest),
            _ => None,
        }
    }
}

proof fn lemma_encoded_front(bytes: Seq<u8>)
    requires
        bytes.len() > 0,
    ensures
        encoded(bytes) == encoded_byte(bytes[0]) + encoded(bytes.skip(1)),
    decreases bytes.len(),
{
    if bytes.len() == 1 {
        reveal_with_fuel(encoded, 2);
        assert(bytes.skip(1) == Seq::<u8>::empty());
        assert(bytes.drop_last() == Seq::<u8>::empty());
        assert(encoded(bytes) == encoded_byte(bytes[0]) + encoded(bytes.skip(1)));
    } else {
        lemma_encoded_front(bytes.drop_last());
        assert(bytes.drop_last().skip(1) == bytes.skip(1).drop_last());
        assert(bytes.skip(1).last() == bytes.last());
        assert(bytes.drop_last()[0] == bytes[0]);
        assert(encoded(bytes) == encoded_byte(bytes[0]) + encoded(bytes.skip(1)));
    }
}

proof fn lemma_encoded_byte_decodes(b: u8, rest: Seq<char>, tail: Seq<u8>)
    requires
        decoded(rest) == Some(tail),
    ensures
        decoded(encoded_byte(b) + rest) == Some(seq![b] + tail),
{
    let s = encoded_byte(b) + rest;
    if is_unreserved(b) {
        assert(s.skip(1) == rest);
        assert(s[0] == b as char);
        assert((b as char) as u8 == b);
    } else {
        let hi = (b / 16) as u8;
        let lo = (b % 16) as u8;
        assert(s.skip(3) == rest);
        assert(s[0] == '%' && s[1] == hex_digit(hi) && s[2] == hex_digit(lo));
        assert(hex_value(hex_digit(hi)) == Some(hi));
        assert(hex_value(hex_digit(lo)) == Some(lo));
        assert((hi * 16 + lo) as u8 == b);
    }
}

/// Percent-decoding gives back the encoded bytes: no two values share an encoding.
pub proof fn law_encoding_reads_back(bytes: Seq<u8>)
    ensures
        decoded(encoded(bytes)) == Some(bytes),
    decreases bytes.len(),
{
    if bytes.len() > 0 {
        lemma_encoded_front(bytes);
        law_encoding_reads_back(bytes.skip(1));
        lemma_encoded_byte_decodes(bytes[0], encoded(bytes.skip(1)), bytes.skip(1));
        assert(seq![bytes[0]] + bytes.skip(1) == bytes);
    }
}

/// A query value holds unreserved characters, `%` and upper-case hexadecimal digits only, so
/// nothing in it can end the value or start another one.
pub proof fn law_encoding_is_inert(bytes: Seq<u8>)
    ensures
        forall|i: int|
            0 <= i < encoded(bytes).len() ==> {
                let c = #[trigger] encoded(bytes)[i];
                c == '%' || (c as u32 <= 126 && is_unreserved(c as u8))
            },
    decreases bytes.len(),
{
    if bytes.len() > 0 {
        law_encoding_is_inert(bytes.drop_last());
        let b = bytes.last();
        let front = encoded(bytes.drop_last());
        assert forall|i: int| 0 <= i < encoded(bytes).len() implies {
            let c = #[trigger] encoded(bytes)[i];
            c == '%' || (c as u32 <= 126 && is_unreserved(c as u8))
        } by {
            if i < front.len() {
                assert(encoded(bytes)[i] == front[i]);
            } else {
                assert(encoded(bytes)[i] == encoded_byte(b)[i - front.len()]);
                assert((b as char) as u8 == b);
            }
        }
    }
}

proof fn lemma_before_first_absent(s: Seq<char>, c: char, rest: Seq<char>)
    requires
        forall|i: int| 0 <= i < s.len() ==> #[trigger] s[i] != c,
        rest.len() > 0 ==> rest[0] == c,
    ensures
        text::before_first(s + rest, seq![c]) == s,
    decreases s.len(),
{
    let all = s + rest;
    if s.len() == 0 {
        assert(all == rest);
        if rest.len() > 0 {
            assert(rest.subrange(0, 1) == seq![c]);
        }
    } else {
        assert(all[0] == s[0]);
        if text::starts_with(all, seq![c]) {
            assert(all.subrange(0, 1)[0] == c);
        }
        assert(all.skip(1) == s.skip(1) + rest);
        assert forall|i: int| 0 <= i < s.skip(1).len() implies #[trigger] s.skip(1)[i] != c by {
            assert(s.skip(1)[i] == s[i + 1]);
        }
        lemma_before_first_absent(s.skip(1), c, rest);
        assert(seq![s[0]] + s.skip(1) == s);
    }
}

/// The `dataset` value of a link to the console at `base`, percent-decoded.
pub open spec fn linked_dataset(link: Seq<char>, base: Seq<char>) -> Option<Seq<u8>> {
    decoded(text::before_first(link.skip((base + "?dataset="@).len() as int), seq!['&']))
}

/// The link names the complete dataset URL: reading its `dataset` value gives the URL back,
/// whatever characters the URL holds and whether or not a region follows.
pub proof fn law_link_names_the_dataset(
    base: Seq<char>,
    tos_url: Seq<char>,
    region: Option<Seq<char>>,
)
    ensures
        linked_dataset(deep_link(base, tos_url, region), base) == Some(encode_utf8(tos_url)),
{
    let bytes = encode_utf8(tos_url);
    let value = encoded(bytes);
    let head = base + "?dataset="@;
    let link = deep_link(base, tos_url, region);
    law_encoding_is_inert(bytes);
    law_encoding_reads_back(bytes);
    assert forall|i: int| 0 <= i < value.len() implies #[trigger] value[i] != '&' by {}
    let rest = link.skip(head.len() as int).skip(value.len() as int);
    assert(link.skip(head.len() as int) == value + rest);
    if rest.len() > 0 {
        reveal_strlit("&region=");
        assert(rest[0] == '&');
    }
    lemma_before_first_absent(value, '&', rest);
}

/// The link carries the region when it is known: what follows `&region=` decodes to it.
pub proof fn law_link_names_the_region(base: Seq<char>, tos_url: Seq<char>, region: Seq<char>)
    requires
        region.len() > 0,
    ensures
        ({
            let without = deep_link(base, tos_url, None) + "&region="@;
            let link = deep_link(base, tos_url, Some(region));
            &&& link.take(without.len() as int) == without
            &&& decoded(link.skip(without.len() as int)) == Some(encode_utf8(region))
        }),
{
    law_encoding_reads_back(encode_utf8(region));
    let without = deep_link(base, tos_url, None) + "&region="@;
    let link = deep_link(base, tos_url, Some(region));
    assert(link == without + encoded(encode_utf8(region)));
    assert(link.take(without.len() as int) == without);
    assert(link.skip(without.len() as int) == encoded(encode_utf8(region)));
}

/// Natively there is never a console address and never a link, whatever was configured:
/// that is what hides the buttons.
pub proof fn law_native_has_no_link(console: Console, tos_url: Seq<char>, region: Option<Seq<char>>)
    requires
        console.platform == Platform::Native,
    ensures
        address(console) is None,
        diagnose_link(console, tos_url, region) is None,
{
}

/// On the web there is always an address, and a link exactly for URLs with a dataset segment.
pub proof fn law_web_links_every_dataset(
    console: Console,
    tos_url: Seq<char>,
    region: Option<Seq<char>>,
)
    requires
        console.platform == Platform::Web,
    ensures
        address(console) is Some,
        diagnose_link(console, tos_url, region) is Some <==> dataset_segment(tos_url) is Some,
{
}

/// A dataset segment is never empty and holds no slash.
pub proof fn law_dataset_segment_is_one_segment(tos_url: Seq<char>)
    ensures
        dataset_segment(tos_url) matches Some(name) ==> name.len() > 0 && !name.contains('/'),
{
    let path = text::without_trailing(tos_url.skip("tos://"@.len() as int), '/');
    text::lemma_after_last(path, '/');
}

/// A recorded address ends in no slash, so the link's `?` follows the last path segment.
pub proof fn law_recorded_address_ends_in_no_slash(url: Seq<char>)
    ensures
        recorded_address(url) matches Some(u) ==> u.len() > 0 && u.last() != '/',
{
    text::lemma_without_trailing(text::trimmed(url), '/');
}

/// The values of two byte sequences, one behind the other, stand one behind the other. Letters,
/// digits and `-`, `.`, `_` and `~` stand for themselves; every other byte is `%` and the two
/// hexadecimal digits of its value.
pub proof fn law_each_byte_is_encoded_on_its_own(a: Seq<u8>, b: Seq<u8>, byte: u8)
    ensures
        encoded(a + b) == encoded(a) + encoded(b),
        ({
            let c = byte as char;
            let stays = ('A' <= c <= 'Z') || ('a' <= c <= 'z') || ('0' <= c <= '9') || c == '-' || c
                == '.' || c == '_' || c == '~';
            let value = encoded(seq![byte]);
            if stays {
                value == seq![c]
            } else {
                &&& value.len() == 3
                &&& value[0] == '%'
                &&& hex_value(value[1]) matches Some(hi) && hex_value(value[2]) matches Some(lo)
                    && byte == 16 * hi + lo
            }
        }),
    decreases b.len(),
{
    reveal_with_fuel(encoded, 2);
    assert(seq![byte].drop_last() =~= Seq::<u8>::empty());
    assert(encoded(seq![byte]) =~= encoded_byte(byte));
    if b.len() == 0 {
        assert(a + b =~= a);
        assert(encoded(a) + encoded(b) =~= encoded(a));
    } else {
        law_each_byte_is_encoded_on_its_own(a, b.drop_last(), byte);
        assert((a + b).drop_last() =~= a + b.drop_last());
        assert(encoded(a) + encoded(b.drop_last()) + encoded_byte(b.last()) =~= encoded(a) + (
        encoded(b.drop_last()) + encoded_byte(b.last())));
    }
}

/// The link of a dataset starts with the configured address or, if there is none, with
/// `/curation`. It carries the URL of the dataset, and the region if it is known, so that both
/// read back; without a region it carries nothing else.
pub proof fn law_diagnose_link_reads_back(
    console: Console,
    tos_url: Seq<char>,
    region: Option<Seq<char>>,
)
    requires
        console.platform == Platform::Web,
        dataset_segment(tos_url) is Some,
    ensures
        ({
            let base = match console.configured {
                Some(url) => url@,
                None => "/curation"@,
            };
            let start = base + "?dataset="@;
            let value = encoded(encode_utf8(tos_url));
            &&& diagnose_link(console, tos_url, region) matches Some(link) && {
                &&& link.take(start.len() as int) == start
                &&& linked_dataset(link, base) == Some(encode_utf8(tos_url))
                &&& (region is None || region->0.len() == 0) ==> link == start + value
                &&& (region is Some && region->0.len() > 0) ==> {
                    let front = start + value + "&region="@;
                    &&& link.take(front.len() as int) == front
                    &&& decoded(link.skip(front.len() as int)) == Some(encode_utf8(region->0))
                }
            }
        }),
{
    let base = match console.configured {
        Some(url) => url@,
        None => "/curation"@,
    };
    let start = base + "?dataset="@;
    let value = encoded(encode_utf8(tos_url));
    law_link_names_the_dataset(base, tos_url, region);
    let link = deep_link(base, tos_url, region);
    assert(link.take(start.len() as int) =~= start);
    if region is Some && region->0.len() > 0 {
        law_link_names_the_region(base, tos_url, region->0);
    }
}

/// The address that is recorded is the configured one, without the whitespace around it and
/// without the slashes at its end.
pub proof fn law_address_is_recorded_without_its_surroundings(
    before: Seq<char>,
    address: Seq<char>,
    slashes: Seq<char>,
    behind: Seq<char>,
)
    requires
        forall|i: int| 0 <= i < before.len() ==> text::is_whitespace(#[trigger] before[i]),
        forall|i: int| 0 <= i < behind.len() ==> text::is_whitespace(#[trigger] behind[i]),
        forall|i: int| 0 <= i < slashes.len() ==> slashes[i] == '/',
        address.len() > 0,
        !text::is_whitespace(address[0]),
        !text::is_whitespace(address.last()),
        address.last() != '/',
    ensures
        recorded_address(before + address + slashes + behind) == Some(address),
        recorded_address(before) is None,
{
    let url = before + address + slashes + behind;
    let core = address + slashes;
    let lo = before.len() as int;
    let hi = lo + core.len();
    text::law_trimming_leaves_the_core(url);
    assert(url.subrange(lo, hi) =~= core);
    assert forall|i: int| 0 <= i < lo implies text::is_whitespace(#[trigger] url[i]) by {
        assert(url[i] == before[i]);
    }
    assert forall|i: int| hi <= i < url.len() implies text::is_whitespace(#[trigger] url[i]) by {
        assert(url[i] == behind[i - hi]);
    }
    assert(text::is_core_at(core, url, lo, hi));
    assert(text::is_core_of(core, url));
    text::lemma_trailing_is(address, slashes, '/');
    text::law_trimming_leaves_the_core(before);
    let none = Seq::<char>::empty();
    assert(before.subrange(lo, lo) =~= none);
    assert(text::is_core_at(none, before, lo, lo));
    assert(text::is_core_of(none, before));
}

/// The dataset of a URL is the last segment of its path, behind the bucket and before any
/// slashes at the end. A bucket alone names no dataset, and neither does another scheme.
pub proof fn law_dataset_is_the_last_segment(
    place: Seq<char>,
    name: Seq<char>,
    slashes: Seq<char>,
    other: Seq<char>,
)
    requires
        place.len() > 0,
        name.len() > 0,
        !name.contains('/'),
        forall|i: int| 0 <= i < slashes.len() ==> slashes[i] == '/',
        !text::starts_with(other, "tos://"@),
    ensures
        dataset_segment("tos://"@ + (place + seq!['/'] + name + slashes)) == Some(name),
        dataset_segment("tos://"@ + (name + slashes)) is None,
        dataset_segment(other) is None,
{
    let scheme = "tos://"@;
    text::law_last_segment_is_found(place, name, slashes, '/');
    let path = place + seq!['/'] + name;
    let url = scheme + (path + slashes);
    assert(url.skip(scheme.len() as int) =~= path + slashes);
    assert(url.subrange(0, scheme.len() as int) =~= scheme);
    assert(path[place.len() as int] == '/');
    assert(path.contains('/'));
    text::lemma_last_is(place, name, '/');
    let bucket = scheme + (name + slashes);
    assert(bucket.skip(scheme.len() as int) =~= name + slashes);
}

} // verus!
