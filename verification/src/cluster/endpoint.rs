//! The endpoints that Servers advertise and listen on.

use vstd::prelude::*;
use vstd::string::*;

use crate::error::ServerError;
use crate::text::{
    ascii_lowercase, characters, contains_char, decimal, dns_label, is_dns_label, is_last_index,
    is_lower_alphanumeric, last_index, lemma_decimal, lemma_no_leading_zero, lowercase_of,
    parse_port, port_of, push_decimal, text_of,
};

verus! {

/// A text that the host has parsed as a socket address, in the canonical form
/// of such addresses.
pub struct SocketText {
    pub text: String,
    pub port: u16,
}

/// A dot-free piece of a host name between two dots or ends.
pub open spec fn is_label_at(host: Seq<char>, from: int, to: int) -> bool {
    &&& 0 <= from <= to <= host.len()
    &&& from == 0 || host[from - 1] == '.'
    &&& to == host.len() || host[to] == '.'
    &&& forall|k: int| from <= k < to ==> host[k] != '.'
}

/// Every dot-separated piece of a host name is a DNS label.
pub open spec fn valid_host(host: Seq<char>) -> bool {
    &&& host.len() <= 253
    &&& forall|from: int, to: int| #[trigger]
        is_label_at(host, from, to) ==> dns_label(host.subrange(from, to))
}

/// The canonical form of a `host:port` text that is no socket address: a
/// lowercase host name of DNS labels and a port other than zero.
pub open spec fn canonical_name(value: Seq<char>, at: int) -> Option<Seq<char>> {
    let host = value.subrange(0, at);
    let port = port_of(value.subrange(at + 1, value.len() as int));
    let lower = ascii_lowercase(host);
    match port {
        Some(port) => if port != 0 && !host.contains(':') && valid_host(lower) {
            Some(lower + seq![':'] + decimal(port as nat))
        } else {
            None
        },
        None => None,
    }
}

/// The canonical form of an advertised endpoint, given what the host's parser
/// for socket addresses made of it. A text with a scheme, a path, a query or a
/// fragment has none.
pub open spec fn canonical(value: Seq<char>, socket: Option<(Seq<char>, u16)>) -> Option<
    Seq<char>,
> {
    if value.len() == 0 || value.contains('/') || value.contains('?') || value.contains('#') {
        None
    } else {
        match socket {
            Some((text, port)) => if port != 0 {
                Some(text)
            } else {
                None
            },
            None => if value.contains(':') {
                canonical_name(value, last_colon(value))
            } else {
                None
            },
        }
    }
}

/// The place of the last colon.
pub open spec fn last_colon(value: Seq<char>) -> int {
    choose|at: int| is_last_index(value, ':', at)
}

proof fn lemma_last_colon(value: Seq<char>, at: int)
    requires
        is_last_index(value, ':', at),
    ensures
        last_colon(value) == at,
{
    let other = last_colon(value);
    assert(is_last_index(value, ':', other));
    if other < at {
        assert(value[at] != ':');
    }
    if at < other {
        assert(value[other] != ':');
    }
}

fn is_valid_host(host: &Vec<char>) -> (valid: bool)
    ensures
        valid == valid_host(host@),
{
    if host.len() > 253 {
        return false;
    }
    let mut start: usize = 0;
    let mut i: usize = 0;
    while i < host.len()
        invariant
            start <= i <= host@.len() <= 253,
            start == 0 || host@[start - 1] == '.',
            forall|k: int| start <= k < i ==> host@[k] != '.',
            forall|from: int, to: int|
                is_label_at(host@, from, to) && from < start ==> #[trigger] dns_label(
                    host@.subrange(from, to),
                ),
        decreases host@.len() - i,
    {
        if host[i] == '.' {
            let label = text_of(host, start, i);
            if !is_dns_label(label.as_str()) {
                assert(is_label_at(host@, start as int, i as int));
                return false;
            }
            assert forall|from: int, to: int|
                is_label_at(host@, from, to) && from < i + 1 implies #[trigger] dns_label(
                host@.subrange(from, to),
            ) by {
                if from >= start {
                    assert(from == start) by {
                        if from > start {
                            assert(host@[from - 1] != '.');
                        }
                    }
                    assert(to == i) by {
                        if to < i {
                            assert(host@[to] != '.');
                        }
                    }
                }
            }
            start = i + 1;
        }
        i += 1;
    }
    let label = text_of(host, start, host.len());
    let last = is_dns_label(label.as_str());
    proof {
        let len = host@.len() as int;
        assert(is_label_at(host@, start as int, len));
        if last {
            assert forall|from: int, to: int| #[trigger] is_label_at(host@, from, to) implies dns_label(
                host@.subrange(from, to),
            ) by {
                if from >= start {
                    assert(from == start) by {
                        if from > start {
                            assert(host@[from - 1] != '.');
                        }
                    }
                    assert(to == len) by {
                        if to < len {
                            assert(host@[to] != '.');
                        }
                    }
                } else {
                    assert(dns_label(host@.subrange(from, to)));
                }
            }
        }
    }
    last
}

/// Brings an advertised endpoint into canonical form. `socket` is what the
/// host's parser for socket addresses made of the same text.
pub fn canonical_endpoint(value: &str, socket: Option<SocketText>) -> (endpoint: Option<String>)
    ensures
        ({
            let parsed = match socket {
                Some(socket) => Some((socket.text@, socket.port)),
                None => None,
            };
            match endpoint {
                Some(endpoint) => canonical(value@, parsed) == Some(endpoint@),
                None => canonical(value@, parsed) is None,
            }
        }),
{
    let chars = characters(value);
    if chars.len() == 0 || contains_char(&chars, '/') || contains_char(&chars, '?')
        || contains_char(&chars, '#') {
        return None;
    }
    if let Some(socket) = socket {
        return if socket.port != 0 {
            Some(socket.text)
        } else {
            None
        };
    }
    let at: usize = match last_index(&chars, ':') {
        Some(at) => at,
        None => return None,
    };
    proof {
        assert(chars@.contains(':'));
        lemma_last_colon(chars@, at as int);
    }
    let lower = lowercase_of(&chars, 0, at);
    let ghost host = chars@.subrange(0, at as int);
    let mut i: usize = 0;
    while i < at
        invariant
            i <= at < chars@.len(),
            host == chars@.subrange(0, at as int),
            forall|j: int| 0 <= j < i ==> host[j] != ':',
            chars@ == value@,
            chars@.contains(':'),
            last_colon(chars@) == at,
            chars@.len() > 0,
            !chars@.contains('/') && !chars@.contains('?') && !chars@.contains('#'),
            socket is None,
            canonical(value@, None) == canonical_name(value@, at as int),
        decreases at - i,
    {
        if chars[i] == ':' {
            assert(host[i as int] == ':');
            assert(host.contains(':'));
            return None;
        }
        i += 1;
    }
    assert(!host.contains(':'));
    let port: u16 = match parse_port(&chars, at + 1) {
        Some(port) => port,
        None => return None,
    };
    if port == 0 || !is_valid_host(&lower) {
        return None;
    }
    let mut endpoint = text_of(&lower, 0, lower.len());
    endpoint.push(':');
    push_decimal(&mut endpoint, port as u64);
    assert(lower@.subrange(0, lower@.len() as int) =~= lower@);
    assert(endpoint@ =~= lower@ + seq![':'] + decimal(port as nat));
    Some(endpoint)
}

/// A text that is neither empty nor holds what a path, a query or a fragment
/// begins with. Every socket address is written so.
pub open spec fn is_plain(text: Seq<char>) -> bool {
    text.len() > 0 && !text.contains('/') && !text.contains('?') && !text.contains('#')
}

/// A lowercase host and a port other than zero that is written without a sign and
/// without leading zeros.
pub open spec fn is_host_and_port(endpoint: Seq<char>, host: Seq<char>, port: u16) -> bool {
    &&& port > 0
    &&& valid_host(host)
    &&& endpoint == host + seq![':'] + decimal(port as nat)
    &&& decimal(port as nat)[0] != '0' && decimal(port as nat)[0] != '+'
}

/// A canonical endpoint is its own canonical form, whether the host's parser takes
/// it for a socket address or not, and holds no path, query or fragment. One that
/// is no socket address is a lowercase host and a port.
pub proof fn law_canonical_endpoint_is_stable(
    value: Seq<char>,
    socket: Option<(Seq<char>, u16)>,
    endpoint: Seq<char>,
)
    requires
        canonical(value, socket) == Some(endpoint),
        socket matches Some((text, _)) ==> is_plain(text),
    ensures
        is_plain(endpoint),
        match socket {
            Some((text, port)) => port > 0 && canonical(endpoint, Some((endpoint, port))) == Some(
                endpoint,
            ),
            None => {
                &&& canonical(endpoint, None) == Some(endpoint)
                &&& ascii_lowercase(endpoint) == endpoint
                &&& exists|host: Seq<char>, port: u16| #[trigger]
                    is_host_and_port(endpoint, host, port)
            },
        },
{
    if socket is None {
        lemma_canonical_name_is_stable(value, endpoint);
    }
}

proof fn lemma_canonical_name_is_stable(value: Seq<char>, endpoint: Seq<char>)
    requires
        canonical(value, None) == Some(endpoint),
    ensures
        is_plain(endpoint),
        canonical(endpoint, None) == Some(endpoint),
        ascii_lowercase(endpoint) == endpoint,
        exists|host: Seq<char>, port: u16| #[trigger] is_host_and_port(endpoint, host, port),
{
    let at = last_colon(value);
    let host = value.subrange(0, at);
    let lower = ascii_lowercase(host);
    let port = port_of(value.subrange(at + 1, value.len() as int))->0;
    lemma_decimal(port as nat);
    lemma_no_leading_zero(port as nat);
    let number = decimal(port as nat);
    assert('0' <= number[0] <= '9');
    assert(is_host_and_port(endpoint, lower, port));
    let colon = lower.len() as int;
    assert(endpoint == lower + seq![':'] + number);
    assert forall|k: int| 0 <= k < lower.len() implies is_lower_alphanumeric(#[trigger] lower[k])
        || lower[k] == '-' || lower[k] == '.' by {
        lemma_host_char(lower, k);
    }
    assert(is_last_index(endpoint, ':', colon)) by {
        assert forall|j: int| colon < j < endpoint.len() implies endpoint[j] != ':' by {
            assert(endpoint[j] == number[j - colon - 1]);
        }
    }
    lemma_last_colon(endpoint, colon);
    assert(endpoint.subrange(0, colon) =~= lower);
    assert(endpoint.subrange(colon + 1, endpoint.len() as int) =~= number);
    assert(ascii_lowercase(lower) =~= lower);
    assert(port_of(number) == Some(port)) by {
        assert('0' <= number[0]);
    }
    assert(!lower.contains(':'));
    assert forall|c: char| c == '/' || c == '?' || c == '#' implies !endpoint.contains(c) by {
        if endpoint.contains(c) {
            let j = choose|j: int| 0 <= j < endpoint.len() && endpoint[j] == c;
            if j < colon {
                assert(endpoint[j] == lower[j]);
            } else if j > colon {
                assert(endpoint[j] == number[j - colon - 1]);
            }
        }
    }
    assert(endpoint.contains(':')) by {
        assert(endpoint[colon] == ':');
    }
    assert(ascii_lowercase(endpoint) =~= endpoint) by {
        assert forall|j: int| 0 <= j < endpoint.len() implies ascii_lowercase(endpoint)[j]
            == endpoint[j] by {
            if j < colon {
                assert(endpoint[j] == lower[j]);
            } else if j > colon {
                assert(endpoint[j] == number[j - colon - 1]);
            }
        }
    }
}

proof fn lemma_label_start(host: Seq<char>, k: int) -> (from: int)
    requires
        0 <= k < host.len(),
        host[k] != '.',
    ensures
        0 <= from <= k,
        from == 0 || host[from - 1] == '.',
        forall|j: int| from <= j <= k ==> host[j] != '.',
    decreases k,
{
    if k == 0 || host[k - 1] == '.' {
        k
    } else {
        lemma_label_start(host, k - 1)
    }
}

proof fn lemma_label_end(host: Seq<char>, k: int) -> (to: int)
    requires
        0 <= k < host.len(),
        host[k] != '.',
    ensures
        k < to <= host.len(),
        to == host.len() || host[to] == '.',
        forall|j: int| k <= j < to ==> host[j] != '.',
    decreases host.len() - k,
{
    if k + 1 == host.len() || host[k + 1] == '.' {
        k + 1
    } else {
        lemma_label_end(host, k + 1)
    }
}

proof fn lemma_host_char(host: Seq<char>, k: int)
    requires
        valid_host(host),
        0 <= k < host.len(),
    ensures
        is_lower_alphanumeric(host[k]) || host[k] == '-' || host[k] == '.',
{
    if host[k] != '.' {
        let from = lemma_label_start(host, k);
        let to = lemma_label_end(host, k);
        assert(is_label_at(host, from, to));
        let label = host.subrange(from, to);
        assert(label[k - from] == host[k]);
    }
}

/// The text that has to be parsed as the socket address to listen on: `:port`
/// stands for the port on every interface.
pub open spec fn listen_text(address: Seq<char>) -> Option<Seq<char>> {
    if address.len() > 0 && address[0] == ':' {
        let port = address.drop_first();
        if port.len() == 0 || port.contains(':') {
            None
        } else {
            Some("0.0.0.0:"@ + port)
        }
    } else {
        Some(address)
    }
}

/// The text that the host has to parse as the socket address to listen on.
pub fn parse_listen_address(address: &str) -> (text: Result<String, ServerError>)
    ensures
        match text {
            Ok(text) => listen_text(address@) == Some(text@),
            Err(error) => error == ServerError::InvalidListenAddress && listen_text(address@)
                is None,
        },
{
    let chars = characters(address);
    if chars.len() == 0 || chars[0] != ':' {
        return Ok(address.to_owned());
    }
    let mut port = characters(address);
    port.remove(0);
    assert(port@ =~= address@.drop_first());
    if port.len() == 0 || contains_char(&port, ':') {
        return Err(ServerError::InvalidListenAddress);
    }
    let rest = text_of(&port, 0, port.len());
    assert(port@.subrange(0, port@.len() as int) =~= port@);
    Ok("0.0.0.0:".to_owned().concat(rest.as_str()))
}

/// A DNS label is a host, and a host with one more label behind a dot is one, as long
/// as there is room.
pub proof fn law_hosts_are_labels_between_dots(host: Seq<char>, label: Seq<char>)
    requires
        dns_label(label),
        valid_host(host),
        host.len() + 1 + label.len() <= 253,
    ensures
        valid_host(label),
        valid_host(host + seq!['.'] + label),
        host.len() > 0,
        !host.contains(':'),
{
    let longer = host + seq!['.'] + label;
    lemma_label_has_no_dot(label);
    assert forall|from: int, to: int| #[trigger] is_label_at(label, from, to) implies dns_label(
        label.subrange(from, to),
    ) by {
        if from > 0 {
            assert(label[from - 1] == '.');
        }
        if to < label.len() {
            assert(label[to] == '.');
        }
        assert(label.subrange(from, to) =~= label);
    }
    assert forall|from: int, to: int| #[trigger] is_label_at(longer, from, to) implies dns_label(
        longer.subrange(from, to),
    ) by {
        let dot = host.len() as int;
        assert(longer[dot] == '.');
        if from <= dot {
            if to > dot {
                assert(longer[dot] != '.');
            }
            assert(is_label_at(host, from, to)) by {
                if from > 0 {
                    assert(longer[from - 1] == host[from - 1]);
                }
                if to < dot {
                    assert(longer[to] == host[to]);
                }
                assert forall|k: int| from <= k < to implies host[k] != '.' by {
                    assert(longer[k] == host[k]);
                }
            }
            assert(longer.subrange(from, to) =~= host.subrange(from, to));
        } else {
            if from > dot + 1 {
                assert(longer[from - 1] == label[from - 1 - dot - 1]);
            }
            if to < longer.len() {
                assert(longer[to] == label[to - dot - 1]);
            }
            assert(longer.subrange(from, to) =~= label);
        }
    }
    if host.len() == 0 {
        assert(is_label_at(host, 0, 0));
    }
    if host.contains(':') {
        let k = choose|k: int| 0 <= k < host.len() && host[k] == ':';
        lemma_host_char(host, k);
    }
}

proof fn lemma_label_has_no_dot(label: Seq<char>)
    requires
        dns_label(label),
    ensures
        forall|k: int| 0 <= k < label.len() ==> #[trigger] label[k] != '.',
{
    assert forall|k: int| 0 <= k < label.len() implies #[trigger] label[k] != '.' by {
        assert(is_lower_alphanumeric(label[k]) || label[k] == '-');
    }
}

/// Every lowercase host with every port other than zero is an endpoint that is
/// already canonical. Zero is no port, and neither is anything but a number.
pub proof fn law_hosts_and_ports_are_endpoints(host: Seq<char>, port: u16)
    requires
        valid_host(host),
    ensures
        port > 0 ==> canonical(host + seq![':'] + decimal(port as nat), None) == Some(
            host + seq![':'] + decimal(port as nat),
        ),
        port == 0 ==> canonical(host + seq![':'] + decimal(port as nat), None) is None,
        canonical(host, None) is None,
        canonical(host + seq![':'], None) is None,
{
    lemma_decimal(port as nat);
    let number = decimal(port as nat);
    let endpoint = host + seq![':'] + number;
    let colon = host.len() as int;
    assert forall|k: int| 0 <= k < host.len() implies ({
        let c = #[trigger] host[k];
        c != ':' && c != '/' && c != '?' && c != '#' && ascii_lower_is(c)
    }) by {
        lemma_host_char(host, k);
    }
    assert(ascii_lowercase(host) =~= host);
    assert forall|k: int| 0 <= k < endpoint.len() implies ({
        let c = #[trigger] endpoint[k];
        c != '/' && c != '?' && c != '#'
    }) by {
        if k < colon {
            assert(endpoint[k] == host[k]);
        } else if k > colon {
            assert(endpoint[k] == number[k - colon - 1]);
        }
    }
    assert(is_last_index(endpoint, ':', colon)) by {
        assert forall|j: int| colon < j < endpoint.len() implies endpoint[j] != ':' by {
            assert(endpoint[j] == number[j - colon - 1]);
        }
    }
    lemma_last_colon(endpoint, colon);
    assert(endpoint.subrange(0, colon) =~= host);
    assert(endpoint.subrange(colon + 1, endpoint.len() as int) =~= number);
    assert(endpoint.contains(':')) by {
        assert(endpoint[colon] == ':');
    }
    if !host.contains(':') {
        crate::text::law_ports_are_read_back(port, seq!['a', 'a'], 1);
    }
    assert(!host.contains(':')) by {
        if host.contains(':') {
            let k = choose|k: int| 0 <= k < host.len() && host[k] == ':';
            assert(host[k] != ':');
        }
    }
    let bare = host + seq![':'];
    assert(is_last_index(bare, ':', colon));
    lemma_last_colon(bare, colon);
    assert(bare.subrange(colon + 1, bare.len() as int) =~= Seq::<char>::empty());
}

spec fn ascii_lower_is(c: char) -> bool {
    crate::text::ascii_lower(c) == c
}

/// What has a slash, a question mark or a number sign in it is no endpoint, whatever
/// the host's parser makes of it; of what the parser takes for a socket address, only
/// port zero is refused.
pub proof fn law_urls_are_no_endpoints(
    value: Seq<char>,
    socket: Option<(Seq<char>, u16)>,
    text: Seq<char>,
    port: u16,
    i: int,
)
    requires
        0 <= i < value.len(),
    ensures
        value[i] == '/' || value[i] == '?' || value[i] == '#' ==> canonical(value, socket) is None,
        (forall|k: int|
            0 <= k < value.len() ==> #[trigger] value[k] != '/' && value[k] != '?' && value[k]
                != '#') ==> canonical(value, Some((text, port))) == if port == 0 {
            None
        } else {
            Some(text)
        },
{
    if value[i] == '/' {
        assert(value.contains('/'));
    }
    if value[i] == '?' {
        assert(value.contains('?'));
    }
    if value[i] == '#' {
        assert(value.contains('#'));
    }
}

/// A port alone is listened on at every interface; an address with a host is taken
/// as it is.
pub proof fn law_a_port_alone_means_every_interface(host: Seq<char>, port: Seq<char>)
    requires
        port.len() > 0,
        forall|k: int| 0 <= k < port.len() ==> #[trigger] port[k] != ':',
    ensures
        listen_text(seq![':'] + port) == Some("0.0.0.0:"@ + port),
        host.len() > 0 && host[0] != ':' ==> listen_text(host + seq![':'] + port) == Some(
            host + seq![':'] + port,
        ),
        listen_text(seq![':']) is None,
        listen_text(seq![':', ':'] + port) is None,
{
    assert((seq![':'] + port).drop_first() =~= port);
    assert(seq![':'].drop_first() =~= Seq::<char>::empty());
    assert((seq![':', ':'] + port).drop_first()[0] == ':');
    assert(host.len() > 0 ==> (host + seq![':'] + port)[0] == host[0]);
}

/// No host name is longer than two hundred and fifty-three characters, none begins or ends
/// with a dot, no two dots meet in one, and there is nothing in it but lowercase letters,
/// digits, hyphens and dots.
pub proof fn law_host_names(host: Seq<char>, i: int)
    requires
        valid_host(host),
        0 <= i < host.len(),
    ensures
        host.len() <= 253,
        host[i] == '.' ==> 0 < i < host.len() - 1 && host[i + 1] != '.',
        host[i] == '.' || host[i] == '-' || 'a' <= host[i] <= 'z' || '0' <= host[i] <= '9',
{
    if host[i] == '.' {
        if i == 0 {
            assert(is_label_at(host, 0, 0));
            assert(host.subrange(0, 0).len() == 0);
        }
        if i == host.len() - 1 || host[i + 1] == '.' {
            assert(is_label_at(host, i + 1, i + 1));
            assert(host.subrange(i + 1, i + 1).len() == 0);
        }
    } else {
        let from = lemma_label_start(host, i);
        let to = lemma_label_end(host, i);
        assert(is_label_at(host, from, to));
        let label = host.subrange(from, to);
        assert(label[i - from] == host[i]);
    }
}

} // verus!
