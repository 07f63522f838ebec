//! The address of the target service and the client that talks to it.
use vstd::prelude::*;
use elasticsearch::http::transport::Transport;
use elasticsearch::Elasticsearch;

verus! {

#[verifier::external_type_specification]
#[verifier::external_body]
pub struct ExElasticsearch(Elasticsearch);

#[verifier::external_type_specification]
#[verifier::external_body]
pub struct ExTransport(Transport);

#[verifier::external_type_specification]
#[verifier::external_body]
pub struct ExEsError(elasticsearch::Error);

/// Why a client could not be built.
#[derive(Debug, Clone, Copy, PartialEq, Eq, Structural)]
pub enum ClientError {
    /// The address is not a URL that the transport accepts.
    InvalidAddress,
}

/// The prefix put in front of an address that names no scheme.
pub open spec fn http_prefix() -> Seq<char> {
    seq!['h', 't', 't', 'p', ':', '/', '/']
}

/// A letter of the ASCII alphabet.
pub open spec fn is_ascii_letter(c: char) -> bool {
    ('a' <= c && c <= 'z') || ('A' <= c && c <= 'Z')
}

/// A character that may follow the first letter of a URL scheme.
pub open spec fn is_scheme_char(c: char) -> bool {
    is_ascii_letter(c) || ('0' <= c && c <= '9') || c == '+' || c == '-' || c == '.'
}

/// `s` starts with a scheme of `i` characters followed by `://`.
pub open spec fn scheme_ends_at(s: Seq<char>, i: int) -> bool {
    &&& 1 <= i
    &&& i + 3 <= s.len()
    &&& is_ascii_letter(s[0])
    &&& forall|j: int| 0 <= j < i ==> is_scheme_char(#[trigger] s[j])
    &&& s[i] == ':'
    &&& s[i + 1] == '/'
    &&& s[i + 2] == '/'
}

/// `s` names its scheme explicitly, as in `https://host:9200`.
pub open spec fn has_scheme(s: Seq<char>) -> bool {
    exists|i: int| scheme_ends_at(s, i)
}

/// The address a client is built for: `s` itself when it names a scheme,
/// else `s` as a plain host reached over `http://`.
pub open spec fn endpoint_of(s: Seq<char>) -> Seq<char> {
    if has_scheme(s) {
        s
    } else {
        http_prefix() + s
    }
}

/// Relies on elasticsearch's `Transport::single_node`: a transport to the one
/// node at `url`, or an error where `url` does not parse as a URL or the
/// HTTP client cannot be built.
#[verifier::external_body]
fn single_node_transport(url: &str) -> (r: Result<Transport, elasticsearch::Error>) {
    Transport::single_node(url)
}

/// Relies on elasticsearch's `Elasticsearch::new`: a client over the given
/// transport.
#[verifier::external_body]
fn client_over(transport: Transport) -> (r: Elasticsearch) {
    Elasticsearch::new(transport)
}

/// Whether `url` starts with an explicit scheme followed by `://`.
pub fn url_has_scheme(url: &str) -> (r: bool)
    ensures
        r == has_scheme(url@),
{
    let n = url.unicode_len();
    let mut i: usize = 0;
    while i < n && is_scheme_character(url.get_char(i))
        invariant
            n == url@.len(),
            i <= n,
            forall|j: int| 0 <= j < i ==> is_scheme_char(#[trigger] url@[j]),
        decreases n - i,
    {
        i = i + 1;
    }
    if i == 0 || n - i < 3 {
        proof {
            if has_scheme(url@) {
                let w = choose|w: int| scheme_ends_at(url@, w);
                assert(is_scheme_char(url@[0]));
                if i > 0 {
                    assert(w <= i) by {
                        if w > i {
                            assert(is_scheme_char(url@[i as int]));
                        }
                    }
                    assert(w >= i) by {
                        if w < i {
                            assert(is_scheme_char(url@[w]));
                        }
                    }
                }
            }
        }
        return false;
    }
    let first_ok = is_letter(url.get_char(0));
    let a = url.get_char(i);
    let b = url.get_char(i + 1);
    let c = url.get_char(i + 2);
    let r = first_ok && a == ':' && b == '/' && c == '/';
    proof {
        if r {
            assert(scheme_ends_at(url@, i as int));
        }
        if has_scheme(url@) {
            let w = choose|w: int| scheme_ends_at(url@, w);
            assert(w <= i) by {
                if w > i {
                    assert(is_scheme_char(url@[i as int]));
                }
            }
            assert(w >= i) by {
                if w < i {
                    assert(is_scheme_char(url@[w]));
                }
            }
        }
    }
    r
}

fn is_letter(c: char) -> (r: bool)
    ensures
        r == is_ascii_letter(c),
{
    ('a' <= c && c <= 'z') || ('A' <= c && c <= 'Z')
}

fn is_scheme_character(c: char) -> (r: bool)
    ensures
        r == is_scheme_char(c),
{
    is_letter(c) || ('0' <= c && c <= '9') || c == '+' || c == '-' || c == '.'
}

/// The address a client for `url` is built for: `url` unchanged when it
/// names a scheme, else `url` prefixed with `http://`.
pub fn normalize_url(url: &str) -> (r: String)
    ensures
        r@ == endpoint_of(url@),
{
    if url_has_scheme(url) {
        url.to_owned()
    } else {
        proof {
            reveal_strlit("http://");
        }
        let prefix = "http://".to_owned();
        assert(prefix@ == http_prefix());
        prefix.concat(url)
    }
}

/// A client for the service at `url`, addressed as `normalize_url` gives.
/// Fails where the transport refuses that address.
pub fn get_client(url: &str) -> (r: Result<Elasticsearch, ClientError>)
    ensures
        r matches Err(e) ==> e == ClientError::InvalidAddress,
{
    let address = normalize_url(url);
    match single_node_transport(address.as_str()) {
        Ok(transport) => Ok(client_over(transport)),
        Err(_) => Err(ClientError::InvalidAddress),
    }
}

} // verus!
