//! Where the provider is reached, and what is sent with each request.

use vstd::prelude::*;
use vstd::string::*;

verus! {

/// The address of the token endpoint, to which a refresh is posted.
pub open spec fn token_url() -> Seq<char> {
    "https://console.anthropic.com/v1/oauth/token"@
}

/// The address of the usage endpoint.
pub open spec fn usage_url() -> Seq<char> {
    "https://api.anthropic.com/api/oauth/usage"@
}

/// The address of the profile endpoint.
pub open spec fn profile_url() -> Seq<char> {
    "https://api.anthropic.com/api/oauth/profile"@
}

/// The API endpoints that a fetch can call.
#[derive(Clone, Copy, Debug, PartialEq, Eq, Structural)]
pub enum Endpoint {
    Usage,
    Profile,
}

/// A header of a request: its name and its value.
#[derive(Debug, Clone, PartialEq, Eq)]
pub struct Header {
    pub name: String,
    pub value: String,
}

/// The two headers of a call to an API endpoint: the bearer token and the
/// header that opts in to the OAuth feature.
pub open spec fn api_header_texts(token: Seq<char>) -> Seq<(Seq<char>, Seq<char>)> {
    seq![
        ("Authorization"@, "Bearer "@ + token),
        ("anthropic-beta"@, "oauth-2025-04-20"@),
    ]
}

/// The fields of the form that a refresh posts.
pub open spec fn refresh_form_texts(refresh_token: Seq<char>) -> Seq<(Seq<char>, Seq<char>)> {
    seq![("grant_type"@, "refresh_token"@), ("refresh_token"@, refresh_token)]
}

/// The names and values of a list of headers.
pub open spec fn header_texts(headers: Seq<Header>) -> Seq<(Seq<char>, Seq<char>)> {
    headers.map_values(|h: Header| (h.name@, h.value@))
}

impl Endpoint {
    /// The address of this endpoint.
    pub open spec fn address(self) -> Seq<char> {
        match self {
            Endpoint::Usage => usage_url(),
            Endpoint::Profile => profile_url(),
        }
    }

    /// Returns the address of this endpoint.
    pub fn url(self) -> (url: String)
        ensures
            url@ == self.address(),
    {
        match self {
            Endpoint::Usage => String::from_str("https://api.anthropic.com/api/oauth/usage"),
            Endpoint::Profile => String::from_str("https://api.anthropic.com/api/oauth/profile"),
        }
    }
}

/// Returns the address of the token endpoint.
pub fn token_endpoint() -> (url: String)
    ensures
        url@ == token_url(),
{
    String::from_str("https://console.anthropic.com/v1/oauth/token")
}

/// Builds the headers of a call to an API endpoint with this access token.
pub fn api_headers(token: &str) -> (headers: Vec<Header>)
    ensures
        header_texts(headers@) == api_header_texts(token@),
{
    let mut headers: Vec<Header> = Vec::new();
    headers.push(
        Header {
            name: String::from_str("Authorization"),
            value: String::from_str("Bearer ").concat(token),
        },
    );
    headers.push(
        Header {
            name: String::from_str("anthropic-beta"),
            value: String::from_str("oauth-2025-04-20"),
        },
    );
    assert(header_texts(headers@) =~= api_header_texts(token@));
    headers
}

/// Builds the fields of the form that a refresh posts, url-encoded by the
/// sender.
pub fn refresh_form(refresh_token: String) -> (fields: Vec<Header>)
    ensures
        header_texts(fields@) == refresh_form_texts(refresh_token@),
{
    let mut fields: Vec<Header> = Vec::new();
    fields.push(
        Header { name: String::from_str("grant_type"), value: String::from_str("refresh_token") },
    );
    fields.push(Header { name: String::from_str("refresh_token"), value: refresh_token });
    assert(header_texts(fields@) =~= refresh_form_texts(refresh_token@));
    fields
}

} // verus!
