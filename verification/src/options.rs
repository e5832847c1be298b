//! Options for the transport of a client.

use std::time::Duration;
use vstd::prelude::*;
use vstd::string::StringExecFns;

verus! {

/// A text that must not show up in logs, such as an API key.
pub struct SecretString(String);

impl View for SecretString {
    type V = Seq<char>;

    closed spec fn view(&self) -> Seq<char> {
        self.0@
    }
}

impl SecretString {
    /// Wraps a secret.
    pub fn new(s: String) -> (r: Self)
        ensures
            r@ == s@,
    {
        Self(s)
    }

    /// The secret itself.
    pub fn expose_secret(&self) -> (r: &str)
        ensures
            r@ == self@,
    {
        self.0.as_str()
    }

    /// What stands for the secret where it would be printed.
    pub fn redacted(&self) -> (r: String)
        ensures
            r@ == "SecretString([REDACTED])"@,
    {
        String::from_str("SecretString([REDACTED])")
    }
}

impl Clone for SecretString {
    fn clone(&self) -> (r: Self)
        ensures
            r@ == self@,
    {
        SecretString(self.0.clone())
    }
}

impl vstd::std_specs::convert::FromSpecImpl<String> for SecretString {
    open spec fn obeys_from_spec() -> bool {
        true
    }

    closed spec fn from_spec(s: String) -> Self {
        SecretString(s)
    }
}

impl<'a> vstd::std_specs::convert::FromSpecImpl<&'a str> for SecretString {
    open spec fn obeys_from_spec() -> bool {
        false
    }

    closed spec fn from_spec(s: &'a str) -> Self {
        arbitrary()
    }
}

impl From<String> for SecretString {
    fn from(s: String) -> (r: Self)
        ensures
            r@ == s@,
    {
        SecretString(s)
    }
}

impl<'a> From<&'a str> for SecretString {
    fn from(s: &'a str) -> (r: Self)
        ensures
            r@ == s@,
    {
        Self::new(String::from_str(s))
    }
}

/// One additional header of a request.
#[derive(Debug)]
pub struct Header {
    pub name: String,
    pub value: String,
}

impl Clone for Header {
    fn clone(&self) -> (r: Self)
        ensures
            r.name@ == self.name@,
            r.value@ == self.value@,
    {
        Header { name: self.name.clone(), value: self.value.clone() }
    }
}

/// The headers as a map from name to value. Where a name occurs twice, the
/// later value counts.
pub open spec fn header_map(headers: Seq<Header>) -> Map<Seq<char>, Seq<char>>
    decreases headers.len(),
{
    if headers.len() == 0 {
        Map::empty()
    } else {
        header_map(headers.drop_last()).insert(headers.last().name@, headers.last().value@)
    }
}

/// No name occurs twice.
pub open spec fn distinct_names(headers: Seq<Header>) -> bool {
    forall|i: int, j: int|
        0 <= i < j < headers.len() ==> (#[trigger] headers[i]).name@ != (#[trigger] headers[j]).name@
}

/// The map of optional headers: empty where there are none.
pub open spec fn headers_view(headers: Option<Headers>) -> Map<Seq<char>, Seq<char>> {
    match headers {
        Some(h) => h@,
        None => Map::empty(),
    }
}

proof fn lemma_replace(headers: Seq<Header>, i: int, header: Header)
    requires
        distinct_names(headers),
        0 <= i < headers.len(),
        headers[i].name@ == header.name@,
    ensures
        header_map(headers.update(i, header)) == header_map(headers).insert(
            header.name@,
            header.value@,
        ),
        distinct_names(headers.update(i, header)),
    decreases headers.len(),
{
    let updated = headers.update(i, header);
    if i == headers.len() - 1 {
        assert(updated.drop_last() =~= headers.drop_last());
        assert(header_map(updated) =~= header_map(headers).insert(header.name@, header.value@));
    } else {
        lemma_replace(headers.drop_last(), i, header);
        assert(updated.drop_last() =~= headers.drop_last().update(i, header));
        assert(headers[i].name@ != headers.last().name@);
        assert(header_map(updated) =~= header_map(headers).insert(header.name@, header.value@));
    }
}

/// Sets a header in a list without repeated names: the value of the name
/// is replaced where the name is there, and the header is added where it
/// is not.
fn set_header(headers: &mut Vec<Header>, name: String, value: String)
    requires
        distinct_names(old(headers)@),
    ensures
        distinct_names(final(headers)@),
        header_map(final(headers)@) == header_map(old(headers)@).insert(name@, value@),
{
    let mut i: usize = 0;
    while i < headers.len()
        invariant
            i <= headers.len(),
            *headers == *old(headers),
            distinct_names(headers@),
            forall|j: int| 0 <= j < i ==> headers[j].name@ != name@,
        decreases headers.len() - i,
    {
        if headers[i].name == name {
            let header = Header { name, value };
            proof {
                lemma_replace(headers@, i as int, header);
            }
            headers[i] = header;
            return ;
        }
        i += 1;
    }
    let header = Header { name, value };
    headers.push(header);
    assert(headers@.drop_last() =~= old(headers)@);
}

/// Additional headers of a request, each name once.
pub struct Headers {
    entries: Vec<Header>,
}

impl View for Headers {
    type V = Map<Seq<char>, Seq<char>>;

    closed spec fn view(&self) -> Map<Seq<char>, Seq<char>> {
        header_map(self.entries@)
    }
}

impl Headers {
    #[verifier::type_invariant]
    spec fn names_once(self) -> bool {
        distinct_names(self.entries@)
    }

    /// No headers.
    pub fn new() -> (r: Headers)
        ensures
            r@ == Map::<Seq<char>, Seq<char>>::empty(),
    {
        Headers { entries: Vec::new() }
    }

    /// The headers of a list. Where a name occurs twice in the list, the
    /// later value counts.
    pub fn from_list(list: Vec<Header>) -> (r: Headers)
        ensures
            r@ == header_map(list@),
    {
        let mut kept: Vec<Header> = Vec::new();
        let mut i: usize = 0;
        while i < list.len()
            invariant
                i <= list.len(),
                distinct_names(kept@),
                header_map(kept@) == header_map(list@.take(i as int)),
            decreases list.len() - i,
        {
            assert(list@.take(i + 1).drop_last() =~= list@.take(i as int));
            set_header(&mut kept, list[i].name.clone(), list[i].value.clone());
            i += 1;
        }
        assert(list@.take(i as int) =~= list@);
        Headers { entries: kept }
    }

    /// The headers with one more. A header of the same name is replaced.
    pub fn with(self, name: String, value: String) -> (r: Headers)
        ensures
            r@ == self@.insert(name@, value@),
    {
        proof {
            use_type_invariant(&self);
        }
        let mut entries = self.entries;
        set_header(&mut entries, name, value);
        Headers { entries }
    }

    /// The headers as a list, each name once.
    pub fn entries(&self) -> (r: &Vec<Header>)
        ensures
            distinct_names(r@),
            header_map(r@) == self@,
    {
        proof {
            use_type_invariant(self);
        }
        &self.entries
    }
}

/// Generic transport options with provider-specific configuration.
pub struct TransportOptions<T> {
    /// How long a request may take.
    pub timeout: Option<Duration>,
    pub provider: T,
}

impl<T> TransportOptions<T> {
    /// Options without a timeout.
    pub fn new(provider: T) -> (r: Self)
        ensures
            r.timeout is None,
            r.provider == provider,
    {
        Self { timeout: None, provider }
    }

    /// The options with a timeout.
    pub fn with_timeout(self, timeout: Duration) -> (r: Self)
        ensures
            r.timeout == Some(timeout),
            r.provider == self.provider,
    {
        let mut r = self;
        r.timeout = Some(timeout);
        r
    }
}

/// Options of a transport over HTTP.
pub struct HttpTransport {
    pub api_key: Option<SecretString>,
    pub base_url: Option<String>,
    pub proxy: Option<String>,
    /// Additional headers.
    pub extra_headers: Option<Headers>,
}

impl HttpTransport {
    /// The additional headers, as a map from name to value.
    pub open spec fn headers(self) -> Map<Seq<char>, Seq<char>> {
        headers_view(self.extra_headers)
    }

    /// Options with an API key and nothing else.
    pub fn new(api_key: SecretString) -> (r: Self)
        ensures
            r.api_key == Some(api_key),
            r.base_url is None,
            r.proxy is None,
            r.extra_headers is None,
    {
        Self { api_key: Some(api_key), base_url: None, proxy: None, extra_headers: None }
    }

    /// The options with a base URL.
    pub fn with_base_url(self, base_url: String) -> (r: Self)
        ensures
            r.base_url == Some(base_url),
            r.api_key == self.api_key,
            r.proxy == self.proxy,
            r.extra_headers == self.extra_headers,
    {
        let mut r = self;
        r.base_url = Some(base_url);
        r
    }

    /// The options with a proxy URL.
    pub fn with_proxy(self, proxy: String) -> (r: Self)
        ensures
            r.proxy == Some(proxy),
            r.api_key == self.api_key,
            r.base_url == self.base_url,
            r.extra_headers == self.extra_headers,
    {
        let mut r = self;
        r.proxy = Some(proxy);
        r
    }

    /// The options with these additional headers in place of any it had.
    pub fn with_extra_headers(self, headers: Headers) -> (r: Self)
        ensures
            r.extra_headers == Some(headers),
            r.api_key == self.api_key,
            r.base_url == self.base_url,
            r.proxy == self.proxy,
    {
        let mut r = self;
        r.extra_headers = Some(headers);
        r
    }

    /// The options with one more additional header. A header of the same
    /// name is replaced.
    pub fn with_header(self, key: String, value: String) -> (r: Self)
        ensures
            r.extra_headers is Some,
            r.headers() == self.headers().insert(key@, value@),
            r.api_key == self.api_key,
            r.base_url == self.base_url,
            r.proxy == self.proxy,
    {
        let mut r = self;
        let headers = match r.extra_headers {
            Some(h) => h,
            None => Headers::new(),
        };
        r.extra_headers = Some(headers.with(key, value));
        r
    }
}

impl Default for HttpTransport {
    fn default() -> (r: Self)
        ensures
            r.api_key is None,
            r.base_url is None,
            r.proxy is None,
            r.extra_headers is None,
    {
        Self { api_key: None, base_url: None, proxy: None, extra_headers: None }
    }
}

/// Provider options of a model that takes none.
#[derive(Debug, Clone, Copy, PartialEq, Eq, Structural)]
pub struct OpenAiModel {}

impl Default for OpenAiModel {
    fn default() -> (r: Self)
        ensures
            r == (OpenAiModel {  }),
    {
        OpenAiModel {  }
    }
}

impl crate::api::openai::OpenAiCompatibleModel for OpenAiModel {

}

/// Provider options of a model that takes none.
#[derive(Debug, Clone, Copy, PartialEq, Eq, Structural)]
pub struct GeminiModel {}

impl Default for GeminiModel {
    fn default() -> (r: Self)
        ensures
            r == (GeminiModel {  }),
    {
        GeminiModel {  }
    }
}

} // verus!
