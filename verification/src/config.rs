//! The configuration a client carries: base URL, credentials, and the
//! header set derived from them.

use vstd::prelude::*;
use vstd::string::StringExecFns;

verus! {

broadcast use vstd::std_specs::vec::group_vec_axioms, vstd::seq::group_seq_axioms;

/// One HTTP header.
pub struct Header {
    pub name: String,
    pub value: String,
}

pub ghost struct HeaderV {
    pub name: Seq<char>,
    pub value: Seq<char>,
}

impl View for Header {
    type V = HeaderV;

    open spec fn view(&self) -> HeaderV {
        HeaderV { name: self.name@, value: self.value@ }
    }
}

/// The views of a header list, element by element.
pub open spec fn headers_view(headers: Seq<Header>) -> Seq<HeaderV>
    decreases headers,
{
    if headers.len() == 0 {
        Seq::empty()
    } else {
        seq![headers[0]@] + headers_view(headers.drop_first())
    }
}

/// The base URL every resource path is joined against by default.
pub open spec fn spec_default_url() -> Seq<char> {
    "https://api.openai.com/v1/"@
}

/// The value of the authorization header for an API key.
pub open spec fn spec_bearer(key: Seq<char>) -> Seq<char> {
    "Bearer "@ + key
}

/// The header set a configuration gives rise to: an authorization header
/// exactly when an API key is set, an organization header exactly when an
/// organization is set.  A pure function of the two strings.
pub open spec fn spec_derived_headers(key: Seq<char>, org: Seq<char>) -> Seq<HeaderV> {
    (if key.len() > 0 {
        seq![HeaderV { name: "Authorization"@, value: spec_bearer(key) }]
    } else {
        Seq::empty()
    }) + (if org.len() > 0 {
        seq![HeaderV { name: "OpenAI-Organization"@, value: org }]
    } else {
        Seq::empty()
    })
}

/// Deriving headers is a pure function: equal credentials give equal
/// header sets, however often and wherever the derivation runs.
pub proof fn lemma_headers_derivation_pure(k1: Seq<char>, o1: Seq<char>, k2: Seq<char>, o2: Seq<char>)
    requires
        k1 == k2,
        o1 == o2,
    ensures
        spec_derived_headers(k1, o1) == spec_derived_headers(k2, o2),
{
}

/// Builds the header set of a configuration.
pub fn derived_headers(api_key: &str, organization: &str) -> (r: Vec<Header>)
    ensures
        headers_view(r@) == spec_derived_headers(api_key@, organization@),
{
    let mut hs: Vec<Header> = Vec::new();
    if !api_key.is_empty() {
        let value = String::from_str("Bearer ").concat(api_key);
        hs.push(Header { name: String::from_str("Authorization"), value });
    }
    if !organization.is_empty() {
        hs.push(
            Header {
                name: String::from_str("OpenAI-Organization"),
                value: String::from_str(organization),
            },
        );
    }
    proof {
        assert(api_key@.len() == 0 ==> api_key@ =~= Seq::<char>::empty());
        assert(organization@.len() == 0 ==> organization@ =~= Seq::<char>::empty());
        lemma_headers_view_elts(hs@);
        assert(headers_view(hs@) =~= spec_derived_headers(api_key@, organization@));
    }
    hs
}

pub proof fn lemma_headers_view_elts(headers: Seq<Header>)
    ensures
        headers_view(headers).len() == headers.len(),
        forall|i: int| 0 <= i < headers.len() ==> headers_view(headers)[i] == headers[i]@,
    decreases headers.len(),
{
    if headers.len() > 0 {
        lemma_headers_view_elts(headers.drop_first());
        assert(headers_view(headers) == seq![headers[0]@] + headers_view(headers.drop_first()));
        assert forall|i: int| 0 <= i < headers.len() implies headers_view(headers)[i]
            == headers[i]@ by {
            if i > 0 {
                assert(headers_view(headers)[i] == headers_view(headers.drop_first())[i - 1]);
                assert(headers.drop_first()[i - 1] == headers[i]);
            }
        }
    }
}

/// What a client needs to reach the API: credentials, the base URL, and
/// the headers sent with each request.
pub struct Config {
    pub api_key: String,
    pub url: String,
    pub organization: String,
    /// Headers used with each request.
    pub headers: Vec<Header>,
}

pub ghost struct ConfigV {
    pub api_key: Seq<char>,
    pub url: Seq<char>,
    pub organization: Seq<char>,
    pub headers: Seq<HeaderV>,
}

impl View for Config {
    type V = ConfigV;

    open spec fn view(&self) -> ConfigV {
        ConfigV {
            api_key: self.api_key@,
            url: self.url@,
            organization: self.organization@,
            headers: headers_view(self.headers@),
        }
    }
}

impl Default for Config {
    /// No credentials, the default base URL, and the header set those
    /// credentials give rise to — none.
    fn default() -> (r: Config)
        ensures
            r@.api_key == Seq::<char>::empty(),
            r@.url == spec_default_url(),
            r@.organization == Seq::<char>::empty(),
            r.wf(),
    {
        Config::new(String::new())
    }
}

impl Config {
    /// A configuration's headers are exactly those its credentials give
    /// rise to.  Every constructor establishes this and every client
    /// operation preserves it.
    pub open spec fn wf(self) -> bool {
        self@.headers == spec_derived_headers(self@.api_key, self@.organization)
    }

    /// A configuration for the given API key, with the default base URL
    /// and no organization.
    pub fn new(api_key: String) -> (r: Config)
        ensures
            r@.api_key == api_key@,
            r@.url == spec_default_url(),
            r@.organization == Seq::<char>::empty(),
            r.wf(),
    {
        let headers = derived_headers(api_key.as_str(), "");
        proof {
            reveal_strlit("");
            assert(""@ =~= Seq::<char>::empty());
        }
        Config {
            headers,
            api_key,
            url: String::from_str("https://api.openai.com/v1/"),
            organization: String::new(),
        }
    }

    /// Replaces the header set wholesale.
    pub fn headers(self, headers: Vec<Header>) -> (r: Config)
        ensures
            r@.headers == headers_view(headers@),
            r@.api_key == self@.api_key,
            r@.url == self@.url,
            r@.organization == self@.organization,
    {
        Config { headers, ..self }
    }
}

} // verus!
