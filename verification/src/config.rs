use vstd::prelude::*;

verus! {

/// Spec-level image of an optional string.
pub open spec fn opt_str_view(s: Option<String>) -> Option<Seq<char>> {
    match s {
        Some(x) => Some(x@),
        None => None,
    }
}

/// Process-wide OAuth2 client configuration: built once at startup and read
/// by every component, never mutated.
pub struct ClientConfig {
    pub client_id: String,
    pub client_secret: String,
    pub auth_endpoint: String,
    pub token_endpoint: String,
    pub revocation_endpoint: Option<String>,
    pub redirect_uri: String,
    pub scope: Option<String>,
}

pub ghost struct ClientConfigView {
    pub client_id: Seq<char>,
    pub client_secret: Seq<char>,
    pub auth_endpoint: Seq<char>,
    pub token_endpoint: Seq<char>,
    pub revocation_endpoint: Option<Seq<char>>,
    pub redirect_uri: Seq<char>,
    pub scope: Option<Seq<char>>,
}

impl View for ClientConfig {
    type V = ClientConfigView;

    open spec fn view(&self) -> ClientConfigView {
        ClientConfigView {
            client_id: self.client_id@,
            client_secret: self.client_secret@,
            auth_endpoint: self.auth_endpoint@,
            token_endpoint: self.token_endpoint@,
            revocation_endpoint: opt_str_view(self.revocation_endpoint),
            redirect_uri: self.redirect_uri@,
            scope: opt_str_view(self.scope),
        }
    }
}

pub open spec fn opt_ascii(s: Option<Seq<char>>) -> bool {
    s matches Some(x) ==> vstd::utf8::is_ascii_chars(x)
}

impl ClientConfig {
    /// URIs are defined over ASCII, and every field of the configuration
    /// travels inside one, so a well-formed configuration is ASCII throughout.
    pub open spec fn wf(&self) -> bool {
        &&& vstd::utf8::is_ascii_chars(self@.client_id)
        &&& vstd::utf8::is_ascii_chars(self@.client_secret)
        &&& vstd::utf8::is_ascii_chars(self@.auth_endpoint)
        &&& vstd::utf8::is_ascii_chars(self@.token_endpoint)
        &&& opt_ascii(self@.revocation_endpoint)
        &&& vstd::utf8::is_ascii_chars(self@.redirect_uri)
        &&& opt_ascii(self@.scope)
    }

    /// Builds a configuration, accepting exactly the ASCII inputs.
    pub fn new(
        client_id: String,
        client_secret: String,
        auth_endpoint: String,
        token_endpoint: String,
        revocation_endpoint: Option<String>,
        redirect_uri: String,
        scope: Option<String>,
    ) -> (r: Option<ClientConfig>)
        ensures
            r is Some <==> ({
                &&& vstd::utf8::is_ascii_chars(client_id@)
                &&& vstd::utf8::is_ascii_chars(client_secret@)
                &&& vstd::utf8::is_ascii_chars(auth_endpoint@)
                &&& vstd::utf8::is_ascii_chars(token_endpoint@)
                &&& opt_ascii(opt_str_view(revocation_endpoint))
                &&& vstd::utf8::is_ascii_chars(redirect_uri@)
                &&& opt_ascii(opt_str_view(scope))
            }),
            r matches Some(c) ==> c.wf() && c@ == (ClientConfigView {
                client_id: client_id@,
                client_secret: client_secret@,
                auth_endpoint: auth_endpoint@,
                token_endpoint: token_endpoint@,
                revocation_endpoint: opt_str_view(revocation_endpoint),
                redirect_uri: redirect_uri@,
                scope: opt_str_view(scope),
            }),
    {
        let rev_ok = match &revocation_endpoint {
            Some(s) => s.as_str().is_ascii(),
            None => true,
        };
        let scope_ok = match &scope {
            Some(s) => s.as_str().is_ascii(),
            None => true,
        };
        if client_id.as_str().is_ascii() && client_secret.as_str().is_ascii()
            && auth_endpoint.as_str().is_ascii() && token_endpoint.as_str().is_ascii() && rev_ok
            && redirect_uri.as_str().is_ascii() && scope_ok {
            Some(
                ClientConfig {
                    client_id,
                    client_secret,
                    auth_endpoint,
                    token_endpoint,
                    revocation_endpoint,
                    redirect_uri,
                    scope,
                },
            )
        } else {
            None
        }
    }
}

} // verus!
