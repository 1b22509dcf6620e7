//! The client: an origin, and the request URL of each operation.

use crate::encoding::{encoded, is_reserved_char, lemma_encoded_has_no_reserved, percent_encode};
use crate::url::{
    compose_url, is_origin, is_path, join_params, lemma_url_composition, param_views, url_of,
    QueryParam,
};
use vstd::prelude::*;
use vstd::string::*;
use vstd::utf8::*;

verus! {

/// The URL that asks for an application token.
pub open spec fn app_token_url(
    base: Seq<char>,
    app_id: Seq<char>,
    client_secret: Seq<char>,
) -> Seq<char> {
    url_of(
        base,
        "/oauth/access_token"@,
        seq![
            ("client_id"@, app_id),
            ("client_secret"@, client_secret),
            ("grant_type"@, "client_credentials"@),
        ],
    )
}

/// The URL that exchanges an authorization code for a user token. The
/// redirect URI and the code are percent-encoded; the credentials are not.
pub open spec fn user_token_url(
    base: Seq<char>,
    client_id: Seq<char>,
    client_secret: Seq<char>,
    redirect_uri: Seq<char>,
    code: Seq<char>,
) -> Seq<char> {
    url_of(
        base,
        "/oauth/access_token"@,
        seq![
            ("client_id"@, client_id),
            ("redirect_uri"@, encoded(redirect_uri)),
            ("client_secret"@, client_secret),
            ("code"@, encoded(code)),
        ],
    )
}

/// The URL that introspects a user token with an application token.
pub open spec fn introspection_url(
    base: Seq<char>,
    user_access_token: Seq<char>,
    app_access_token: Seq<char>,
) -> Seq<char> {
    url_of(
        base,
        "/debug_token"@,
        seq![("input_token"@, user_access_token), ("access_token"@, app_access_token)],
    )
}

/// The URL that fetches the profile behind a user token.
pub open spec fn profile_url(base: Seq<char>, access_token: Seq<char>) -> Seq<char> {
    url_of(
        base,
        "/v8.0/me"@,
        seq![("fields"@, "id%2Cname%2Cemail"@), ("access_token"@, access_token)],
    )
}

/// The configuration of a client: the origin that requests go to. It holds
/// no other state, and no operation changes it.
#[derive(Debug, Clone)]
pub struct Client {
    pub server_url: String,
}

impl Default for Client {
    /// A client of the production origin.
    fn default() -> (client: Client)
        ensures
            client.server_url@ == "https://graph.facebook.com"@,
            client.well_formed(),
    {
        proof {
            reveal_strlit("https://graph.facebook.com");
        }
        Client { server_url: "https://graph.facebook.com".to_owned() }
    }
}

impl Client {
    /// A client of the given origin, which is taken as it is: whether it is
    /// well formed is for the caller to see to.
    pub fn new(server_url: String) -> (client: Client)
        ensures
            client.server_url == server_url,
    {
        Client { server_url }
    }

    /// The origin is well formed when it does not end in a slash.
    pub open spec fn well_formed(&self) -> bool {
        is_origin(self.server_url@)
    }

    /// The request URL for an application token.
    pub fn app_access_token_url(&self, app_id: &str, client_secret: &str) -> (url: String)
        ensures
            url@ == app_token_url(self.server_url@, app_id@, client_secret@),
    {
        let mut params: Vec<QueryParam> = Vec::new();
        params.push(QueryParam::new("client_id", app_id));
        params.push(QueryParam::new("client_secret", client_secret));
        params.push(QueryParam::new("grant_type", "client_credentials"));
        proof {
            assert(param_views(params@) =~= seq![
                ("client_id"@, app_id@),
                ("client_secret"@, client_secret@),
                ("grant_type"@, "client_credentials"@),
            ]);
        }
        compose_url(self.server_url.as_str(), "/oauth/access_token", &params)
    }

    /// The request URL that exchanges `code` for a user token. In the values
    /// of `redirect_uri` and `code` no reserved character is left raw.
    pub fn access_token_url(
        &self,
        client_id: &str,
        client_secret: &str,
        redirect_uri: &str,
        code: &str,
    ) -> (url: String)
        ensures
            url@ == user_token_url(
                self.server_url@,
                client_id@,
                client_secret@,
                redirect_uri@,
                code@,
            ),
            forall|i: int|
                0 <= i < encoded(redirect_uri@).len() ==> !is_reserved_char(
                    #[trigger] encoded(redirect_uri@)[i],
                ),
            forall|i: int|
                0 <= i < encoded(code@).len() ==> !is_reserved_char(#[trigger] encoded(code@)[i]),
    {
        let code = percent_encode(code);
        let redirect_uri = percent_encode(redirect_uri);
        let mut params: Vec<QueryParam> = Vec::new();
        params.push(QueryParam::new("client_id", client_id));
        params.push(QueryParam::new("redirect_uri", redirect_uri.as_str()));
        params.push(QueryParam::new("client_secret", client_secret));
        params.push(QueryParam::new("code", code.as_str()));
        proof {
            assert(param_views(params@) =~= seq![
                ("client_id"@, client_id@),
                ("redirect_uri"@, redirect_uri@),
                ("client_secret"@, client_secret@),
                ("code"@, code@),
            ]);
        }
        compose_url(self.server_url.as_str(), "/oauth/access_token", &params)
    }

    /// The request URL that introspects `user_access_token`.
    pub fn check_access_token_url(&self, user_access_token: &str, app_access_token: &str) -> (url:
        String)
        ensures
            url@ == introspection_url(self.server_url@, user_access_token@, app_access_token@),
    {
        let mut params: Vec<QueryParam> = Vec::new();
        params.push(QueryParam::new("input_token", user_access_token));
        params.push(QueryParam::new("access_token", app_access_token));
        proof {
            assert(param_views(params@) =~= seq![
                ("input_token"@, user_access_token@),
                ("access_token"@, app_access_token@),
            ]);
        }
        compose_url(self.server_url.as_str(), "/debug_token", &params)
    }

    /// The request URL that fetches the profile behind `access_token`.
    pub fn user_data_url(&self, access_token: &str) -> (url: String)
        ensures
            url@ == profile_url(self.server_url@, access_token@),
    {
        let mut params: Vec<QueryParam> = Vec::new();
        params.push(QueryParam::new("fields", "id%2Cname%2Cemail"));
        params.push(QueryParam::new("access_token", access_token));
        proof {
            assert(param_views(params@) =~= seq![
                ("fields"@, "id%2Cname%2Cemail"@),
                ("access_token"@, access_token@),
            ]);
        }
        compose_url(self.server_url.as_str(), "/v8.0/me", &params)
    }
}

/// Each endpoint's path begins with exactly one slash.
pub proof fn lemma_endpoint_paths()
    ensures
        is_path("/oauth/access_token"@),
        is_path("/debug_token"@),
        is_path("/v8.0/me"@),
{
    reveal_strlit("/oauth/access_token");
    reveal_strlit("/debug_token");
    reveal_strlit("/v8.0/me");
}

/// `url` continues `base` with a path: the slash that opens the path stands
/// right behind the origin, with no slash before or after it.
pub open spec fn joins_cleanly(base: Seq<char>, url: Seq<char>) -> bool {
    &&& url.len() > base.len() + 1
    &&& url.subrange(0, base.len() as int) == base
    &&& url[base.len() as int] == '/'
    &&& url[base.len() as int + 1] != '/'
    &&& base.len() > 0 ==> url[base.len() - 1] != '/'
}

/// For a client whose origin carries no trailing slash, the URL of every
/// operation is that origin, the operation's path, `?` and its parameters,
/// and origin and path meet in a single slash.
pub proof fn lemma_endpoint_urls_join_cleanly(
    client: Client,
    first: Seq<char>,
    second: Seq<char>,
    redirect_uri: Seq<char>,
    code: Seq<char>,
)
    requires
        client.well_formed(),
    ensures
        joins_cleanly(client.server_url@, app_token_url(client.server_url@, first, second)),
        joins_cleanly(
            client.server_url@,
            user_token_url(client.server_url@, first, second, redirect_uri, code),
        ),
        joins_cleanly(client.server_url@, introspection_url(client.server_url@, first, second)),
        joins_cleanly(client.server_url@, profile_url(client.server_url@, first)),
{
    let base = client.server_url@;
    lemma_endpoint_paths();
    lemma_url_composition(
        base,
        "/oauth/access_token"@,
        seq![
            ("client_id"@, first),
            ("client_secret"@, second),
            ("grant_type"@, "client_credentials"@),
        ],
    );
    lemma_url_composition(
        base,
        "/oauth/access_token"@,
        seq![
            ("client_id"@, first),
            ("redirect_uri"@, encoded(redirect_uri)),
            ("client_secret"@, second),
            ("code"@, encoded(code)),
        ],
    );
    lemma_url_composition(
        base,
        "/debug_token"@,
        seq![("input_token"@, first), ("access_token"@, second)],
    );
    lemma_url_composition(
        base,
        "/v8.0/me"@,
        seq![("fields"@, "id%2Cname%2Cemail"@), ("access_token"@, first)],
    );
}

/// Written out, the application-token URL is the origin followed by
/// `/oauth/access_token?client_id=`, the application id, `&client_secret=`,
/// the secret and `&grant_type=client_credentials`: id and secret stand in
/// it as they were given.
pub proof fn lemma_app_token_url_written_out(
    base: Seq<char>,
    app_id: Seq<char>,
    client_secret: Seq<char>,
)
    ensures
        app_token_url(base, app_id, client_secret) == base + "/oauth/access_token?client_id="@
            + app_id + "&client_secret="@ + client_secret + "&grant_type=client_credentials"@,
{
    reveal_strlit("/oauth/access_token?client_id=");
    reveal_strlit("&client_secret=");
    reveal_strlit("&grant_type=client_credentials");
    reveal_strlit("/oauth/access_token");
    reveal_strlit("client_id");
    reveal_strlit("client_secret");
    reveal_strlit("grant_type");
    reveal_strlit("client_credentials");
    reveal_strlit("?");
    reveal_strlit("=");
    reveal_strlit("&");
    reveal_with_fuel(join_params, 4);
    let params = seq![
        ("client_id"@, app_id),
        ("client_secret"@, client_secret),
        ("grant_type"@, "client_credentials"@),
    ];
    assert(params.drop_last() =~= seq![("client_id"@, app_id), ("client_secret"@, client_secret)]);
    assert(params.drop_last().drop_last() =~= seq![("client_id"@, app_id)]);
    assert(app_token_url(base, app_id, client_secret) =~= base
        + "/oauth/access_token?client_id="@ + app_id + "&client_secret="@ + client_secret
        + "&grant_type=client_credentials"@);
}

/// Written out, the code-exchange URL is the origin followed by
/// `/oauth/access_token?client_id=`, the client id, `&redirect_uri=`, the
/// encoded redirect URI, `&client_secret=`, the secret, `&code=` and the
/// encoded code. Id and secret stand in it as they were given, and neither
/// encoded value holds a reserved character.
pub proof fn lemma_user_token_url_written_out(
    base: Seq<char>,
    client_id: Seq<char>,
    client_secret: Seq<char>,
    redirect_uri: Seq<char>,
    code: Seq<char>,
)
    ensures
        user_token_url(base, client_id, client_secret, redirect_uri, code) == base
            + "/oauth/access_token?client_id="@ + client_id + "&redirect_uri="@ + encoded(
            redirect_uri,
        ) + "&client_secret="@ + client_secret + "&code="@ + encoded(code),
        forall|i: int|
            0 <= i < encoded(redirect_uri).len() ==> !is_reserved_char(
                #[trigger] encoded(redirect_uri)[i],
            ),
        forall|i: int|
            0 <= i < encoded(code).len() ==> !is_reserved_char(#[trigger] encoded(code)[i]),
{
    reveal_strlit("/oauth/access_token?client_id=");
    reveal_strlit("&redirect_uri=");
    reveal_strlit("&client_secret=");
    reveal_strlit("&code=");
    reveal_strlit("/oauth/access_token");
    reveal_strlit("client_id");
    reveal_strlit("redirect_uri");
    reveal_strlit("client_secret");
    reveal_strlit("code");
    reveal_strlit("?");
    reveal_strlit("=");
    reveal_strlit("&");
    reveal_with_fuel(join_params, 5);
    let redirect = encoded(redirect_uri);
    let params = seq![
        ("client_id"@, client_id),
        ("redirect_uri"@, redirect),
        ("client_secret"@, client_secret),
        ("code"@, encoded(code)),
    ];
    let three = seq![
        ("client_id"@, client_id),
        ("redirect_uri"@, redirect),
        ("client_secret"@, client_secret),
    ];
    assert(params.drop_last() =~= three);
    assert(three.drop_last() =~= seq![("client_id"@, client_id), ("redirect_uri"@, redirect)]);
    assert(three.drop_last().drop_last() =~= seq![("client_id"@, client_id)]);
    assert(user_token_url(base, client_id, client_secret, redirect_uri, code) =~= base
        + "/oauth/access_token?client_id="@ + client_id + "&redirect_uri="@ + redirect
        + "&client_secret="@ + client_secret + "&code="@ + encoded(code));
    lemma_encoded_has_no_reserved(encode_utf8(redirect_uri));
    lemma_encoded_has_no_reserved(encode_utf8(code));
}

/// Written out, the introspection URL is the origin followed by
/// `/debug_token?input_token=`, the user token, `&access_token=` and the
/// application token, each token as it was given.
pub proof fn lemma_introspection_url_written_out(
    base: Seq<char>,
    user_access_token: Seq<char>,
    app_access_token: Seq<char>,
)
    ensures
        introspection_url(base, user_access_token, app_access_token) == base
            + "/debug_token?input_token="@ + user_access_token + "&access_token="@
            + app_access_token,
{
    reveal_strlit("/debug_token?input_token=");
    reveal_strlit("&access_token=");
    reveal_strlit("/debug_token");
    reveal_strlit("input_token");
    reveal_strlit("access_token");
    reveal_strlit("?");
    reveal_strlit("=");
    reveal_strlit("&");
    reveal_with_fuel(join_params, 3);
    let params = seq![("input_token"@, user_access_token), ("access_token"@, app_access_token)];
    assert(params.drop_last() =~= seq![("input_token"@, user_access_token)]);
    assert(introspection_url(base, user_access_token, app_access_token) =~= base
        + "/debug_token?input_token="@ + user_access_token + "&access_token="@
        + app_access_token);
}

/// Written out, the profile URL is the origin followed by
/// `/v8.0/me?fields=id%2Cname%2Cemail&access_token=` and the token as it
/// was given.
pub proof fn lemma_profile_url_written_out(base: Seq<char>, access_token: Seq<char>)
    ensures
        profile_url(base, access_token) == base
            + "/v8.0/me?fields=id%2Cname%2Cemail&access_token="@ + access_token,
{
    reveal_strlit("/v8.0/me?fields=id%2Cname%2Cemail&access_token=");
    reveal_strlit("/v8.0/me");
    reveal_strlit("fields");
    reveal_strlit("id%2Cname%2Cemail");
    reveal_strlit("access_token");
    reveal_strlit("?");
    reveal_strlit("=");
    reveal_strlit("&");
    reveal_with_fuel(join_params, 3);
    let params = seq![("fields"@, "id%2Cname%2Cemail"@), ("access_token"@, access_token)];
    assert(params.drop_last() =~= seq![("fields"@, "id%2Cname%2Cemail"@)]);
    assert(profile_url(base, access_token) =~= base
        + "/v8.0/me?fields=id%2Cname%2Cemail&access_token="@ + access_token);
}

} // verus!
