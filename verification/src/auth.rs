//! The sign-in callback: what the local callback server does with the
//! request line it receives. Listening and answering is the caller's
//! business.

use vstd::prelude::*;
use crate::snapshot::{first_with_key, lookup};
use crate::text::{
    concat2, concat3, contains, contains_text, decimal, decimal_of, has_prefix, strip_prefix,
};

verus! {

/// The account services a user can sign in to.
#[derive(Debug, Clone, Copy, PartialEq, Eq, Structural)]
pub enum AuthPlatform {
    Steam,
    Epic,
    BattleNet,
}

/// What a sign-in hands back.
#[derive(Debug, PartialEq, Eq)]
pub struct AuthCallback {
    pub platform: AuthPlatform,
    pub code: String,
}

/// The tokens that the social-gaming client's service grants.
#[derive(Debug, PartialEq, Eq)]
pub struct TokenResponse {
    pub access_token: String,
    pub token_type: String,
    pub expires_in: u32,
    pub sub: String,
    pub scope: String,
}

/// A signed-in user of the social-gaming client's service.
#[derive(Debug, PartialEq, Eq)]
pub struct BattleNetProfile {
    pub id: String,
    pub battletag: String,
    pub account_id: String,
}

/// The tokens that the storefront's service grants.
#[derive(Debug, PartialEq, Eq)]
pub struct EpicTokenResponse {
    pub scope: String,
    pub token_type: String,
    pub access_token: String,
    pub refresh_token: String,
    pub expires_in: u64,
    pub expires_at: String,
    pub refresh_expires_in: u64,
    pub refresh_expires_at: String,
    pub account_id: String,
    pub client_id: String,
    pub application_id: String,
    pub acr: String,
    pub auth_time: String,
}

/// The whitespace-separated words of a line, in order, as
/// `str::split_whitespace` yields them.
pub uninterp spec fn words_of(line: Seq<char>) -> Seq<Seq<char>>;

/// The second word of a line, if it has two.
pub open spec fn second_word_of(line: Seq<char>) -> Option<Seq<char>> {
    if words_of(line).len() > 1 {
        Some(words_of(line)[1])
    } else {
        None
    }
}

/// The path of an absolute address, as `url::Url::path` reports it for
/// what `url::Url::parse` reads; `None` where the address does not parse.
pub uninterp spec fn url_path_of(address: Seq<char>) -> Option<Seq<char>>;

/// The decoded name-value pairs of an absolute address's query, in order,
/// as `url::Url::query_pairs` yields them for what `url::Url::parse` reads;
/// `None` where the address does not parse.
pub uninterp spec fn url_query_of(address: Seq<char>) -> Option<Seq<(Seq<char>, Seq<char>)>>;

/// Calls `str::split_whitespace` and collects the words in order. The
/// result is named, not described.
#[verifier::external_body]
fn words(line: &str) -> (r: Vec<String>)
    ensures
        r.deep_view() == words_of(line@),
{
    line.split_whitespace().map(|w| w.to_string()).collect()
}

/// The second word of a line, if it has two.
pub fn second_word(line: &str) -> (r: Option<String>)
    ensures
        r.deep_view() == second_word_of(line@),
{
    let all = words(line);
    if all.len() > 1 {
        assert(all.deep_view()[1] == all[1]@);
        Some(all[1].clone())
    } else {
        None
    }
}

/// Reads the address with `url::Url::parse` and calls `url::Url::path` on
/// it. The result is named, not described.
#[verifier::external_body]
fn url_path(address: &str) -> (r: Option<String>)
    ensures
        r.deep_view() == url_path_of(address@),
{
    url::Url::parse(address).ok().map(|u| u.path().to_string())
}

/// Reads the address with `url::Url::parse` and calls
/// `url::Url::query_pairs` on it, copying each pair. The result is named,
/// not described.
#[verifier::external_body]
fn url_query(address: &str) -> (r: Option<Vec<(String, String)>>)
    ensures
        r.deep_view() == url_query_of(address@),
{
    url::Url::parse(address).ok().map(
        |u| u.query_pairs().map(|(k, v)| (k.into_owned(), v.into_owned())).collect(),
    )
}

/// The address that a request line asks for, made absolute.
pub open spec fn requested_address(request_line: Seq<char>) -> Option<Seq<char>> {
    match second_word_of(request_line) {
        Some(target) => Some("http://localhost"@ + target),
        None => None,
    }
}

/// The value of a query parameter of the address that a request line
/// asks for, provided the address parses and its path contains `route`.
pub open spec fn callback_parameter(request_line: Seq<char>, route: Seq<char>, name: Seq<char>) -> Option<
    Seq<char>,
> {
    match requested_address(request_line) {
        Some(address) => match (url_path_of(address), url_query_of(address)) {
            (Some(path), Some(pairs)) => if contains_text(path, route) {
                first_with_key(pairs, name)
            } else {
                None
            },
            _ => None,
        },
        None => None,
    }
}

/// Where a request is sent on to: the application's own address for the
/// sign-in that the request completes. The content-delivery client's
/// sign-in is looked for first, then the storefront's, then the
/// social-gaming client's; a request that is no `GET` or completes none of
/// them is sent nowhere.
pub open spec fn redirect_of(request_line: Seq<char>) -> Option<Seq<char>> {
    if !has_prefix(request_line, "GET"@) {
        None
    } else {
        match callback_parameter(request_line, "/auth/steam/callback"@, "openid.identity"@) {
            Some(identity) => Some(
                "glaunch://auth/steam/callback?openid.identity="@ + identity,
            ),
            None => match callback_parameter(request_line, "/auth/epic/callback"@, "code"@) {
                Some(code) => Some("glaunch://auth/epic/callback?code="@ + code),
                None => match callback_parameter(
                    request_line,
                    "/auth/battlenet/callback"@,
                    "code"@,
                ) {
                    Some(code) => Some("glaunch://auth/battlenet/callback?code="@ + code),
                    None => None,
                },
            },
        }
    }
}

/// What precedes the address in the page that sends the browser on.
pub open spec fn page_head() -> Seq<char> {
    "<!DOCTYPE html>\n          <html>\n          <head>\n              <meta charset=\"UTF-8\">\n              <title>GLaunch - Authentification</title>\n              <style>\n                  body {\n                      background-color: #0f172a;\n                      color: white;\n                      font-family: system-ui, -apple-system, sans-serif;\n                      display: flex;\n                      align-items: center;\n                      justify-content: center;\n                      height: 100vh;\n                      margin: 0;\n                      text-align: center;\n                  }\n                  .container {\n                      padding: 2rem;\n                      border-radius: 1rem;\n                      background-color: #1e293b;\n                      box-shadow: 0 4px 6px rgba(0, 0, 0, 0.1);\n                  }\n                  .title {\n                      font-size: 1.5rem;\n                      font-weight: bold;\n                      margin-bottom: 1rem;\n                  }\n                  .countdown {\n                      font-size: 3rem;\n                      font-weight: bold;\n                      margin: 1rem 0;\n                      color: #3b82f6;\n                  }\n                  .message {\n                      color: #94a3b8;\n                  }\n              </style>\n          </head>\n          <body>\n              <div class=\"container\">\n                  <div class=\"title\">Authentification Réussie</div>\n                  <div id=\"countdown\" class=\"countdown\">5</div>\n                  <p class=\"message\">Vous pouvez fermer cette fenêtre arrivé à 0...</p>\n              </div>\n              <script>\n\n                  // Lancer le deep link immédiatement\n                  window.location.href = '"@
}

/// What follows the address in the page that sends the browser on.
pub open spec fn page_tail() -> Seq<char> {
    "';\n\n                  // Démarrer le compte à rebours\n                  let count = 5;\n                  const countdown = setInterval(() => {\n                      count--;\n                      document.getElementById('countdown').textContent = count;\n                      if (count <= 0) {\n                          clearInterval(countdown);\n                      }\n                  }, 1000);\n              </script>\n          </body>\n          </html>"@
}

/// The answer that carries a page of `length` bytes back to the browser.
pub open spec fn response_of(page: Seq<char>, length: nat) -> Seq<char> {
    "HTTP/1.1 200 OK\r\nContent-Type: text/html; charset=utf-8\r\nContent-Length: "@ + decimal_of(
        length,
    ) + "\r\n\r\n"@ + page
}

/// The local server that completes a sign-in.
pub struct AuthServer {
    port: u16,
}

impl AuthServer {
    /// The port the server listens on.
    pub closed spec fn listens_on(&self) -> u16 {
        self.port
    }

    /// A server for the given port.
    pub fn new(port: u16) -> (s: AuthServer)
        ensures
            s.listens_on() == port,
    {
        AuthServer { port }
    }

    /// The port the server listens on.
    pub fn port(&self) -> (r: u16)
        ensures
            r == self.listens_on(),
    {
        self.port
    }

    /// The page that sends the browser on to `redirect_url` and counts
    /// down while it does.
    pub fn get_redirect_html(redirect_url: &str) -> (r: String)
        ensures
            r@ == page_head() + redirect_url@ + page_tail(),
    {
        concat3(
            "<!DOCTYPE html>\n          <html>\n          <head>\n              <meta charset=\"UTF-8\">\n              <title>GLaunch - Authentification</title>\n              <style>\n                  body {\n                      background-color: #0f172a;\n                      color: white;\n                      font-family: system-ui, -apple-system, sans-serif;\n                      display: flex;\n                      align-items: center;\n                      justify-content: center;\n                      height: 100vh;\n                      margin: 0;\n                      text-align: center;\n                  }\n                  .container {\n                      padding: 2rem;\n                      border-radius: 1rem;\n                      background-color: #1e293b;\n                      box-shadow: 0 4px 6px rgba(0, 0, 0, 0.1);\n                  }\n                  .title {\n                      font-size: 1.5rem;\n                      font-weight: bold;\n                      margin-bottom: 1rem;\n                  }\n                  .countdown {\n                      font-size: 3rem;\n                      font-weight: bold;\n                      margin: 1rem 0;\n                      color: #3b82f6;\n                  }\n                  .message {\n                      color: #94a3b8;\n                  }\n              </style>\n          </head>\n          <body>\n              <div class=\"container\">\n                  <div class=\"title\">Authentification Réussie</div>\n                  <div id=\"countdown\" class=\"countdown\">5</div>\n                  <p class=\"message\">Vous pouvez fermer cette fenêtre arrivé à 0...</p>\n              </div>\n              <script>\n\n                  // Lancer le deep link immédiatement\n                  window.location.href = '",
            redirect_url,
            "';\n\n                  // Démarrer le compte à rebours\n                  let count = 5;\n                  const countdown = setInterval(() => {\n                      count--;\n                      document.getElementById('countdown').textContent = count;\n                      if (count <= 0) {\n                          clearInterval(countdown);\n                      }\n                  }, 1000);\n              </script>\n          </body>\n          </html>",
        )
    }

    /// The answer that carries a page back to the browser: the status
    /// line, the content type, the page's length in bytes, and the page.
    pub fn response(html: &str) -> (r: String)
        ensures
            r@ == response_of(html@, html.len() as nat),
    {
        let length: usize = html.len();
        let head = concat3(
            "HTTP/1.1 200 OK\r\nContent-Type: text/html; charset=utf-8\r\nContent-Length: ",
            decimal(length as u64).as_str(),
            "\r\n\r\n",
        );
        head.concat(html)
    }

    /// The value of a query parameter of the requested address: see
    /// [`callback_parameter`].
    pub fn extract_parameter(request_line: &str, route: &str, name: &str) -> (r: Option<String>)
        ensures
            r.deep_view() == callback_parameter(request_line@, route@, name@),
    {
        let target = match second_word(request_line) {
            Some(t) => t,
            None => {
                return None;
            },
        };
        let address = concat2("http://localhost", target.as_str());
        let path = url_path(address.as_str());
        let pairs = url_query(address.as_str());
        match (path, pairs) {
            (Some(p), Some(q)) => {
                if contains(p.as_str(), route) {
                    match lookup(&q, name) {
                        Some(v) => Some(v.clone()),
                        None => None,
                    }
                } else {
                    None
                }
            },
            _ => None,
        }
    }

    /// The identity that the content-delivery client's sign-in hands
    /// back.
    pub fn extract_steam_identity(&self, request_line: &str) -> (r: Option<String>)
        ensures
            r.deep_view() == callback_parameter(
                request_line@,
                "/auth/steam/callback"@,
                "openid.identity"@,
            ),
    {
        Self::extract_parameter(request_line, "/auth/steam/callback", "openid.identity")
    }

    /// The code that the storefront's sign-in hands back.
    pub fn extract_epic_code(&self, request_line: &str) -> (r: Option<String>)
        ensures
            r.deep_view() == callback_parameter(request_line@, "/auth/epic/callback"@, "code"@),
    {
        Self::extract_parameter(request_line, "/auth/epic/callback", "code")
    }

    /// The code that the social-gaming client's sign-in hands back.
    pub fn extract_battlenet_code(&self, request_line: &str) -> (r: Option<String>)
        ensures
            r.deep_view() == callback_parameter(request_line@, "/auth/battlenet/callback"@, "code"@),
    {
        Self::extract_parameter(request_line, "/auth/battlenet/callback", "code")
    }

    /// Where a request is sent on to: see [`redirect_of`].
    pub fn redirect_url(&self, request_line: &str) -> (r: Option<String>)
        ensures
            r.deep_view() == redirect_of(request_line@),
    {
        if strip_prefix(request_line, "GET").is_none() {
            return None;
        }
        match self.extract_steam_identity(request_line) {
            Some(identity) => {
                return Some(
                    concat2("glaunch://auth/steam/callback?openid.identity=", identity.as_str()),
                );
            },
            None => {},
        }
        match self.extract_epic_code(request_line) {
            Some(code) => {
                return Some(concat2("glaunch://auth/epic/callback?code=", code.as_str()));
            },
            None => {},
        }
        match self.extract_battlenet_code(request_line) {
            Some(code) => Some(concat2("glaunch://auth/battlenet/callback?code=", code.as_str())),
            None => None,
        }
    }

    /// The callback of the sign-in that a request completes, with the
    /// identity or code it hands back.
    pub fn callback(&self, request_line: &str) -> (r: Option<AuthCallback>)
        ensures
            match r {
                Some(c) => match c.platform {
                    AuthPlatform::Steam => callback_parameter(
                        request_line@,
                        "/auth/steam/callback"@,
                        "openid.identity"@,
                    ) == Some(c.code@),
                    AuthPlatform::Epic => callback_parameter(
                        request_line@,
                        "/auth/steam/callback"@,
                        "openid.identity"@,
                    ) is None && callback_parameter(request_line@, "/auth/epic/callback"@, "code"@)
                        == Some(c.code@),
                    AuthPlatform::BattleNet => callback_parameter(
                        request_line@,
                        "/auth/steam/callback"@,
                        "openid.identity"@,
                    ) is None && callback_parameter(request_line@, "/auth/epic/callback"@, "code"@)
                        is None && callback_parameter(
                        request_line@,
                        "/auth/battlenet/callback"@,
                        "code"@,
                    ) == Some(c.code@),
                },
                None => callback_parameter(
                    request_line@,
                    "/auth/steam/callback"@,
                    "openid.identity"@,
                ) is None && callback_parameter(request_line@, "/auth/epic/callback"@, "code"@)
                    is None && callback_parameter(request_line@, "/auth/battlenet/callback"@, "code"@)
                    is None,
            },
    {
        match self.extract_steam_identity(request_line) {
            Some(code) => {
                return Some(AuthCallback { platform: AuthPlatform::Steam, code });
            },
            None => {},
        }
        match self.extract_epic_code(request_line) {
            Some(code) => {
                return Some(AuthCallback { platform: AuthPlatform::Epic, code });
            },
            None => {},
        }
        match self.extract_battlenet_code(request_line) {
            Some(code) => Some(AuthCallback { platform: AuthPlatform::BattleNet, code }),
            None => None,
        }
    }
}

} // verus!
