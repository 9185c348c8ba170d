//! `POST /v1/admin/github/app-manifest`: hand out a state token and the URL at
//! which GitHub creates the App.

use crate::digest::{percent_encoded, url_encode};
use crate::ids::Uuid;
use crate::json::{self, json_of, json_text, Json};
use crate::state_token::{issue_state_token, StateToken, STATE_TOKEN_TTL_SECS};
use crate::text::trimmed;
use vstd::prelude::*;
use vstd::string::*;
use vstd::utf8::*;

verus! {

#[derive(Debug)]
pub struct AppManifestRequest {
    /// The App's name as GitHub shows it.
    pub name: Option<String>,
}

#[derive(Debug)]
pub struct AppManifestResponse {
    /// Where the platform admin should be sent.
    pub redirect_url: String,
    /// The token that GitHub's callback brings back. It is good once and for a short time.
    pub state_token: String,
}

/// What to keep and what to answer.
#[derive(Debug)]
pub struct AppManifestPlan {
    /// The digest under which the state token is kept.
    pub token_hash: Vec<u8>,
    /// Who asked for it.
    pub initiated_by: Uuid,
    /// For how many seconds it can be claimed.
    pub ttl_secs: i64,
    pub response: AppManifestResponse,
}

/// `s` without surrounding white space, unless nothing is left.
pub open spec fn given(s: Option<String>) -> Option<Seq<char>> {
    match s {
        Some(x) if trimmed(x@).len() > 0 => Some(trimmed(x@)),
        _ => None,
    }
}

/// The name of an App that was not given one.
pub open spec fn default_name(deployment_id: Option<String>) -> Seq<char> {
    "rustacean-"@ + match given(deployment_id) {
        Some(s) => s,
        None => "dev"@,
    }
}

/// `rustacean-` and the deployment's ID, or `rustacean-dev` without one.
pub fn default_app_name(deployment_id: &Option<String>) -> (s: String)
    ensures
        s@ == default_name(*deployment_id),
        deployment_id matches Some(x) ==> trimmed(x@).len() > 0 ==> s@ == "rustacean-"@ + trimmed(x@),
        !(deployment_id matches Some(x) && trimmed(x@).len() > 0) ==> s@ == "rustacean-"@ + "dev"@,
{
    let mut name = "rustacean-".to_owned();
    match deployment_id {
        Some(x) => {
            let t = x.as_str().trim();
            if t.is_empty() {
                name.append("dev");
            } else {
                name.append(t);
            }
        },
        None => name.append("dev"),
    }
    name
}

/// The manifest that GitHub creates the App from.
pub open spec fn manifest(base_url: Seq<char>, name: Seq<char>) -> Json {
    Json::Object(
        map![
            "name"@ => Json::Str(name),
            "url"@ => Json::Str(base_url),
            "redirect_url"@ => Json::Str(base_url + "/v1/admin/github/app-callback"@),
            "hook_attributes"@ => Json::Object(map!["url"@ => Json::Str(base_url + "/v1/github/webhook"@)]),
            "callback_urls"@ => Json::Array(seq![Json::Str(base_url + "/v1/github/callback"@)]),
            "public"@ => Json::Bool(false),
            "default_permissions"@ => Json::Object(
                map!["contents"@ => Json::Str("read"@), "metadata"@ => Json::Str("read"@)],
            ),
            "default_events"@ => Json::Array(seq![]),
        ],
    )
}

/// `base` followed by `path`.
fn joined(base: &str, path: &str) -> (v: serde_json::Value)
    ensures
        json_of(v) == Json::Str(base@ + path@),
{
    let mut s = base.to_owned();
    s.append(path);
    json::string(s.as_str())
}

/// The manifest that GitHub creates the App from.
#[must_use]
pub fn build_manifest_payload(base_url: &str, name: &str) -> (v: serde_json::Value)
    ensures
        json_of(v) == manifest(base_url@, name@),
        json_of(v) == Json::Object(
            map![
                "name"@ => Json::Str(name@),
                "url"@ => Json::Str(base_url@),
                "redirect_url"@ => Json::Str(base_url@ + "/v1/admin/github/app-callback"@),
                "hook_attributes"@ => Json::Object(map!["url"@ => Json::Str(base_url@ + "/v1/github/webhook"@)]),
                "callback_urls"@ => Json::Array(seq![Json::Str(base_url@ + "/v1/github/callback"@)]),
                "public"@ => Json::Bool(false),
                "default_permissions"@ => Json::Object(
                    map!["contents"@ => Json::Str("read"@), "metadata"@ => Json::Str("read"@)],
                ),
                "default_events"@ => Json::Array(seq![]),
            ],
        ),
{
    let v = json::with(json::object(), "name", json::string(name));
    let v = json::with(v, "url", json::string(base_url));
    let v = json::with(v, "redirect_url", joined(base_url, "/v1/admin/github/app-callback"));
    let hook = json::with(json::object(), "url", joined(base_url, "/v1/github/webhook"));
    let v = json::with(v, "hook_attributes", hook);
    let mut urls: Vec<serde_json::Value> = Vec::new();
    urls.push(joined(base_url, "/v1/github/callback"));
    let ghost held = urls@;
    let urls = json::array(urls);
    assert(held.map_values(|x: serde_json::Value| json_of(x)) =~= seq![
        Json::Str(base_url@ + "/v1/github/callback"@),
    ]);
    let v = json::with(v, "callback_urls", urls);
    let v = json::with(v, "public", json::boolean(false));
    let permissions = json::with(json::object(), "contents", json::string("read"));
    let permissions = json::with(permissions, "metadata", json::string("read"));
    let v = json::with(v, "default_permissions", permissions);
    let none: Vec<serde_json::Value> = Vec::new();
    let ghost held = none@;
    let none = json::array(none);
    assert(held.map_values(|x: serde_json::Value| json_of(x)) =~= seq![]);
    json::with(v, "default_events", none)
}

/// The URL at which GitHub creates an App from `m`, with the state `token`.
pub open spec fn creation_url(m: Json, token: Seq<char>) -> Seq<char> {
    "https://github.com/settings/apps/new?manifest="@ + percent_encoded(encode_utf8(json_text(m))) + "&state="@ + token
}

/// Whether `plan` is what is kept and answered for `token`.
pub open spec fn planned_for(
    plan: AppManifestPlan,
    user_id: Uuid,
    base_url: Seq<char>,
    body: AppManifestRequest,
    deployment_id: Option<String>,
    token: StateToken,
) -> bool {
    &&& plan.token_hash == token.hash
    &&& plan.initiated_by == user_id
    &&& plan.ttl_secs == STATE_TOKEN_TTL_SECS
    &&& plan.response.state_token == token.text
    &&& plan.response.redirect_url@ == creation_url(
        manifest(
            base_url,
            match given(body.name) {
                Some(n) => n,
                None => default_name(deployment_id),
            },
        ),
        token.text@,
    )
}

/// What to keep and answer for a state token.
pub fn app_manifest_plan(
    user_id: Uuid,
    base_url: &str,
    body: &AppManifestRequest,
    deployment_id: &Option<String>,
    token: StateToken,
) -> (plan: AppManifestPlan)
    ensures
        planned_for(plan, user_id, base_url@, *body, *deployment_id, token),
        plan.token_hash == token.hash,
        plan.initiated_by == user_id,
        plan.ttl_secs == 600,
        plan.response.state_token == token.text,
        body.name matches Some(n) ==> trimmed(n@).len() > 0 ==> plan.response.redirect_url@
            == "https://github.com/settings/apps/new?manifest="@ + percent_encoded(
            encode_utf8(json_text(manifest(base_url@, trimmed(n@)))),
        ) + "&state="@ + token.text@,
        !(body.name matches Some(n) && trimmed(n@).len() > 0) ==> plan.response.redirect_url@
            == "https://github.com/settings/apps/new?manifest="@ + percent_encoded(
            encode_utf8(json_text(manifest(base_url@, default_name(*deployment_id)))),
        ) + "&state="@ + token.text@,
{
    let name = match &body.name {
        Some(n) => {
            let t = n.as_str().trim();
            if t.is_empty() {
                default_app_name(deployment_id)
            } else {
                t.to_owned()
            }
        },
        None => default_app_name(deployment_id),
    };
    let manifest_json = json::text(&build_manifest_payload(base_url, name.as_str()));
    let mut redirect_url = "https://github.com/settings/apps/new?manifest=".to_owned();
    redirect_url.append(url_encode(manifest_json.as_str()).as_str());
    redirect_url.append("&state=");
    redirect_url.append(token.text.as_str());
    AppManifestPlan {
        token_hash: token.hash,
        initiated_by: user_id,
        ttl_secs: STATE_TOKEN_TTL_SECS,
        response: AppManifestResponse { redirect_url, state_token: token.text },
    }
}

/// What to keep and answer for a fresh state token that a platform admin asks for.
pub fn post_app_manifest(
    user_id: Uuid,
    base_url: &str,
    body: &AppManifestRequest,
    deployment_id: &Option<String>,
) -> (plan: AppManifestPlan)
    ensures
        exists|token: StateToken|
            token.issued() && #[trigger] planned_for(plan, user_id, base_url@, *body, *deployment_id, token),
{
    let token = issue_state_token();
    let ghost t = token;
    let plan = app_manifest_plan(user_id, base_url, body, deployment_id, token);
    assert(planned_for(plan, user_id, base_url@, *body, *deployment_id, t));
    plan
}

} // verus!
