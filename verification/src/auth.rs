//! The exchange of a refresh token for an access token.

use crate::decode::{member, optional, optional_member, required, Decode};
use crate::dispatch::{send_request, Dispatch, DispatchView};
use crate::json::{Json, JsonValue};
use crate::request::{Body, BodyView, Method, Request, RequestView};
use vstd::prelude::*;

verus! {

/// The endpoint that exchanges tokens.
pub const TOKEN_URL: &'static str = "https://api.supabase.com/v1/oauth/token";

/// What the token endpoint answers: an access token, its type, the seconds
/// for which it is good, and a new refresh token where the old one was
/// rotated. Without one the old refresh token stays good.
#[derive(Debug)]
pub struct AccessTokenResponse {
    pub expires_in: u64,
    pub token_type: String,
    pub access_token: String,
    pub refresh_token: Option<String>,
}

/// The mathematical value of an [`AccessTokenResponse`].
pub struct AccessTokenView {
    pub expires_in: u64,
    pub token_type: Seq<char>,
    pub access_token: Seq<char>,
    pub refresh_token: Option<Seq<char>>,
}

impl DeepView for AccessTokenResponse {
    type V = AccessTokenView;

    open spec fn deep_view(&self) -> AccessTokenView {
        AccessTokenView {
            expires_in: self.expires_in,
            token_type: self.token_type@,
            access_token: self.access_token@,
            refresh_token: self.refresh_token.deep_view(),
        }
    }
}

impl Decode for AccessTokenResponse {
    open spec fn shape(json: JsonValue) -> Option<AccessTokenView> {
        if json is Object && member::<u64>(json, "expires_in"@) is Some && member::<String>(
            json,
            "token_type"@,
        ) is Some && member::<String>(json, "access_token"@) is Some && optional_member::<String>(
            json,
            "refresh_token"@,
        ) is Some {
            Some(
                AccessTokenView {
                    expires_in: member::<u64>(json, "expires_in"@)->0,
                    token_type: member::<String>(json, "token_type"@)->0,
                    access_token: member::<String>(json, "access_token"@)->0,
                    refresh_token: optional_member::<String>(json, "refresh_token"@)->0,
                },
            )
        } else {
            None
        }
    }

    open spec fn name() -> Seq<char> {
        "AccessTokenResponse"@
    }

    fn target_name() -> (name: String) {
        String::from_str("AccessTokenResponse")
    }

    fn decode(json: &Json) -> (decoded: Option<AccessTokenResponse>) {
        match json {
            Json::Object(_) => {},
            _ => {
                return None;
            },
        }
        let expires_in = required::<u64>(json, "expires_in")?;
        let token_type = required::<String>(json, "token_type")?;
        let access_token = required::<String>(json, "access_token")?;
        let refresh_token = optional::<String>(json, "refresh_token")?;
        Some(AccessTokenResponse { expires_in, token_type, access_token, refresh_token })
    }
}

/// The request of a refresh-token grant: a `POST` to the token endpoint with
/// four form fields, the grant type first.
pub open spec fn token_request(
    client_id: Seq<char>,
    client_secret: Seq<char>,
    refresh_token: Seq<char>,
) -> RequestView {
    RequestView {
        method: Method::Post,
        url: TOKEN_URL@,
        body: BodyView::Form(
            seq![
                ("grant_type"@, "refresh_token"@),
                ("client_id"@, client_id),
                ("client_secret"@, client_secret),
                ("refresh_token"@, refresh_token),
            ],
        ),
    }
}

/// Prepares the exchange of `refresh_token` for a new access token, with the
/// identifier and the secret of the OAuth application. The call presents no
/// credential: it is the one that obtains it.
pub fn generate_access_token(client_id: &str, client_secret: &str, refresh_token: &str) -> (dispatch:
    Dispatch<AccessTokenResponse>)
    ensures
        dispatch@ == (DispatchView {
            request: token_request(client_id@, client_secret@, refresh_token@),
            credential: None,
        }),
{
    let mut fields: Vec<(String, String)> = Vec::new();
    fields.push((String::from_str("grant_type"), String::from_str("refresh_token")));
    fields.push((String::from_str("client_id"), String::from_str(client_id)));
    fields.push((String::from_str("client_secret"), String::from_str(client_secret)));
    fields.push((String::from_str("refresh_token"), String::from_str(refresh_token)));
    let request = Request {
        method: Method::Post,
        url: String::from_str(TOKEN_URL),
        body: Body::Form(fields),
    };
    proof {
        assert(fields.deep_view() =~= seq![
            ("grant_type"@, "refresh_token"@),
            ("client_id"@, client_id@),
            ("client_secret"@, client_secret@),
            ("refresh_token"@, refresh_token@),
        ]);
    }
    send_request(request)
}

} // verus!
