//! The session token and the role it carries.

use vstd::prelude::*;

verus! {

#[derive(Debug, Clone, Copy, PartialEq, Eq, Structural)]
pub enum Role {
    User,
    Admin,
}

/// A bearer token together with the role found in it.
#[derive(Debug)]
pub struct JwtToken {
    pub token_string: String,
    pub role: Role,
}

pub struct JwtTokenView {
    pub token_string: Seq<char>,
    pub role: Role,
}

impl View for JwtToken {
    type V = JwtTokenView;

    open spec fn view(&self) -> JwtTokenView {
        JwtTokenView { token_string: self.token_string@, role: self.role }
    }
}

/// The view of an optional token.
pub open spec fn opt_token(token: Option<JwtToken>) -> Option<JwtTokenView> {
    match token {
        Some(t) => Some(t@),
        None => None,
    }
}

/// The name of the claim that holds the role.
pub const ROLE_CLAIM: &'static str = "role";

/// The text of the claim `name` of a token: `None` where the token cannot be
/// decoded or holds no such claim as text.
pub uninterp spec fn claim_text(token: Seq<char>, name: Seq<char>) -> Option<Seq<char>>;

/// The text of the claim of a token that holds the role.
pub open spec fn role_claim(token: Seq<char>) -> Option<Seq<char>> {
    claim_text(token, ROLE_CLAIM@)
}

/// The role that a claim names.
pub open spec fn role_named(claim: Seq<char>) -> Option<Role> {
    if claim == "User"@ {
        Some(Role::User)
    } else if claim == "Admin"@ {
        Some(Role::Admin)
    } else {
        None
    }
}

/// `jsonwebtoken::decode`, with a `Validation` for HS256 whose signature
/// check and expiry check are switched off, an empty secret, and the claims
/// taken as a `serde_json::Value`, whose member `name` is then looked up with
/// `Value::get`. With those settings the outcome depends on the token and the
/// name alone. The result is the claim where the token decodes and the claim
/// is a string.
#[verifier::external_body]
pub(crate) fn decode_claim(token: &str, name: &str) -> (r: Option<String>)
    ensures
        crate::text::opt_text(r) == claim_text(token@, name@),
{
    let key = jsonwebtoken::DecodingKey::from_secret(&[]);
    let mut validation = jsonwebtoken::Validation::new(jsonwebtoken::Algorithm::HS256);
    validation.insecure_disable_signature_validation();
    validation.validate_exp = false;
    match jsonwebtoken::decode::<serde_json::Value>(token, &key, &validation) {
        Ok(data) => match data.claims.get(name) {
            Some(serde_json::Value::String(claim)) => Some(claim.clone()),
            _ => None,
        },
        Err(_) => None,
    }
}

impl JwtToken {
    /// The token that `token` and its decoded role claim give.
    pub open spec fn of_claim(token: Seq<char>, claim: Option<Seq<char>>) -> Option<JwtTokenView> {
        match claim {
            Some(name) => match role_named(name) {
                Some(role) => Some(JwtTokenView { token_string: token, role }),
                None => None,
            },
            None => None,
        }
    }

    /// Builds the token from its text and the role claim decoded from it.
    /// There is a token exactly when the claim names a role.
    pub fn from_claim(token: String, claim: Option<String>) -> (r: Option<JwtToken>)
        ensures
            opt_token(r) == JwtToken::of_claim(token@, crate::text::opt_text(claim)),
    {
        match claim {
            Some(name) => {
                if name.as_str().eq("User") {
                    Some(JwtToken { token_string: token, role: Role::User })
                } else if name.as_str().eq("Admin") {
                    Some(JwtToken { token_string: token, role: Role::Admin })
                } else {
                    None
                }
            },
            None => None,
        }
    }

    /// Decodes `token` without checking its signature or expiry and reads the
    /// role from it.
    pub fn new(token: String) -> (r: Option<JwtToken>)
        ensures
            opt_token(r) == JwtToken::of_claim(token@, role_claim(token@)),
    {
        let claim = decode_claim(token.as_str(), ROLE_CLAIM);
        JwtToken::from_claim(token, claim)
    }
}

impl Clone for JwtToken {
    fn clone(&self) -> (r: JwtToken)
        ensures
            r@ == self@,
    {
        JwtToken { token_string: self.token_string.clone(), role: self.role }
    }
}

} // verus!
