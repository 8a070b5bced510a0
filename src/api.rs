use vstd::prelude::*;

verus! {

/// Query of a token request: the registry it is for and the requested scopes.
#[derive(Debug, Clone, PartialEq, Eq)]
pub struct TokenQuery {
    pub service: String,
    pub scope: Vec<String>,
}

/// A registry access token and its lifetime in seconds.
#[derive(Debug, Clone, PartialEq, Eq)]
pub struct TokenResponse {
    pub token: String,
    pub expires_in: u64,
}

/// Body of an identity request: the service account asked for.
#[derive(Debug, Clone, PartialEq, Eq)]
pub struct IdentifyBody {
    pub service_account: String,
}

/// An identity token, to be presented as the service account's password.
#[derive(Debug, Clone, PartialEq, Eq)]
pub struct IdentifyResponse {
    pub accesstoken: String,
}

/// Body of a grant: `access` on repository `image` for the principal `name`.
#[derive(Debug, Clone, PartialEq, Eq)]
pub struct GrantAccessBody {
    pub name: String,
    pub image: String,
    pub access: String,
}

#[derive(Debug, Clone, PartialEq, Eq)]
pub struct GrantAccessResponse {
    pub user_name: String,
}

#[derive(Debug, Clone, PartialEq, Eq)]
pub struct CreateUserBody {
    pub name: String,
    pub password: String,
}

#[derive(Debug, Clone, PartialEq, Eq)]
pub struct CreateUserResponse {
    pub user_name: String,
}

#[derive(Debug, Clone, PartialEq, Eq)]
pub struct CreateServiceAccountBody {
    pub name: String,
}

#[derive(Debug, Clone, PartialEq, Eq)]
pub struct CreateServiceAccountResponse {
    pub svc_name: String,
}

/// Body of a request that binds repository `repo` to the service account `svc_name`.
#[derive(Debug, Clone, PartialEq, Eq)]
pub struct AddIdentifierBody {
    pub svc_name: String,
    pub repo: String,
}

#[derive(Debug, Clone, PartialEq, Eq)]
pub struct AddIdentifierResponse {
    pub svc_name: String,
}

} // verus!
