use vstd::prelude::*;
use github_oidc::{GitHubOIDCConfig, GithubJWKS};

use crate::error::Error;
use crate::permission::Permission;
use crate::state::{argon2_accepts, hash_parses, jwt_claim, InnerState};
use crate::user::{User, UserPasswordHash, UserType};

verus! {

#[verifier::external_type_specification]
#[verifier::external_body]
pub struct ExGithubJWKS(GithubJWKS);

/// Relies on `GithubJWKS::validate_github_token` with the default configuration (no
/// audience, owner or repository pinned): the `repository` claim of a token whose RS256
/// signature verifies against the key set and which has not expired; `None` otherwise.
#[verifier::external_body]
fn validated_repository(jwks: &GithubJWKS, token: &str) -> (r: Option<String>)
    ensures
        r is Some ==> jwt_claim(token@, "repository"@) == Some(r->Some_0@),
{
    jwks.validate_github_token(token, &GitHubOIDCConfig::default()).ok().map(|c| c.repository)
}

/// The repository asserted by a verified federated identity token.
#[derive(Debug, Clone, PartialEq, Eq)]
pub struct GithubRepo(String);

impl View for GithubRepo {
    type V = Seq<char>;

    closed spec fn view(&self) -> Seq<char> {
        self.0@
    }
}

impl GithubRepo {
    pub fn new(repo: String) -> (r: GithubRepo)
        ensures
            r@ == repo@,
    {
        GithubRepo(repo)
    }

    pub fn as_str(&self) -> (r: &str)
        ensures
            r@ == self@,
    {
        self.0.as_str()
    }
}

/// The calling repository of an identity request.
#[derive(Debug, Clone, PartialEq, Eq)]
pub struct GithubExtractor(pub GithubRepo);

/// The principal behind a Basic credential and its effective permissions.
#[derive(Debug, Clone, PartialEq, Eq)]
pub struct PermissionExtractor {
    pub user: User,
    pub permissions: Vec<Permission>,
}

/// Every failure of federated verification is the same `Unauthorized`.
pub fn repository_from(validated: Option<String>) -> (r: Result<GithubExtractor, Error>)
    ensures
        match validated {
            Some(repo) => r is Ok && r->Ok_0.0@ == repo@,
            None => r is Err && r->Err_0 is Unauthorized,
        },
{
    match validated {
        Some(repo) => Ok(GithubExtractor(GithubRepo::new(repo))),
        None => Err(Error::Unauthorized("Invalid OIDC Token")),
    }
}

impl GithubExtractor {
    /// Verifies a federated token against the issuer's key set; `jwks` is `None` when the
    /// key set could not be fetched.
    pub fn from_key_set(jwks: Option<&GithubJWKS>, token: &str) -> (r: Result<GithubExtractor, Error>)
        ensures
            jwks is None ==> r is Err,
            r is Ok ==> jwt_claim(token@, "repository"@) == Some(r->Ok_0.0@),
            r is Err ==> r->Err_0 is Unauthorized,
    {
        match jwks {
            Some(keys) => repository_from(validated_repository(keys, token)),
            None => Err(Error::Unauthorized("Invalid OIDC Token")),
        }
    }
}

impl PermissionExtractor {
    /// Resolves a Basic credential. `user` is the principal named by it, `None` when
    /// there is none: that is reported as `Unauthorized`, not as not-found.
    pub fn resolve(
        state: &InnerState,
        user: Option<User>,
        pass: &str,
        pw_hash: Option<&UserPasswordHash>,
        permissions: Vec<Permission>,
    ) -> (r: Result<PermissionExtractor, Error>)
        ensures
            user is None ==> r is Err && r->Err_0 is Unauthorized,
            r is Ok ==> user == Some(r->Ok_0.user) && r->Ok_0.permissions@ == permissions@,
            user is Some ==> ({
                let u = user->Some_0;
                &&& u.user_type == UserType::ServiceAccount && r is Err ==> r->Err_0 is Unauthorized
                &&& u.user_type == UserType::ServiceAccount && r is Ok ==> jwt_claim(
                    pass@,
                    "svc_name"@,
                ) == Some(u.name@)
                &&& u.user_type == UserType::User && pw_hash is None ==> r is Err
                    && r->Err_0 is BadRequest
                &&& u.user_type == UserType::User && pw_hash is Some ==> ({
                    let h = pw_hash->Some_0.pw_hash@;
                    &&& !hash_parses(h) ==> r is Err && r->Err_0 is Opaque
                    &&& hash_parses(h) ==> (r is Ok <==> argon2_accepts(h, pass@))
                    &&& hash_parses(h) && r is Err ==> r->Err_0 is Unauthorized
                })
            }),
    {
        match user {
            None => Err(Error::Unauthorized("User does not exist")),
            Some(user) => {
                let permissions = state.get_permissions(&user, pass, pw_hash, permissions)?;
                Ok(PermissionExtractor { user, permissions })
            },
        }
    }
}

} // verus!
