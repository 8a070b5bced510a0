use vstd::prelude::*;
use argon2::PasswordVerifier;
use jwt_simple::prelude::{ECDSAP384KeyPairLike, ECDSAP384PublicKeyLike, ES384KeyPair};

use crate::api::{IdentifyResponse, TokenQuery, TokenResponse};
use crate::claims::{access_json, views, DockerClaims, SvcClaims};
use crate::error::Error;
use crate::permission::Permission;
use crate::scope::{authorize_all, authorizes, parse_scope, Scope, ScopeView};
use crate::text::str_eq;
use crate::user::{is_registered, User, UserPasswordHash, UserType};

verus! {

#[verifier::external_type_specification]
#[verifier::external_body]
pub struct ExES384KeyPair(ES384KeyPair);

/// Lifetime of every token this service issues, in seconds.
pub const TOKEN_LIFETIME_SECS: u64 = 300;

/// Relies on `ES384KeyPair::generate`: a fresh P-384 key pair from the system's RNG.
#[verifier::external_body]
fn generate_key_pair() -> ES384KeyPair {
    ES384KeyPair::generate()
}

/// The string value of claim `name` in the payload of the compact JWT `token`, if the
/// payload holds one; the payload is a function of the token text alone.
pub uninterp spec fn jwt_claim(token: Seq<char>, name: Seq<char>) -> Option<Seq<char>>;

/// Whether claim `name` in the payload of the compact JWT `token` equals, as a JSON
/// value, the JSON text `value`.
pub uninterp spec fn jwt_claim_json(token: Seq<char>, name: Seq<char>, value: Seq<char>) -> bool;

/// The `exp` claim minus the `iat` claim of the compact JWT `token`, in seconds.
pub uninterp spec fn jwt_lifetime(token: Seq<char>) -> Option<int>;

/// The names of the registered claims, which a custom claim may not take.
pub open spec fn registered_claim(name: Seq<char>) -> bool {
    name == "iss"@ || name == "sub"@ || name == "aud"@ || name == "exp"@ || name == "nbf"@
        || name == "iat"@ || name == "jti"@ || name == "nonce"@
}

proof fn lemma_custom_claim_names()
    ensures
        !registered_claim("svc_name"@),
        !registered_claim("access"@),
{
    reveal_strlit("svc_name");
    reveal_strlit("access");
    reveal_strlit("iss");
    reveal_strlit("sub");
    reveal_strlit("aud");
    reveal_strlit("exp");
    reveal_strlit("nbf");
    reveal_strlit("iat");
    reveal_strlit("jti");
    reveal_strlit("nonce");
    assert("svc_name"@.len() == 8 && "access"@.len() == 6);
    assert("iss"@.len() == 3 && "sub"@.len() == 3 && "aud"@.len() == 3 && "exp"@.len() == 3);
    assert("nbf"@.len() == 3 && "iat"@.len() == 3 && "jti"@.len() == 3 && "nonce"@.len() == 5);
}

/// Relies on `ES384PublicKey::to_der`: the public half of `key` as SubjectPublicKeyInfo
/// DER; `None` on failure.
#[verifier::external_body]
fn public_key_der(key: &ES384KeyPair) -> Option<Vec<u8>> {
    key.public_key().to_der().ok()
}

/// Relies on `Claims::with_custom_claims`, which stamps `iat = now` and
/// `exp = now + valid_secs` and leaves `iss`, `sub` and `aud` unset, and on
/// `ES384KeyPair::sign`: a token whose one custom claim `claim` is the string `value`.
/// `None` when signing fails. `valid_secs` is bounded so that `now + valid_secs` cannot
/// overflow.
#[verifier::external_body]
fn sign_custom(key: &ES384KeyPair, claim: &str, value: &str, valid_secs: u64) -> (r: Option<String>)
    requires
        valid_secs <= TOKEN_LIFETIME_SECS,
        !registered_claim(claim@),
    ensures
        r is Some ==> jwt_claim(r->Some_0@, claim@) == Some(value@),
        r is Some ==> jwt_lifetime(r->Some_0@) == Some(valid_secs as int),
        r is Some ==> jwt_claim(r->Some_0@, "sub"@) is None && jwt_claim(r->Some_0@, "iss"@) is None
            && jwt_claim(r->Some_0@, "aud"@) is None,
{
    let mut custom = serde_json::Map::new();
    custom.insert(claim.to_string(), serde_json::Value::String(value.to_string()));
    let claims = jwt_simple::claims::Claims::with_custom_claims(
        custom,
        jwt_simple::prelude::Duration::from_secs(valid_secs),
    );
    key.sign(claims).ok()
}

/// As `sign_custom`, with the custom claim `claim` holding the JSON value that
/// `serde_json::from_str` reads from `value_json`, and with `sub`, `aud` and `iss` set
/// through `JWTClaims::with_subject`, `with_audience` and `with_issuer`. `None` when
/// `value_json` is not JSON or signing fails.
#[verifier::external_body]
fn sign_registered(
    key: &ES384KeyPair,
    claim: &str,
    value_json: &str,
    valid_secs: u64,
    sub: &str,
    aud: &str,
    iss: &str,
) -> (r: Option<String>)
    requires
        valid_secs <= TOKEN_LIFETIME_SECS,
        !registered_claim(claim@),
    ensures
        r is Some ==> jwt_claim_json(r->Some_0@, claim@, value_json@),
        r is Some ==> jwt_lifetime(r->Some_0@) == Some(valid_secs as int),
        r is Some ==> jwt_claim(r->Some_0@, "sub"@) == Some(sub@) && jwt_claim(r->Some_0@, "aud"@)
            == Some(aud@) && jwt_claim(r->Some_0@, "iss"@) == Some(iss@),
{
    let mut custom = serde_json::Map::new();
    custom.insert(claim.to_string(), serde_json::from_str(value_json).ok()?);
    let claims = jwt_simple::claims::Claims::with_custom_claims(
        custom,
        jwt_simple::prelude::Duration::from_secs(valid_secs),
    ).with_subject(sub).with_audience(aud).with_issuer(iss);
    key.sign(claims).ok()
}

/// Relies on `ES384PublicKey::verify_token` with default options (signature, expiry and
/// not-before checked), reading the custom claims as a map of strings: the custom claim
/// `claim` of a token that verifies against the public half of `key` and whose custom
/// claims are all strings; `None` otherwise.
#[verifier::external_body]
fn verified_claim(key: &ES384KeyPair, token: &str, claim: &str) -> (r: Option<String>)
    ensures
        r is Some ==> jwt_claim(token@, claim@) == Some(r->Some_0@),
{
    key.public_key().verify_token::<std::collections::BTreeMap<String, String>>(token, None).ok()
        .and_then(|c| c.custom.get(claim).cloned())
}

/// Whether `h` parses as a PHC password-hash string (`password_hash::PasswordHash::new`).
pub uninterp spec fn hash_parses(h: Seq<char>) -> bool;

/// Whether `Argon2::default().verify_password` accepts password `p` against the parsed hash `h`.
pub uninterp spec fn argon2_accepts(h: Seq<char>, p: Seq<char>) -> bool;

/// Relies on `password_hash::PasswordHash::new` to parse the stored hash and on
/// `Argon2::verify_password`, which recomputes it from `pass` with the stored parameters.
/// `None` when the stored hash does not parse.
#[verifier::external_body]
fn check_password_hash(hash: &str, pass: &str) -> (r: Option<bool>)
    ensures
        match r {
            None => !hash_parses(hash@),
            Some(ok) => hash_parses(hash@) && ok == argon2_accepts(hash@, pass@),
        },
{
    match argon2::PasswordHash::new(hash) {
        Ok(h) => Some(argon2::Argon2::default().verify_password(pass.as_bytes(), &h).is_ok()),
        Err(_) => None,
    }
}

/// The outcome of the token-request rules as an HTTP status: the service must be this
/// registry, every scope must parse, and every scope must be authorized.
pub open spec fn token_request_status(
    perms: Seq<Permission>,
    service: Seq<char>,
    raw: Seq<String>,
    registry: Seq<char>,
) -> u16 {
    if exists|i: int| 0 <= i < raw.len() && (#[trigger] parse_scope(raw[i]@)) is None {
        400
    } else if exists|i: int|
        0 <= i < raw.len() && !authorizes(perms, (#[trigger] parse_scope(raw[i]@))->Some_0) {
        401
    } else if service != registry {
        401
    } else {
        200
    }
}

/// The scopes that a request names, each parsed.
pub open spec fn parsed_scopes(raw: Seq<String>) -> Seq<ScopeView> {
    raw.map_values(|s: String| parse_scope(s@)->Some_0)
}

/// A well-formed request for any registry but this one is unauthorized, whatever the
/// credentials, permissions and scopes.
pub proof fn lemma_foreign_service_unauthorized(
    perms: Seq<Permission>,
    service: Seq<char>,
    raw: Seq<String>,
    registry: Seq<char>,
)
    requires
        service != registry,
        forall|i: int| 0 <= i < raw.len() ==> (#[trigger] parse_scope(raw[i]@)) is Some,
    ensures
        token_request_status(perms, service, raw, registry) == 401,
{
}

/// Parses every requested scope, in order.
pub fn parse_scopes(raw: &Vec<String>) -> (r: Result<Vec<Scope>, Error>)
    ensures
        r is Ok <==> forall|i: int| 0 <= i < raw@.len() ==> (#[trigger] parse_scope(raw@[i]@)) is Some,
        r is Err ==> r->Err_0 is BadRequest,
        r is Ok ==> r->Ok_0@.len() == raw@.len() && forall|i: int|
            0 <= i < raw@.len() ==> Some(#[trigger] r->Ok_0@[i]@) == parse_scope(raw@[i]@),
{
    let mut out: Vec<Scope> = Vec::new();
    let mut i: usize = 0;
    while i < raw.len()
        invariant
            i <= raw@.len(),
            out@.len() == i,
            forall|k: int| 0 <= k < i ==> Some(#[trigger] out@[k]@) == parse_scope(raw@[k]@),
        decreases raw.len() - i,
    {
        let s = Scope::parse_str(raw[i].as_str());
        match s {
            Ok(s) => {
                out.push(s);
            },
            Err(e) => {
                return Err(e);
            },
        }
        i = i + 1;
    }
    assert forall|i: int| 0 <= i < raw@.len() implies (#[trigger] parse_scope(raw@[i]@)) is Some by {
        assert(Some(out@[i]@) == parse_scope(raw@[i]@));
    }
    Ok(out)
}

/// Decides a token request: the grammar of each scope, then each scope's authorization,
/// then the service. Returns the parsed scopes.
pub fn authorize_request(perms: &Vec<Permission>, query: &TokenQuery, registry: &str) -> (r: Result<
    Vec<Scope>,
    Error,
>)
    ensures
        r is Ok <==> token_request_status(perms@, query.service@, query.scope@, registry@) == 200,
        r is Err ==> r->Err_0.spec_status() == token_request_status(
            perms@,
            query.service@,
            query.scope@,
            registry@,
        ),
        r is Ok ==> r->Ok_0@.len() == query.scope@.len() && forall|i: int|
            0 <= i < query.scope@.len() ==> Some(#[trigger] r->Ok_0@[i]@) == parse_scope(
                query.scope@[i]@,
            ),
        r is Ok ==> views(r->Ok_0@) == parsed_scopes(query.scope@),
{
    let scopes = parse_scopes(&query.scope)?;
    let ok = authorize_all(&scopes, perms);
    proof {
        assert forall|i: int| 0 <= i < query.scope@.len() implies (#[trigger] parse_scope(
            query.scope@[i]@,
        ))->Some_0 == scopes@[i]@ by {}
        if ok is Err {
            let i = choose|i: int| 0 <= i < scopes@.len() && !authorizes(perms@, #[trigger] scopes@[i]@);
            assert(!authorizes(perms@, parse_scope(query.scope@[i]@)->Some_0));
        }
    }
    ok?;
    if !str_eq(query.service.as_str(), registry) {
        return Err(Error::Unauthorized("Invalid Registry"));
    }
    assert(views(scopes@) =~= parsed_scopes(query.scope@));
    Ok(scopes)
}

/// Whether `repo` may obtain an identity token for `account`: the account is a service
/// account and `repo` is registered to it. Any other existing account is refused alike.
pub fn check_bridge(account: &User, identifiers: &Vec<String>, repo: &str) -> (r: Result<(), Error>)
    ensures
        r is Ok <==> account.user_type == UserType::ServiceAccount && exists|i: int|
            0 <= i < identifiers@.len() && identifiers@[i]@ == repo@,
        r is Err ==> r->Err_0 is Unauthorized,
{
    if account.user_type != UserType::ServiceAccount || !is_registered(identifiers, repo) {
        return Err(Error::Unauthorized("This repo cant access this service account"));
    }
    Ok(())
}

/// An identity token must name the account it is presented for.
pub fn check_token_subject(user: &User, claims: &SvcClaims) -> (r: Result<(), Error>)
    ensures
        r is Ok <==> user.name@ == claims.svc_name@,
        r is Err ==> r->Err_0 is Unauthorized,
{
    if str_eq(user.name.as_str(), claims.svc_name.as_str()) {
        Ok(())
    } else {
        Err(Error::Unauthorized("Missmatched user and token"))
    }
}

/// The process's key material and the deployment settings that tokens carry.
pub struct InnerState {
    jwt_key: ES384KeyPair,
    public_der: Option<Vec<u8>>,
    own_url: String,
    docker_url: String,
}

impl InnerState {
    pub closed spec fn spec_own_url(&self) -> Seq<char> {
        self.own_url@
    }

    pub closed spec fn spec_docker_url(&self) -> Seq<char> {
        self.docker_url@
    }

    /// The DER encoding of the public half of the signing key, when it could be encoded.
    pub closed spec fn spec_public_der(&self) -> Option<Seq<u8>> {
        match self.public_der {
            Some(d) => Some(d@),
            None => None,
        }
    }

    /// Fresh key material for this process, never persisted: tokens signed by an
    /// earlier process do not verify against it.
    pub fn new(own_url: String, docker_url: String) -> (r: InnerState)
        ensures
            r.spec_own_url() == own_url@,
            r.spec_docker_url() == docker_url@,
    {
        let jwt_key = generate_key_pair();
        let public_der = public_key_der(&jwt_key);
        InnerState { jwt_key, public_der, own_url, docker_url }
    }

    /// The signing key pair.
    pub fn jwt_key(&self) -> &ES384KeyPair {
        &self.jwt_key
    }

    /// The public half of the signing key as SubjectPublicKeyInfo DER.
    pub fn public_der(&self) -> (r: &Option<Vec<u8>>)
        ensures
            match *r {
                Some(d) => self.spec_public_der() == Some(d@),
                None => self.spec_public_der() is None,
            },
    {
        &self.public_der
    }

    /// This deployment's own URL: the issuer of its tokens.
    pub fn own_url(&self) -> (r: &String)
        ensures
            r@ == self.spec_own_url(),
    {
        &self.own_url
    }

    /// The registry hostname that tokens are issued for.
    pub fn docker_url(&self) -> (r: &String)
        ensures
            r@ == self.spec_docker_url(),
    {
        &self.docker_url
    }

    /// Signs an identity token for the service account `name`, valid for five minutes.
    pub fn create_jwt(&self, name: String) -> (r: Result<String, Error>)
        ensures
            r is Ok ==> jwt_claim(r->Ok_0@, "svc_name"@) == Some(name@),
            r is Ok ==> jwt_lifetime(r->Ok_0@) == Some(TOKEN_LIFETIME_SECS as int),
            r is Ok ==> jwt_claim(r->Ok_0@, "sub"@) is None && jwt_claim(r->Ok_0@, "iss"@) is None
                && jwt_claim(r->Ok_0@, "aud"@) is None,
            r is Err ==> r->Err_0 is Opaque,
    {
        proof {
            lemma_custom_claim_names();
        }
        match sign_custom(&self.jwt_key, "svc_name", name.as_str(), TOKEN_LIFETIME_SECS) {
            Some(t) => Ok(t),
            None => Err(Error::Opaque("Failed to create JWT token")),
        }
    }

    /// Signs a registry token for `sub` on registry `aud` carrying the scopes `scope`,
    /// issued by this deployment; returns it with its lifetime in seconds.
    pub fn create_docker_jwt(&self, sub: &str, aud: &str, scope: Vec<Scope>) -> (r: Result<
        (String, u64),
        Error,
    >)
        ensures
            r is Ok ==> r->Ok_0.1 == TOKEN_LIFETIME_SECS,
            r is Ok ==> jwt_lifetime(r->Ok_0.0@) == Some(TOKEN_LIFETIME_SECS as int),
            r is Ok ==> jwt_claim(r->Ok_0.0@, "sub"@) == Some(sub@),
            r is Ok ==> jwt_claim(r->Ok_0.0@, "aud"@) == Some(aud@),
            r is Ok ==> jwt_claim(r->Ok_0.0@, "iss"@) == Some(self.spec_own_url()),
            r is Ok ==> jwt_claim_json(r->Ok_0.0@, "access"@, access_json(views(scope@))),
            r is Err ==> r->Err_0 is Opaque,
    {
        proof {
            lemma_custom_claim_names();
        }
        let claims = DockerClaims { access: scope };
        let access = claims.to_json();
        match sign_registered(
            &self.jwt_key,
            "access",
            access.as_str(),
            TOKEN_LIFETIME_SECS,
            sub,
            aud,
            self.own_url.as_str(),
        ) {
            Some(t) => Ok((t, TOKEN_LIFETIME_SECS)),
            None => Err(Error::Opaque("Failed to create JWT token")),
        }
    }

    /// Reads the claims of an identity token signed by this process.
    pub fn verify_jwt(&self, token: &str) -> (r: Result<SvcClaims, Error>)
        ensures
            r is Ok ==> jwt_claim(token@, "svc_name"@) == Some(r->Ok_0.svc_name@),
            r is Err ==> r->Err_0 is Unauthorized,
    {
        match verified_claim(&self.jwt_key, token, "svc_name") {
            Some(svc_name) => Ok(SvcClaims { svc_name }),
            None => Err(Error::Unauthorized("Invalid JWT token")),
        }
    }

    /// Service-account path: the password must be an identity token of this process that
    /// names this very account.
    pub fn permissions_for_svc_account(
        &self,
        user: &User,
        token: &str,
        permissions: Vec<Permission>,
    ) -> (r: Result<Vec<Permission>, Error>)
        ensures
            r is Ok ==> r->Ok_0@ == permissions@,
            r is Ok ==> jwt_claim(token@, "svc_name"@) == Some(user.name@),
            r is Err ==> r->Err_0 is Unauthorized,
    {
        let claims = self.verify_jwt(token)?;
        check_token_subject(user, &claims)?;
        Ok(permissions)
    }

    /// Human path: the password must match the stored argon2 hash.
    pub fn permissions_for_user(
        &self,
        pw_hash: &UserPasswordHash,
        pass: &str,
        permissions: Vec<Permission>,
    ) -> (r: Result<Vec<Permission>, Error>)
        ensures
            !hash_parses(pw_hash.pw_hash@) ==> r is Err && r->Err_0 is Opaque,
            hash_parses(pw_hash.pw_hash@) ==> (r is Ok <==> argon2_accepts(pw_hash.pw_hash@, pass@)),
            hash_parses(pw_hash.pw_hash@) && r is Err ==> r->Err_0 is Unauthorized,
            r is Ok ==> r->Ok_0@ == permissions@,
    {
        match check_password_hash(pw_hash.pw_hash.as_str(), pass) {
            None => Err(Error::Opaque("Stored password hash is malformed")),
            Some(true) => Ok(permissions),
            Some(false) => Err(Error::Unauthorized("Invalid password")),
        }
    }

    /// Resolves a credential to the principal's permission set, by the principal's kind.
    /// `pw_hash` is the stored hash of a human user (`None` when there is none), and
    /// `permissions` the principal's stored permissions.
    pub fn get_permissions(
        &self,
        user: &User,
        pass: &str,
        pw_hash: Option<&UserPasswordHash>,
        permissions: Vec<Permission>,
    ) -> (r: Result<Vec<Permission>, Error>)
        ensures
            r is Ok ==> r->Ok_0@ == permissions@,
            user.user_type == UserType::ServiceAccount && r is Err ==> r->Err_0 is Unauthorized,
            user.user_type == UserType::ServiceAccount && r is Ok ==> jwt_claim(pass@, "svc_name"@)
                == Some(user.name@),
            user.user_type == UserType::User && pw_hash is None ==> r is Err && r->Err_0 is BadRequest,
            user.user_type == UserType::User && pw_hash is Some ==> ({
                let h = pw_hash->Some_0.pw_hash@;
                &&& !hash_parses(h) ==> r is Err && r->Err_0 is Opaque
                &&& hash_parses(h) ==> (r is Ok <==> argon2_accepts(h, pass@))
                &&& hash_parses(h) && r is Err ==> r->Err_0 is Unauthorized
            }),
    {
        match user.user_type {
            UserType::ServiceAccount => self.permissions_for_svc_account(user, pass, permissions),
            UserType::User => match pw_hash {
                Some(h) => self.permissions_for_user(h, pass, permissions),
                None => Err(Error::BadRequest("User is serviceaccount")),
            },
        }
    }

    /// Issues a registry token to `user`, who holds `permissions`, for the request `query`.
    pub fn issue_token(&self, user: &User, permissions: &Vec<Permission>, query: &TokenQuery) -> (r:
        Result<TokenResponse, Error>)
        ensures
            token_request_status(permissions@, query.service@, query.scope@, self.spec_docker_url())
                != 200 ==> r is Err && r->Err_0.spec_status() == token_request_status(
                permissions@,
                query.service@,
                query.scope@,
                self.spec_docker_url(),
            ),
            token_request_status(permissions@, query.service@, query.scope@, self.spec_docker_url())
                == 200 ==> r is Ok || r->Err_0 is Opaque,
            r is Ok ==> r->Ok_0.expires_in == TOKEN_LIFETIME_SECS,
            r is Ok ==> jwt_lifetime(r->Ok_0.token@) == Some(TOKEN_LIFETIME_SECS as int),
            r is Ok ==> jwt_claim(r->Ok_0.token@, "sub"@) == Some(user.name@),
            r is Ok ==> jwt_claim(r->Ok_0.token@, "aud"@) == Some(query.service@),
            r is Ok ==> jwt_claim(r->Ok_0.token@, "iss"@) == Some(self.spec_own_url()),
            r is Ok ==> jwt_claim_json(
                r->Ok_0.token@,
                "access"@,
                access_json(parsed_scopes(query.scope@)),
            ),
    {
        let scopes = authorize_request(permissions, query, self.docker_url.as_str())?;
        let (token, expires_in) = self.create_docker_jwt(
            user.name.as_str(),
            query.service.as_str(),
            scopes,
        )?;
        Ok(TokenResponse { token, expires_in })
    }

    /// Identity bridge: issues an identity token for `account` to the repository `repo`,
    /// given the identifiers registered to the account.
    pub fn identify(&self, account: &User, identifiers: &Vec<String>, repo: &str) -> (r: Result<
        IdentifyResponse,
        Error,
    >)
        ensures
            account.user_type != UserType::ServiceAccount ==> r is Err && r->Err_0 is Unauthorized,
            account.user_type == UserType::ServiceAccount && !(exists|i: int|
                0 <= i < identifiers@.len() && identifiers@[i]@ == repo@) ==> r is Err
                && r->Err_0 is Unauthorized,
            r is Ok ==> account.user_type == UserType::ServiceAccount && exists|i: int|
                0 <= i < identifiers@.len() && identifiers@[i]@ == repo@,
            account.user_type == UserType::ServiceAccount && (exists|i: int|
                0 <= i < identifiers@.len() && identifiers@[i]@ == repo@) ==> r is Ok
                || r->Err_0 is Opaque,
            r is Ok ==> jwt_claim(r->Ok_0.accesstoken@, "svc_name"@) == Some(account.name@),
            r is Err ==> !(r->Err_0 is NotFound),
    {
        check_bridge(account, identifiers, repo)?;
        let accesstoken = self.create_jwt(account.name.clone())?;
        Ok(IdentifyResponse { accesstoken })
    }
}

} // verus!
