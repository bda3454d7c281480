//! Session tokens: signed, self-contained statements of who is calling.
//!
//! The claims are built here as plain values; jwt_simple encodes, signs and
//! checks them.

use std::collections::BTreeMap;

use jwt_simple::algorithms::{RS384KeyPair, RS384PublicKey};
use jwt_simple::prelude::{
    Audiences, Duration, HashSet, JWTClaims, RSAKeyPairLike, RSAPublicKeyLike,
    VerificationOptions,
};
use vstd::prelude::*;

use crate::model::{JwtInformation, Uuid};

verus! {

#[verifier::external_type_specification]
#[verifier::external_body]
pub struct ExRS384KeyPair(RS384KeyPair);

#[verifier::external_type_specification]
#[verifier::external_body]
pub struct ExRS384PublicKey(RS384PublicKey);

/// Who issues the tokens.
pub const ISSUER: &'static str = "Brainn";

/// Whom the tokens are meant for.
pub const AUDIENCE: &'static str = "HjärnorFörening";

/// The payload key that holds the user's display name.
pub const NAME_KEY: &'static str = "brainname";

/// The payload key that holds the user's identifier.
pub const ID_KEY: &'static str = "id";

/// The latest second that a token's timestamps can hold.
pub const MAX_TIME_SECS: u64 = 0xffff_ffff;

/// The longest token lifetime, in days, that the timestamps can hold.
pub const MAX_LIFETIME_DAYS: u64 = 49710;

/// The claims of a token as they are issued.
pub struct SessionClaims {
    pub issued_at: u64,
    pub invalid_before: u64,
    pub expires_at: u64,
    pub issuer: String,
    pub audience: String,
    pub subject: String,
    pub custom: Vec<(String, String)>,
}

/// The claims of a token that passed jwt_simple's checks.
pub struct VerifiedClaims {
    pub issuer: Option<String>,
    pub subject: Option<String>,
    pub audiences: Vec<String>,
    pub custom: Vec<(String, String)>,
}

/// The text of a list of key/value pairs.
pub open spec fn pairs_view(pairs: Seq<(String, String)>) -> Seq<(Seq<char>, Seq<char>)> {
    pairs.map_values(|p: (String, String)| (p.0@, p.1@))
}

/// Whether text `a` comes before text `b`, comparing character by
/// character (the order in which a `BTreeMap<String, _>` keeps its keys).
pub open spec fn text_before(a: Seq<char>, b: Seq<char>) -> bool
    decreases a.len(),
{
    if a.len() == 0 {
        b.len() > 0
    } else if b.len() == 0 {
        false
    } else if a[0] != b[0] {
        (a[0] as u32) < (b[0] as u32)
    } else {
        text_before(a.drop_first(), b.drop_first())
    }
}

/// The pairs' keys are strictly increasing, so also distinct.
pub open spec fn keys_ascending(pairs: Seq<(Seq<char>, Seq<char>)>) -> bool {
    forall|i: int, j: int| 0 <= i < j < pairs.len() ==> text_before(pairs[i].0, pairs[j].0)
}

/// The names of the standard claims, which a payload key must not take.
pub open spec fn standard_claim(key: Seq<char>) -> bool {
    key == "iat"@ || key == "exp"@ || key == "nbf"@ || key == "iss"@ || key == "sub"@ || key
        == "aud"@ || key == "jti"@ || key == "nonce"@
}

/// No pair's key is the name of a standard claim.
pub open spec fn keys_custom(pairs: Seq<(Seq<char>, Seq<char>)>) -> bool {
    forall|i: int| 0 <= i < pairs.len() ==> !standard_claim(#[trigger] pairs[i].0)
}

/// The custom claims that a token's claims segment holds, as jwt_simple
/// decodes them, in increasing order of their keys.
pub uninterp spec fn token_payload(token: Seq<char>) -> Seq<(Seq<char>, Seq<char>)>;

/// The value of the first pair whose key is `key`.
pub open spec fn find_value(pairs: Seq<(Seq<char>, Seq<char>)>, key: Seq<char>) -> Option<
    Seq<char>,
>
    decreases pairs.len(),
{
    if pairs.len() == 0 {
        None
    } else if pairs[0].0 == key {
        Some(pairs[0].1)
    } else {
        find_value(pairs.drop_first(), key)
    }
}

/// The payload that a token carries for a user.
pub open spec fn payload_of(id: Seq<char>, name: Seq<char>) -> Seq<(Seq<char>, Seq<char>)> {
    seq![(NAME_KEY@, name), (ID_KEY@, id)]
}

/// The user (identifier, name) that a payload names, if it names one.
pub open spec fn payload_user(pairs: Seq<(Seq<char>, Seq<char>)>) -> Option<(Seq<char>, Seq<char>)> {
    match (find_value(pairs, ID_KEY@), find_value(pairs, NAME_KEY@)) {
        (Some(id), Some(name)) => Some((id, name)),
        _ => None,
    }
}

/// Relies on jwt_simple's `RSAKeyPairLike::sign` for RS384 (`Token::build`):
/// encodes the claims as one JSON object, the custom pairs flattened beside
/// the standard ones, and signs them; the token then carries exactly those
/// pairs. The pairs pass through a `BTreeMap`, hence increasing keys, and
/// must not take a standard claim's name. coarsetime keeps seconds in 32
/// bits, hence the bounds.
#[verifier::external_body]
fn sign_claims(key: &RS384KeyPair, claims: &SessionClaims) -> (r: Option<String>)
    requires
        claims.issued_at <= MAX_TIME_SECS,
        claims.invalid_before <= MAX_TIME_SECS,
        claims.expires_at <= MAX_TIME_SECS,
        keys_ascending(pairs_view(claims.custom@)),
        keys_custom(pairs_view(claims.custom@)),
    ensures
        r matches Some(t) ==> token_payload(t@) == pairs_view(claims.custom@),
{
    let c = JWTClaims {
        issued_at: Some(Duration::from_secs(claims.issued_at)),
        expires_at: Some(Duration::from_secs(claims.expires_at)),
        invalid_before: Some(Duration::from_secs(claims.invalid_before)),
        issuer: Some(claims.issuer.clone()),
        subject: Some(claims.subject.clone()),
        audiences: Some(Audiences::AsString(claims.audience.clone())),
        jwt_id: None,
        nonce: None,
        custom: claims.custom.iter().cloned().collect::<BTreeMap<String, String>>(),
    };
    key.sign(c).ok()
}

/// Relies on jwt_simple's `RSAPublicKeyLike::verify_token` for RS384, with
/// the issuer and the audience as the only ones allowed: `Some` only where
/// the signature holds, the token is within its lifetime, its issuer is
/// `issuer` and one of its audiences is `audience`; the custom pairs are
/// those the token's claims segment holds (collected from a `BTreeMap`).
#[verifier::external_body]
fn verify_claims(key: &RS384PublicKey, token: &str, issuer: &str, audience: &str) -> (r: Option<
    VerifiedClaims,
>)
    requires
        audience@.len() > 0,
    ensures
        r matches Some(c) ==> {
            &&& c.issuer matches Some(i) && i@ == issuer@
            &&& exists|k: int| 0 <= k < c.audiences@.len() && (#[trigger] c.audiences@[k])@ == audience@
            &&& pairs_view(c.custom@) == token_payload(token@)
        },
{
    let mut options = VerificationOptions::default();
    options.allowed_issuers = Some(HashSet::from([issuer.to_string()]));
    options.allowed_audiences = Some(HashSet::from([audience.to_string()]));
    let c = key.verify_token::<BTreeMap<String, String>>(token, Some(options)).ok()?;
    Some(VerifiedClaims {
        issuer: c.issuer,
        subject: c.subject,
        audiences: c.audiences.map(|a| a.into_set().into_iter().collect()).unwrap_or_default(),
        custom: c.custom.into_iter().collect(),
    })
}

/// Why a token could not be made.
#[derive(Debug, Clone, Copy, PartialEq, Eq, Structural)]
pub enum SessionError {
    /// The lifetime runs past what the timestamps can hold.
    LifetimeTooLong,
}

/// The key material and token lifetime, handed in from configuration.
pub struct SessionKeys {
    signing: RS384KeyPair,
    verifying: RS384PublicKey,
    lifetime_secs: u64,
}

impl SessionKeys {
    pub closed spec fn spec_lifetime_secs(&self) -> u64 {
        self.lifetime_secs
    }

    /// Keys that are already parsed; the lifetime is in days.
    pub fn new(signing: RS384KeyPair, verifying: RS384PublicKey, lifetime_days: u64) -> (r: Result<
        SessionKeys,
        SessionError,
    >)
        ensures
            r is Ok <==> lifetime_days <= MAX_LIFETIME_DAYS,
            r matches Ok(k) ==> k.spec_lifetime_secs() == lifetime_days * 86400,
            r matches Err(e) ==> e == SessionError::LifetimeTooLong,
    {
        if lifetime_days > MAX_LIFETIME_DAYS {
            return Err(SessionError::LifetimeTooLong);
        }
        Ok(SessionKeys { signing, verifying, lifetime_secs: lifetime_days * 86400 })
    }
}

/// The value of the first pair whose key is `key`.
pub fn lookup(pairs: &Vec<(String, String)>, key: &str) -> (r: Option<String>)
    ensures
        r matches Some(v) ==> find_value(pairs_view(pairs@), key@) == Some(v@),
        r is None ==> find_value(pairs_view(pairs@), key@) is None,
{
    let wanted = key.to_owned();
    let mut i: usize = 0;
    assert(pairs_view(pairs@).skip(0) =~= pairs_view(pairs@));
    while i < pairs.len()
        invariant
            0 <= i <= pairs@.len(),
            wanted@ == key@,
            find_value(pairs_view(pairs@), key@) == find_value(
                pairs_view(pairs@).skip(i as int),
                key@,
            ),
        decreases pairs@.len() - i,
    {
        let ghost rest = pairs_view(pairs@).skip(i as int);
        assert(rest.drop_first() =~= pairs_view(pairs@).skip(i + 1));
        assert(rest[0] == (pairs@[i as int].0@, pairs@[i as int].1@));
        let same = pairs[i].0.eq(&wanted);
        if same {
            let v = pairs[i].1.clone();
            assert(rest.len() > 0 && rest[0].0 == key@);
            assert(find_value(rest, key@) == Some(v@));
            return Some(v);
        }
        i = i + 1;
    }
    None
}

/// The user that a token's payload names.
pub fn information_of(pairs: &Vec<(String, String)>) -> (r: Option<JwtInformation>)
    ensures
        r matches Some(info) ==> payload_user(pairs_view(pairs@)) == Some((info.id@, info.brainname@)),
        r is None ==> payload_user(pairs_view(pairs@)) is None,
{
    let id = lookup(pairs, ID_KEY);
    let name = lookup(pairs, NAME_KEY);
    match (id, name) {
        (Some(id), Some(brainname)) => Some(JwtInformation { brainname, id }),
        _ => None,
    }
}

/// The payload that a token carries for `info`.
pub fn payload(info: &JwtInformation) -> (r: Vec<(String, String)>)
    ensures
        pairs_view(r@) == payload_of(info.id@, info.brainname@),
{
    let mut r: Vec<(String, String)> = Vec::new();
    r.push((String::from_str(NAME_KEY), info.brainname.clone()));
    r.push((String::from_str(ID_KEY), info.id.clone()));
    assert(pairs_view(r@) =~= payload_of(info.id@, info.brainname@));
    r
}

/// The claims of a token for the user `id` named `brainname`, issued at
/// `now` and valid for `lifetime_secs`; `None` where the expiry would run
/// past the latest time a token can hold.
pub fn session_claims(id: &str, brainname: &str, now: u64, lifetime_secs: u64) -> (r: Option<
    SessionClaims,
>)
    ensures
        r is Some <==> now as int + lifetime_secs as int <= MAX_TIME_SECS as int,
        r matches Some(c) ==> {
            &&& c.issued_at == now
            &&& c.invalid_before == now
            &&& c.expires_at == now + lifetime_secs
            &&& keys_ascending(pairs_view(c.custom@))
            &&& keys_custom(pairs_view(c.custom@))
            &&& c.issuer@ == ISSUER@
            &&& c.audience@ == AUDIENCE@
            &&& c.subject@ == id@
            &&& pairs_view(c.custom@) == payload_of(id@, brainname@)
        },
{
    if now > MAX_TIME_SECS || lifetime_secs > MAX_TIME_SECS - now {
        return None;
    }
    let info = JwtInformation { brainname: brainname.to_owned(), id: id.to_owned() };
    proof {
        lemma_payload_keys(id@, brainname@);
    }
    Some(
        SessionClaims {
            issued_at: now,
            invalid_before: now,
            expires_at: now + lifetime_secs,
            issuer: String::from_str(ISSUER),
            audience: String::from_str(AUDIENCE),
            subject: id.to_owned(),
            custom: payload(&info),
        },
    )
}

/// A signed token for the user `id` named `brainname`, valid from now for
/// the keys' lifetime; `None` where the signer fails or the expiry runs past
/// the latest time a token can hold.
pub fn create_jwt(keys: &SessionKeys, id: &str, brainname: &str) -> (r: Option<String>)
    ensures
        r matches Some(t) ==> token_payload(t@) == payload_of(id@, brainname@),
{
    let now = crate::clock::now_secs();
    match session_claims(id, brainname, now, keys.lifetime_secs) {
        Some(claims) => sign_claims(&keys.signing, &claims),
        None => None,
    }
}

/// The claims of a token that jwt_simple accepts: a signature by the keys,
/// a live lifetime, this library's issuer and audience.
pub fn verify_session_claims(keys: &SessionKeys, raw_token: &str) -> (r: Option<VerifiedClaims>)
    ensures
        r matches Some(c) ==> {
            &&& c.issuer matches Some(i) && i@ == ISSUER@
            &&& exists|k: int| 0 <= k < c.audiences@.len() && (#[trigger] c.audiences@[k])@ == AUDIENCE@
            &&& pairs_view(c.custom@) == token_payload(raw_token@)
        },
{
    proof {
        reveal_strlit("HjärnorFörening");
    }
    verify_claims(&keys.verifying, raw_token, ISSUER, AUDIENCE)
}

/// The user that accepted claims name in their payload.
pub fn claims_information(claims: &VerifiedClaims) -> (r: Option<JwtInformation>)
    ensures
        r matches Some(info) ==> payload_user(pairs_view(claims.custom@)) == Some(
            (info.id@, info.brainname@),
        ),
        r is None ==> payload_user(pairs_view(claims.custom@)) is None,
{
    information_of(&claims.custom)
}

/// The user that a token speaks for: `claims_information` of what
/// `verify_session_claims` accepts, `None` where it accepts nothing.
pub fn konvertera_jwt(keys: &SessionKeys, raw_token: &str) -> (r: Option<JwtInformation>)
    ensures
        r matches Some(info) ==> payload_user(token_payload(raw_token@)) == Some(
            (info.id@, info.brainname@),
        ),
{
    match verify_session_claims(keys, raw_token) {
        Some(claims) => claims_information(&claims),
        None => None,
    }
}

/// The keys of a user's payload are in increasing order and are no standard
/// claim's name.
pub proof fn lemma_payload_keys(id: Seq<char>, name: Seq<char>)
    ensures
        keys_ascending(payload_of(id, name)),
        keys_custom(payload_of(id, name)),
{
    reveal_strlit("id");
    reveal_strlit("brainname");
    reveal_strlit("iat");
    reveal_strlit("exp");
    reveal_strlit("nbf");
    reveal_strlit("iss");
    reveal_strlit("sub");
    reveal_strlit("aud");
    reveal_strlit("jti");
    reveal_strlit("nonce");
    let p = payload_of(id, name);
    assert(NAME_KEY@[0] == 'b' && ID_KEY@[0] == 'i');
    assert(text_before(NAME_KEY@, ID_KEY@));
    assert forall|i: int| 0 <= i < p.len() implies !standard_claim(#[trigger] p[i].0) by {
        assert(p[i].0.len() == 2 || p[i].0.len() == 9);
    }
}

/// A token that names a user, read back by `konvertera_jwt`, gives that
/// same user: what `create_jwt` writes is what verification reads.
pub proof fn lemma_token_round_trip(
    token: Seq<char>,
    id: Seq<char>,
    name: Seq<char>,
    read_id: Seq<char>,
    read_name: Seq<char>,
)
    requires
        token_payload(token) == payload_of(id, name),
        payload_user(token_payload(token)) == Some((read_id, read_name)),
    ensures
        read_id == id,
        read_name == name,
{
    lemma_claims_round_trip(id, name);
}

/// The payload written for a user names that same user when it is read
/// back.
pub proof fn lemma_claims_round_trip(id: Seq<char>, name: Seq<char>)
    ensures
        payload_user(payload_of(id, name)) == Some((id, name)),
{
    reveal_strlit("id");
    reveal_strlit("brainname");
    let p = payload_of(id, name);
    assert(p.drop_first().drop_first() =~= Seq::<(Seq<char>, Seq<char>)>::empty());
    assert(ID_KEY@ != NAME_KEY@) by {
        assert(ID_KEY@.len() != NAME_KEY@.len());
    }
    assert(find_value(p, NAME_KEY@) == Some(name));
    assert(find_value(p.drop_first(), ID_KEY@) == Some(id));
}

} // verus!
