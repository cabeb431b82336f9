use vstd::prelude::*;

verus! {

/// The text that introduces a bearer token in an `Authorization` header.
pub const BEARER_PREFIX: &'static str = "Bearer ";

/// Decoded, verified payload of a bearer token.
#[derive(Clone, Debug, PartialEq, Eq)]
pub struct Claims {
    pub sub: String,
    pub email: Option<String>,
}

/// What authentication established about the caller of one request.
#[derive(Clone, Debug, PartialEq, Eq)]
pub enum AuthDecision {
    Authenticated(Claims),
    Unauthenticated,
}

/// The token validator refused a token; the reason is not told apart.
#[derive(Clone, Copy, Debug, PartialEq, Eq)]
pub struct TokenRejected;

/// Signature algorithms a token may be verified with.
#[derive(Clone, Copy, Debug, PartialEq, Eq)]
pub enum Algorithm {
    HS256,
    HS384,
    HS512,
    ES256,
    ES384,
    RS256,
    RS384,
    RS512,
    PS256,
    PS384,
    PS512,
    EdDSA,
}

/// Process-wide validation rules, fixed at startup.
#[derive(Clone, Debug, PartialEq, Eq)]
pub struct ValidationConfig {
    pub allowed_algorithm: Algorithm,
    pub require_audience: bool,
    pub expected_audience: Option<String>,
}

impl ValidationConfig {
    /// An audience check is only asked for together with the audience to expect.
    pub open spec fn wf(&self) -> bool {
        self.require_audience ==> self.expected_audience is Some
    }

    /// Rules that verify the signature with `alg` and skip the audience check.
    pub fn without_audience(alg: Algorithm) -> (r: ValidationConfig)
        ensures
            r.wf(),
            r.allowed_algorithm == alg,
            !r.require_audience,
            r.expected_audience is None,
    {
        ValidationConfig { allowed_algorithm: alg, require_audience: false, expected_audience: None }
    }

    /// Rules that verify the signature with `alg` and require the audience `aud`.
    pub fn with_audience(alg: Algorithm, aud: String) -> (r: ValidationConfig)
        ensures
            r.wf(),
            r.allowed_algorithm == alg,
            r.require_audience,
            r.expected_audience == Some(aud),
    {
        ValidationConfig {
            allowed_algorithm: alg,
            require_audience: true,
            expected_audience: Some(aud),
        }
    }
}

/// The characters of `BEARER_PREFIX`.
pub open spec fn bearer_prefix() -> Seq<char> {
    seq!['B', 'e', 'a', 'r', 'e', 'r', ' ']
}

/// The token carried by an `Authorization` header value: what follows the
/// bearer prefix, when that is not empty.
pub open spec fn token_of(header: Seq<char>) -> Option<Seq<char>> {
    let n = bearer_prefix().len();
    if header.len() > n && header.subrange(0, n as int) == bearer_prefix() {
        Some(header.subrange(n as int, header.len() as int))
    } else {
        None
    }
}

/// The bearer token of a request whose `Authorization` header is `header`.
pub open spec fn request_token(header: Option<Seq<char>>) -> Option<Seq<char>> {
    match header {
        Some(h) => token_of(h),
        None => None,
    }
}

/// The characters of an `Authorization` header, when the request has one.
pub open spec fn header_view(header: Option<&str>) -> Option<Seq<char>> {
    match header {
        Some(h) => Some(h@),
        None => None,
    }
}

/// Extracts the bearer token from an `Authorization` header value.
pub fn bearer_token(header: &str) -> (r: Option<String>)
    ensures
        match r {
            Some(t) => token_of(header@) == Some(t@),
            None => token_of(header@) is None,
        },
{
    let prefix = BEARER_PREFIX;
    proof {
        reveal_strlit("Bearer ");
        assert(prefix@ =~= bearer_prefix());
    }
    let n = header.unicode_len();
    let k = prefix.unicode_len();
    if n <= k {
        return None;
    }
    let mut i: usize = 0;
    while i < k
        invariant
            k == bearer_prefix().len(),
            prefix@ == bearer_prefix(),
            n == header@.len(),
            k < n,
            i <= k,
            header@.subrange(0, i as int) == bearer_prefix().subrange(0, i as int),
        decreases k - i,
    {
        if header.get_char(i) != prefix.get_char(i) {
            assert(header@.subrange(0, k as int)[i as int] != bearer_prefix()[i as int]);
            return None;
        }
        assert(header@.subrange(0, i + 1) =~= header@.subrange(0, i as int).push(header@[i as int]));
        assert(bearer_prefix().subrange(0, i + 1) =~= bearer_prefix().subrange(0, i as int).push(
            bearer_prefix()[i as int],
        ));
        i = i + 1;
    }
    assert(bearer_prefix().subrange(0, k as int) =~= bearer_prefix());
    let rest = header.substring_char(k, n);
    Some(rest.to_owned())
}

/// The first authentication step on a request: either it has no token and
/// is decided, or its token goes to the validator.
#[derive(Clone, Debug, PartialEq, Eq)]
pub enum GateStep {
    Validate(String),
    Decided(AuthDecision),
}

/// Begins authenticating a request whose `Authorization` header is `header`.
pub fn gate_start(header: Option<&str>) -> (r: GateStep)
    ensures
        match request_token(header_view(header)) {
            Some(t) => r matches GateStep::Validate(s) && s@ == t,
            None => r matches GateStep::Decided(AuthDecision::Unauthenticated),
        },
{
    match header {
        Some(h) => match bearer_token(h) {
            Some(t) => GateStep::Validate(t),
            None => GateStep::Decided(AuthDecision::Unauthenticated),
        },
        None => GateStep::Decided(AuthDecision::Unauthenticated),
    }
}

/// The decision that a validator outcome leads to.
pub open spec fn decision_of(outcome: Result<Claims, TokenRejected>) -> AuthDecision {
    match outcome {
        Ok(c) => AuthDecision::Authenticated(c),
        Err(_) => AuthDecision::Unauthenticated,
    }
}

/// Ends authentication once the validator has answered on the token.
pub fn gate_finish(outcome: Result<Claims, TokenRejected>) -> (r: AuthDecision)
    ensures
        r == decision_of(outcome),
{
    match outcome {
        Ok(c) => AuthDecision::Authenticated(c),
        Err(_) => AuthDecision::Unauthenticated,
    }
}

} // verus!
