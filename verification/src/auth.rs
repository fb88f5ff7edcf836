use crate::approval::{
    authorizer_date_facts, authorizer_policies, authorizer_str_facts, build_authorizer, query_users,
    run_authorization, Answered,
};
use crate::error::{AppError, Denial, Rejection};
use biscuit_auth::error::Format as KeyFormatError;
use biscuit_auth::error::Token as TokenError;
use biscuit_auth::builder;
use biscuit_auth::{AuthorizerBuilder, Biscuit};
use vstd::prelude::*;

verus! {

// ---------------------------------------------------------------------------
// Outside types that the authorization logic carries through.
// ---------------------------------------------------------------------------

#[verifier::external_type_specification]
#[verifier::external_body]
pub struct ExBiscuit(Biscuit);

#[verifier::external_type_specification]
#[verifier::external_body]
pub struct ExAuthorizerBuilder(AuthorizerBuilder);

#[verifier::external_type_specification]
#[verifier::external_body]
pub struct ExTokenError(TokenError);

#[verifier::external_type_specification]
#[verifier::external_body]
pub struct ExKeyFormatError(KeyFormatError);

// ---------------------------------------------------------------------------
// Names for what biscuit-auth computes.
// ---------------------------------------------------------------------------

/// What `Biscuit::from_base64` makes of `token`, a base64 (URL-safe)
/// serialized biscuit, with the root public key written as `public_key` (in
/// biscuit's `algorithm/hex` text form): `None` if it does not deserialize or
/// its signatures do not verify, else the signatures of its blocks (what
/// `Biscuit::revocation_identifiers` gives), in block order.
pub uninterp spec fn read_token(token: Seq<u8>, public_key: Seq<char>) -> Option<Seq<Seq<u8>>>;

/// The signatures of a biscuit's blocks, in block order (what
/// `Biscuit::revocation_identifiers` gives).
pub uninterp spec fn biscuit_signatures(b: Biscuit) -> Seq<Seq<u8>>;

/// The public key (in biscuit's `algorithm/hex` text form) that belongs to the
/// private key written as `private_key`, or `None` if that text is no private key.
pub uninterp spec fn public_key_of(private_key: Seq<char>) -> Option<Seq<char>>;

/// The facts with one string term that an authorizer builder holds, in the
/// order they were added: (predicate name, string).
pub uninterp spec fn builder_str_facts(b: AuthorizerBuilder) -> Seq<(Seq<char>, Seq<char>)>;

/// The facts with one date term that an authorizer builder holds, in the
/// order they were added: (predicate name, seconds since the Unix epoch).
pub uninterp spec fn builder_date_facts(b: AuthorizerBuilder) -> Seq<(Seq<char>, u64)>;

/// The policies that an authorizer builder holds, in order, each read as the
/// (predicate, variable) of an `allow if predicate($variable)` policy.
pub uninterp spec fn builder_policies(b: AuthorizerBuilder) -> Seq<(Seq<char>, Seq<char>)>;

// ---------------------------------------------------------------------------
// Trusted wrappers around biscuit-auth.
// ---------------------------------------------------------------------------

/// Calls `Biscuit::from_base64` with the root key parsed by `PublicKey::from_str`.
/// Claims: the call succeeds exactly when `read_token` names a biscuit, and
/// then the biscuit has the block signatures named.
#[verifier::external_body]
fn verify_token(token: &[u8], public_key: &str) -> (res: Result<Biscuit, TokenError>)
    ensures
        match res {
            Ok(b) => read_token(token@, public_key@) == Some(biscuit_signatures(b)),
            Err(_) => read_token(token@, public_key@) is None,
        },
{
    let key: biscuit_auth::PublicKey = match public_key.parse() {
        Ok(k) => k,
        Err(e) => return Err(TokenError::Format(e)),
    };
    Biscuit::from_base64(token, key)
}

/// Calls `PrivateKey::from_str`, then `KeyPair::from` and `PublicKey::print`.
/// Claims: it returns the public key text of the private key, as named by
/// `public_key_of`, and fails exactly when that name is `None`.
#[verifier::external_body]
fn derive_public_key(private_key: &str) -> (res: Result<String, KeyFormatError>)
    ensures
        match res {
            Ok(k) => public_key_of(private_key@) == Some(k@),
            Err(_) => public_key_of(private_key@) is None,
        },
{
    match private_key.parse::<biscuit_auth::PrivateKey>() {
        Ok(k) => Ok(biscuit_auth::KeyPair::from(&k).public().print()),
        Err(e) => Err(e),
    }
}

/// Calls `AuthorizerBuilder::new`. Claims: the builder holds no fact and no policy.
#[verifier::external_body]
fn new_authorizer_builder() -> (b: AuthorizerBuilder)
    ensures
        builder_str_facts(b) == Seq::<(Seq<char>, Seq<char>)>::empty(),
        builder_date_facts(b) == Seq::<(Seq<char>, u64)>::empty(),
        builder_policies(b) == Seq::<(Seq<char>, Seq<char>)>::empty(),
{
    AuthorizerBuilder::new()
}

/// The one term of a fact that the service adds to an authorizer.
pub enum FactTerm {
    Str(String),
    /// Seconds since the Unix epoch.
    Date(u64),
}

/// Calls `AuthorizerBuilder::fact` with `Fact::new(name, [term])`, the term
/// being `Term::Str` or `Term::Date`. Claims: such a fact has no parameters,
/// so the call succeeds, and the fact is appended to the string or the date
/// facts; nothing else changes.
#[verifier::external_body]
fn add_fact(b: AuthorizerBuilder, name: &str, term: FactTerm) -> (res: Result<AuthorizerBuilder, TokenError>)
    ensures
        res is Ok,
        res matches Ok(r) ==> builder_policies(r) == builder_policies(b),
        res matches Ok(r) ==> match term {
            FactTerm::Str(v) => builder_str_facts(r) == builder_str_facts(b).push((name@, v@))
                && builder_date_facts(r) == builder_date_facts(b),
            FactTerm::Date(secs) => builder_date_facts(r) == builder_date_facts(b).push((name@, secs))
                && builder_str_facts(r) == builder_str_facts(b),
        },
{
    let term = match term {
        FactTerm::Str(v) => biscuit_auth::builder::Term::Str(v),
        FactTerm::Date(secs) => biscuit_auth::builder::Term::Date(secs),
    };
    b.fact(biscuit_auth::builder::Fact::new(name.to_string(), vec![term]))
}

/// Calls `AuthorizerBuilder::policy` with the allow policy
/// `allow if predicate($variable)`, built as the datalog parser builds it: one
/// query rule with the head `query()` and the one body predicate. Claims: the
/// policy has no parameters, so the call succeeds, and the policy is
/// appended; the facts do not change.
#[verifier::external_body]
fn add_allow_policy(b: AuthorizerBuilder, predicate: &str, variable: &str) -> (res: Result<AuthorizerBuilder, TokenError>)
    ensures
        res is Ok,
        res matches Ok(r) ==> builder_policies(r) == builder_policies(b).push((predicate@, variable@)),
        res matches Ok(r) ==> builder_str_facts(r) == builder_str_facts(b),
        res matches Ok(r) ==> builder_date_facts(r) == builder_date_facts(b),
{
    let body = builder::Predicate::new(predicate.to_string(), vec![builder::Term::Variable(variable.to_string())]);
    let head = builder::Predicate::new("query".to_string(), Vec::<builder::Term>::new());
    let rule = builder::Rule::new(head, vec![body], vec![], vec![]);
    b.policy(builder::Policy { queries: vec![rule], kind: builder::PolicyKind::Allow })
}

// ---------------------------------------------------------------------------
// The service's root key.
// ---------------------------------------------------------------------------

/// The key material that tokens are checked against.
pub struct Auth {
    /// The root public key, in biscuit's `algorithm/hex` text form.
    pub public_key: String,
}

impl Auth {
    /// Derives the root public key from the service's private key. Fails,
    /// with biscuit's key-format error, when the text is no private key.
    pub fn from_private_key(private_key: &str) -> (res: Result<Auth, KeyFormatError>)
        ensures
            match res {
                Ok(a) => public_key_of(private_key@) == Some(a.public_key@),
                Err(_) => public_key_of(private_key@) is None,
            },
    {
        match derive_public_key(private_key) {
            Ok(k) => Ok(Auth { public_key: k }),
            Err(e) => Err(e),
        }
    }
}

// ---------------------------------------------------------------------------
// Reading the bearer token from the `Authorization` header.
// ---------------------------------------------------------------------------

/// A byte that a header value may hold and still be read as text.
pub open spec fn is_visible_ascii(b: u8) -> bool {
    (32 <= b && b < 127) || b == 9
}

/// The bytes of `"Bearer "`.
pub open spec fn bearer_prefix() -> Seq<u8> {
    seq![66u8, 101u8, 97u8, 114u8, 101u8, 114u8, 32u8]
}

/// What the `Authorization` header (absent, or its raw bytes) yields: the
/// token after `"Bearer "`, or the error the request is refused with.
pub open spec fn spec_bearer_token(header: Option<Seq<u8>>) -> Result<Seq<u8>, AppError> {
    match header {
        None => Err(AppError::Unauthorized(Denial::Unauthorized)),
        Some(h) => if !(forall|i: int| 0 <= i < h.len() ==> is_visible_ascii(#[trigger] h[i])) {
            Err(AppError::BadRequest(Rejection::BadHeader))
        } else if !(h.len() >= 7 && h.take(7) == bearer_prefix()) {
            Err(AppError::Unauthorized(Denial::Unauthorized))
        } else {
            Ok(h.skip(7))
        },
    }
}

pub open spec fn opt_view(header: Option<&[u8]>) -> Option<Seq<u8>> {
    match header {
        None => None,
        Some(h) => Some(h@),
    }
}

fn all_visible_ascii(h: &[u8]) -> (res: bool)
    ensures
        res <==> (forall|i: int| 0 <= i < h@.len() ==> is_visible_ascii(#[trigger] h@[i])),
{
    let mut i: usize = 0;
    while i < h.len()
        invariant
            i <= h@.len(),
            forall|j: int| 0 <= j < i ==> is_visible_ascii(#[trigger] h@[j]),
        decreases h@.len() - i,
    {
        let b = h[i];
        if !((32 <= b && b < 127) || b == 9) {
            return false;
        }
        i = i + 1;
    }
    true
}

fn has_bearer_prefix(h: &[u8]) -> (res: bool)
    ensures
        res <==> (h@.len() >= 7 && h@.take(7) == bearer_prefix()),
{
    if h.len() < 7 {
        return false;
    }
    let ok = h[0] == 66 && h[1] == 101 && h[2] == 97 && h[3] == 114 && h[4] == 101 && h[5] == 114
        && h[6] == 32;
    proof {
        if ok {
            assert(h@.take(7) =~= bearer_prefix());
        } else {
            if h@.take(7) == bearer_prefix() {
                assert(h@.take(7)[0] == h@[0]);
                assert(h@.take(7)[1] == h@[1]);
                assert(h@.take(7)[2] == h@[2]);
                assert(h@.take(7)[3] == h@[3]);
                assert(h@.take(7)[4] == h@[4]);
                assert(h@.take(7)[5] == h@[5]);
                assert(h@.take(7)[6] == h@[6]);
            }
        }
    }
    ok
}

/// Reads the bearer token from the raw bytes of the `Authorization` header:
/// a missing header or one that does not start with `"Bearer "` is
/// unauthorized; a header that is not visible ASCII is a bad request.
pub fn bearer_token(header: Option<&[u8]>) -> (res: Result<Vec<u8>, AppError>)
    ensures
        match spec_bearer_token(opt_view(header)) {
            Ok(t) => res matches Ok(r) && r@ == t,
            Err(e) => res == Err::<Vec<u8>, AppError>(e),
        },
{
    match header {
        None => Err(AppError::Unauthorized(Denial::Unauthorized)),
        Some(h) => {
            if !all_visible_ascii(h) {
                return Err(AppError::BadRequest(Rejection::BadHeader));
            }
            if !has_bearer_prefix(h) {
                return Err(AppError::Unauthorized(Denial::Unauthorized));
            }
            let mut token: Vec<u8> = Vec::new();
            let mut i: usize = 7;
            while i < h.len()
                invariant
                    7 <= i <= h@.len(),
                    token@ == h@.subrange(7, i as int),
                decreases h@.len() - i,
            {
                token.push(h[i]);
                i = i + 1;
                proof {
                    assert(token@ =~= h@.subrange(7, i as int));
                }
            }
            proof {
                assert(token@ =~= h@.skip(7));
            }
            Ok(token)
        },
    }
}

/// Whether a request with this `Authorization` header carries a token that
/// verifies against `public_key`.
pub open spec fn spec_authenticated(header: Option<Seq<u8>>, public_key: Seq<char>) -> bool {
    spec_bearer_token(header) matches Ok(t) && read_token(t, public_key) is Some
}

/// A token that verified against the service's root key.
pub struct ValidBiscuit(pub Biscuit);

impl ValidBiscuit {
    /// Authenticates a request: reads the bearer token from its
    /// `Authorization` header (absent, or its raw bytes) and verifies it
    /// against the root key. A token that does not verify is unauthorized.
    pub fn from_header(header: Option<&[u8]>, auth: &Auth) -> (res: Result<ValidBiscuit, AppError>)
        ensures
            res is Ok <==> spec_authenticated(opt_view(header), auth.public_key@),
            res matches Ok(vb) ==> read_token(spec_bearer_token(opt_view(header))->Ok_0, auth.public_key@)
                == Some(biscuit_signatures(vb.0)),
            res matches Err(e) ==> match spec_bearer_token(opt_view(header)) {
                Err(e0) => e == e0,
                Ok(_) => e == AppError::Unauthorized(Denial::Unauthorized),
            },
    {
        let token = bearer_token(header)?;
        match verify_token(token.as_slice(), auth.public_key.as_str()) {
            Ok(b) => Ok(ValidBiscuit(b)),
            Err(_) => Err(AppError::Unauthorized(Denial::Unauthorized)),
        }
    }
}

// ---------------------------------------------------------------------------
// Authorizing a request.
// ---------------------------------------------------------------------------

/// The most facts an authorizer run may derive.
pub const MAX_FACTS: u64 = 1000;

/// The most rule iterations an authorizer run may take.
pub const MAX_ITERATIONS: u64 = 100;

/// The longest an authorizer run may take, in microseconds.
pub const MAX_TIME_MICROS: u64 = 100_000;

/// What an authenticated request asks the service to do.
#[derive(Debug)]
pub enum Operation {
    /// Render HTML supplied in the request.
    Render,
    /// Capture the page at a URL on this host.
    Capture { hostname: String },
}

/// The string facts that the authorizer of an operation holds:
/// `operation("render")`, or `operation("capture")` and `hostname(..)`.
pub open spec fn spec_str_facts(op: Operation) -> Seq<(Seq<char>, Seq<char>)> {
    match op {
        Operation::Render => seq![("operation"@, "render"@)],
        Operation::Capture { hostname } => seq![
            ("operation"@, "capture"@),
            ("hostname"@, hostname@),
        ],
    }
}

/// The date facts that an authorizer holds: `time(now)`.
pub open spec fn spec_date_facts(now: u64) -> Seq<(Seq<char>, u64)> {
    seq![("time"@, now)]
}

/// The one policy of every authorizer: `allow if user($u)`, any token that
/// names a user passes.
pub open spec fn allow_policy() -> (Seq<char>, Seq<char>) {
    ("user"@, "u"@)
}

/// The query that reads the user a token names.
pub open spec fn user_query() -> Seq<char> {
    "u($user) <- user($user)"@
}

/// The authorizer of a render is tagged `operation("render")` and names no
/// host; that of a capture is tagged `operation("capture")` and names the
/// captured host in `hostname(..)`.
pub proof fn lemma_operation_facts(op: Operation)
    ensures
        op is Render ==> spec_str_facts(op).contains(("operation"@, "render"@))
            && forall|i: int| 0 <= i < spec_str_facts(op).len() ==> (#[trigger] spec_str_facts(op)[i]).0 != "hostname"@,
        op matches Operation::Capture { hostname } ==> spec_str_facts(op).contains(("operation"@, "capture"@))
            && spec_str_facts(op).contains(("hostname"@, hostname@)),
{
    reveal_strlit("operation");
    reveal_strlit("hostname");
    match op {
        Operation::Render => {
            assert(spec_str_facts(op)[0] == ("operation"@, "render"@));
            assert("operation"@[0] != "hostname"@[0]);
        },
        Operation::Capture { hostname } => {
            assert(spec_str_facts(op)[0] == ("operation"@, "capture"@));
            assert(spec_str_facts(op)[1] == ("hostname"@, hostname@));
        },
    }
}

/// Builds the authorizer for an operation at time `now` (seconds since the
/// Unix epoch): the facts `time(now)` and `operation(..)`, for a capture also
/// `hostname(..)`, and the policy `allow if user($u)`.
pub fn authorizer_for(op: &Operation, now: u64) -> (b: AuthorizerBuilder)
    ensures
        builder_str_facts(b) == spec_str_facts(*op),
        builder_date_facts(b) == spec_date_facts(now),
        builder_policies(b) == seq![allow_policy()],
{
    let b = new_authorizer_builder();
    let b = match add_fact(b, "time", FactTerm::Date(now)) {
        Ok(b) => b,
        Err(_) => return new_authorizer_builder(),
    };
    let b = match op {
        Operation::Render => match add_fact(b, "operation", FactTerm::Str("render".to_owned())) {
            Ok(b) => b,
            Err(_) => return new_authorizer_builder(),
        },
        Operation::Capture { hostname } => {
            let b = match add_fact(b, "operation", FactTerm::Str("capture".to_owned())) {
                Ok(b) => b,
                Err(_) => return new_authorizer_builder(),
            };
            match add_fact(b, "hostname", FactTerm::Str(hostname.clone())) {
                Ok(b) => b,
                Err(_) => return new_authorizer_builder(),
            }
        },
    };
    match add_allow_policy(b, "user", "u") {
        Ok(b) => {
            proof {
                assert(builder_str_facts(b) =~= spec_str_facts(*op));
                assert(builder_date_facts(b) =~= spec_date_facts(now));
                assert(builder_policies(b) =~= seq![allow_policy()]);
            }
            b
        },
        Err(_) => new_authorizer_builder(),
    }
}

/// Picks the authenticated user from the answers of the user query: the
/// first one, or, when there is none, the refusal "Missing user fact".
pub fn select_user(users: Vec<String>) -> (res: Result<String, AppError>)
    ensures
        users@.len() > 0 ==> (res matches Ok(u) && u@ == users@[0]@),
        users@.len() == 0 ==> res == Err::<String, AppError>(AppError::Unauthorized(Denial::MissingUserFact)),
{
    let mut users = users;
    if users.len() == 0 {
        Err(AppError::Unauthorized(Denial::MissingUserFact))
    } else {
        Ok(users.remove(0))
    }
}

/// Why the authorizer refused a token, with what biscuit-auth reported.
#[derive(Debug)]
pub enum Refusal {
    /// The authorizer could not be built for the token.
    NotBuilt(TokenError),
    /// The authorizer run did not pass: no allow policy matched, a deny
    /// policy or a check failed, or a limit cut the run off.
    Denied(TokenError),
    /// The user query failed.
    QueryFailed(TokenError),
    /// The run passed, but the token names no user.
    NoUser(Answered),
}

/// The error a refusal is answered with: "Missing user fact" when the run
/// passed but the token names no user, "Unauthorized" otherwise.
pub open spec fn spec_refusal_error(r: Refusal) -> AppError {
    match r {
        Refusal::NoUser(_) => AppError::Unauthorized(Denial::MissingUserFact),
        _ => AppError::Unauthorized(Denial::Unauthorized),
    }
}

impl Refusal {
    /// The error this refusal is answered with (see `spec_refusal_error`).
    pub fn error(&self) -> (e: AppError)
        ensures
            e == spec_refusal_error(*self),
    {
        match self {
            Refusal::NoUser(_) => AppError::Unauthorized(Denial::MissingUserFact),
            _ => AppError::Unauthorized(Denial::Unauthorized),
        }
    }
}

/// A passed authorization: the user the token names, with the answered
/// authorizer run that approved the token. Only code of this module makes
/// one, and only from an `Answered`, which only a passed run gives.
#[derive(Debug)]
pub struct Grant {
    user: String,
    answer: Answered,
}

/// The user that a grant was given to.
pub closed spec fn granted_user(g: Grant) -> String {
    g.user
}

/// The answered run that a grant rests on.
pub closed spec fn granted_answer(g: Grant) -> Answered {
    g.answer
}

/// The token that the granting authorizer ran over.
pub closed spec fn granted_token(g: Grant) -> Biscuit {
    g.answer.approved().token()
}

/// The users that the granting authorizer's query answered.
pub closed spec fn granted_users(g: Grant) -> Seq<String> {
    g.answer.users()
}

/// The string facts of the authorizer that granted.
pub closed spec fn granted_str_facts(g: Grant) -> Seq<(Seq<char>, Seq<char>)> {
    authorizer_str_facts(g.answer.approved().authorizer())
}

/// The date facts of the authorizer that granted.
pub closed spec fn granted_date_facts(g: Grant) -> Seq<(Seq<char>, u64)> {
    authorizer_date_facts(g.answer.approved().authorizer())
}

/// The policies of the authorizer that granted.
pub closed spec fn granted_policies(g: Grant) -> Seq<(Seq<char>, Seq<char>)> {
    authorizer_policies(g.answer.approved().authorizer())
}

/// A grant whose authorizer ran over `token` with the builder's facts and
/// policies, and whose user is the first answer of its user query.
pub open spec fn grant_of(g: Grant, token: Biscuit, builder: AuthorizerBuilder) -> bool {
    &&& granted_token(g) == token
    &&& granted_str_facts(g) == builder_str_facts(builder)
    &&& granted_date_facts(g) == builder_date_facts(builder)
    &&& granted_policies(g) == builder_policies(builder)
    &&& granted_users(g).len() > 0
    &&& granted_user(g)@ == granted_users(g)[0]@
}

/// An answered run over `token` with the builder's facts and policies.
pub open spec fn answered_for(a: Answered, token: Biscuit, builder: AuthorizerBuilder) -> bool {
    &&& a.approved().token() == token
    &&& authorizer_str_facts(a.approved().authorizer()) == builder_str_facts(builder)
    &&& authorizer_date_facts(a.approved().authorizer()) == builder_date_facts(builder)
    &&& authorizer_policies(a.approved().authorizer()) == builder_policies(builder)
}

impl Grant {
    /// The user that the grant was given to.
    pub fn user(&self) -> (u: &String)
        ensures
            *u == granted_user(*self),
    {
        &self.user
    }

    /// What a user query's answer decides: the first user is granted; an
    /// empty answer is refused as naming no user.
    pub fn from_answer(answer: Answered) -> (res: Result<Grant, Refusal>)
        ensures
            answer.users().len() > 0 ==> (res matches Ok(g) && granted_answer(g) == answer && granted_user(g)@ == answer.users()[0]@),
            answer.users().len() == 0 ==> res == Err::<Grant, Refusal>(Refusal::NoUser(answer)),
    {
        match answer.first_user() {
            Some(user) => Ok(Grant { user, answer }),
            None => Err(Refusal::NoUser(answer)),
        }
    }
}

/// Runs the authorizer over the token, within the service's limits, and
/// reads the user that the token names. A grant holds the passed run, over
/// this token, of an authorizer with exactly the builder's facts and
/// policies, and its user is the first answer of the user query. A refusal
/// that names no user comes only from such a run whose query answered none;
/// every other refusal is answered "Unauthorized".
pub fn authorize_request(token: Biscuit, builder: AuthorizerBuilder) -> (res: Result<Grant, Refusal>)
    ensures
        res matches Ok(g) ==> grant_of(g, token, builder),
        res matches Err(Refusal::NoUser(a)) ==> answered_for(a, token, builder) && a.users().len() == 0,
{
    let built = match build_authorizer(builder, token) {
        Ok(b) => b,
        Err(e) => return Err(Refusal::NotBuilt(e)),
    };
    let approved = match run_authorization(built, MAX_FACTS, MAX_ITERATIONS, MAX_TIME_MICROS) {
        Ok(a) => a,
        Err(e) => return Err(Refusal::Denied(e)),
    };
    let answer = match query_users(approved, "u($user) <- user($user)") {
        Ok(a) => a,
        Err(e) => return Err(Refusal::QueryFailed(e)),
    };
    Grant::from_answer(answer)
}

/// A grant from the authorizer of `op` at time `now`, over `token`.
pub open spec fn granted_for(g: Grant, token: Biscuit, op: Operation, now: u64) -> bool {
    &&& granted_token(g) == token
    &&& granted_str_facts(g) == spec_str_facts(op)
    &&& granted_date_facts(g) == spec_date_facts(now)
    &&& granted_policies(g) == seq![allow_policy()]
    &&& granted_users(g).len() > 0
    &&& granted_user(g)@ == granted_users(g)[0]@
}

/// An answered run, over `token`, of the authorizer of `op` at time `now`.
pub open spec fn answered_by(a: Answered, token: Biscuit, op: Operation, now: u64) -> bool {
    &&& a.approved().token() == token
    &&& authorizer_str_facts(a.approved().authorizer()) == spec_str_facts(op)
    &&& authorizer_date_facts(a.approved().authorizer()) == spec_date_facts(now)
    &&& authorizer_policies(a.approved().authorizer()) == seq![allow_policy()]
}

/// Authorizes a token for an operation at time `now`: runs the authorizer
/// of that operation and time (see `authorizer_for`) over the token.
pub fn authorize(token: Biscuit, op: &Operation, now: u64) -> (res: Result<Grant, Refusal>)
    ensures
        res matches Ok(g) ==> granted_for(g, token, *op, now),
        res matches Err(Refusal::NoUser(a)) ==> answered_by(a, token, *op, now) && a.users().len() == 0,
{
    let builder = authorizer_for(op, now);
    authorize_request(token, builder)
}

} // verus!
