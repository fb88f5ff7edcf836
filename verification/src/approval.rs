//! Running the authorizer over a token. Each stage is a value that only the
//! stage before can make: a `Built` authorizer comes only from a build, an
//! `Approved` one only from a run that passed, an `Answered` one only from
//! the user query on an approved authorizer. Each keeps the token it works on.
use crate::auth::{builder_date_facts, builder_policies, builder_str_facts, MAX_FACTS, MAX_ITERATIONS, MAX_TIME_MICROS};
use biscuit_auth::error::Token as TokenError;
use biscuit_auth::{Authorizer, AuthorizerBuilder, Biscuit};
use vstd::prelude::*;

verus! {

#[verifier::external_type_specification]
#[verifier::external_body]
pub struct ExAuthorizer(Authorizer);

/// The facts with one string term that an authorizer was built with, in
/// order: (predicate name, string).
pub uninterp spec fn authorizer_str_facts(a: Authorizer) -> Seq<(Seq<char>, Seq<char>)>;

/// The facts with one date term that an authorizer was built with, in
/// order: (predicate name, seconds since the Unix epoch).
pub uninterp spec fn authorizer_date_facts(a: Authorizer) -> Seq<(Seq<char>, u64)>;

/// The policies that an authorizer was built with, in order, each read as
/// the (predicate, variable) of an `allow if predicate($variable)` policy.
pub uninterp spec fn authorizer_policies(a: Authorizer) -> Seq<(Seq<char>, Seq<char>)>;

/// An authorizer built for a token.
#[derive(Debug)]
pub struct Built {
    authorizer: Authorizer,
    token: Biscuit,
}

/// An authorizer whose run over its token passed: one of its policies
/// allowed the token and every check held, within the limits.
#[derive(Debug)]
pub struct Approved {
    authorizer: Authorizer,
    token: Biscuit,
}

/// An approved authorizer with the answer of the user query.
#[derive(Debug)]
pub struct Answered {
    approved: Approved,
    users: Vec<String>,
}

impl Built {
    pub closed spec fn authorizer(self) -> Authorizer {
        self.authorizer
    }

    pub closed spec fn token(self) -> Biscuit {
        self.token
    }
}

impl Approved {
    pub closed spec fn authorizer(self) -> Authorizer {
        self.authorizer
    }

    pub closed spec fn token(self) -> Biscuit {
        self.token
    }
}

impl Answered {
    pub closed spec fn approved(self) -> Approved {
        self.approved
    }

    /// The users the query answered, in order.
    pub closed spec fn users(self) -> Seq<String> {
        self.users@
    }

    /// The first user of the answer, if there is one.
    pub fn first_user(&self) -> (res: Option<String>)
        ensures
            self.users().len() > 0 ==> (res matches Some(u) && u@ == self.users()[0]@),
            self.users().len() == 0 ==> res is None,
    {
        if self.users.len() == 0 {
            None
        } else {
            Some(self.users[0].clone())
        }
    }
}

/// Calls `AuthorizerBuilder::build` with the token, and keeps the token with
/// the authorizer. Claims: the authorizer keeps the builder's facts and
/// policies (the build moves them over). Nothing is claimed of whether the
/// build succeeds.
#[verifier::external_body]
pub(crate) fn build_authorizer(b: AuthorizerBuilder, token: Biscuit) -> (res: Result<Built, TokenError>)
    ensures
        res matches Ok(p) ==> p.token() == token,
        res matches Ok(p) ==> authorizer_str_facts(p.authorizer()) == builder_str_facts(b),
        res matches Ok(p) ==> authorizer_date_facts(p.authorizer()) == builder_date_facts(b),
        res matches Ok(p) ==> authorizer_policies(p.authorizer()) == builder_policies(b),
{
    match b.build(&token) {
        Ok(authorizer) => Ok(Built { authorizer, token }),
        Err(e) => Err(e),
    }
}

/// Calls `Authorizer::authorize_with_limits` with the service's limits and
/// hands the authorizer back as `Approved` when the call succeeds, that is
/// when a policy allowed the token and every check held within the limits.
/// Claims: the run leaves the authorizer's facts and policies, and the
/// token, as they were. Nothing is claimed of whether it succeeds: that
/// depends on the datalog run and on elapsed time.
#[verifier::external_body]
pub(crate) fn run_authorization(
    built: Built,
    max_facts: u64,
    max_iterations: u64,
    max_time_micros: u64,
) -> (res: Result<Approved, TokenError>)
    requires
        max_facts == MAX_FACTS,
        max_iterations == MAX_ITERATIONS,
        max_time_micros == MAX_TIME_MICROS,
    ensures
        res matches Ok(ap) ==> ap.token() == built.token(),
        res matches Ok(ap) ==> authorizer_str_facts(ap.authorizer()) == authorizer_str_facts(built.authorizer()),
        res matches Ok(ap) ==> authorizer_date_facts(ap.authorizer()) == authorizer_date_facts(built.authorizer()),
        res matches Ok(ap) ==> authorizer_policies(ap.authorizer()) == authorizer_policies(built.authorizer()),
{
    let Built { mut authorizer, token } = built;
    match authorizer.authorize_with_limits(biscuit_auth::AuthorizerLimits {
        max_facts,
        max_iterations,
        max_time: std::time::Duration::from_micros(max_time_micros),
    }) {
        Ok(_) => Ok(Approved { authorizer, token }),
        Err(e) => Err(e),
    }
}

/// Calls `Authorizer::query` on the approved authorizer with the rule parsed
/// from `rule`, reading each resulting fact as a one-string tuple, and keeps
/// the strings, in order, with the authorizer. Claims: the query leaves the
/// authorizer's facts and policies, and the token, as they were. Nothing is
/// claimed of the answer: it depends on the datalog run and on elapsed time.
#[verifier::external_body]
pub(crate) fn query_users(approved: Approved, rule: &str) -> (res: Result<Answered, TokenError>)
    requires
        rule@ == crate::auth::user_query(),
    ensures
        res matches Ok(ans) ==> ans.approved().token() == approved.token(),
        res matches Ok(ans) ==> authorizer_str_facts(ans.approved().authorizer()) == authorizer_str_facts(approved.authorizer()),
        res matches Ok(ans) ==> authorizer_date_facts(ans.approved().authorizer()) == authorizer_date_facts(approved.authorizer()),
        res matches Ok(ans) ==> authorizer_policies(ans.approved().authorizer()) == authorizer_policies(approved.authorizer()),
{
    let mut approved = approved;
    let facts: Vec<(String,)> = approved.authorizer.query(rule)?;
    Ok(Answered { approved, users: facts.into_iter().map(|f| f.0).collect() })
}

} // verus!
