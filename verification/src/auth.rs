//! Authentication gateway decisions: where a bearer token is looked for,
//! and whether a request is admitted.
//!
//! Checking a token against the secret belongs to an external collaborator;
//! the decision here takes that check's verdict as an input and is therefore
//! stated for every possible verdict.

use vstd::prelude::*;

verus! {

/// What the gateway does with a request.
#[derive(Clone, Copy, Debug, PartialEq, Eq, Structural)]
pub enum GateOutcome {
    /// A token was found and it checks against the secret: the request
    /// proceeds authenticated.
    Authenticated,
    /// Enforcement is bypassed: the request proceeds unauthenticated.
    PassedUnauthenticated,
    /// No usable token and no bypass: the request is rejected before any
    /// handler.
    Rejected,
}

/// The token the gateway uses: the authorization header's, or failing that
/// the named query parameter's.
pub open spec fn spec_locate_token(header: Option<Seq<char>>, query: Option<Seq<char>>) -> Option<
    Seq<char>,
> {
    if header is Some {
        header
    } else {
        query
    }
}

/// What the gateway does with a request, given whether a token was found,
/// whether that token is good, and whether enforcement is bypassed.
pub open spec fn spec_gate(token_found: bool, token_valid: bool, force_pass: bool) -> GateOutcome {
    if token_found && token_valid {
        GateOutcome::Authenticated
    } else if force_pass {
        GateOutcome::PassedUnauthenticated
    } else {
        GateOutcome::Rejected
    }
}

/// Pick the token to check: the authorization header first, then the named
/// query parameter; the first location that yields a token wins.
pub fn locate_token(header: &Option<String>, query: &Option<String>) -> (r: Option<String>)
    ensures
        r matches Some(t) ==> spec_locate_token(header.deep_view(), query.deep_view())
            == Some(t@),
        r is Some <==> spec_locate_token(header.deep_view(), query.deep_view()) is Some,
{
    match header {
        Some(t) => Some(t.clone()),
        None => match query {
            Some(t) => Some(t.clone()),
            None => None,
        },
    }
}

/// Decide a request's fate from whether a token was found, whether it
/// checks against the configured secret, and whether enforcement is
/// bypassed.
pub fn gate_decision(token_found: bool, token_valid: bool, force_pass: bool) -> (r: GateOutcome)
    ensures
        r == spec_gate(token_found, token_valid, force_pass),
{
    if token_found && token_valid {
        GateOutcome::Authenticated
    } else if force_pass {
        GateOutcome::PassedUnauthenticated
    } else {
        GateOutcome::Rejected
    }
}

/// A request bearing a good token is admitted authenticated whether or
/// not enforcement is bypassed; one without a token is admitted exactly
/// when enforcement is bypassed, and never as authenticated.
pub proof fn lemma_gate(token_valid: bool, force_pass: bool)
    ensures
        spec_gate(true, token_valid, force_pass) == GateOutcome::Authenticated || !token_valid,
        spec_gate(false, token_valid, force_pass) != GateOutcome::Rejected <==> force_pass,
        spec_gate(false, token_valid, force_pass) != GateOutcome::Authenticated,
{
}

/// A token present only in the query parameter is still found: the header
/// is consulted first, but an empty header falls through to the query.
pub proof fn lemma_query_token_found(query: Seq<char>)
    ensures
        spec_locate_token(None, Some(query)) == Some(query),
{
}

/// The gateway's policy: the secret tokens are checked against, and whether
/// enforcement is bypassed. Both are fixed at startup; the token locations
/// are likewise fixed, the authorization header before the query parameter.
#[derive(Debug)]
pub struct AuthPolicy {
    /// The configured secret, as raw bytes, shared with every check.
    pub secret: Vec<u8>,
    /// Bypass enforcement: an explicit operator opt-out, never a default.
    pub force_pass: bool,
}

impl AuthPolicy {
    /// The gateway's verdict for one request, given the token-bearing
    /// locations and the external check's verdict on the token found there.
    pub fn decide(&self, header: &Option<String>, query: &Option<String>, token_valid: bool) -> (r:
        GateOutcome)
        ensures
            r == spec_gate(
                spec_locate_token(header.deep_view(), query.deep_view()) is Some,
                token_valid,
                self.force_pass,
            ),
    {
        let token = locate_token(header, query);
        gate_decision(token.is_some(), token_valid, self.force_pass)
    }
}

} // verus!
