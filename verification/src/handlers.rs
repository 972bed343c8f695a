//! Request handling: composing the data-source and auth capabilities for
//! one request, and applying the resolved quota decision to the fetched
//! rows. Each step's failure is terminal and short-circuits the rest.

use vstd::prelude::*;

use crate::auth::{unlimited_key, AuthDatasource, AuthError, KeyLimit, KeyStore};
use crate::{DataSourceError, Datasource, TR};

verus! {

/// The query parameters of a quota-gated list request: the caller's
/// access key.
pub struct ListWithLimitsQuery {
    pub key: String,
}

/// The caller-visible outcome of one quota-gated list request.
#[derive(Debug, PartialEq, Eq)]
pub enum ListOutcome {
    /// Success: the fetched rows, shaped by the resolved quota.
    Rows(Vec<TR>),
    /// The key is unknown: the request is denied, no rows are fetched.
    Unauthorized,
    /// A capability failed against its backing store.
    InternalError,
}

/// The mathematical shape of a request outcome.
pub enum ListModel {
    Rows(Seq<TR>),
    Unauthorized,
    InternalError,
}

impl View for ListOutcome {
    type V = ListModel;

    open spec fn view(&self) -> ListModel {
        match self {
            ListOutcome::Rows(rows) => ListModel::Rows(rows@),
            ListOutcome::Unauthorized => ListModel::Unauthorized,
            ListOutcome::InternalError => ListModel::InternalError,
        }
    }
}

/// The quota decision applied to a row sequence: unlimited keeps every row,
/// a cap keeps the first `n` rows positionally, order untouched.
pub open spec fn applied_limit(rows: Seq<TR>, decision: KeyLimit) -> Seq<TR> {
    match decision {
        KeyLimit::Unlimited => rows,
        KeyLimit::Limit(n) => if n < rows.len() {
            rows.take(n as int)
        } else {
            rows
        },
    }
}

/// What a request must answer, given what the auth lookup would answer and
/// what a row fetch would answer: an auth failure or an unknown key is
/// terminal, and a resolved decision shapes the fetched rows.
pub open spec fn list_model(
    auth_answer: Result<Option<KeyLimit>, AuthError>,
    fetch_answer: Result<Seq<TR>, DataSourceError>,
) -> ListModel {
    match auth_answer {
        Err(_) => ListModel::InternalError,
        Ok(None) => ListModel::Unauthorized,
        Ok(Some(decision)) => match fetch_answer {
            Err(_) => ListModel::InternalError,
            Ok(rows) => ListModel::Rows(applied_limit(rows, decision)),
        },
    }
}

/// What follows the auth lookup: a terminal failure, a denial, or the fetch
/// that the resolved decision authorizes.
#[derive(Debug, PartialEq, Eq, Structural)]
pub enum AuthStep {
    Fail,
    Deny,
    Fetch(KeyLimit),
}

/// The step that `auth_answer` dictates.
pub open spec fn spec_auth_step(auth_answer: Result<Option<KeyLimit>, AuthError>) -> AuthStep {
    match auth_answer {
        Err(_) => AuthStep::Fail,
        Ok(None) => AuthStep::Deny,
        Ok(Some(decision)) => AuthStep::Fetch(decision),
    }
}

/// Decides, from the auth lookup's answer alone, whether the request fails,
/// is denied, or proceeds to the row fetch. Rows are fetched only on
/// `Fetch`, so a denied or failed lookup never reaches the store.
pub fn auth_step(auth_answer: Result<Option<KeyLimit>, AuthError>) -> (r: AuthStep)
    ensures
        r == spec_auth_step(auth_answer),
{
    match auth_answer {
        Err(_) => AuthStep::Fail,
        Ok(None) => AuthStep::Deny,
        Ok(Some(decision)) => AuthStep::Fetch(decision),
    }
}

/// Truncates `rows` to the first `n` elements under `Limit(n)`, and keeps
/// them all under `Unlimited`; purely positional, no reordering.
pub fn apply_limit(rows: Vec<TR>, decision: KeyLimit) -> (r: Vec<TR>)
    ensures
        r@ == applied_limit(rows@, decision),
{
    let mut out = rows;
    match decision {
        KeyLimit::Unlimited => out,
        KeyLimit::Limit(n) => {
            proof {
                assert(out@.subrange(0, out@.len() as int) =~= out@);
            }
            out.truncate(n);
            out
        },
    }
}

/// Turns the row fetch's answer into the request outcome, shaping fetched
/// rows by the already-resolved `decision`.
pub fn finish_fetch(fetch_answer: Result<Vec<TR>, DataSourceError>, decision: KeyLimit) -> (r:
    ListOutcome)
    ensures
        r@ == match fetch_answer {
            Ok(rows) => ListModel::Rows(applied_limit(rows@, decision)),
            Err(_) => ListModel::InternalError,
        },
{
    match fetch_answer {
        Ok(rows) => ListOutcome::Rows(apply_limit(rows, decision)),
        Err(_) => ListOutcome::InternalError,
    }
}

/// Handles one quota-gated list request: resolves the caller's key through
/// the auth capability, fetches the rows only when the key authorizes it,
/// and shapes the result by the resolved decision.
pub fn list_with_limits<D: Datasource, A: AuthDatasource>(
    datasource: &D,
    auth_datasource: &A,
    query: &ListWithLimitsQuery,
) -> (r: ListOutcome)
    ensures
        r@ == list_model(auth_datasource.spec_key_limit(query.key@), datasource.spec_rows()),
{
    let auth_answer = auth_datasource.key_limit(query.key.as_str());
    match auth_step(auth_answer) {
        AuthStep::Fail => ListOutcome::InternalError,
        AuthStep::Deny => ListOutcome::Unauthorized,
        AuthStep::Fetch(decision) => finish_fetch(datasource.select_all_test(), decision),
    }
}

/// Handles one unguarded list request: every stored row, unshaped. The
/// entry shape shared by the direct, request-mediated and generic variants.
pub fn list_all<D: Datasource>(datasource: &D) -> (r: Result<Vec<TR>, DataSourceError>)
    ensures
        match datasource.spec_rows() {
            Ok(rows) => r matches Ok(v) && v@ == rows,
            Err(e) => r matches Err(e2) && e2 == e,
        },
{
    datasource.select_all_test()
}

/// An unknown key is denied: whatever the row fetch would answer, the
/// outcome for a `None` auth answer is `Unauthorized`, and no rows are
/// returned.
pub proof fn lemma_unknown_key_unauthorized(fetch_answer: Result<Seq<TR>, DataSourceError>)
    ensures
        list_model(Ok(None), fetch_answer) == ListModel::Unauthorized,
{
}

/// A failed quota lookup is an internal error, never a denial: a store
/// failure and an unknown key reach the caller as different outcomes.
pub proof fn lemma_auth_failure_internal(e: AuthError, fetch_answer: Result<
    Seq<TR>,
    DataSourceError,
>)
    ensures
        list_model(Err(e), fetch_answer) == ListModel::InternalError,
{
}

/// The reserved literal key is always unlimited: whatever entries the auth
/// store holds, and even when the store is failing, the outcome carries
/// every fetched row unmodified.
pub proof fn lemma_reserved_key_returns_all(store: KeyStore, key: Seq<char>, rows: Seq<TR>)
    requires
        key == unlimited_key(),
    ensures
        list_model(store.spec_key_limit(key), Ok(rows)) == ListModel::Rows(rows),
{
}

/// A cap below the store's size keeps exactly the first `n` fetched rows,
/// in fetch order.
pub proof fn lemma_limit_truncates(n: usize, rows: Seq<TR>)
    requires
        n < rows.len(),
    ensures
        list_model(Ok(Some(KeyLimit::Limit(n))), Ok(rows)) == ListModel::Rows(rows.take(n as int)),
{
}

/// A cap at or above the store's size keeps every fetched row.
pub proof fn lemma_limit_keeps_all(n: usize, rows: Seq<TR>)
    requires
        rows.len() <= n,
    ensures
        list_model(Ok(Some(KeyLimit::Limit(n))), Ok(rows)) == ListModel::Rows(rows),
{
}

/// A row fetch that fails after a successful auth resolution is terminal:
/// the outcome is the internal error, and carries no rows.
pub proof fn lemma_fetch_failure_internal(decision: KeyLimit, e: DataSourceError)
    ensures
        list_model(Ok(Some(decision)), Err(e)) == ListModel::InternalError,
{
}

} // verus!
