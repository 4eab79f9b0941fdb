//! Links, the errors of the service, store replies and the responses built
//! from them.

use crate::ident::id_text;
use crate::target::{parse_and_serialize, url_serialization};
use vstd::prelude::*;

verus! {

/// Cache policy attached to every redirect.
pub const CACHE_CONTROL: &'static str =
    "public, max-age=300, s-maxage=300, stale-while-revalidate=300, stale-if-error=300";

/// Default bound, in milliseconds, on one round trip to the store.
pub const DEFAULT_TIMEOUT_MS: u64 = 300;

/// Attempts that a create makes before a collision is reported.
pub const MAX_CREATE_ATTEMPTS: u32 = 3;

pub const STATUS_OK: u16 = 200;

pub const STATUS_TEMPORARY_REDIRECT: u16 = 307;

pub const STATUS_NOT_FOUND: u16 = 404;

pub const STATUS_CONFLICT: u16 = 409;

pub const STATUS_INTERNAL_SERVER_ERROR: u16 = 500;

/// A persisted pair of identifier and normalized target URL.
pub struct Link {
    pub id: String,
    pub target_url: String,
}

/// The body of a create or update request.
pub struct LinkTarget {
    pub target_url: String,
}

/// What a `Link` holds, as sequences of characters.
pub struct LinkModel {
    pub id: Seq<char>,
    pub target_url: Seq<char>,
}

impl View for Link {
    type V = LinkModel;

    open spec fn view(&self) -> LinkModel {
        LinkModel { id: self.id@, target_url: self.target_url@ }
    }
}

/// Why an operation of the service failed.
#[derive(Clone, Copy, Debug, PartialEq, Eq, Structural)]
pub enum LinkError {
    /// The target is not an absolute URL.
    InvalidUrl,
    /// No link has this identifier.
    NotFound,
    /// The store did not answer within the time bound.
    Timeout,
    /// The store already holds a link with this identifier.
    Duplicate,
    /// Any other failure of the store.
    Store,
}

/// A failure that the store reports.
#[derive(Clone, Copy, Debug, PartialEq, Eq, Structural)]
pub enum StoreFault {
    /// The uniqueness constraint on the identifier refused a row.
    UniqueViolation,
    /// Anything else.
    Other,
}

/// How one time-bounded round trip to the store ended.
pub enum Reply {
    /// The time bound passed before the store answered.
    Elapsed,
    /// The store answered with a failure.
    Failed(StoreFault),
    /// The store answered with at most one row.
    Rows(Option<Link>),
}

/// A temporary redirect: status, `Location` and `Cache-Control`.
pub struct Redirect {
    pub status: u16,
    pub location: String,
    pub cache_control: String,
}

pub open spec fn fault_error(f: StoreFault) -> LinkError {
    match f {
        StoreFault::UniqueViolation => LinkError::Duplicate,
        StoreFault::Other => LinkError::Store,
    }
}

/// The outcome that a reply of the store stands for.
pub open spec fn settled(reply: Reply) -> Result<LinkModel, LinkError> {
    match reply {
        Reply::Elapsed => Err(LinkError::Timeout),
        Reply::Failed(f) => Err(fault_error(f)),
        Reply::Rows(None) => Err(LinkError::NotFound),
        Reply::Rows(Some(l)) => Ok(l@),
    }
}

/// The model of an outcome that carries a `Link`.
pub open spec fn link_outcome(r: Result<Link, LinkError>) -> Result<LinkModel, LinkError> {
    match r {
        Ok(l) => Ok(l@),
        Err(e) => Err(e),
    }
}

/// `rd` redirects to `target` under the cache policy.
pub open spec fn redirects_to(rd: Redirect, target: Seq<char>) -> bool {
    &&& rd.status == STATUS_TEMPORARY_REDIRECT
    &&& rd.location@ == target
    &&& rd.cache_control@ == CACHE_CONTROL@
}

/// The model of an outcome that carries a redirect: its target.
pub open spec fn redirect_outcome(r: Result<Redirect, LinkError>) -> Result<Seq<char>, LinkError> {
    match r {
        Ok(rd) => Ok(rd.location@),
        Err(e) => Err(e),
    }
}

/// The normalized target, or `InvalidUrl` where `raw` is not an absolute URL.
pub open spec fn normalized(raw: Seq<char>) -> Result<Seq<char>, LinkError> {
    match url_serialization(raw) {
        Some(t) => Ok(t),
        None => Err(LinkError::InvalidUrl),
    }
}

/// The link that a create request for `raw` writes, given the drawn number `n`.
pub open spec fn planned_link(raw: Seq<char>, n: u32) -> Result<LinkModel, LinkError> {
    match normalized(raw) {
        Ok(t) => Ok(LinkModel { id: id_text(n), target_url: t }),
        Err(e) => Err(e),
    }
}

/// HTTP status for each error.
pub open spec fn status_spec(e: LinkError) -> u16 {
    match e {
        LinkError::InvalidUrl => STATUS_CONFLICT,
        LinkError::NotFound => STATUS_NOT_FOUND,
        LinkError::Timeout => STATUS_INTERNAL_SERVER_ERROR,
        LinkError::Duplicate => STATUS_INTERNAL_SERVER_ERROR,
        LinkError::Store => STATUS_INTERNAL_SERVER_ERROR,
    }
}

impl Link {
    pub fn new(id: String, target_url: String) -> (r: Link)
        ensures
            r.id == id,
            r.target_url == target_url,
    {
        Link { id, target_url }
    }

    /// An independent copy.
    pub fn duplicate(&self) -> (r: Link)
        ensures
            r@ == self@,
    {
        Link { id: self.id.clone(), target_url: self.target_url.clone() }
    }
}

impl LinkError {
    /// The status of the response that reports this error.
    pub fn status(&self) -> (r: u16)
        ensures
            r == status_spec(*self),
    {
        match self {
            LinkError::InvalidUrl => STATUS_CONFLICT,
            LinkError::NotFound => STATUS_NOT_FOUND,
            LinkError::Timeout => STATUS_INTERNAL_SERVER_ERROR,
            LinkError::Duplicate => STATUS_INTERNAL_SERVER_ERROR,
            LinkError::Store => STATUS_INTERNAL_SERVER_ERROR,
        }
    }

    /// The text of the response that reports this error.
    pub fn describe(&self) -> (r: &'static str)
        ensures
            r@ == describe_spec(*self),
    {
        match self {
            LinkError::InvalidUrl => "URL malformed",
            LinkError::NotFound => "Not found",
            LinkError::Timeout => "store timed out",
            LinkError::Duplicate => "identifier already in use",
            LinkError::Store => "store failure",
        }
    }
}

pub open spec fn describe_spec(e: LinkError) -> Seq<char> {
    match e {
        LinkError::InvalidUrl => "URL malformed"@,
        LinkError::NotFound => "Not found"@,
        LinkError::Timeout => "store timed out"@,
        LinkError::Duplicate => "identifier already in use"@,
        LinkError::Store => "store failure"@,
    }
}

/// The normalized form of `raw`, or `InvalidUrl` where it is not an absolute URL.
pub fn normalize_target(raw: &str) -> (r: Result<String, LinkError>)
    ensures
        match r {
            Ok(t) => normalized(raw@) == Ok::<Seq<char>, LinkError>(t@),
            Err(e) => normalized(raw@) == Err::<Seq<char>, LinkError>(e),
        },
{
    match parse_and_serialize(raw) {
        Some(t) => Ok(t),
        None => Err(LinkError::InvalidUrl),
    }
}

/// The link that a create request writes: the normalized target under the
/// identifier for `n`. Fails with `InvalidUrl`, before any identifier is
/// made, where `raw` is not an absolute URL.
pub fn plan_link(raw: &str, n: u32) -> (r: Result<Link, LinkError>)
    ensures
        link_outcome(r) == planned_link(raw@, n),
{
    match normalize_target(raw) {
        Ok(t) => Ok(Link::new(crate::ident::id_for(n), t)),
        Err(e) => Err(e),
    }
}

/// The link that a create request writes under a freshly drawn identifier.
pub fn plan_new_link(raw: &str) -> (r: Result<Link, LinkError>)
    ensures
        exists|n: u32| n < u32::MAX && link_outcome(r) == planned_link(raw@, n),
{
    let n = crate::ident::draw_below_u32_max();
    plan_link(raw, n)
}

/// The outcome of a store round trip: a late reply is a `Timeout`, a
/// uniqueness violation a `Duplicate`, no row a `NotFound`.
pub fn settle(reply: Reply) -> (r: Result<Link, LinkError>)
    ensures
        link_outcome(r) == settled(reply),
{
    match reply {
        Reply::Elapsed => Err(LinkError::Timeout),
        Reply::Failed(StoreFault::UniqueViolation) => Err(LinkError::Duplicate),
        Reply::Failed(StoreFault::Other) => Err(LinkError::Store),
        Reply::Rows(None) => Err(LinkError::NotFound),
        Reply::Rows(Some(l)) => Ok(l),
    }
}

/// The temporary redirect to a link's target, with the cache policy.
pub fn redirect(link: Link) -> (r: Redirect)
    ensures
        redirects_to(r, link.target_url@),
{
    Redirect {
        status: STATUS_TEMPORARY_REDIRECT,
        location: link.target_url,
        cache_control: CACHE_CONTROL.to_owned(),
    }
}

/// Status and text of the response to a failed request.
pub fn internal_error(err: LinkError) -> (r: (u16, &'static str))
    ensures
        r.0 == status_spec(err),
        r.1@ == describe_spec(err),
{
    (err.status(), err.describe())
}

/// Whether a create that ended in `err` after `attempts` attempts is tried
/// again with a fresh identifier: only an identifier collision is retried,
/// and at most `max_attempts` attempts are made in all.
pub fn retry_create(err: LinkError, attempts: u32, max_attempts: u32) -> (r: bool)
    ensures
        r == (err == LinkError::Duplicate && attempts < max_attempts),
{
    err == LinkError::Duplicate && attempts < max_attempts
}

/// Status and text of the health check.
pub fn health() -> (r: (u16, &'static str))
    ensures
        r.0 == STATUS_OK,
        r.1@ == "Service is Healthy"@,
{
    (STATUS_OK, "Service is Healthy")
}

} // verus!
