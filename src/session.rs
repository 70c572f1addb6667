//! The session record and the per-request gate that reads it.

use crate::document::{serve_spec, DocKind, DocumentCache, Page};
use crate::store::opt_str_view;
use vstd::prelude::*;

verus! {

/// What the core keeps in a visitor's session.
pub struct Session {
    pub authenticated: bool,
    pub redeemed_code: Option<String>,
}

impl Session {
    /// The state of a visitor who has not redeemed a code, or has logged out.
    pub fn anonymous() -> (r: Self)
        ensures
            !r.authenticated,
            r.redeemed_code.is_none(),
    {
        Session { authenticated: false, redeemed_code: None }
    }

    /// Ends the session; harmless when there is none.
    pub fn logout(&mut self)
        ensures
            logged_out(*final(self)),
    {
        self.authenticated = false;
        self.redeemed_code = None;
    }
}

/// A session with nothing in it: not authenticated and holding no code.
pub open spec fn logged_out(s: Session) -> bool {
    !s.authenticated && s.redeemed_code is None
}

/// The document a session may see.
pub open spec fn doc_for(authenticated: bool) -> DocKind {
    if authenticated {
        DocKind::Protected
    } else {
        DocKind::Public
    }
}

pub fn requested_document(session: &Session) -> (r: DocKind)
    ensures
        r == doc_for(session.authenticated),
{
    if session.authenticated {
        DocKind::Protected
    } else {
        DocKind::Public
    }
}

/// Answers a page request: the protected document for an authenticated session, the
/// public one otherwise. `live` is a fresh read of that document's source.
pub fn page_for(cache: &DocumentCache, session: &Session, live: Option<String>) -> (r: Page)
    ensures
        r@ == serve_spec(cache@, doc_for(session.authenticated), opt_str_view(live)),
{
    let kind = requested_document(session);
    cache.serve(kind, live)
}

} // verus!
