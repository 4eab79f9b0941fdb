//! The service over a link table: create, resolve and update, each
//! validating before it touches the store and bounded in time.

use crate::ident::draw_below_u32_max;
use crate::link::{
    link_outcome, normalize_target, plan_link, redirect, redirect_outcome, redirects_to, settle,
    Link, LinkError, Redirect,
};
use crate::table::{change_spec, create_spec, resolve_spec, LinkTable};
use vstd::prelude::*;

verus! {

/// The redirect that a settled lookup stands for.
pub fn redirect_from(found: Result<Link, LinkError>) -> (r: Result<Redirect, LinkError>)
    ensures
        match found {
            Ok(l) => r is Ok && redirects_to(r->Ok_0, l.target_url@),
            Err(e) => r == Err::<Redirect, LinkError>(e),
        },
{
    match found {
        Ok(l) => Ok(redirect(l)),
        Err(e) => Err(e),
    }
}

impl LinkTable {
    /// Create a link to the normalized form of `raw` under the identifier
    /// for `n`.
    pub fn create_link(&mut self, raw: &str, n: u32) -> (r: Result<Link, LinkError>)
        requires
            old(self).wf(),
        ensures
            final(self).wf(),
            final(self).slow() == old(self).slow(),
            final(self)@ == create_spec(old(self)@, old(self).slow(), raw@, n).0,
            link_outcome(r) == create_spec(old(self)@, old(self).slow(), raw@, n).1,
    {
        match plan_link(raw, n) {
            Err(e) => Err(e),
            Ok(l) => {
                let reply = self.insert(l);
                settle(reply)
            },
        }
    }

    /// Create a link to the normalized form of `raw` under a freshly drawn
    /// identifier.
    pub fn create(&mut self, raw: &str) -> (r: Result<Link, LinkError>)
        requires
            old(self).wf(),
        ensures
            final(self).wf(),
            final(self).slow() == old(self).slow(),
            exists|n: u32|
                n < u32::MAX && final(self)@ == create_spec(old(self)@, old(self).slow(), raw@, n).0
                    && link_outcome(r) == create_spec(old(self)@, old(self).slow(), raw@, n).1,
    {
        let n = draw_below_u32_max();
        self.create_link(raw, n)
    }

    /// Resolve `id` to a temporary redirect to its stored target.
    pub fn redirect(&self, id: &str) -> (r: Result<Redirect, LinkError>)
        requires
            self.wf(),
        ensures
            redirect_outcome(r) == resolve_spec(self@, self.slow(), id@),
            r is Ok ==> redirects_to(r->Ok_0, r->Ok_0.location@),
    {
        let reply = self.fetch(id);
        redirect_from(settle(reply))
    }

    /// Replace the target of link `id` with the normalized form of `raw`.
    pub fn update_link(&mut self, id: &str, raw: &str) -> (r: Result<Link, LinkError>)
        requires
            old(self).wf(),
        ensures
            final(self).wf(),
            final(self).slow() == old(self).slow(),
            final(self)@ == change_spec(old(self)@, old(self).slow(), id@, raw@).0,
            link_outcome(r) == change_spec(old(self)@, old(self).slow(), id@, raw@).1,
    {
        match normalize_target(raw) {
            Err(e) => Err(e),
            Ok(t) => {
                let reply = self.update(id, t);
                settle(reply)
            },
        }
    }
}

} // verus!
