//! A guard in front of the certificate backend.
//!
//! A proxy that runs for one workload has no reason to ask for another
//! workload's certificate. Should its own routing logic ever do so, this is
//! where the request stops, before the backend hears of it.

use vstd::prelude::*;
use crate::identity::{Error, Identity, IdentityView, WorkloadInfo};

verus! {

/// A certificate backend that is only reachable for the identities of one
/// workload, or for all where no workload is set.
///
/// The backend is handed out by [`ScopedSecretManager::backend_for`] and in
/// no other way, and the workload is fixed when the manager is made.
#[derive(Clone, Debug)]
pub struct ScopedSecretManager<B> {
    cert_manager: B,
    allowed: Option<WorkloadInfo>,
}

impl<B> ScopedSecretManager<B> {
    /// The backend behind the guard.
    pub closed spec fn backend(&self) -> B {
        self.cert_manager
    }

    /// The workload that certificates may be asked for, if there is a limit.
    pub closed spec fn allowed(&self) -> Option<WorkloadInfo> {
        self.allowed
    }

    /// Whether a certificate for `id` may be asked for: always where there
    /// is no limit, else where namespace and service account are those of
    /// the workload. The trust domain is not compared, as the workload's is
    /// not known.
    pub open spec fn permits(&self, id: IdentityView) -> bool {
        match self.allowed() {
            None => true,
            Some(allowed) => id.namespace == allowed@.namespace && id.service_account
                == allowed@.service_account,
        }
    }

    /// A manager without a limit.
    pub fn new(cert_manager: B) -> (m: Self)
        ensures
            m.backend() == cert_manager,
            m.allowed() is None,
    {
        ScopedSecretManager { cert_manager, allowed: None }
    }

    /// A manager for the certificates of `allowed`, or for all where
    /// `allowed` is `None`.
    pub fn scoped(cert_manager: B, allowed: Option<WorkloadInfo>) -> (m: Self)
        ensures
            m.backend() == cert_manager,
            m.allowed() == allowed,
    {
        ScopedSecretManager { cert_manager, allowed }
    }

    /// The backend to ask for the certificate of `id`.
    ///
    /// Where `id` is not permitted nothing is handed out, so the backend
    /// cannot be asked: the error names the identity asked for and the
    /// workload that would have been permitted. What the backend answers is
    /// up to the backend.
    pub fn backend_for(&self, id: &Identity) -> (r: Result<&B, Error>)
        ensures
            self.permits(id@) ==> r == Ok::<&B, Error>(&self.backend()),
            !self.permits(id@) ==> self.allowed() is Some && r == Err::<&B, Error>(
                Error::BugInvalidIdentityRequest(*id, self.allowed()->Some_0),
            ),
    {
        if let Some(allowed) = &self.allowed {
            match id {
                Identity::Spiffe { namespace, service_account, .. } => {
                    if *namespace != allowed.namespace || *service_account
                        != allowed.service_account {
                        return Err(Error::BugInvalidIdentityRequest(id.clone(), allowed.clone()));
                    }
                },
            }
        }
        Ok(&self.cert_manager)
    }

    /// Fetches the certificate of `id`: `fetch` asks the backend.
    ///
    /// Where `id` is permitted the backend is asked, and what `fetch` gives
    /// is handed on as it is. Where it is not, `fetch` is not called (it
    /// need not even be callable then), and the error is the one of
    /// [`ScopedSecretManager::backend_for`].
    pub fn fetch_certificate<R, F: FnOnce(&B, &Identity) -> R>(&self, id: &Identity, fetch: F) -> (r:
        Result<R, Error>)
        requires
            self.permits(id@) ==> call_requires(fetch, (&self.backend(), id)),
        ensures
            self.permits(id@) ==> r is Ok && call_ensures(fetch, (&self.backend(), id), r->Ok_0),
            !self.permits(id@) ==> self.allowed() is Some && r == Err::<R, Error>(
                Error::BugInvalidIdentityRequest(*id, self.allowed()->Some_0),
            ),
    {
        match self.backend_for(id) {
            Ok(backend) => Ok(fetch(backend, id)),
            Err(e) => Err(e),
        }
    }
}

/// A manager for one workload permits no identity of another namespace or
/// service account, whatever its trust domain.
pub proof fn lemma_scope_rejects_other_workload<B>(m: ScopedSecretManager<B>, id: IdentityView)
    requires
        m.allowed() matches Some(allowed) && (id.namespace != allowed@.namespace
            || id.service_account != allowed@.service_account),
    ensures
        !m.permits(id),
{
}

} // verus!
