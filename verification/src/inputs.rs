//! What every listener of a proxy is given to work with.

use vstd::prelude::*;
use crate::config::Config;
use crate::identity::WorkloadInfo;
use crate::secret::ScopedSecretManager;

verus! {

/// The shared parts of one proxy: its configuration, its guarded way to the
/// certificate backend, and the handles of what it works with. Made once
/// and then only read; a proxy that needs another configuration gets new
/// inputs.
///
/// `B` is the certificate backend, `C` the connection manager, `S` the
/// state store, `M` the metrics, `F` the socket factory and `R` the DNS
/// resolver.
#[derive(Clone, Debug)]
pub struct ProxyInputs<B, C, S, M, F, R> {
    pub cfg: Config,
    pub cert_manager: ScopedSecretManager<B>,
    pub connection_manager: C,
    pub state: S,
    pub metrics: M,
    pub socket_factory: F,
    pub proxy_workload_info: Option<WorkloadInfo>,
    pub resolver: Option<R>,
}

impl<B, C, S, M, F, R> ProxyInputs<B, C, S, M, F, R> {
    /// Puts the parts together. Where the proxy knows the workload that it
    /// runs for, certificates can be asked for that workload alone.
    pub fn new(
        cfg: Config,
        cert_manager: B,
        connection_manager: C,
        state: S,
        metrics: M,
        socket_factory: F,
        proxy_workload_info: Option<WorkloadInfo>,
        resolver: Option<R>,
    ) -> (pi: Self)
        ensures
            pi.cfg == cfg,
            pi.cert_manager.backend() == cert_manager,
            pi.cert_manager.allowed() == proxy_workload_info,
            pi.connection_manager == connection_manager,
            pi.state == state,
            pi.metrics == metrics,
            pi.socket_factory == socket_factory,
            pi.proxy_workload_info == proxy_workload_info,
            pi.resolver == resolver,
    {
        let allowed = match &proxy_workload_info {
            Some(info) => Some(info.clone()),
            None => None,
        };
        ProxyInputs {
            cfg,
            cert_manager: ScopedSecretManager::scoped(cert_manager, allowed),
            connection_manager,
            state,
            metrics,
            socket_factory,
            proxy_workload_info,
            resolver,
        }
    }
}

} // verus!
