use proxy_core::identity::{Error, Identity, WorkloadInfo};
use proxy_core::inputs::ProxyInputs;
use proxy_core::config::Config;
use proxy_core::addr::{IpAddr, SocketAddr};
use proxy_core::secret::ScopedSecretManager;

fn app_info() -> WorkloadInfo {
    WorkloadInfo::new("app-1", "appns", "app-sa")
}

#[test]
fn unrestricted_manager_hands_out_the_backend() {
    let m = ScopedSecretManager::new("backend");
    let id = Identity::new("cluster.local", "any", "one");
    assert_eq!(m.backend_for(&id).ok(), Some(&"backend"));
}

#[test]
fn restricted_manager_permits_its_workload() {
    let m = ScopedSecretManager::scoped("backend", Some(app_info()));
    let id = Identity::new("cluster.local", "appns", "app-sa");
    assert_eq!(m.backend_for(&id).ok(), Some(&"backend"));
}

#[test]
fn restricted_manager_ignores_the_trust_domain() {
    let m = ScopedSecretManager::scoped("backend", Some(app_info()));
    let id = Identity::new("elsewhere.example", "appns", "app-sa");
    assert!(m.backend_for(&id).is_ok());
}

#[test]
fn restricted_manager_rejects_another_namespace() {
    let m = ScopedSecretManager::scoped("backend", Some(app_info()));
    let id = Identity::new("cluster.local", "otherns", "app-sa");
    match m.backend_for(&id) {
        Err(Error::BugInvalidIdentityRequest(asked, allowed)) => {
            assert_eq!(asked, id);
            assert_eq!(allowed.name, "app-1");
            assert_eq!(allowed.namespace, "appns");
            assert_eq!(allowed.service_account, "app-sa");
        }
        Ok(_) => panic!("the backend was handed out"),
    }
}

#[test]
fn restricted_manager_rejects_another_service_account() {
    let m = ScopedSecretManager::scoped("backend", Some(app_info()));
    let id = Identity::new("cluster.local", "appns", "other-sa");
    assert!(m.backend_for(&id).is_err());
}

#[test]
fn rejected_request_never_reaches_the_backend() {
    // The backend counts how often it is asked. It can only be asked
    // through what `backend_for` hands out.
    let asked = std::cell::Cell::new(0u32);
    let m = ScopedSecretManager::scoped(&asked, Some(app_info()));
    let good = Identity::new("cluster.local", "appns", "app-sa");
    let bad = Identity::new("cluster.local", "appns", "other-sa");
    for id in [&bad, &good, &bad] {
        if let Ok(backend) = m.backend_for(id) {
            backend.set(backend.get() + 1);
        }
    }
    assert_eq!(asked.get(), 1);
}

#[test]
fn fetch_asks_the_backend_for_a_permitted_identity() {
    let m = ScopedSecretManager::scoped("backend", Some(app_info()));
    let good = Identity::new("cluster.local", "appns", "app-sa");
    let r = m.fetch_certificate(&good, |backend, id| format!("{backend} issued {}", id.to_string()));
    assert_eq!(r.ok(), Some("backend issued spiffe://cluster.local/ns/appns/sa/app-sa".to_string()));
}

#[test]
fn fetch_hands_on_what_the_backend_says() {
    let m = ScopedSecretManager::new("backend");
    let id = Identity::new("cluster.local", "appns", "app-sa");
    let r: Result<Result<u8, &str>, Error> = m.fetch_certificate(&id, |_, _| Err("not found"));
    assert!(matches!(r, Ok(Err("not found"))));
}

#[test]
fn fetch_for_another_workload_does_not_ask_the_backend() {
    let m = ScopedSecretManager::scoped("backend", Some(app_info()));
    let bad = Identity::new("cluster.local", "otherns", "app-sa");
    let mut asked = false;
    let r = m.fetch_certificate(&bad, |_, _| asked = true);
    assert!(matches!(r, Err(Error::BugInvalidIdentityRequest(id, _)) if id == bad));
    assert!(!asked);
}

#[test]
fn inputs_scope_the_manager_to_the_proxy_workload() {
    let any = SocketAddr::new(IpAddr::v4(0, 0, 0, 0), 15008);
    let cfg = Config {
        inbound_addr: any,
        socks5_addr: None,
        require_original_source: None,
        fake_self_inbound: false,
    };
    let pi: ProxyInputs<&str, (), (), (), (), ()> =
        ProxyInputs::new(cfg, "backend", (), (), (), (), Some(app_info()), None);
    assert_eq!(pi.cfg, cfg);
    assert_eq!(pi.proxy_workload_info.as_ref().map(|i| i.name.as_str()), Some("app-1"));
    assert!(pi.cert_manager.backend_for(&Identity::new("td", "appns", "app-sa")).is_ok());
    assert!(pi.cert_manager.backend_for(&Identity::new("td", "appns", "root")).is_err());

    let open: ProxyInputs<&str, (), (), (), (), ()> =
        ProxyInputs::new(cfg, "backend", (), (), (), (), None, None);
    assert!(open.cert_manager.backend_for(&Identity::new("td", "appns", "root")).is_ok());
}

#[test]
fn identity_text_is_a_spiffe_uri() {
    let id = Identity::new("cluster.local", "appns", "app-sa");
    assert_eq!(id.to_string(), "spiffe://cluster.local/ns/appns/sa/app-sa");
    assert_eq!(id.clone(), id);
    assert_ne!(id, Identity::new("cluster.local", "appns", "app"));
}
