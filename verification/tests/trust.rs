//! Trust-root precedence and the lazy, memoized configuration builds.

use std::sync::Arc;

use jimmies::context::CaData;
use jimmies::context::ConfigOutcome;
use jimmies::context::Context;
use jimmies::context::trust_root_size;
use jimmies::create_default_context;
use jimmies::errors::TlsError;

fn one_cert_pem() -> String {
    let ck = rcgen::generate_simple_self_signed(vec!["a.example".to_string()]).unwrap();
    ck.cert.pem()
}

fn one_cert_der() -> Vec<u8> {
    let ck = rcgen::generate_simple_self_signed(vec!["b.example".to_string()]).unwrap();
    ck.cert.der().as_ref().to_vec()
}

const BAD_PEM: &str = "-----BEGIN CERTIFICATE-----\n!!!not base64!!!\n-----END CERTIFICATE-----\n";

#[test]
fn ca_file_wins_over_ca_data() {
    // The CA file holds two certificates, the inline data only one: if
    // the file is the source, the effective store has exactly two roots.
    let file_pem = format!("{}{}", one_cert_pem(), one_cert_pem());
    let ctx = Context::new(
        Some("roots.pem".to_string()),
        None,
        Some(CaData::Text(one_cert_pem())),
    );
    let store = ctx.get_trust_root(Some(&file_pem.into_bytes())).unwrap();
    assert_eq!(trust_root_size(&store), 2);
}

#[test]
fn ca_file_errors_win_over_ca_data() {
    // With a CA file configured, a malformed file fails the resolution
    // even though the inline data is fine: the data is never consulted.
    let ctx = Context::new(
        Some("roots.pem".to_string()),
        None,
        Some(CaData::Text(one_cert_pem())),
    );
    let r = ctx.get_trust_root(Some(&BAD_PEM.as_bytes().to_vec()));
    match r {
        Err(TlsError::TrustStoreError) => {}
        _ => panic!("the malformed CA file must decide the outcome"),
    }
}

#[test]
fn ca_data_bytes_is_a_single_der_certificate() {
    let ctx = Context::new(None, None, Some(CaData::Bytes(one_cert_der())));
    let store = ctx.get_trust_root(None).unwrap();
    assert_eq!(trust_root_size(&store), 1);

    let bad = Context::new(None, None, Some(CaData::Bytes(vec![1, 2, 3])));
    match bad.get_trust_root(None) {
        Err(TlsError::TrustStoreError) => {}
        _ => panic!("malformed DER must fail the trust store build"),
    }
}

#[test]
fn ca_data_text_is_pem() {
    let ctx = Context::new(None, None, Some(CaData::Text(one_cert_pem())));
    let store = ctx.get_trust_root(None).unwrap();
    assert_eq!(trust_root_size(&store), 1);

    let bad = Context::new(None, None, Some(CaData::Text(BAD_PEM.to_string())));
    match bad.get_trust_root(None) {
        Err(TlsError::TrustStoreError) => {}
        _ => panic!("malformed PEM must fail the trust store build"),
    }
}

#[test]
fn ca_path_is_not_implemented() {
    let mut ctx = Context::new(None, Some("/etc/certs".to_string()), None);
    match ctx.get_trust_root(None) {
        Err(TlsError::NotImplemented) => {}
        _ => panic!("directory trust sources are unimplemented"),
    }
    match ctx.get_client_config() {
        Err(TlsError::NotImplemented) => {}
        _ => panic!("directory trust sources are unimplemented"),
    }
}

#[test]
fn client_config_is_memoized() {
    let mut ctx = create_default_context(None, None, Some(CaData::Text(one_cert_pem()))).unwrap();
    let c1 = match ctx.get_client_config().unwrap() {
        ConfigOutcome::Ready(c) => c,
        ConfigOutcome::NeedFile(_) => panic!("no CA file is configured"),
    };
    let c2 = match ctx.get_client_config().unwrap() {
        ConfigOutcome::Ready(c) => c,
        ConfigOutcome::NeedFile(_) => panic!("no CA file is configured"),
    };
    // The identical shared handle both times: built exactly once.
    assert!(Arc::ptr_eq(&c1, &c2));
}

#[test]
fn failed_client_config_build_is_retried_not_cached() {
    let mut ctx = create_default_context(None, None, Some(CaData::Bytes(vec![5, 5, 5]))).unwrap();
    match ctx.get_client_config() {
        Err(TlsError::TrustStoreError) => {}
        _ => panic!("the first build must fail"),
    }
    // The failure was not cached: the next call attempts the resolution
    // again and fails the same way.
    match ctx.get_client_config() {
        Err(TlsError::TrustStoreError) => {}
        _ => panic!("the retry must run and fail again"),
    }
}

#[test]
fn ca_file_config_asks_for_the_file_once() {
    let mut ctx = create_default_context(Some("roots.pem".to_string()), None, None).unwrap();
    match ctx.get_client_config().unwrap() {
        ConfigOutcome::NeedFile(p) => assert_eq!(p, "roots.pem"),
        ConfigOutcome::Ready(_) => panic!("nothing is cached yet: the file must be requested"),
    }
    // The caller fetched the file; the build is completed and cached.
    let contents = one_cert_pem().into_bytes();
    let c1 = ctx.client_config_from_file(&contents).unwrap();
    match ctx.get_client_config().unwrap() {
        ConfigOutcome::Ready(c2) => assert!(Arc::ptr_eq(&c1, &c2)),
        ConfigOutcome::NeedFile(_) => panic!("the configuration is cached: no more file reads"),
    }
}

#[test]
fn ca_file_with_malformed_contents_fails_and_retries() {
    let mut ctx = create_default_context(Some("roots.pem".to_string()), None, None).unwrap();
    let bad = BAD_PEM.as_bytes().to_vec();
    match ctx.client_config_from_file(&bad) {
        Err(TlsError::TrustStoreError) => {}
        _ => panic!("malformed file contents must fail the build"),
    }
    // Not cached as failure: the configuration can still be built.
    let good = one_cert_pem().into_bytes();
    assert!(ctx.client_config_from_file(&good).is_ok());
}

#[test]
fn server_config_is_memoized_and_never_fails() {
    let mut ctx = create_default_context(None, None, None).unwrap();
    let s1 = ctx.get_server_config();
    let s2 = ctx.get_server_config();
    assert!(Arc::ptr_eq(&s1, &s2));
}

#[test]
fn native_roots_are_the_fallback() {
    // With no source configured, the platform's trust store is loaded.
    // What it holds depends on the machine: a successful load yields a
    // non-empty store, and a machine without one reports an I/O error.
    let ctx = Context::new(None, None, None);
    match ctx.get_trust_root(None) {
        Ok(store) => assert!(trust_root_size(&store) > 0),
        Err(e) => assert_eq!(e, TlsError::Io),
    }
}

#[test]
fn default_context_holds_the_options() {
    let ctx = create_default_context(Some("f".to_string()), None, None).unwrap();
    assert_eq!(ctx.cafile, Some("f".to_string()));
    assert!(ctx.capath.is_none());
    assert!(ctx.client_cfg.is_none());
    assert!(ctx.server_cfg.is_none());
}
