use goeie::certstore::{get_domain_cert, CertStoreError, FileRead};
use goeie::dns::{get_goeie_records, get_redirect_config, DnsError};
use goeie::models::{Config, PortConfiguration, TLSConfiguration};

fn tls_config() -> Config {
    Config {
        redirect: vec![],
        ports: None,
        tls: Some(TLSConfiguration {
            email: "admin@example.com".to_string(),
            certs_path: "certs".to_string(),
        }),
    }
}

#[test]
fn both_files_present_yield_the_pair() {
    let r = get_domain_cert(
        &tls_config(),
        FileRead::Present("CERT PEM".to_string()),
        FileRead::Present("KEY PEM".to_string()),
    );
    assert_eq!(r.unwrap(), ("CERT PEM".to_string(), "KEY PEM".to_string()));
}

#[test]
fn missing_key_with_present_cert_is_not_found() {
    let r = get_domain_cert(
        &tls_config(),
        FileRead::Present("CERT PEM".to_string()),
        FileRead::Missing,
    );
    assert!(matches!(r, Err(CertStoreError::NotFound)));
}

#[test]
fn missing_cert_is_not_found() {
    let r = get_domain_cert(
        &tls_config(),
        FileRead::Missing,
        FileRead::Present("KEY PEM".to_string()),
    );
    assert!(matches!(r, Err(CertStoreError::NotFound)));
}

#[test]
fn cert_read_without_tls_section_is_refused() {
    let cfg = Config { redirect: vec![], ports: None, tls: None };
    let r = get_domain_cert(
        &cfg,
        FileRead::Present("CERT PEM".to_string()),
        FileRead::Present("KEY PEM".to_string()),
    );
    assert!(matches!(r, Err(CertStoreError::NoTlsConfig)));
}

#[test]
fn unreadable_file_reports_its_error() {
    let r = get_domain_cert(
        &tls_config(),
        FileRead::Unreadable("permission denied".to_string()),
        FileRead::Present("KEY PEM".to_string()),
    );
    match r {
        Err(CertStoreError::Io(m)) => assert_eq!(m, "permission denied"),
        _ => panic!("expected an I/O error"),
    }
}

#[test]
fn goeie_records_are_filtered_in_order() {
    let records = vec![
        "spf=something".to_string(),
        "goeie-redirect-to=https://a.invalid".to_string(),
        "other".to_string(),
        "goeie-extra=1".to_string(),
    ];
    let filtered = get_goeie_records(records);
    assert_eq!(
        filtered,
        vec!["goeie-redirect-to=https://a.invalid".to_string(), "goeie-extra=1".to_string()]
    );
}

#[test]
fn redirect_target_is_parsed_from_first_marker_record() {
    let records = vec![
        "unrelated".to_string(),
        "goeie-redirect-to=https://a.invalid".to_string(),
        "goeie-redirect-to=https://b.invalid".to_string(),
    ];
    let rc = get_redirect_config(records).unwrap();
    assert_eq!(rc.target, "https://a.invalid");
    assert!(rc.hosts.is_empty());
    assert!(rc.redirect_type.is_none());
}

#[test]
fn records_without_target_marker_fail() {
    let records = vec!["goeie-extra=1".to_string(), "spf=x".to_string()];
    let r = get_redirect_config(records);
    assert!(matches!(r, Err(DnsError::NoRedirectTarget)));
}

#[test]
fn default_ports_are_80_and_443() {
    let p = PortConfiguration::default();
    assert_eq!(p.http, 80);
    assert_eq!(p.https, 443);
    let cfg = Config { redirect: vec![], ports: None, tls: None };
    assert_eq!(cfg.http_port(), 80);
    assert_eq!(cfg.https_port(), 443);
    let cfg2 = Config {
        redirect: vec![],
        ports: Some(PortConfiguration { http: 8080, https: 8443 }),
        tls: None,
    };
    assert_eq!(cfg2.http_port(), 8080);
    assert_eq!(cfg2.https_port(), 8443);
}
