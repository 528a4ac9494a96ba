use goeie::acme::{
    cert_file_path, challenge_path, challenge_round_result, config_hosts, dedup_domains,
    get_credentials_path, issue_tls_preflight, key_file_path, mailto_contact, AcmeError,
    ChallengeOutcome,
};
use goeie::challenge::ChallengeRound;
use goeie::models::{Config, RedirectConfiguration, TLSConfiguration};

#[test]
fn credentials_path_is_private_pem_under_certs_dir() {
    let p = get_credentials_path(&"certs".to_string());
    assert_eq!(p, "certs/private.pem");
}

#[test]
fn certificate_artifact_paths_name_the_domain() {
    let certs = "certs".to_string();
    let domain = "example.com".to_string();
    assert_eq!(cert_file_path(&certs, &domain), "certs/example.com.crt");
    assert_eq!(key_file_path(&certs, &domain), "certs/example.com.key");
}

#[test]
fn challenge_path_is_well_known_token_path() {
    let p = challenge_path(&"tok123".to_string());
    assert_eq!(p, "/.well-known/acme-challenge/tok123");
}

#[test]
fn contact_entry_is_mailto_of_email() {
    let c = mailto_contact(&"admin@example.com".to_string());
    assert_eq!(c, "mailto:admin@example.com");
}

#[test]
fn dedup_domains_keeps_first_occurrences_only() {
    let domains = vec![
        "a.example.com".to_string(),
        "b.example.com".to_string(),
        "a.example.com".to_string(),
        "c.example.com".to_string(),
        "b.example.com".to_string(),
    ];
    let d = dedup_domains(&domains);
    assert_eq!(
        d,
        vec!["a.example.com".to_string(), "b.example.com".to_string(), "c.example.com".to_string()]
    );
}

#[test]
fn config_hosts_enumerates_every_rule_host_in_order() {
    let rule = |hosts: &[&str]| RedirectConfiguration {
        hosts: hosts.iter().map(|h| h.to_string()).collect(),
        target: "https://t.invalid".to_string(),
        redirect_type: None,
        path: None,
    };
    let cfg = Config {
        redirect: vec![rule(&["a.example.com", "b.example.com"]), rule(&["c.example.com"])],
        ports: None,
        tls: None,
    };
    assert_eq!(
        config_hosts(&cfg),
        vec![
            "a.example.com".to_string(),
            "b.example.com".to_string(),
            "c.example.com".to_string()
        ]
    );
}

#[test]
fn issuance_without_tls_section_is_refused() {
    let cfg = Config { redirect: vec![], ports: None, tls: None };
    let r = issue_tls_preflight(&cfg);
    assert!(matches!(r, Err(AcmeError::NoTlsConfig)));
}

#[test]
fn issuance_preflight_hands_back_the_tls_section() {
    let cfg = Config {
        redirect: vec![],
        ports: None,
        tls: Some(TLSConfiguration {
            email: "admin@example.com".to_string(),
            certs_path: "certs".to_string(),
        }),
    };
    let t = issue_tls_preflight(&cfg).unwrap();
    assert_eq!(t.email, "admin@example.com");
    assert_eq!(t.certs_path, "certs");
}

#[test]
fn completed_challenge_round_lets_issuance_go_on() {
    assert!(challenge_round_result(ChallengeOutcome::Completed).is_ok());
}

#[test]
fn timed_out_challenge_round_is_fatal() {
    let r = challenge_round_result(ChallengeOutcome::TimedOut);
    assert!(matches!(r, Err(AcmeError::ChallengeRoundFailed)));
}

#[test]
fn bind_failure_is_fatal_with_its_message() {
    let r = challenge_round_result(ChallengeOutcome::BindFailed("port busy".to_string()));
    match r {
        Err(AcmeError::Bind(m)) => assert_eq!(m, "port busy"),
        _ => panic!("expected a bind error"),
    }
}

#[test]
fn exactly_one_signal_fires_however_many_hits_come() {
    let mut round = ChallengeRound::new("proof-content".to_string());
    let (body1, signal1) = round.respond();
    let (body2, signal2) = round.respond();
    let (body3, signal3) = round.respond();
    assert_eq!(body1, "proof-content");
    assert_eq!(body2, "proof-content");
    assert_eq!(body3, "proof-content");
    assert!(signal1);
    assert!(!signal2);
    assert!(!signal3);
}
