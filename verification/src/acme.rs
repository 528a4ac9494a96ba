//! ACME orchestration: account registry and certificate issuance.
//!
//! The library owns every decision of the pipeline — which credentials
//! file to use, whether to load or register an account, how the
//! challenge path and the certificate file names are built, what each
//! protocol step's outcome means — and drives the ACME client through
//! trusted wrappers. The caller supplies what only the outside world
//! knows: the contents of the credentials file, the runs of the
//! short-lived challenge listener, and the persistence of what comes
//! back.

use vstd::prelude::*;
use vstd::string::StringExecFns;

use crate::models::{vec_views, Config, SpecRedirect, TLSConfiguration};

verus! {

/// The ACME directory handle of the client library.
#[verifier::external_type_specification]
#[verifier::external_body]
pub struct ExDirectory(acme_micro::Directory);

/// The authenticated ACME account handle of the client library.
#[verifier::external_type_specification]
#[verifier::external_body]
pub struct ExAccount(acme_micro::Account);

/// An order awaiting validation.
#[verifier::external_type_specification]
#[verifier::external_body]
pub struct ExNewOrder(acme_micro::order::NewOrder);

/// A validated order awaiting its signing request.
#[verifier::external_type_specification]
#[verifier::external_body]
pub struct ExCsrOrder(acme_micro::order::CsrOrder);

/// A finalized order whose certificate is ready to download.
#[verifier::external_type_specification]
#[verifier::external_body]
pub struct ExCertOrder(acme_micro::order::CertOrder);

/// One authorization of an order.
#[verifier::external_type_specification]
#[verifier::external_body]
pub struct ExAuth(acme_micro::order::Auth);

/// A downloaded certificate together with its private key.
#[verifier::external_type_specification]
#[verifier::external_body]
pub struct ExCertificate(acme_micro::Certificate);

/// An openssl key pair; the certificate key is generated as one.
#[verifier::external_type_specification]
#[verifier::external_body]
#[verifier::reject_recursive_types(T)]
pub struct ExPKey<T>(openssl::pkey::PKey<T>);

/// The marker for private key material.
#[verifier::external_type_specification]
#[verifier::external_body]
pub struct ExPrivate(openssl::pkey::Private);

/// An issuance step failed. Each variant names the step; protocol and
/// I/O details travel in the message.
#[derive(Debug)]
pub enum AcmeError {
    /// The configuration has no TLS section, so nothing can be issued.
    NoTlsConfig,
    /// The ACME directory could not be reached or parsed.
    Directory(String),
    /// The account could not be registered or loaded.
    Account(String),
    /// A new order could not be created or refreshed.
    Order(String),
    /// The order's authorizations could not be fetched.
    Authorizations(String),
    /// An authorization offers no HTTP challenge.
    NoHttpChallenge,
    /// The challenge proof could not be computed.
    Proof(String),
    /// The challenge round ended without a completion signal.
    ChallengeRoundFailed,
    /// The challenge listener could not bind its port.
    Bind(String),
    /// The finalize step failed or timed out.
    Finalize(String),
    /// The issued certificate could not be downloaded.
    Download(String),
}

/// How one challenge round ended, as the listener saw it.
#[derive(Debug)]
pub enum ChallengeOutcome {
    /// The challenge path was hit and the completion signal fired.
    Completed,
    /// The bounded wait for the completion signal ran out.
    TimedOut,
    /// The listener could not bind the HTTP port; the message says why.
    BindFailed(String),
}

/// The path of the persisted account key under the certs directory.
pub open spec fn spec_credentials_path(certs_path: Seq<char>) -> Seq<char> {
    certs_path + "/private.pem"@
}

/// The file that holds a domain's certificate chain.
pub open spec fn spec_cert_file_path(certs_path: Seq<char>, domain: Seq<char>) -> Seq<char> {
    certs_path + "/"@ + domain + ".crt"@
}

/// The file that holds a domain's private key.
pub open spec fn spec_key_file_path(certs_path: Seq<char>, domain: Seq<char>) -> Seq<char> {
    certs_path + "/"@ + domain + ".key"@
}

/// The well-known HTTP-01 path for a challenge token.
pub open spec fn spec_challenge_path(token: Seq<char>) -> Seq<char> {
    "/.well-known/acme-challenge/"@ + token
}

/// The ACME contact entry for a configured email address.
pub open spec fn spec_mailto_contact(email: Seq<char>) -> Seq<char> {
    "mailto:"@ + email
}

/// Where the account key is persisted: `<certs_path>/private.pem`.
pub fn get_credentials_path(certs_path: &String) -> (r: String)
    ensures
        r@ == spec_credentials_path(certs_path@),
{
    let mut r = certs_path.clone();
    r.append("/private.pem");
    r
}

/// Where a domain's certificate chain is persisted.
pub fn cert_file_path(certs_path: &String, domain: &String) -> (r: String)
    ensures
        r@ == spec_cert_file_path(certs_path@, domain@),
{
    let mut r = certs_path.clone();
    r.append("/");
    r.append(domain.as_str());
    r.append(".crt");
    r
}

/// Where a domain's private key is persisted.
pub fn key_file_path(certs_path: &String, domain: &String) -> (r: String)
    ensures
        r@ == spec_key_file_path(certs_path@, domain@),
{
    let mut r = certs_path.clone();
    r.append("/");
    r.append(domain.as_str());
    r.append(".key");
    r
}

/// The path a challenge proof is served under.
pub fn challenge_path(token: &String) -> (r: String)
    ensures
        r@ == spec_challenge_path(token@),
{
    let mut r = String::from_str("/.well-known/acme-challenge/");
    r.append(token.as_str());
    r
}

/// The `mailto:` contact entry sent with account registration and load.
pub fn mailto_contact(email: &String) -> (r: String)
    ensures
        r@ == spec_mailto_contact(email@),
{
    let mut r = String::from_str("mailto:");
    r.append(email.as_str());
    r
}

/// The key an account run ends up bound to, and whether a new key must
/// be persisted: with a persisted key present the account is bound to
/// exactly that key and nothing new is written, whatever `fresh_key` any
/// registration would have produced; without one, the freshly registered
/// key is bound and must be persisted.
pub open spec fn spec_account_key(
    existing_key: Option<Seq<char>>,
    fresh_key: Seq<char>,
) -> (Seq<char>, bool) {
    match existing_key {
        Some(k) => (k, false),
        None => (fresh_key, true),
    }
}

/// Idempotence of the account registry: however often the pipeline runs
/// against the same persisted key, every run is bound to that key and
/// none persists a new one — no duplicate registration can change it.
pub proof fn lemma_account_idempotent(k: Seq<char>, f1: Seq<char>, f2: Seq<char>)
    ensures
        spec_account_key(Some(k), f1) == spec_account_key(Some(k), f2),
        !spec_account_key(Some(k), f1).1,
{
}

/// What one challenge round's outcome means for the issuance attempt: it
/// goes on exactly when the round completed; a timeout is fatal for this
/// domain's attempt.
pub fn challenge_round_result(outcome: ChallengeOutcome) -> (r: Result<(), AcmeError>)
    ensures
        outcome matches ChallengeOutcome::Completed <==> r is Ok,
        outcome matches ChallengeOutcome::TimedOut ==> r matches Err(
            AcmeError::ChallengeRoundFailed,
        ),
        outcome matches ChallengeOutcome::BindFailed(m) ==> r matches Err(AcmeError::Bind(m2))
            && m2 == m,
{
    match outcome {
        ChallengeOutcome::Completed => Ok(()),
        ChallengeOutcome::TimedOut => Err(AcmeError::ChallengeRoundFailed),
        ChallengeOutcome::BindFailed(m) => Err(AcmeError::Bind(m)),
    }
}

/// Every host every rule claims, in rule order: what the orchestrator
/// enumerates before deduplicating and issuing.
pub open spec fn spec_all_hosts(rules: Seq<SpecRedirect>) -> Seq<Seq<char>>
    decreases rules.len(),
{
    if rules.len() == 0 {
        Seq::empty()
    } else {
        spec_all_hosts(rules.drop_last()) + rules.last().hosts
    }
}

/// Enumerate every host of every redirect rule, in rule order.
pub fn config_hosts(config: &Config) -> (r: Vec<String>)
    ensures
        vec_views(r@) == spec_all_hosts(config@.redirect),
{
    let ghost rules = config@.redirect;
    let mut r: Vec<String> = Vec::new();
    proof {
        assert(rules.take(0) =~= Seq::<SpecRedirect>::empty());
    }
    let n = config.redirect.len();
    for i in 0..n
        invariant
            n == config.redirect.len(),
            rules == config@.redirect,
            vec_views(r@) == spec_all_hosts(rules.take(i as int)),
    {
        let hosts = &config.redirect[i].hosts;
        proof {
            assert(rules[i as int] == config.redirect@[i as int]@);
            assert(rules[i as int].hosts =~= vec_views(hosts@));
        }
        let m = hosts.len();
        for j in 0..m
            invariant
                m == hosts.len(),
                rules == config@.redirect,
                0 <= i < rules.len(),
                rules[i as int].hosts =~= vec_views(hosts@),
                vec_views(r@) == spec_all_hosts(rules.take(i as int)) + vec_views(hosts@).take(
                    j as int,
                ),
        {
            let ghost prev = vec_views(r@);
            r.push(hosts[j].clone());
            proof {
                assert(vec_views(r@) =~= prev.push(hosts@[j as int]@));
                assert(vec_views(hosts@).take(j + 1) =~= vec_views(hosts@).take(j as int).push(
                    hosts@[j as int]@,
                ));
            }
        }
        proof {
            assert(vec_views(hosts@).take(m as int) =~= vec_views(hosts@));
            assert(rules.take(i + 1).drop_last() =~= rules.take(i as int));
            assert(rules.take(i + 1).last() == rules[i as int]);
        }
    }
    proof {
        assert(rules.take(n as int) =~= rules);
    }
    r
}

/// Whether some entry of `xs` reads `v`.
pub open spec fn in_list(xs: Seq<String>, v: Seq<char>) -> bool {
    exists|i: int| 0 <= i < xs.len() && xs[i]@ == v
}

/// Appending an entry keeps every member and adds exactly the new one.
proof fn lemma_in_list_push(xs: Seq<String>, x: String, v: Seq<char>)
    ensures
        in_list(xs, v) ==> in_list(xs.push(x), v),
        x@ == v ==> in_list(xs.push(x), v),
{
    if in_list(xs, v) {
        let i = choose|i: int| 0 <= i < xs.len() && xs[i]@ == v;
        assert(xs.push(x)[i]@ == v);
    }
    if x@ == v {
        assert(xs.push(x)[xs.len() as int]@ == v);
    }
}

/// The domains to issue for, without repeats: set semantics over the
/// configured host lists, keeping each domain's first occurrence.
pub fn dedup_domains(domains: &Vec<String>) -> (r: Vec<String>)
    ensures
        forall|i: int| 0 <= i < r@.len() ==> in_list(domains@, #[trigger] r@[i]@),
        forall|i: int| 0 <= i < domains@.len() ==> in_list(r@, #[trigger] domains@[i]@),
        forall|i: int, j: int| 0 <= i < j < r@.len() ==> #[trigger] r@[i]@ != #[trigger] r@[j]@,
{
    let mut r: Vec<String> = Vec::new();
    let n = domains.len();
    for i in 0..n
        invariant
            n == domains.len(),
            forall|k: int| 0 <= k < r@.len() ==> in_list(domains@, #[trigger] r@[k]@),
            forall|k: int| 0 <= k < i ==> in_list(r@, #[trigger] domains@[k]@),
            forall|k: int, l: int| 0 <= k < l < r@.len() ==> #[trigger] r@[k]@ != #[trigger] r@[l]@,
    {
        let d = &domains[i];
        let mut seen = false;
        let m = r.len();
        for j in 0..m
            invariant
                m == r.len(),
                seen ==> in_list(r@, d@),
                !seen ==> forall|l: int| 0 <= l < j ==> #[trigger] r@[l]@ != d@,
        {
            if r[j] == *d {
                proof {
                    assert(r@[j as int]@ == d@);
                }
                seen = true;
            }
        }
        if !seen {
            let ghost old_r = r@;
            r.push(d.clone());
            proof {
                assert(r@ == old_r.push(r@[old_r.len() as int]));
                assert(r@[old_r.len() as int]@ == d@);
                assert forall|k: int| 0 <= k < i implies in_list(r@, #[trigger] domains@[k]@) by {
                    lemma_in_list_push(old_r, r@[old_r.len() as int], domains@[k]@);
                }
                lemma_in_list_push(old_r, r@[old_r.len() as int], d@);
            }
        }
        proof {
            assert(in_list(r@, domains@[i as int]@));
        }
    }
    r
}

/// Relies on `acme_micro::Directory::from_url`: reaches the production
/// ACME directory over the network; nothing is promised of the outcome.
#[verifier::external_body]
fn acme_directory() -> (r: Result<acme_micro::Directory, String>)
{
    acme_micro::Directory::from_url(acme_micro::DirectoryUrl::LetsEncrypt).map_err(|e| e.to_string())
}

/// Relies on `acme_micro::Directory::register_account`: registers a new
/// account with the given contacts over the network; nothing is promised
/// of the outcome.
#[verifier::external_body]
fn dir_register_account(dir: &acme_micro::Directory, contact: Vec<String>) -> (r: Result<
    acme_micro::Account,
    String,
>)
{
    dir.register_account(contact).map_err(|e| e.to_string())
}

/// Relies on `acme_micro::Directory::load_account`: authenticates the
/// given private key against the directory over the network; nothing is
/// promised of the outcome.
#[verifier::external_body]
fn dir_load_account(dir: &acme_micro::Directory, key_pem: &String, contact: Vec<String>) -> (r:
    Result<acme_micro::Account, String>)
{
    dir.load_account(key_pem.as_str(), contact).map_err(|e| e.to_string())
}

/// Relies on `acme_micro::Account::acme_private_key_pem`: serialises the
/// account's private key to PEM; nothing is promised of the text.
#[verifier::external_body]
fn account_key_pem(acc: &acme_micro::Account) -> (r: Result<String, String>)
{
    acc.acme_private_key_pem().map_err(|e| e.to_string())
}

/// Relies on `acme_micro::Account::new_order`: creates a new order for
/// the domain over the network; nothing is promised of the outcome.
#[verifier::external_body]
fn acme_new_order(acc: &acme_micro::Account, domain: &String) -> (r: Result<
    acme_micro::order::NewOrder,
    String,
>)
{
    acc.new_order(domain.as_str(), &[]).map_err(|e| e.to_string())
}

/// Relies on `acme_micro::order::NewOrder::confirm_validations`: reads
/// the order's last known status; nothing is promised of the outcome.
#[verifier::external_body]
fn order_confirm_validations(ord: &acme_micro::order::NewOrder) -> (r: Option<
    acme_micro::order::CsrOrder,
>)
{
    ord.confirm_validations()
}

/// Relies on `acme_micro::order::NewOrder::refresh`: re-polls the order
/// state against the ACME API; nothing is promised of the outcome.
#[verifier::external_body]
fn order_refresh(ord: &mut acme_micro::order::NewOrder) -> (r: Result<(), String>)
{
    ord.refresh().map_err(|e| e.to_string())
}

/// Relies on `acme_micro::order::NewOrder::authorizations`: fetches the
/// order's authorizations over the network; nothing is promised of the
/// outcome.
#[verifier::external_body]
fn order_authorizations(ord: &acme_micro::order::NewOrder) -> (r: Result<
    Vec<acme_micro::order::Auth>,
    String,
>)
{
    ord.authorizations().map_err(|e| e.to_string())
}

/// Relies on `acme_micro::order::Auth::http_challenge`,
/// `Challenge::http_token` and `Challenge::http_proof`: the challenge
/// type itself cannot be named outside the client crate, so the three
/// reads stand together. Returns the token and proof of the
/// authorization's HTTP challenge, or nothing when it offers none;
/// nothing more is promised of the strings.
#[verifier::external_body]
fn http_challenge_token_proof(auth: &acme_micro::order::Auth) -> (r: Result<
    Option<(String, String)>,
    String,
>)
{
    match auth.http_challenge() {
        None => Ok(None),
        Some(challenge) => {
            let token = challenge.http_token().to_string();
            let proof_text = challenge.http_proof().map_err(|e| e.to_string())?;
            Ok(Some((token, proof_text)))
        },
    }
}

/// Relies on `acme_micro::create_p384_key`: generates a fresh P-384 key
/// pair; nothing is promised of the key.
#[verifier::external_body]
fn fresh_p384_key() -> (r: Result<openssl::pkey::PKey<openssl::pkey::Private>, String>)
{
    acme_micro::create_p384_key().map_err(|e| e.to_string())
}

/// Relies on `acme_micro::order::CsrOrder::finalize_pkey`: submits the
/// signing request and waits, polling every `delay_ms` milliseconds,
/// until the CA has signed or failed; nothing is promised of the
/// outcome.
#[verifier::external_body]
fn order_finalize_pkey(
    ord: acme_micro::order::CsrOrder,
    key: openssl::pkey::PKey<openssl::pkey::Private>,
    delay_ms: u64,
) -> (r: Result<acme_micro::order::CertOrder, String>)
{
    ord.finalize_pkey(key, std::time::Duration::from_millis(delay_ms)).map_err(|e| e.to_string())
}

/// Relies on `acme_micro::order::CertOrder::download_cert`: downloads
/// the issued certificate chain; nothing is promised of the outcome.
#[verifier::external_body]
fn order_download_cert(ord: acme_micro::order::CertOrder) -> (r: Result<
    acme_micro::Certificate,
    String,
>)
{
    ord.download_cert().map_err(|e| e.to_string())
}

/// Relies on `acme_micro::Certificate::certificate`: the PEM text of the
/// downloaded chain; nothing is promised of it.
#[verifier::external_body]
fn cert_certificate_pem(cert: &acme_micro::Certificate) -> (r: String)
{
    cert.certificate().to_string()
}

/// Relies on `acme_micro::Certificate::private_key`: the PEM text of the
/// certificate's private key; nothing is promised of it.
#[verifier::external_body]
fn cert_private_key_pem(cert: &acme_micro::Certificate) -> (r: String)
{
    cert.private_key().to_string()
}

/// An account handle together with the key it is bound to and whether
/// that key was created by this run (and so must still be persisted).
pub struct AcmeAccount {
    handle: acme_micro::Account,
    key_pem: String,
    created: bool,
}

/// Mathematical image of a provisioned account: the key it is bound to
/// and whether this run created it.
pub struct SpecAccount {
    pub key_pem: Seq<char>,
    pub created: bool,
}

impl View for AcmeAccount {
    type V = SpecAccount;

    closed spec fn view(&self) -> SpecAccount {
        SpecAccount { key_pem: self.key_pem@, created: self.created }
    }
}

impl AcmeAccount {
    /// The PEM of the key this account is bound to.
    pub fn key_pem(&self) -> (r: &String)
        ensures
            r@ == self@.key_pem,
    {
        &self.key_pem
    }

    /// Whether this run created the key, so that the caller must persist
    /// it at the credentials path.
    pub fn created(&self) -> (b: bool)
        ensures
            b == self@.created,
    {
        self.created
    }

    /// The underlying client handle, for driving orders.
    pub fn handle(&self) -> &acme_micro::Account {
        &self.handle
    }
}

/// Mathematical image of the persisted-key argument.
pub open spec fn existing_key_view(existing_key: Option<String>) -> Option<Seq<char>> {
    match existing_key {
        Some(k) => Some(k@),
        None => None,
    }
}

/// Load or create the ACME account for `email`. `existing_key` is the
/// content of the credentials file if it exists. With a persisted key
/// the account is authenticated against exactly that key and nothing
/// new is created — the call is idempotent over a stable certs
/// directory; without one, a fresh account is registered and its key
/// handed back marked for persistence. Any directory or account
/// exchange failure is fatal for the issuance run.
pub fn get_or_create_account(email: &String, existing_key: Option<String>) -> (r: Result<
    AcmeAccount,
    AcmeError,
>)
    ensures
        r matches Ok(a) ==> (a@.key_pem, a@.created) == spec_account_key(
            existing_key_view(existing_key),
            a@.key_pem,
        ),
        r matches Err(e) ==> (e matches AcmeError::Directory(_) || e matches AcmeError::Account(
            _,
        )),
{
    let contact_entry = mailto_contact(email);
    let mut contact: Vec<String> = Vec::new();
    contact.push(contact_entry);
    let dir = match acme_directory() {
        Ok(d) => d,
        Err(m) => {
            return Err(AcmeError::Directory(m));
        },
    };
    match existing_key {
        Some(k) => match dir_load_account(&dir, &k, contact) {
            Ok(h) => Ok(AcmeAccount { handle: h, key_pem: k, created: false }),
            Err(m) => Err(AcmeError::Account(m)),
        },
        None => {
            let h = match dir_register_account(&dir, contact) {
                Ok(h) => h,
                Err(m) => {
                    return Err(AcmeError::Account(m));
                },
            };
            match account_key_pem(&h) {
                Ok(pem) => Ok(AcmeAccount { handle: h, key_pem: pem, created: true }),
                Err(m) => Err(AcmeError::Account(m)),
            }
        },
    }
}

/// The TLS section an issuance run works under: issuing without one is
/// refused, with the error the pipeline reports for it.
pub fn issue_tls_preflight(config: &Config) -> (r: Result<TLSConfiguration, AcmeError>)
    ensures
        match config@.tls {
            Some(t) => r matches Ok(tc) && tc@ == t,
            None => r matches Err(e) && e matches AcmeError::NoTlsConfig,
        },
{
    match &config.tls {
        Some(t) => Ok(t.clone()),
        None => Err(AcmeError::NoTlsConfig),
    }
}

/// Create a new order for one domain under the given account.
pub fn start_order(account: &AcmeAccount, domain: &String) -> (r: Result<
    acme_micro::order::NewOrder,
    AcmeError,
>)
    ensures
        r matches Err(e) ==> e matches AcmeError::Order(_),
{
    match acme_new_order(account.handle(), domain) {
        Ok(o) => Ok(o),
        Err(m) => Err(AcmeError::Order(m)),
    }
}

/// What one look at an order demands next.
pub enum OrderPoll {
    /// The order's validations are confirmed; finalize it.
    Ready(acme_micro::order::CsrOrder),
    /// A challenge round is due: serve `proof_text` under `path`, which
    /// is the well-known challenge path of `token`.
    Pending { token: String, path: String, proof_text: String },
}

/// One turn of the validation loop: progress the order to its signing
/// step once the validations are confirmed, and otherwise select the
/// HTTP challenge of the first authorization and compute what the
/// challenge round must serve and where. An authorization without an
/// HTTP challenge is fatal.
pub fn poll_order(ord: &acme_micro::order::NewOrder) -> (r: Result<OrderPoll, AcmeError>)
    ensures
        r matches Ok(p) ==> (p matches OrderPoll::Pending { token, path, .. } ==> path@
            == spec_challenge_path(token@)),
        r matches Err(e) ==> (e matches AcmeError::Authorizations(_) || e
            matches AcmeError::NoHttpChallenge || e matches AcmeError::Proof(_)),
{
    if let Some(csr) = order_confirm_validations(ord) {
        return Ok(OrderPoll::Ready(csr));
    }
    let auths = match order_authorizations(ord) {
        Ok(a) => a,
        Err(m) => {
            return Err(AcmeError::Authorizations(m));
        },
    };
    if auths.len() == 0 {
        return Err(AcmeError::NoHttpChallenge);
    }
    match http_challenge_token_proof(&auths[0]) {
        Err(m) => Err(AcmeError::Proof(m)),
        Ok(None) => Err(AcmeError::NoHttpChallenge),
        Ok(Some((token, proof_text))) => {
            let path = challenge_path(&token);
            Ok(OrderPoll::Pending { token, path, proof_text })
        },
    }
}

/// Re-poll the order against the ACME API after a challenge round.
pub fn refresh_order(ord: &mut acme_micro::order::NewOrder) -> (r: Result<(), AcmeError>)
    ensures
        r matches Err(e) ==> e matches AcmeError::Order(_),
{
    match order_refresh(ord) {
        Ok(()) => Ok(()),
        Err(m) => Err(AcmeError::Order(m)),
    }
}

/// A freshly issued certificate and its private key, both PEM, ready to
/// persist.
pub struct IssuedCert {
    pub cert_pem: String,
    pub key_pem: String,
}

/// How long the finalize step waits between its polls of the CA, in
/// milliseconds.
pub const FINALIZE_DELAY_MS: u64 = 5000;

/// Finalize a validated order: generate a fresh P-384 key, submit the
/// signing request with the bounded wait, download the issued chain and
/// hand both PEM texts back for persistence.
pub fn finalize_order(order: acme_micro::order::CsrOrder) -> (r: Result<IssuedCert, AcmeError>)
    ensures
        r matches Err(e) ==> (e matches AcmeError::Finalize(_) || e matches AcmeError::Download(
            _,
        )),
{
    let key = match fresh_p384_key() {
        Ok(k) => k,
        Err(m) => {
            return Err(AcmeError::Finalize(m));
        },
    };
    let cert_order = match order_finalize_pkey(order, key, FINALIZE_DELAY_MS) {
        Ok(o) => o,
        Err(m) => {
            return Err(AcmeError::Finalize(m));
        },
    };
    let cert = match order_download_cert(cert_order) {
        Ok(c) => c,
        Err(m) => {
            return Err(AcmeError::Download(m));
        },
    };
    Ok(IssuedCert { cert_pem: cert_certificate_pem(&cert), key_pem: cert_private_key_pem(&cert) })
}

} // verus!
