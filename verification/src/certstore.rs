//! Reading persisted certificate artifacts back for the TLS listener.
//!
//! A domain's artifact is two files under the certs directory — the
//! chain and the key. The caller reads both files (their paths come from
//! [`crate::acme::cert_file_path`] and [`crate::acme::key_file_path`])
//! and hands the outcomes in; the store decides. A missing TLS section,
//! a missing file and an unreadable file are told apart, and a partial
//! artifact is never a success: one missing file fails the whole read.

use vstd::prelude::*;

use crate::models::Config;

verus! {

/// What reading one file produced.
#[derive(Debug)]
pub enum FileRead {
    /// The file exists and holds this text.
    Present(String),
    /// The file does not exist.
    Missing,
    /// The file exists but could not be read; the message says why.
    Unreadable(String),
}

/// Mathematical image of a file read.
pub enum SpecFileRead {
    Present(Seq<char>),
    Missing,
    Unreadable(Seq<char>),
}

impl View for FileRead {
    type V = SpecFileRead;

    open spec fn view(&self) -> SpecFileRead {
        match self {
            FileRead::Present(t) => SpecFileRead::Present(t@),
            FileRead::Missing => SpecFileRead::Missing,
            FileRead::Unreadable(m) => SpecFileRead::Unreadable(m@),
        }
    }
}

/// A certificate artifact could not be produced.
#[derive(Debug)]
pub enum CertStoreError {
    /// The configuration has no TLS section.
    NoTlsConfig,
    /// The certificate or the key file does not exist.
    NotFound,
    /// A file exists but could not be read.
    Io(String),
}

/// Mathematical image of a store error.
pub enum SpecCertStoreError {
    NoTlsConfig,
    NotFound,
    Io(Seq<char>),
}

impl View for CertStoreError {
    type V = SpecCertStoreError;

    open spec fn view(&self) -> SpecCertStoreError {
        match self {
            CertStoreError::NoTlsConfig => SpecCertStoreError::NoTlsConfig,
            CertStoreError::NotFound => SpecCertStoreError::NotFound,
            CertStoreError::Io(m) => SpecCertStoreError::Io(m@),
        }
    }
}

/// Mathematical image of an artifact read.
pub open spec fn cert_result_view(r: Result<(String, String), CertStoreError>) -> Result<
    (Seq<char>, Seq<char>),
    SpecCertStoreError,
> {
    match r {
        Ok(p) => Ok((p.0@, p.1@)),
        Err(e) => Err(e@),
    }
}

/// What an artifact read returns: both texts when both files are
/// present; `NotFound` as soon as either file is missing — a partial
/// artifact is no success; an unreadable file's error otherwise; and
/// `NoTlsConfig` before anything else when the configuration has no TLS
/// section.
pub open spec fn spec_domain_cert(
    tls_present: bool,
    cert: SpecFileRead,
    key: SpecFileRead,
) -> Result<(Seq<char>, Seq<char>), SpecCertStoreError> {
    if !tls_present {
        Err(SpecCertStoreError::NoTlsConfig)
    } else {
        match (cert, key) {
            (SpecFileRead::Present(c), SpecFileRead::Present(k)) => Ok((c, k)),
            (SpecFileRead::Missing, _) => Err(SpecCertStoreError::NotFound),
            (_, SpecFileRead::Missing) => Err(SpecCertStoreError::NotFound),
            (SpecFileRead::Unreadable(m), _) => Err(SpecCertStoreError::Io(m)),
            (_, SpecFileRead::Unreadable(m)) => Err(SpecCertStoreError::Io(m)),
        }
    }
}

/// Decide a domain's certificate artifact from the two file reads, as
/// [`spec_domain_cert`] says. The caller treats any error as fatal at
/// TLS startup.
pub fn get_domain_cert(config: &Config, cert: FileRead, key: FileRead) -> (r: Result<
    (String, String),
    CertStoreError,
>)
    ensures
        cert_result_view(r) == spec_domain_cert(config@.tls is Some, cert@, key@),
{
    if config.tls.is_none() {
        return Err(CertStoreError::NoTlsConfig);
    }
    match (cert, key) {
        (FileRead::Present(c), FileRead::Present(k)) => Ok((c, k)),
        (FileRead::Missing, _) => Err(CertStoreError::NotFound),
        (_, FileRead::Missing) => Err(CertStoreError::NotFound),
        (FileRead::Unreadable(m), _) => Err(CertStoreError::Io(m)),
        (_, FileRead::Unreadable(m)) => Err(CertStoreError::Io(m)),
    }
}

} // verus!
