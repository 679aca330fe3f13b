//! Errors raised while building a container or deriving a connection target.

use vstd::prelude::*;

verus! {

#[verifier::external_type_specification]
#[verifier::external_body]
pub struct ExNativeTlsError(native_tls::Error);

#[verifier::external_type_specification]
#[verifier::external_body]
pub struct ExIoError(std::io::Error);

/// Type of [`TlsError`] that occurred.
#[derive(Debug, Clone, Copy, PartialEq, Eq, Structural)]
#[non_exhaustive]
pub enum TlsErrorType {
    /// Construction of the native-tls connector failed.
    NativeTls,
    /// Could not load the platform's native certificates.
    NativeCerts,
    /// The URL has no host part.
    NoDomain,
}

/// The underlying failure that caused a [`TlsError`].
#[derive(Debug)]
pub enum TlsErrorSource {
    /// native-tls could not build its connector.
    NativeTls(native_tls::Error),
    /// The platform certificate store could not be read.
    Io(std::io::Error),
}

/// Failure to build a TLS container or to derive a connection target.
#[derive(Debug)]
pub struct TlsError {
    kind: TlsErrorType,
    source: Option<TlsErrorSource>,
}

impl TlsError {
    /// The type of error that occurred.
    pub closed spec fn spec_kind(&self) -> TlsErrorType {
        self.kind
    }

    /// The underlying cause, where there is one.
    pub closed spec fn spec_source(&self) -> Option<TlsErrorSource> {
        self.source
    }

    /// An error of the given type with the given cause.
    pub fn new(kind: TlsErrorType, source: Option<TlsErrorSource>) -> (r: TlsError)
        ensures
            r.spec_kind() == kind,
            r.spec_source() == source,
    {
        TlsError { kind, source }
    }

    /// Immutable reference to the type of error that occurred.
    pub fn kind(&self) -> (r: &TlsErrorType)
        ensures
            *r == self.spec_kind(),
    {
        &self.kind
    }

    /// Consume the error, returning the source error if there is any.
    pub fn into_source(self) -> (r: Option<TlsErrorSource>)
        ensures
            r == self.spec_source(),
    {
        self.source
    }

    /// Consume the error, returning the owned error type and the source error.
    pub fn into_parts(self) -> (r: (TlsErrorType, Option<TlsErrorSource>))
        ensures
            r.0 == self.spec_kind(),
            r.1 == self.spec_source(),
    {
        (self.kind, self.source)
    }

    /// A short description of the error, one per type.
    pub fn message(&self) -> (r: &'static str)
        ensures
            r@ == message_of(self.spec_kind()),
    {
        match self.kind {
            TlsErrorType::NativeTls => "construction of the nativetls connector failed",
            TlsErrorType::NativeCerts => "could not load native certificates",
            TlsErrorType::NoDomain => "URL provided by discord have no domain part",
        }
    }
}

/// The description of each type of error.
pub open spec fn message_of(kind: TlsErrorType) -> Seq<char> {
    match kind {
        TlsErrorType::NativeTls => "construction of the nativetls connector failed"@,
        TlsErrorType::NativeCerts => "could not load native certificates"@,
        TlsErrorType::NoDomain => "URL provided by discord have no domain part"@,
    }
}

} // verus!
