//! How the console chooses between plain HTTP and TLS.
//!
//! The choice looks at the disk in up to four places, each only when the
//! one before it calls for it. The caller does the looking; the rule for
//! what to look at next, and what to make of it, is here.

use vstd::prelude::*;
use vstd::string::*;

verus! {

/// What the console ends up serving with.
#[derive(Clone, Copy, Debug, PartialEq, Eq, Structural)]
pub enum TlsOutcome {
    /// No usable certificate: plain HTTP.
    Http,
    /// Several certificates, chosen by server name.
    MultiCertificate,
    /// The one certificate and key of the legacy layout.
    SingleCertificate,
    /// Certificates were found and could not be used.
    Failed,
}

/// Where the choice stands: what to do next, or what it came to.
#[derive(Clone, Copy, Debug, PartialEq, Eq, Structural)]
pub enum TlsStage {
    /// See whether the TLS directory exists.
    ProbeDirectory,
    /// Load every certificate in the directory.
    LoadCertificates,
    /// Build the resolver that picks a certificate by server name.
    BuildResolver,
    /// See whether the legacy key and certificate files both exist.
    ProbeLegacyPair,
    /// Load the legacy key and certificate.
    LoadLegacyPair,
    /// Nothing more to do.
    Done(TlsOutcome),
}

/// What the caller found.
#[derive(Clone, Copy, Debug, PartialEq, Eq, Structural)]
pub enum TlsFinding {
    /// Whether what was looked for is there.
    Exists(bool),
    /// How many certificates were loaded.
    Loaded(usize),
    /// The step succeeded.
    Succeeded,
    /// The step failed.
    Failed,
}

impl TlsStage {
    /// Where the choice starts: without a directory, or with an empty
    /// path, it is over at once with plain HTTP.
    pub open spec fn initial(path: Option<Seq<char>>) -> TlsStage {
        match path {
            Some(p) => if p.len() > 0 {
                TlsStage::ProbeDirectory
            } else {
                TlsStage::Done(TlsOutcome::Http)
            },
            None => TlsStage::Done(TlsOutcome::Http),
        }
    }

    /// The stage after a finding.
    ///
    /// A missing directory means plain HTTP. Certificates that load, at
    /// least one, call for the resolver, and with it the outcome is
    /// several certificates; without any, or where loading fails, the
    /// legacy pair is looked for. A legacy pair that is there is loaded
    /// and gives a single certificate; one that is not means plain HTTP.
    /// A resolver or a legacy pair that fails to load is a failure. A
    /// finding that does not answer the stage leaves it as it is.
    pub open spec fn after(self, finding: TlsFinding) -> TlsStage {
        match (self, finding) {
            (TlsStage::ProbeDirectory, TlsFinding::Exists(true)) => TlsStage::LoadCertificates,
            (TlsStage::ProbeDirectory, TlsFinding::Exists(false)) => TlsStage::Done(
                TlsOutcome::Http,
            ),
            (TlsStage::LoadCertificates, TlsFinding::Loaded(count)) => if count > 0 {
                TlsStage::BuildResolver
            } else {
                TlsStage::ProbeLegacyPair
            },
            (TlsStage::LoadCertificates, TlsFinding::Failed) => TlsStage::ProbeLegacyPair,
            (TlsStage::BuildResolver, TlsFinding::Succeeded) => TlsStage::Done(
                TlsOutcome::MultiCertificate,
            ),
            (TlsStage::BuildResolver, TlsFinding::Failed) => TlsStage::Done(TlsOutcome::Failed),
            (TlsStage::ProbeLegacyPair, TlsFinding::Exists(true)) => TlsStage::LoadLegacyPair,
            (TlsStage::ProbeLegacyPair, TlsFinding::Exists(false)) => TlsStage::Done(
                TlsOutcome::Http,
            ),
            (TlsStage::LoadLegacyPair, TlsFinding::Succeeded) => TlsStage::Done(
                TlsOutcome::SingleCertificate,
            ),
            (TlsStage::LoadLegacyPair, TlsFinding::Failed) => TlsStage::Done(TlsOutcome::Failed),
            _ => self,
        }
    }

    /// Where the choice starts, for the configured TLS directory.
    pub fn start(path: Option<&str>) -> (stage: TlsStage)
        ensures
            stage == TlsStage::initial(
                match path {
                    Some(p) => Some(p@),
                    None => None,
                },
            ),
    {
        match path {
            Some(p) => {
                if p.is_empty() {
                    TlsStage::Done(TlsOutcome::Http)
                } else {
                    TlsStage::ProbeDirectory
                }
            },
            None => TlsStage::Done(TlsOutcome::Http),
        }
    }

    /// Takes a finding and says where the choice stands then.
    pub fn advance(self, finding: TlsFinding) -> (stage: TlsStage)
        ensures
            stage == self.after(finding),
    {
        match self {
            TlsStage::ProbeDirectory => match finding {
                TlsFinding::Exists(true) => TlsStage::LoadCertificates,
                TlsFinding::Exists(false) => TlsStage::Done(TlsOutcome::Http),
                _ => self,
            },
            TlsStage::LoadCertificates => match finding {
                TlsFinding::Loaded(count) => {
                    if count > 0 {
                        TlsStage::BuildResolver
                    } else {
                        TlsStage::ProbeLegacyPair
                    }
                },
                TlsFinding::Failed => TlsStage::ProbeLegacyPair,
                _ => self,
            },
            TlsStage::BuildResolver => match finding {
                TlsFinding::Succeeded => TlsStage::Done(TlsOutcome::MultiCertificate),
                TlsFinding::Failed => TlsStage::Done(TlsOutcome::Failed),
                _ => self,
            },
            TlsStage::ProbeLegacyPair => match finding {
                TlsFinding::Exists(true) => TlsStage::LoadLegacyPair,
                TlsFinding::Exists(false) => TlsStage::Done(TlsOutcome::Http),
                _ => self,
            },
            TlsStage::LoadLegacyPair => match finding {
                TlsFinding::Succeeded => TlsStage::Done(TlsOutcome::SingleCertificate),
                TlsFinding::Failed => TlsStage::Done(TlsOutcome::Failed),
                _ => self,
            },
            TlsStage::Done(_) => self,
        }
    }

    /// What the choice came to, once it is over.
    pub fn outcome(self) -> (outcome: Option<TlsOutcome>)
        ensures
            outcome == match self {
                TlsStage::Done(o) => Some(o),
                _ => None,
            },
    {
        match self {
            TlsStage::Done(o) => Some(o),
            _ => None,
        }
    }
}

/// The path of a file in a directory: the directory, a slash, the name.
pub fn file_in(directory: &str, name: &str) -> (path: String)
    ensures
        path@ == directory@ + "/"@ + name@,
{
    let mut path = String::from_str(directory);
    path.append("/");
    path.append(name);
    path
}

} // verus!
