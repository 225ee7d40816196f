//! Data availability layers: the error taxonomy, the capability every backend
//! offers, the backends, and the factory that picks one for a layer.

use vstd::prelude::*;

use crate::config::{str_eq, AppChainConfig};

verus! {

/// The data availability layers an app-chain can select.
#[derive(Debug, Clone, Copy, PartialEq, Eq, Structural)]
pub enum DALayer {
    Avail,
    NoDA,
}

impl DALayer {
    pub open spec fn spec_name(self) -> Seq<char> {
        match self {
            DALayer::Avail => "Avail"@,
            DALayer::NoDA => "NoDA"@,
        }
    }

    pub open spec fn spec_from_name(s: Seq<char>) -> Option<DALayer> {
        if s == "Avail"@ {
            Some(DALayer::Avail)
        } else if s == "NoDA"@ {
            Some(DALayer::NoDA)
        } else {
            None
        }
    }

    /// The layer's name, as shown and as stored.
    pub fn name(&self) -> (r: &'static str)
        ensures
            r@ == self.spec_name(),
    {
        match self {
            DALayer::Avail => "Avail",
            DALayer::NoDA => "NoDA",
        }
    }

    /// The layer with the given name, if there is one.
    pub fn from_name(s: &str) -> (r: Option<DALayer>)
        ensures
            r == DALayer::spec_from_name(s@),
    {
        if str_eq(s, "Avail") {
            Some(DALayer::Avail)
        } else if str_eq(s, "NoDA") {
            Some(DALayer::NoDA)
        } else {
            None
        }
    }

    /// Every layer, in declaration order.
    pub fn all() -> (r: Vec<DALayer>)
        ensures
            r@ == seq![DALayer::Avail, DALayer::NoDA],
    {
        vec![DALayer::Avail, DALayer::NoDA]
    }
}

/// File name of a backend's own config file, inside the app-chain's home
/// directory.
pub const APP_DA_CONFIG_NAME: &'static str = "da_config.json";

/// Smallest balance, in the network's base unit, with which the Avail account
/// can submit data. This library's own choice: an account holding any funds
/// passes, and the fee a submission costs is left to the network to enforce.
pub const AVAIL_MIN_BALANCE: u128 = 1;

#[verifier::external_type_specification]
#[verifier::external_body]
pub struct ExIoError(std::io::Error);

#[verifier::external_type_specification]
#[verifier::external_body]
pub struct ExJsonError(serde_json::Error);

#[verifier::external_type_specification]
#[verifier::external_body]
pub struct ExInquireError(inquire::error::InquireError);

/// Failures of the Avail backend's own operations.
#[derive(Debug, Clone, PartialEq, Eq)]
pub enum AvailError {
    /// The account holds less than `AVAIL_MIN_BALANCE`.
    InsufficientBalance,
    /// The network could not report the account's balance; the network
    /// client's message.
    BalanceQueryFailed(String),
}

/// Every failure a backend operation reports.
#[derive(Debug)]
pub enum DaError {
    /// A failure inside a backend's own operation.
    AvailError(AvailError),
    /// The app-chain's home directory could not be resolved.
    FailedToReadAppHome(std::io::Error),
    /// Collecting the operator's input failed.
    InquireError(inquire::error::InquireError),
    /// The backend's config file could not be read.
    FailedToReadDaConfigFile(std::io::Error),
    /// The backend's config file does not parse.
    FailedToDeserializeDaConfig(serde_json::Error),
    /// The backend's config could not be encoded for writing.
    FailedToSerializeDaConfig(serde_json::Error),
}

/// The location of a backend's config file: `file_name` inside `app_home`.
#[derive(Debug, Clone)]
pub struct DaConfigPath {
    pub app_home: String,
    pub file_name: String,
}

/// What a backend's setup leaves to the caller to carry out.
#[derive(Debug, Clone)]
pub enum SetupStep {
    /// Nothing: the backend is ready.
    Ready,
    /// Generate a keypair and store it in the file at this path.
    GenerateKeypair(DaConfigPath),
}

/// Whether `r` is the config path derived from the resolver's outcome
/// `app_home`: the fixed file name inside the home directory, or the
/// resolver's failure as `FailedToReadAppHome`.
pub open spec fn is_da_config_path(
    app_home: Result<String, std::io::Error>,
    r: Result<DaConfigPath, DaError>,
) -> bool {
    match app_home {
        Ok(h) => r matches Ok(p) && p.app_home@ == h@ && p.file_name@ == APP_DA_CONFIG_NAME@,
        Err(e) => r == Err::<DaConfigPath, DaError>(DaError::FailedToReadAppHome(e)),
    }
}

/// The operations every data availability backend offers. In each, `app_home`
/// is what the home-directory resolver gave for `config.app_chain`, and
/// `balance` is what the query of the funding account's balance gave: the
/// balance, or the network client's error message.
pub trait DaClient {
    /// The smallest balance the backend operates with; 0 where it needs no
    /// funding.
    spec fn spec_min_balance(&self) -> nat;

    /// Whether setting up creates a keypair in the backend's config file.
    spec fn spec_needs_keypair(&self) -> bool;

    /// Establishes the app-chain's identity with the backend.
    fn setup_and_generate_keypair(
        &self,
        config: &AppChainConfig,
        app_home: Result<String, std::io::Error>,
    ) -> (r: Result<SetupStep, DaError>)
        ensures
            !self.spec_needs_keypair() ==> r matches Ok(SetupStep::Ready),
            self.spec_needs_keypair() ==> match app_home {
                Ok(h) => r matches Ok(SetupStep::GenerateKeypair(p)) && p.app_home@ == h@
                    && p.file_name@ == APP_DA_CONFIG_NAME@,
                Err(e) => r == Err::<SetupStep, DaError>(DaError::FailedToReadAppHome(e)),
            },
    ;

    /// Checks that the funding account meets the backend's minimum.
    fn confirm_minimum_balance(
        &self,
        config: &AppChainConfig,
        balance: Result<u128, String>,
    ) -> (r: Result<
        (),
        DaError,
    >)
        ensures
            self.spec_min_balance() == 0 ==> r is Ok,
            self.spec_min_balance() > 0 ==> match balance {
                Ok(b) => if b >= self.spec_min_balance() {
                    r is Ok
                } else {
                    r == Err::<(), DaError>(DaError::AvailError(AvailError::InsufficientBalance))
                },
                Err(msg) => r == Err::<(), DaError>(
                    DaError::AvailError(AvailError::BalanceQueryFailed(msg)),
                ),
            },
    ;

    /// The location of the backend's config file.
    fn get_da_config_path(
        &self,
        config: &AppChainConfig,
        app_home: Result<String, std::io::Error>,
    ) -> (r: Result<DaConfigPath, DaError>)
        ensures
            is_da_config_path(app_home, r),
    {
        match app_home {
            Ok(h) => Ok(DaConfigPath { app_home: h, file_name: String::from_str(APP_DA_CONFIG_NAME) }),
            Err(e) => Err(DaError::FailedToReadAppHome(e)),
        }
    }
}

/// The live-network backend, on the Avail network.
#[derive(Debug, Clone, Copy)]
pub struct AvailClient {}

/// The backend of an app-chain without data availability: every operation
/// succeeds at once.
#[derive(Debug, Clone, Copy)]
pub struct NoDAConfig {}

impl DaClient for AvailClient {
    open spec fn spec_min_balance(&self) -> nat {
        AVAIL_MIN_BALANCE as nat
    }

    open spec fn spec_needs_keypair(&self) -> bool {
        true
    }

    fn setup_and_generate_keypair(
        &self,
        config: &AppChainConfig,
        app_home: Result<String, std::io::Error>,
    ) -> (r: Result<SetupStep, DaError>) {
        match self.get_da_config_path(config, app_home) {
            Ok(path) => Ok(SetupStep::GenerateKeypair(path)),
            Err(e) => Err(e),
        }
    }

    fn confirm_minimum_balance(
        &self,
        config: &AppChainConfig,
        balance: Result<u128, String>,
    ) -> (r: Result<
        (),
        DaError,
    >) {
        match balance {
            Ok(b) => if b >= AVAIL_MIN_BALANCE {
                Ok(())
            } else {
                Err(DaError::AvailError(AvailError::InsufficientBalance))
            },
            Err(msg) => Err(DaError::AvailError(AvailError::BalanceQueryFailed(msg))),
        }
    }
}

impl DaClient for NoDAConfig {
    open spec fn spec_min_balance(&self) -> nat {
        0
    }

    open spec fn spec_needs_keypair(&self) -> bool {
        false
    }

    fn setup_and_generate_keypair(
        &self,
        config: &AppChainConfig,
        app_home: Result<String, std::io::Error>,
    ) -> (r: Result<SetupStep, DaError>) {
        Ok(SetupStep::Ready)
    }

    fn confirm_minimum_balance(
        &self,
        config: &AppChainConfig,
        balance: Result<u128, String>,
    ) -> (r: Result<
        (),
        DaError,
    >) {
        Ok(())
    }
}

/// A backend chosen at run time, with the operations of the backend it holds.
#[derive(Debug, Clone, Copy)]
pub enum DaBackend {
    Avail(AvailClient),
    NoDA(NoDAConfig),
}

impl DaClient for DaBackend {
    open spec fn spec_min_balance(&self) -> nat {
        match self {
            DaBackend::Avail(c) => c.spec_min_balance(),
            DaBackend::NoDA(c) => c.spec_min_balance(),
        }
    }

    open spec fn spec_needs_keypair(&self) -> bool {
        match self {
            DaBackend::Avail(c) => c.spec_needs_keypair(),
            DaBackend::NoDA(c) => c.spec_needs_keypair(),
        }
    }

    fn setup_and_generate_keypair(
        &self,
        config: &AppChainConfig,
        app_home: Result<String, std::io::Error>,
    ) -> (r: Result<SetupStep, DaError>) {
        match self {
            DaBackend::Avail(c) => c.setup_and_generate_keypair(config, app_home),
            DaBackend::NoDA(c) => c.setup_and_generate_keypair(config, app_home),
        }
    }

    fn confirm_minimum_balance(
        &self,
        config: &AppChainConfig,
        balance: Result<u128, String>,
    ) -> (r: Result<
        (),
        DaError,
    >) {
        match self {
            DaBackend::Avail(c) => c.confirm_minimum_balance(config, balance),
            DaBackend::NoDA(c) => c.confirm_minimum_balance(config, balance),
        }
    }
}

/// The single place where a layer becomes a backend.
pub struct DAFactory;

impl DAFactory {
    /// The backend for a layer. `Avail` gets the live-network backend; every
    /// other layer, including any added later without an arm of its own, falls
    /// back to the no-op backend. That fallback is deliberate, and it also means
    /// a mistaken layer is not reported here.
    pub open spec fn spec_new_da(da: DALayer) -> DaBackend {
        match da {
            DALayer::Avail => DaBackend::Avail(AvailClient {  }),
            _ => DaBackend::NoDA(NoDAConfig {  }),
        }
    }

    /// The backend for a layer; construction never fails.
    pub fn new_da(da: &DALayer) -> (r: DaBackend)
        ensures
            r == DAFactory::spec_new_da(*da),
    {
        match da {
            DALayer::Avail => DaBackend::Avail(AvailClient {  }),
            _ => DaBackend::NoDA(NoDAConfig {  }),
        }
    }
}

/// Every layer gets a backend: `Avail` the live-network one, which needs a
/// keypair and a funded account, and every other layer the no-op one.
pub proof fn lemma_factory_total(v: DALayer)
    ensures
        v is Avail ==> DAFactory::spec_new_da(v) is Avail,
        !(v is Avail) ==> DAFactory::spec_new_da(v) is NoDA,
        v is Avail ==> DAFactory::spec_new_da(v).spec_needs_keypair()
            && DAFactory::spec_new_da(v).spec_min_balance() == AVAIL_MIN_BALANCE,
{
}

/// The no-op backend's setup and balance check succeed for every record and
/// every outcome of a balance query: it needs no keypair and no funding.
pub proof fn lemma_no_da_always_succeeds(b: NoDAConfig)
    ensures
        !b.spec_needs_keypair(),
        b.spec_min_balance() == 0,
{
}

} // verus!
