//! The methods of the gateway and the shape of their answers.

use crate::config::{get_secret_key_spec, Config, ConfigView};
use crate::hexstr::{hex_encode, hex_encode_spec};
use crate::text::str_equal;
use crate::tls::{p256_public, try_get_p256_pubkey, valid_secret};
use vstd::prelude::*;

verus! {

/// Code of an error that a handler reported.
pub const CODE_SERVER_ERROR: i64 = 500;

/// Code of a request that is no valid call.
pub const CODE_INVALID_REQUEST: i64 = -32600;

/// Code of a call to a method that the gateway does not have.
pub const CODE_METHOD_NOT_FOUND: i64 = -32601;

/// Code of a call whose parameters the method does not take.
pub const CODE_INVALID_PARAMS: i64 = -32602;

/// An error object of the JSON-RPC protocol.
#[derive(Debug, PartialEq, Eq)]
pub struct RpcError {
    pub code: i64,
    pub message: String,
    pub data: Option<String>,
}

/// An error object as code and texts.
pub struct RpcErrorView {
    pub code: i64,
    pub message: Seq<char>,
    pub data: Option<Seq<char>>,
}

impl View for RpcError {
    type V = RpcErrorView;

    open spec fn view(&self) -> RpcErrorView {
        RpcErrorView {
            code: self.code,
            message: self.message@,
            data: match self.data {
                Some(text) => Some(text@),
                None => None,
            },
        }
    }
}

/// The failure of a handler: a short message and the detail behind it.
#[derive(Debug, PartialEq, Eq)]
pub struct HandlerError {
    pub message: String,
    pub detail: String,
}

/// The error object that reports a handler's failure.
pub open spec fn to_jsonrpc_error_spec(message: Seq<char>, detail: Seq<char>) -> RpcErrorView {
    RpcErrorView { code: CODE_SERVER_ERROR, message, data: Some(detail) }
}

/// Turns a handler's failure into an error object: code 500, the message,
/// and the detail as data.
pub fn to_jsonrpc_error(err: HandlerError) -> (r: RpcError)
    ensures
        r@ == to_jsonrpc_error_spec(err.message@, err.detail@),
{
    RpcError { code: CODE_SERVER_ERROR, message: err.message, data: Some(err.detail) }
}

/// Passes a handler's result on, its failure turned into an error object.
pub fn to_jsonrpc_result<T>(result: Result<T, HandlerError>) -> (r: Result<T, RpcError>)
    ensures
        match result {
            Ok(value) => r == Ok::<T, RpcError>(value),
            Err(err) => r matches Err(e) && e@ == to_jsonrpc_error_spec(
                err.message@,
                err.detail@,
            ),
        },
{
    match result {
        Ok(value) => Ok(value),
        Err(err) => Err(to_jsonrpc_error(err)),
    }
}

/// The methods that the gateway has.
#[derive(Debug, Clone, Copy, PartialEq, Eq, Structural)]
pub enum Method {
    Deploy,
    Execute,
    Transfer,
    Join,
    Split,
    Discovery,
}

impl Method {
    /// The name that a call uses for the method.
    pub open spec fn name_spec(self) -> Seq<char> {
        match self {
            Method::Deploy => "deploy"@,
            Method::Execute => "execute"@,
            Method::Transfer => "transfer"@,
            Method::Join => "join"@,
            Method::Split => "split"@,
            Method::Discovery => "discovery"@,
        }
    }

    /// The method that a name stands for.
    pub open spec fn lookup_spec(name: Seq<char>) -> Option<Method> {
        if name == "deploy"@ {
            Some(Method::Deploy)
        } else if name == "execute"@ {
            Some(Method::Execute)
        } else if name == "transfer"@ {
            Some(Method::Transfer)
        } else if name == "join"@ {
            Some(Method::Join)
        } else if name == "split"@ {
            Some(Method::Split)
        } else if name == "discovery"@ {
            Some(Method::Discovery)
        } else {
            None
        }
    }

    /// The number of leading parameters that a call of the method must
    /// carry.
    pub open spec fn required_params_spec(self) -> nat {
        match self {
            Method::Deploy => 3,
            Method::Execute => 4,
            Method::Transfer => 4,
            Method::Join => 3,
            Method::Split => 3,
            Method::Discovery => 0,
        }
    }

    /// The number of parameters that the method takes at most; those beyond
    /// the required ones are optional.
    pub open spec fn max_params_spec(self) -> nat {
        match self {
            Method::Deploy => 6,
            Method::Execute => 7,
            Method::Transfer => 8,
            Method::Join => 6,
            Method::Split => 4,
            Method::Discovery => 0,
        }
    }

    /// The number of leading parameters that a call of the method must
    /// carry.
    pub fn required_params(&self) -> (r: usize)
        ensures
            r == self.required_params_spec(),
    {
        match self {
            Method::Deploy => 3,
            Method::Execute => 4,
            Method::Transfer => 4,
            Method::Join => 3,
            Method::Split => 3,
            Method::Discovery => 0,
        }
    }

    /// The number of parameters that the method takes at most.
    pub fn max_params(&self) -> (r: usize)
        ensures
            r == self.max_params_spec(),
    {
        match self {
            Method::Deploy => 6,
            Method::Execute => 7,
            Method::Transfer => 8,
            Method::Join => 6,
            Method::Split => 4,
            Method::Discovery => 0,
        }
    }

    /// The name that a call uses for the method.
    pub fn name(&self) -> (r: &'static str)
        ensures
            r@ == self.name_spec(),
    {
        match self {
            Method::Deploy => "deploy",
            Method::Execute => "execute",
            Method::Transfer => "transfer",
            Method::Join => "join",
            Method::Split => "split",
            Method::Discovery => "discovery",
        }
    }

    /// Looks a method up by its name.
    pub fn lookup(name: &str) -> (r: Option<Method>)
        ensures
            r == Method::lookup_spec(name@),
    {
        if str_equal(name, "deploy") {
            Some(Method::Deploy)
        } else if str_equal(name, "execute") {
            Some(Method::Execute)
        } else if str_equal(name, "transfer") {
            Some(Method::Transfer)
        } else if str_equal(name, "join") {
            Some(Method::Join)
        } else if str_equal(name, "split") {
            Some(Method::Split)
        } else if str_equal(name, "discovery") {
            Some(Method::Discovery)
        } else {
            None
        }
    }
}

/// What the gateway tells a client about itself.
#[derive(Debug, PartialEq, Eq)]
pub struct Discovery {
    pub version: String,
    pub features: Vec<String>,
    pub pubkey: String,
}

/// A discovery payload as texts.
pub struct DiscoveryView {
    pub version: Seq<char>,
    pub features: Seq<Seq<char>>,
    pub pubkey: Seq<char>,
}

impl View for Discovery {
    type V = DiscoveryView;

    open spec fn view(&self) -> DiscoveryView {
        DiscoveryView {
            version: self.version@,
            features: self.features@.map_values(|name: String| name@),
            pubkey: self.pubkey@,
        }
    }
}

/// The names of the methods that a discovery payload lists.
pub open spec fn features_spec() -> Seq<Seq<char>> {
    seq!["deploy"@, "execute"@, "transfer"@, "join"@, "split"@]
}

/// The text of the error that reports a stored secret key which is no
/// secret key of the curve.
pub open spec fn invalid_secret_text() -> Seq<char> {
    "invalid secret key"@
}

/// What discovery answers for a gateway of the given version over a store.
pub open spec fn discovery_spec(version: Seq<char>, c: ConfigView) -> Result<
    DiscoveryView,
    RpcErrorView,
> {
    match get_secret_key_spec(c) {
        Err(e) => Err(to_jsonrpc_error_spec(e.message_spec(), e.message_spec())),
        Ok(secret) => if valid_secret(secret) {
            Ok(
                DiscoveryView {
                    version,
                    features: features_spec(),
                    pubkey: hex_encode_spec(p256_public(secret)),
                },
            )
        } else {
            Err(to_jsonrpc_error_spec(invalid_secret_text(), invalid_secret_text()))
        },
    }
}

/// The view of an outcome of discovery.
pub open spec fn discovery_result(r: Result<Discovery, RpcError>) -> Result<
    DiscoveryView,
    RpcErrorView,
> {
    match r {
        Ok(d) => Ok(d@),
        Err(e) => Err(e@),
    }
}

/// The handlers of the gateway. `version` is the version that discovery
/// reports.
#[derive(Debug, PartialEq, Eq)]
pub struct RpcImpl {
    pub version: String,
}

impl RpcImpl {
    /// The names of the methods that discovery lists.
    pub fn features() -> (r: Vec<String>)
        ensures
            r@.map_values(|name: String| name@) == features_spec(),
    {
        let mut features: Vec<String> = Vec::new();
        features.push(Method::Deploy.name().to_owned());
        features.push(Method::Execute.name().to_owned());
        features.push(Method::Transfer.name().to_owned());
        features.push(Method::Join.name().to_owned());
        features.push(Method::Split.name().to_owned());
        features
    }

    /// Answers discovery: the version, the method names, and the public key
    /// of the store's secret key in hexadecimal.
    pub fn discovery(&self, config: &Config) -> (r: Result<Discovery, RpcError>)
        ensures
            discovery_result(r) == discovery_spec(self.version@, config@),
    {
        let client_secret = match config.get_secret_key() {
            Ok(secret) => secret,
            Err(e) => {
                return Err(to_jsonrpc_error(HandlerError { message: e.message(), detail: e.message() }));
            },
        };
        match try_get_p256_pubkey(client_secret.as_slice()) {
            Some(public) => Ok(
                Discovery {
                    version: self.version.clone(),
                    features: RpcImpl::features(),
                    pubkey: hex_encode(public.as_slice()),
                },
            ),
            None => Err(
                to_jsonrpc_error(
                    HandlerError {
                        message: "invalid secret key".to_owned(),
                        detail: "invalid secret key".to_owned(),
                    },
                ),
            ),
        }
    }
}

} // verus!
