//! The request pipeline of the gateway: routing, handshake, decryption,
//! dispatch and the shape of every response.
//!
//! The pipeline works on plain values. Whoever runs the listener turns an
//! inbound request into an [`HttpRequest`], performs the one step that the
//! pipeline cannot take itself (the call into the signing SDK, asked for by
//! [`Step::Invoke`]) and writes the [`HttpResponse`] out.

use crate::config::{get_secret_key_spec, Config, ConfigError, ConfigView};
use crate::hexstr::{
    ascii_bytes, hex_decode, hex_decode_spec, hex_encode_spec, lemma_hex_decode_inverts_encode,
    HexError,
};
use crate::rpc::rpc::{
    discovery_spec, Discovery, DiscoveryView, Method, RpcError, RpcErrorView, RpcImpl,
    CODE_INVALID_PARAMS, CODE_INVALID_REQUEST, CODE_METHOD_NOT_FOUND,
};
use crate::text::{decimal_spec, decimal_text, str_equal};
use crate::tls::aes::{
    aes_decode, decode_spec, is_sealed, lemma_decode_inverts_encode, CipherError,
};
use crate::tls::{
    agrees_with_peer, generate_p256_shared_secret, generate_p256_shared_secret_spec, hkdf_sha256,
    p256_public, shared_secret_spec, shared_secret_to_symmetric_secret, valid_secret,
    KeyExchangeError, SharedSecretError,
};
use jsonrpc_core::{Call, Id, Params, Request, Version};
use vstd::prelude::*;
use vstd::string::StringExecFns;

verus! {

/// Code of the error for a body that does not decrypt.
pub const CODE_AES_DECRYPT_ERROR: i64 = 1234;

/// Code of the error for a missing or malformed public key.
pub const CODE_NO_PUBKEY_FOUND: i64 = 1235;

/// Code of the error for a failed key agreement.
pub const CODE_ECDH_ERROR: i64 = 1236;

/// Name of the header that carries the client's public key.
pub const HEADER_PUBLIC_KEY: &'static str = "Public-Key";

/// `Params` of the `jsonrpc-core` crate: the parameters of a call, which the
/// pipeline hands on as they came.
#[verifier::external_type_specification]
#[verifier::external_body]
pub struct ExParams(Params);

/// `Id` of the `jsonrpc-core` crate: the identifier of a call, which the
/// pipeline hands back as it came.
#[verifier::external_type_specification]
#[verifier::external_body]
pub struct ExId(Id);

/// `Version` of the `jsonrpc-core` crate: the protocol version that a call
/// names. The crate knows version 2.0 only.
#[verifier::external_type_specification]
#[verifier::external_body]
pub struct ExVersion(Version);

/// The method of an inbound request.
#[derive(Debug, Clone, Copy, PartialEq, Eq, Structural)]
pub enum HttpMethod {
    Options,
    Get,
    Post,
    Other,
}

/// What the pipeline reads of an inbound request: method, path, the value
/// of the public-key header where there is one, and the body.
#[derive(Debug, PartialEq, Eq)]
pub struct HttpRequest {
    pub method: HttpMethod,
    pub path: String,
    pub public_key: Option<Vec<u8>>,
    pub body: Vec<u8>,
}

/// The content type of a response.
#[derive(Debug, Clone, Copy, PartialEq, Eq, Structural)]
pub enum ContentType {
    /// No content type is sent.
    Absent,
    /// `application/json`
    Json,
    /// `text/plain`
    Text,
}

/// The result of a call that succeeded.
#[derive(Debug, PartialEq, Eq)]
pub enum RpcValue {
    /// The text that a handler returned.
    Text(String),
    /// The payload of discovery.
    Discovery(Discovery),
}

/// The result of a call as a plain value.
pub enum RpcValueView {
    Text(Seq<char>),
    Discovery(DiscoveryView),
}

impl View for RpcValue {
    type V = RpcValueView;

    open spec fn view(&self) -> RpcValueView {
        match self {
            RpcValue::Text(text) => RpcValueView::Text(text@),
            RpcValue::Discovery(d) => RpcValueView::Discovery(d@),
        }
    }
}

/// A response object of the JSON-RPC protocol: the identifier of the call
/// and either its result or its error. `jsonrpc` tells whether the object
/// carries the protocol version.
#[derive(Debug, PartialEq, Eq)]
pub struct RpcOutput {
    pub jsonrpc: bool,
    pub id: Id,
    pub outcome: Result<RpcValue, RpcError>,
}

/// A response object as plain values.
pub struct RpcOutputView {
    pub jsonrpc: bool,
    pub id: Id,
    pub outcome: Result<RpcValueView, RpcErrorView>,
}

impl View for RpcOutput {
    type V = RpcOutputView;

    open spec fn view(&self) -> RpcOutputView {
        RpcOutputView {
            jsonrpc: self.jsonrpc,
            id: self.id,
            outcome: match self.outcome {
                Ok(value) => Ok(value@),
                Err(e) => Err(e@),
            },
        }
    }
}

/// What a response carries as its body.
#[derive(Debug, PartialEq, Eq)]
pub enum ResponseBody {
    /// Nothing.
    Empty,
    /// A text.
    Text(String),
    /// A bare discovery payload.
    Discovery(Discovery),
    /// A bare error object.
    Error(RpcError),
    /// A response object.
    Output(RpcOutput),
}

/// A body as plain values.
pub enum ResponseBodyView {
    Empty,
    Text(Seq<char>),
    Discovery(DiscoveryView),
    Error(RpcErrorView),
    Output(RpcOutputView),
}

impl View for ResponseBody {
    type V = ResponseBodyView;

    open spec fn view(&self) -> ResponseBodyView {
        match self {
            ResponseBody::Empty => ResponseBodyView::Empty,
            ResponseBody::Text(text) => ResponseBodyView::Text(text@),
            ResponseBody::Discovery(d) => ResponseBodyView::Discovery(d@),
            ResponseBody::Error(e) => ResponseBodyView::Error(e@),
            ResponseBody::Output(o) => ResponseBodyView::Output(o@),
        }
    }
}

/// A response: status, content type, whether the permissive CORS headers
/// are attached, and the body.
#[derive(Debug, PartialEq, Eq)]
pub struct HttpResponse {
    pub status: u16,
    pub content_type: ContentType,
    pub cors: bool,
    pub body: ResponseBody,
}

/// A response as plain values.
pub struct HttpResponseView {
    pub status: u16,
    pub content_type: ContentType,
    pub cors: bool,
    pub body: ResponseBodyView,
}

impl View for HttpResponse {
    type V = HttpResponseView;

    open spec fn view(&self) -> HttpResponseView {
        HttpResponseView {
            status: self.status,
            content_type: self.content_type,
            cors: self.cors,
            body: self.body@,
        }
    }
}

/// A call that waits for the signing SDK: the caller invokes `method` with
/// `params` and hands the outcome to [`finish_call`].
#[derive(Debug, PartialEq)]
pub struct Invocation {
    pub cors: bool,
    pub jsonrpc: bool,
    pub id: Id,
    pub method: Method,
    pub params: Params,
}

/// A waiting call as plain values.
pub struct InvocationView {
    pub cors: bool,
    pub jsonrpc: bool,
    pub id: Id,
    pub method: Method,
    pub params: Params,
}

impl View for Invocation {
    type V = InvocationView;

    open spec fn view(&self) -> InvocationView {
        InvocationView {
            cors: self.cors,
            jsonrpc: self.jsonrpc,
            id: self.id,
            method: self.method,
            params: self.params,
        }
    }
}

/// Where the pipeline stands after it has looked at a request: at its
/// response, or at a call that the signing SDK has to answer first.
#[derive(Debug, PartialEq)]
pub enum Step {
    Respond(HttpResponse),
    Invoke(Invocation),
}

/// A step as plain values.
pub enum StepView {
    Respond(HttpResponseView),
    Invoke(InvocationView),
}

impl View for Step {
    type V = StepView;

    open spec fn view(&self) -> StepView {
        match self {
            Step::Respond(response) => StepView::Respond(response@),
            Step::Invoke(invocation) => StepView::Invoke(invocation@),
        }
    }
}

/// How the parameters of a call come.
#[derive(Debug, Clone, Copy, PartialEq, Eq, Structural)]
pub enum ParamShape {
    /// The call carries no parameters.
    Absent,
    /// The parameters come by position, in an array of this length.
    ByPosition(usize),
    /// The parameters come by name.
    ByName,
}

/// A method call as the pipeline reads it: the protocol version that it
/// names, if any, its identifier, the method's name, how its parameters
/// come, the parameters as a text, and the parameters themselves.
#[derive(Debug, PartialEq)]
pub struct MethodCall {
    pub jsonrpc: Option<Version>,
    pub id: Id,
    pub method: String,
    pub shape: ParamShape,
    pub params_text: String,
    pub params: Params,
}

/// A decoded request body.
#[derive(Debug, PartialEq)]
pub enum Envelope {
    /// A call that expects a response.
    Call(MethodCall),
    /// A call without an identifier, which expects none.
    Notification,
    /// An object that is no call.
    Invalid { id: Id },
    /// Several calls at once.
    Batch,
}

/// What a body decodes to as a JSON-RPC request, `None` where it is none.
pub uninterp spec fn json_rpc_envelope(body: Seq<u8>) -> Option<Envelope>;

/// `serde_json::from_slice` into a `jsonrpc_core::Request`, its fields moved
/// into an [`Envelope`]; of the parameters it tells the three variants apart
/// and takes the length of an array. The contract names the result.
#[verifier::external_body]
fn parse_envelope(body: &[u8]) -> (r: Option<Envelope>)
    ensures
        r == json_rpc_envelope(body@),
{
    match serde_json::from_slice::<Request>(body).ok()? {
        Request::Single(Call::MethodCall(call)) => Some(Envelope::Call(MethodCall {
            jsonrpc: call.jsonrpc,
            id: call.id,
            method: call.method,
            shape: match &call.params { Params::None => ParamShape::Absent, Params::Array(items) => ParamShape::ByPosition(items.len()), Params::Map(_) => ParamShape::ByName },
            params_text: format!("{:?}", call.params),
            params: call.params,
        })),
        Request::Single(Call::Notification(_)) => Some(Envelope::Notification),
        Request::Single(Call::Invalid { id }) => Some(Envelope::Invalid { id }),
        Request::Batch(_) => Some(Envelope::Batch),
    }
}

/// Why a request carries no usable public key.
#[derive(Debug, Clone, Copy, PartialEq, Eq, Structural)]
pub enum HeaderError {
    /// The header is missing.
    Missing,
    /// The header's value is no hexadecimal text.
    Hex(HexError),
}

impl HeaderError {
    /// The text that describes the error.
    pub open spec fn message_spec(self) -> Seq<char> {
        match self {
            HeaderError::Missing => "no value"@,
            HeaderError::Hex(HexError::OddLength) => "Odd number of digits"@,
            HeaderError::Hex(HexError::InvalidCharacter { .. }) => "Invalid character"@,
        }
    }

    /// The text that describes the error.
    pub fn message(&self) -> (r: String)
        ensures
            r@ == self.message_spec(),
    {
        match self {
            HeaderError::Missing => "no value".to_owned(),
            HeaderError::Hex(HexError::OddLength) => "Odd number of digits".to_owned(),
            HeaderError::Hex(HexError::InvalidCharacter { .. }) => "Invalid character".to_owned(),
        }
    }
}

/// The bytes that a public-key header stands for.
pub open spec fn read_header_spec(header: Option<Seq<u8>>) -> Result<Seq<u8>, HeaderError> {
    match header {
        None => Err(HeaderError::Missing),
        Some(value) => match hex_decode_spec(value) {
            Ok(bytes) => Ok(bytes),
            Err(e) => Err(HeaderError::Hex(e)),
        },
    }
}

/// The error object for a missing or malformed public key.
pub open spec fn no_public_key_error(e: HeaderError) -> RpcErrorView {
    RpcErrorView {
        code: CODE_NO_PUBKEY_FOUND,
        message: "no public key found"@,
        data: Some(e.message_spec()),
    }
}

/// The error object for a failed key agreement.
pub open spec fn ecdh_error(e: SharedSecretError) -> RpcErrorView {
    RpcErrorView {
        code: CODE_ECDH_ERROR,
        message: "failed to generate shared secret"@,
        data: Some(e.message_spec()),
    }
}

/// The error object for a body that does not decrypt.
pub open spec fn decrypt_error(e: CipherError) -> RpcErrorView {
    RpcErrorView {
        code: CODE_AES_DECRYPT_ERROR,
        message: e.message_spec(),
        data: Some(e.message_spec()),
    }
}

/// The error object for an object that is no call.
pub open spec fn invalid_request_error() -> RpcErrorView {
    RpcErrorView { code: CODE_INVALID_REQUEST, message: "Invalid request"@, data: None }
}

/// The error object for a call that does not name protocol version 2.0.
pub open spec fn invalid_version_error() -> RpcErrorView {
    RpcErrorView {
        code: CODE_INVALID_REQUEST,
        message: "Unsupported JSON-RPC protocol version"@,
        data: None,
    }
}

/// The error object for a call to a method that the gateway does not have.
pub open spec fn method_not_found_error() -> RpcErrorView {
    RpcErrorView { code: CODE_METHOD_NOT_FOUND, message: "Method not found"@, data: None }
}

/// The error object for parameters handed to a method that takes none.
pub open spec fn unexpected_params_error(params_text: Seq<char>) -> RpcErrorView {
    RpcErrorView {
        code: CODE_INVALID_PARAMS,
        message: "Invalid parameters: No parameters were expected"@,
        data: Some(params_text),
    }
}

/// The error object for parameters that come by name.
pub open spec fn params_not_array_error() -> RpcErrorView {
    RpcErrorView {
        code: CODE_INVALID_PARAMS,
        message: "`params` should be an array"@,
        data: None,
    }
}

/// The error object for a call that carries fewer parameters than its
/// method requires.
pub open spec fn too_few_params_error(required: nat) -> RpcErrorView {
    RpcErrorView {
        code: CODE_INVALID_PARAMS,
        message: "`params` should have at least "@ + decimal_spec(required) + " argument(s)"@,
        data: None,
    }
}

/// The error object for a call that carries more parameters than its method
/// takes.
pub open spec fn too_many_params_error(required: nat, max: nat, got: nat) -> RpcErrorView {
    RpcErrorView {
        code: CODE_INVALID_PARAMS,
        message: "Invalid parameters: Expected from "@ + decimal_spec(required) + " to "@
            + decimal_spec(max) + " parameters."@,
        data: Some("\"Got: "@ + decimal_spec(got) + "\""@),
    }
}

/// The number of parameters that a call carries by position: none where
/// it carries no parameters at all, and no number where they come by name.
pub open spec fn param_count_spec(shape: ParamShape) -> Option<usize> {
    match shape {
        ParamShape::Absent => Some(0usize),
        ParamShape::ByPosition(n) => Some(n),
        ParamShape::ByName => None,
    }
}

/// What is wrong with the number of parameters of a call, if anything:
/// they must come by position, at least the required ones and no more than
/// the method takes. A method without parameters accepts an empty array.
pub open spec fn arity_error_spec(
    method: Method,
    shape: ParamShape,
    params_text: Seq<char>,
) -> Option<RpcErrorView> {
    if method == Method::Discovery {
        if param_count_spec(shape) == Some(0usize) {
            None
        } else {
            Some(unexpected_params_error(params_text))
        }
    } else {
        match param_count_spec(shape) {
            None => Some(params_not_array_error()),
            Some(n) => if n < method.required_params_spec() {
                Some(too_few_params_error(method.required_params_spec()))
            } else if n > method.max_params_spec() {
                Some(
                    too_many_params_error(
                        method.required_params_spec(),
                        method.max_params_spec(),
                        n as nat,
                    ),
                )
            } else {
                None
            },
        }
    }
}

/// The session key of a request: the key derived from the shared secret of
/// the store's secret key and the public key in the header, or the error
/// that ends the request.
pub open spec fn handshake_spec(c: ConfigView, header: Option<Seq<u8>>) -> Result<
    Seq<u8>,
    RpcErrorView,
> {
    match read_header_spec(header) {
        Err(e) => Err(no_public_key_error(e)),
        Ok(public_key) => match generate_p256_shared_secret_spec(c, public_key) {
            Err(e) => Err(ecdh_error(e)),
            Ok(shared) => Ok(hkdf_sha256(shared)),
        },
    }
}

/// The response that delivers a bare error object.
pub open spec fn error_response_spec(e: RpcErrorView) -> HttpResponseView {
    HttpResponseView {
        status: 200,
        content_type: ContentType::Json,
        cors: false,
        body: ResponseBodyView::Error(e),
    }
}

/// The response that delivers a response object.
pub open spec fn output_response_spec(output: RpcOutputView) -> HttpResponseView {
    HttpResponseView {
        status: 200,
        content_type: ContentType::Json,
        cors: false,
        body: ResponseBodyView::Output(output),
    }
}

/// The response to a body that is no single call.
pub open spec fn bad_request_spec() -> HttpResponseView {
    HttpResponseView {
        status: 400,
        content_type: ContentType::Absent,
        cors: false,
        body: ResponseBodyView::Empty,
    }
}

/// The response to a call that expects none.
pub open spec fn plain_response_spec() -> HttpResponseView {
    HttpResponseView {
        status: 200,
        content_type: ContentType::Text,
        cors: false,
        body: ResponseBodyView::Text("Response"@),
    }
}

/// The response to a request that the gateway does not route.
pub open spec fn not_found_spec() -> HttpResponseView {
    HttpResponseView {
        status: 404,
        content_type: ContentType::Absent,
        cors: false,
        body: ResponseBodyView::Empty,
    }
}

/// The response to a preflight request.
pub open spec fn preflight_spec() -> HttpResponseView {
    HttpResponseView {
        status: 200,
        content_type: ContentType::Absent,
        cors: true,
        body: ResponseBodyView::Empty,
    }
}

/// The outcome of the discovery method as the result of a call.
pub open spec fn discovery_outcome_spec(version: Seq<char>, c: ConfigView) -> Result<
    RpcValueView,
    RpcErrorView,
> {
    match discovery_spec(version, c) {
        Ok(d) => Ok(RpcValueView::Discovery(d)),
        Err(e) => Err(e),
    }
}

/// Where a decoded body leads: a body that is no single call is a bad
/// request, a call without identifier gets the plain response, an unknown
/// method or a wrong number of parameters its error, discovery its answer,
/// and any other method waits for the signing SDK.
pub open spec fn dispatch_spec(version: Seq<char>, c: ConfigView, envelope: Option<Envelope>) -> StepView {
    match envelope {
        None => StepView::Respond(bad_request_spec()),
        Some(Envelope::Batch) => StepView::Respond(bad_request_spec()),
        Some(Envelope::Notification) => StepView::Respond(plain_response_spec()),
        Some(Envelope::Invalid { id }) => StepView::Respond(
            output_response_spec(
                RpcOutputView { jsonrpc: true, id, outcome: Err(invalid_request_error()) },
            ),
        ),
        Some(Envelope::Call(call)) => if call.jsonrpc is None {
            StepView::Respond(
                output_response_spec(
                    RpcOutputView {
                        jsonrpc: false,
                        id: call.id,
                        outcome: Err(invalid_version_error()),
                    },
                ),
            )
        } else {
            match Method::lookup_spec(call.method@) {
                None => StepView::Respond(
                    output_response_spec(
                        RpcOutputView {
                            jsonrpc: true,
                            id: call.id,
                            outcome: Err(method_not_found_error()),
                        },
                    ),
                ),
                Some(method) => match arity_error_spec(
                    method,
                    call.shape,
                    call.params_text@,
                ) {
                    Some(error) => StepView::Respond(
                        output_response_spec(
                            RpcOutputView { jsonrpc: true, id: call.id, outcome: Err(error) },
                        ),
                    ),
                    None => if method == Method::Discovery {
                        StepView::Respond(
                            output_response_spec(
                                RpcOutputView {
                                    jsonrpc: true,
                                    id: call.id,
                                    outcome: discovery_outcome_spec(version, c),
                                },
                            ),
                        )
                    } else {
                        StepView::Invoke(
                            InvocationView {
                                cors: false,
                                jsonrpc: true,
                                id: call.id,
                                method,
                                params: call.params,
                            },
                        )
                    },
                },
            }
        },
    }
}

/// Where a decrypted body leads.
pub open spec fn handle_rpc_spec(version: Seq<char>, c: ConfigView, body: Seq<u8>) -> StepView {
    dispatch_spec(version, c, json_rpc_envelope(body))
}

/// Where an encrypted call leads: to the error of the first stage that
/// fails (handshake, then decryption), else to where the decrypted body
/// leads.
pub open spec fn aes_decode_middleware_spec(
    version: Seq<char>,
    c: ConfigView,
    header: Option<Seq<u8>>,
    body: Seq<u8>,
) -> StepView {
    match handshake_spec(c, header) {
        Err(e) => StepView::Respond(error_response_spec(e)),
        Ok(key) => match decode_spec(key, body) {
            Err(e) => StepView::Respond(error_response_spec(decrypt_error(e))),
            Ok(plain) => handle_rpc_spec(version, c, plain),
        },
    }
}

/// A step with the permissive CORS headers attached to its response.
pub open spec fn with_cors_spec(step: StepView) -> StepView {
    match step {
        StepView::Respond(response) => StepView::Respond(
            HttpResponseView { cors: true, ..response },
        ),
        StepView::Invoke(invocation) => StepView::Invoke(
            InvocationView { cors: true, ..invocation },
        ),
    }
}

/// The view of a header value that may be absent.
pub open spec fn header_view(header: Option<Vec<u8>>) -> Option<Seq<u8>> {
    match header {
        Some(value) => Some(value@),
        None => None,
    }
}

/// The response to `GET /discovery`: the bare discovery payload, or the
/// bare error object where the payload cannot be built; either way with
/// status 200, as JSON and with the CORS headers.
pub open spec fn discovery_response_spec(version: Seq<char>, c: ConfigView) -> HttpResponseView {
    HttpResponseView {
        status: 200,
        content_type: ContentType::Json,
        cors: true,
        body: match discovery_spec(version, c) {
            Ok(d) => ResponseBodyView::Discovery(d),
            Err(e) => ResponseBodyView::Error(e),
        },
    }
}

/// Where an inbound request leads: a preflight request to the CORS headers,
/// `GET /discovery` to the discovery answer, `POST /` into the pipeline for
/// encrypted calls, anything else to 404.
pub open spec fn handle_request_spec(
    version: Seq<char>,
    c: ConfigView,
    method: HttpMethod,
    path: Seq<char>,
    header: Option<Seq<u8>>,
    body: Seq<u8>,
) -> StepView {
    if method == HttpMethod::Options {
        StepView::Respond(preflight_spec())
    } else if method == HttpMethod::Get && path == "/discovery"@ {
        StepView::Respond(discovery_response_spec(version, c))
    } else if method == HttpMethod::Post && path == "/"@ {
        with_cors_spec(aes_decode_middleware_spec(version, c, header, body))
    } else {
        StepView::Respond(not_found_spec())
    }
}

/// The view of what a handler returned.
pub open spec fn call_result_view(result: Result<String, RpcError>) -> Result<
    RpcValueView,
    RpcErrorView,
> {
    match result {
        Ok(text) => Ok(RpcValueView::Text(text@)),
        Err(e) => Err(e@),
    }
}

/// The response to a call that the signing SDK has answered.
pub open spec fn finish_call_spec(
    invocation: InvocationView,
    result: Result<RpcValueView, RpcErrorView>,
) -> HttpResponseView {
    HttpResponseView {
        cors: invocation.cors,
        ..output_response_spec(
            RpcOutputView { jsonrpc: invocation.jsonrpc, id: invocation.id, outcome: result },
        )
    }
}

/// Decodes the value of the public-key header from hexadecimal.
pub fn read_header_hex_as_bytes(header: Option<&[u8]>) -> (r: Result<Vec<u8>, HeaderError>)
    ensures
        match r {
            Ok(bytes) => read_header_spec(
                match header {
                    Some(value) => Some(value@),
                    None => None,
                },
            ) == Ok::<Seq<u8>, HeaderError>(bytes@),
            Err(e) => read_header_spec(
                match header {
                    Some(value) => Some(value@),
                    None => None,
                },
            ) == Err::<Seq<u8>, HeaderError>(e),
        },
{
    match header {
        Some(value) => match hex_decode(value) {
            Ok(bytes) => Ok(bytes),
            Err(e) => Err(HeaderError::Hex(e)),
        },
        None => Err(HeaderError::Missing),
    }
}

/// Wraps a bare error object into its response: status 200, JSON.
pub fn jsonrpc_error_to_response(err: RpcError) -> (r: HttpResponse)
    ensures
        r@ == error_response_spec(err@),
{
    HttpResponse {
        status: 200,
        content_type: ContentType::Json,
        cors: false,
        body: ResponseBody::Error(err),
    }
}

/// Wraps a response object into its response: status 200, JSON.
pub fn output_response(output: RpcOutput) -> (r: HttpResponse)
    ensures
        r@ == output_response_spec(output@),
{
    HttpResponse {
        status: 200,
        content_type: ContentType::Json,
        cors: false,
        body: ResponseBody::Output(output),
    }
}

/// Runs the handshake of a request: reads the client's public key from the
/// header, agrees on a shared secret with the store's secret key and derives
/// the session key from it.
pub fn handshake(config: &Config, header: Option<&[u8]>) -> (r: Result<Vec<u8>, RpcError>)
    ensures
        match r {
            Ok(key) => handshake_spec(
                config@,
                match header {
                    Some(value) => Some(value@),
                    None => None,
                },
            ) == Ok::<Seq<u8>, RpcErrorView>(key@) && key@.len() == 32,
            Err(e) => handshake_spec(
                config@,
                match header {
                    Some(value) => Some(value@),
                    None => None,
                },
            ) == Err::<Seq<u8>, RpcErrorView>(e@),
        },
{
    let pk = match read_header_hex_as_bytes(header) {
        Ok(pk) => pk,
        Err(e) => {
            return Err(
                RpcError {
                    code: CODE_NO_PUBKEY_FOUND,
                    message: "no public key found".to_owned(),
                    data: Some(e.message()),
                },
            );
        },
    };
    let shared = match generate_p256_shared_secret(config, pk.as_slice()) {
        Ok(shared) => shared,
        Err(e) => {
            return Err(
                RpcError {
                    code: CODE_ECDH_ERROR,
                    message: "failed to generate shared secret".to_owned(),
                    data: Some(e.message()),
                },
            );
        },
    };
    Ok(shared_secret_to_symmetric_secret(shared.as_slice()))
}

/// Checks the number of parameters of a call against what its method
/// takes.
pub fn arity_error(method: Method, shape: ParamShape, params_text: String) -> (r: Option<
    RpcError,
>)
    ensures
        match r {
            Some(error) => arity_error_spec(method, shape, params_text@) == Some(error@),
            None => arity_error_spec(method, shape, params_text@) is None,
        },
{
    let param_count: Option<usize> = match shape {
        ParamShape::Absent => Some(0),
        ParamShape::ByPosition(n) => Some(n),
        ParamShape::ByName => None,
    };
    match method {
        Method::Discovery => match param_count {
            Some(0) => None,
            _ => Some(
                RpcError {
                    code: CODE_INVALID_PARAMS,
                    message: "Invalid parameters: No parameters were expected".to_owned(),
                    data: Some(params_text),
                },
            ),
        },
        _ => match param_count {
            None => Some(
                RpcError {
                    code: CODE_INVALID_PARAMS,
                    message: "`params` should be an array".to_owned(),
                    data: None,
                },
            ),
            Some(n) => {
                let required = method.required_params();
                let max = method.max_params();
                if n < required {
                    let mut message = "`params` should have at least ".to_owned();
                    message.append(decimal_text(required).as_str());
                    message.append(" argument(s)");
                    Some(RpcError { code: CODE_INVALID_PARAMS, message, data: None })
                } else if n > max {
                    let mut message = "Invalid parameters: Expected from ".to_owned();
                    message.append(decimal_text(required).as_str());
                    message.append(" to ");
                    message.append(decimal_text(max).as_str());
                    message.append(" parameters.");
                    let mut data = "\"Got: ".to_owned();
                    data.append(decimal_text(n).as_str());
                    data.append("\"");
                    Some(RpcError { code: CODE_INVALID_PARAMS, message, data: Some(data) })
                } else {
                    None
                }
            },
        },
    }
}

/// Decides where a decoded body leads.
pub fn dispatch(rpc: &RpcImpl, config: &Config, envelope: Option<Envelope>) -> (r: Step)
    ensures
        r@ == dispatch_spec(rpc.version@, config@, envelope),
{
    match envelope {
        None | Some(Envelope::Batch) => Step::Respond(
            HttpResponse {
                status: 400,
                content_type: ContentType::Absent,
                cors: false,
                body: ResponseBody::Empty,
            },
        ),
        Some(Envelope::Notification) => Step::Respond(
            HttpResponse {
                status: 200,
                content_type: ContentType::Text,
                cors: false,
                body: ResponseBody::Text("Response".to_owned()),
            },
        ),
        Some(Envelope::Invalid { id }) => Step::Respond(
            output_response(
                RpcOutput {
                    jsonrpc: true,
                    id,
                    outcome: Err(
                        RpcError {
                            code: CODE_INVALID_REQUEST,
                            message: "Invalid request".to_owned(),
                            data: None,
                        },
                    ),
                },
            ),
        ),
        Some(Envelope::Call(call)) => {
            if call.jsonrpc.is_none() {
                return Step::Respond(
                    output_response(
                        RpcOutput {
                            jsonrpc: false,
                            id: call.id,
                            outcome: Err(
                                RpcError {
                                    code: CODE_INVALID_REQUEST,
                                    message: "Unsupported JSON-RPC protocol version".to_owned(),
                                    data: None,
                                },
                            ),
                        },
                    ),
                );
            }
            match Method::lookup(call.method.as_str()) {
                None => Step::Respond(
                    output_response(
                        RpcOutput {
                            jsonrpc: true,
                            id: call.id,
                            outcome: Err(
                                RpcError {
                                    code: CODE_METHOD_NOT_FOUND,
                                    message: "Method not found".to_owned(),
                                    data: None,
                                },
                            ),
                        },
                    ),
                ),
                Some(method) => match arity_error(method, call.shape, call.params_text) {
                    Some(error) => Step::Respond(
                        output_response(
                            RpcOutput { jsonrpc: true, id: call.id, outcome: Err(error) },
                        ),
                    ),
                    None => match method {
                        Method::Discovery => {
                            let outcome = match rpc.discovery(config) {
                                Ok(d) => Ok(RpcValue::Discovery(d)),
                                Err(e) => Err(e),
                            };
                            Step::Respond(
                                output_response(RpcOutput { jsonrpc: true, id: call.id, outcome }),
                            )
                        },
                        _ => Step::Invoke(
                            Invocation {
                                cors: false,
                                jsonrpc: true,
                                id: call.id,
                                method,
                                params: call.params,
                            },
                        ),
                    },
                },
            }
        },
    }
}

/// Decodes a decrypted body as a JSON-RPC request and decides where it
/// leads.
pub fn handle_rpc(rpc: &RpcImpl, config: &Config, body: &[u8]) -> (r: Step)
    ensures
        r@ == handle_rpc_spec(rpc.version@, config@, body@),
{
    dispatch(rpc, config, parse_envelope(body))
}

/// Takes an encrypted call through handshake, decryption and dispatch.
pub fn aes_decode_middleware(
    rpc: &RpcImpl,
    config: &Config,
    public_key: Option<&[u8]>,
    body: &[u8],
) -> (r: Step)
    ensures
        r@ == aes_decode_middleware_spec(
            rpc.version@,
            config@,
            match public_key {
                Some(value) => Some(value@),
                None => None,
            },
            body@,
        ),
{
    let aes_key = match handshake(config, public_key) {
        Ok(key) => key,
        Err(error) => {
            return Step::Respond(jsonrpc_error_to_response(error));
        },
    };
    let decoded_body = match aes_decode(aes_key.as_slice(), body) {
        Ok(plain) => plain,
        Err(e) => {
            return Step::Respond(
                jsonrpc_error_to_response(
                    RpcError {
                        code: CODE_AES_DECRYPT_ERROR,
                        message: e.message(),
                        data: Some(e.message()),
                    },
                ),
            );
        },
    };
    handle_rpc(rpc, config, decoded_body.as_slice())
}

/// Attaches the permissive CORS headers to the response of a step.
pub fn with_cors(step: Step) -> (r: Step)
    ensures
        r@ == with_cors_spec(step@),
{
    match step {
        Step::Respond(response) => Step::Respond(
            HttpResponse {
                status: response.status,
                content_type: response.content_type,
                cors: true,
                body: response.body,
            },
        ),
        Step::Invoke(invocation) => Step::Invoke(
            Invocation {
                cors: true,
                jsonrpc: invocation.jsonrpc,
                id: invocation.id,
                method: invocation.method,
                params: invocation.params,
            },
        ),
    }
}

/// Routes an inbound request and takes it as far as the pipeline can: to
/// its response, or to the call that the signing SDK has to answer.
pub fn handle_request(rpc: &RpcImpl, config: &Config, req: &HttpRequest) -> (r: Step)
    ensures
        r@ == handle_request_spec(
            rpc.version@,
            config@,
            req.method,
            req.path@,
            header_view(req.public_key),
            req.body@,
        ),
{
    match req.method {
        HttpMethod::Options => Step::Respond(
            HttpResponse {
                status: 200,
                content_type: ContentType::Absent,
                cors: true,
                body: ResponseBody::Empty,
            },
        ),
        HttpMethod::Get => {
            if str_equal(req.path.as_str(), "/discovery") {
                let body = match rpc.discovery(config) {
                    Ok(d) => ResponseBody::Discovery(d),
                    Err(e) => ResponseBody::Error(e),
                };
                Step::Respond(
                    HttpResponse {
                        status: 200,
                        content_type: ContentType::Json,
                        cors: true,
                        body,
                    },
                )
            } else {
                not_found()
            }
        },
        HttpMethod::Post => {
            if str_equal(req.path.as_str(), "/") {
                let header = match &req.public_key {
                    Some(value) => Some(value.as_slice()),
                    None => None,
                };
                with_cors(aes_decode_middleware(rpc, config, header, req.body.as_slice()))
            } else {
                not_found()
            }
        },
        HttpMethod::Other => not_found(),
    }
}

/// The step of a request that the gateway does not route.
fn not_found() -> (r: Step)
    ensures
        r@ == StepView::Respond(not_found_spec()),
{
    Step::Respond(
        HttpResponse {
            status: 404,
            content_type: ContentType::Absent,
            cors: false,
            body: ResponseBody::Empty,
        },
    )
}

/// Builds the response to a call that the signing SDK has answered: the
/// handler's text as the result, or its error.
pub fn finish_call(invocation: Invocation, result: Result<String, RpcError>) -> (r: HttpResponse)
    ensures
        r@ == finish_call_spec(invocation@, call_result_view(result)),
{
    let outcome = match result {
        Ok(text) => Ok(RpcValue::Text(text)),
        Err(e) => Err(e),
    };
    HttpResponse {
        status: 200,
        content_type: ContentType::Json,
        cors: invocation.cors,
        body: ResponseBody::Output(
            RpcOutput { jsonrpc: invocation.jsonrpc, id: invocation.id, outcome },
        ),
    }
}

/// A client that follows the protocol is heard: where the store's secret key
/// is readable and valid, a body sealed under the session key that the
/// client derived from the server's public key, sent with the client's own
/// public key in hexadecimal, leads where its plaintext leads.
pub proof fn lemma_sealed_call_is_dispatched(
    version: Seq<char>,
    c: ConfigView,
    server_secret: Seq<u8>,
    client_secret: Seq<u8>,
    shared: Seq<u8>,
    plain: Seq<u8>,
    body: Seq<u8>,
)
    requires
        get_secret_key_spec(c) == Ok::<Seq<u8>, ConfigError>(server_secret),
        valid_secret(server_secret),
        valid_secret(client_secret),
        shared_secret_spec(client_secret, p256_public(server_secret)) == Ok::<
            Seq<u8>,
            KeyExchangeError,
        >(shared),
        agrees_with_peer(client_secret, p256_public(server_secret), shared),
        is_sealed(hkdf_sha256(shared), plain, body),
    ensures
        handshake_spec(c, Some(ascii_bytes(hex_encode_spec(p256_public(client_secret))))) == Ok::<
            Seq<u8>,
            RpcErrorView,
        >(hkdf_sha256(shared)),
        aes_decode_middleware_spec(
            version,
            c,
            Some(ascii_bytes(hex_encode_spec(p256_public(client_secret)))),
            body,
        ) == handle_rpc_spec(version, c, plain),
{
    lemma_hex_decode_inverts_encode(p256_public(client_secret));
    lemma_decode_inverts_encode(hkdf_sha256(shared), plain, body);
}

/// A call that arrives without a public key is answered with the error of
/// that name, inside a response of status 200 with the CORS headers,
/// whatever the store holds and whatever the body is.
pub proof fn lemma_call_without_public_key(version: Seq<char>, c: ConfigView, body: Seq<u8>)
    ensures
        handle_request_spec(version, c, HttpMethod::Post, "/"@, None, body) == StepView::Respond(
            HttpResponseView {
                status: 200,
                content_type: ContentType::Json,
                cors: true,
                body: ResponseBodyView::Error(
                    RpcErrorView {
                        code: CODE_NO_PUBKEY_FOUND,
                        message: "no public key found"@,
                        data: Some("no value"@),
                    },
                ),
            },
        ),
{
}

/// Whatever a call to `POST /` holds, its answer carries the CORS headers,
/// and where the call fails before it is dispatched, the error travels in a
/// response of status 200.
pub proof fn lemma_call_is_answered_with_cors(
    version: Seq<char>,
    c: ConfigView,
    header: Option<Seq<u8>>,
    body: Seq<u8>,
)
    ensures
        match handle_request_spec(version, c, HttpMethod::Post, "/"@, header, body) {
            StepView::Respond(response) => response.cors && (response.status == 200
                || response.status == 400),
            StepView::Invoke(invocation) => invocation.cors,
        },
        handshake_spec(c, header) is Err ==> handle_request_spec(
            version,
            c,
            HttpMethod::Post,
            "/"@,
            header,
            body,
        ) == StepView::Respond(
            HttpResponseView { cors: true, ..error_response_spec(handshake_spec(c, header)->Err_0) },
        ),
{
}

} // verus!
