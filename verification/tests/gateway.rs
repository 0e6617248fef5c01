use acc_service::config::{Config, Record};
use acc_service::rpc::middleware::{
    aes_decode_middleware, arity_error, dispatch, finish_call, handle_request, handle_rpc, handshake,
    jsonrpc_error_to_response, output_response, read_header_hex_as_bytes, with_cors, ContentType,
    Envelope, HeaderError, HttpMethod, HttpRequest, HttpResponse, Invocation, MethodCall,
    ParamShape,
    ResponseBody, RpcOutput, RpcValue, Step, CODE_AES_DECRYPT_ERROR, CODE_ECDH_ERROR,
    CODE_NO_PUBKEY_FOUND, HEADER_PUBLIC_KEY,
};
use acc_service::hexstr::HexError;
use acc_service::rpc::rpc::{
    to_jsonrpc_error, to_jsonrpc_result, Discovery, HandlerError, Method, RpcError, RpcImpl,
    CODE_INVALID_PARAMS, CODE_INVALID_REQUEST, CODE_METHOD_NOT_FOUND, CODE_SERVER_ERROR,
};
use acc_service::tls::aes::aes_encode;
use acc_service::tls::{
    compute_shared_secret, generate_p256_secret, get_p256_pubkey,
    shared_secret_to_symmetric_secret,
};
use jsonrpc_core::{Id, Params, Version};
use serde_json::Value;

fn gateway() -> RpcImpl {
    RpcImpl { version: "1.2.3".to_string() }
}

fn unlocked_store(password: &str) -> Config {
    let mut config =
        Config::new(Some(Record { password_test: None, secret_key: None, proxy: None }));
    config.set_password(password).unwrap();
    config
}

fn server_public(config: &Config) -> Vec<u8> {
    get_p256_pubkey(&config.get_secret_key().unwrap())
}

fn request(method: HttpMethod, path: &str) -> HttpRequest {
    HttpRequest { method, path: path.to_string(), public_key: None, body: Vec::new() }
}

fn session_key(client_secret: &[u8], server_public: &[u8]) -> Vec<u8> {
    shared_secret_to_symmetric_secret(&compute_shared_secret(client_secret, server_public).unwrap())
}

fn encrypted_post(server_public: &[u8], body: &[u8]) -> HttpRequest {
    let client_secret = generate_p256_secret().unwrap();
    let client_public = get_p256_pubkey(&client_secret);
    let key = session_key(&client_secret, server_public);
    HttpRequest {
        method: HttpMethod::Post,
        path: "/".to_string(),
        public_key: Some(hex::encode(client_public).into_bytes()),
        body: aes_encode(&key, body).unwrap(),
    }
}

fn respond(step: Step) -> HttpResponse {
    match step {
        Step::Respond(response) => response,
        Step::Invoke(invocation) => panic!("unexpected invocation: {:?}", invocation),
    }
}

fn invoke(step: Step) -> Invocation {
    match step {
        Step::Invoke(invocation) => invocation,
        Step::Respond(response) => panic!("unexpected response: {:?}", response),
    }
}

fn bare_error(response: HttpResponse) -> RpcError {
    match response.body {
        ResponseBody::Error(error) => error,
        other => panic!("unexpected body: {:?}", other),
    }
}

fn output(response: HttpResponse) -> RpcOutput {
    match response.body {
        ResponseBody::Output(output) => output,
        other => panic!("unexpected body: {:?}", other),
    }
}

fn features() -> Vec<String> {
    ["deploy", "execute", "transfer", "join", "split"].iter().map(|s| s.to_string()).collect()
}

fn call(method: &str, id: Id, params: Params) -> Envelope {
    let shape = match &params {
        Params::None => ParamShape::Absent,
        Params::Array(items) => ParamShape::ByPosition(items.len()),
        Params::Map(_) => ParamShape::ByName,
    };
    Envelope::Call(MethodCall {
        jsonrpc: Some(Version::V2),
        id,
        method: method.to_string(),
        shape,
        params_text: format!("{:?}", params),
        params,
    })
}

fn rpc_error(code: i64, message: &str, data: Option<&str>) -> RpcError {
    RpcError { code, message: message.to_string(), data: data.map(|s| s.to_string()) }
}

fn bad_request(cors: bool) -> HttpResponse {
    HttpResponse { status: 400, content_type: ContentType::Absent, cors, body: ResponseBody::Empty }
}

fn not_found() -> Step {
    Step::Respond(HttpResponse {
        status: 404,
        content_type: ContentType::Absent,
        cors: false,
        body: ResponseBody::Empty,
    })
}

#[test]
fn preflight_gets_the_cors_headers() {
    let config = Config::new(None);
    for path in ["/", "/discovery", "/anything", "*", ""] {
        assert_eq!(
            handle_request(&gateway(), &config, &request(HttpMethod::Options, path)),
            Step::Respond(HttpResponse {
                status: 200,
                content_type: ContentType::Absent,
                cors: true,
                body: ResponseBody::Empty,
            })
        );
    }
}

#[test]
fn unknown_routes_get_404() {
    let config = unlocked_store("");
    let rpc = gateway();
    assert_eq!(handle_request(&rpc, &config, &request(HttpMethod::Get, "/")), not_found());
    assert_eq!(handle_request(&rpc, &config, &request(HttpMethod::Get, "/discovery/")), not_found());
    assert_eq!(handle_request(&rpc, &config, &request(HttpMethod::Get, "/Discovery")), not_found());
    assert_eq!(handle_request(&rpc, &config, &request(HttpMethod::Get, "")), not_found());
    assert_eq!(handle_request(&rpc, &config, &request(HttpMethod::Post, "/discovery")), not_found());
    assert_eq!(handle_request(&rpc, &config, &request(HttpMethod::Post, "")), not_found());
    assert_eq!(handle_request(&rpc, &config, &request(HttpMethod::Post, "//")), not_found());
    assert_eq!(handle_request(&rpc, &config, &request(HttpMethod::Other, "/")), not_found());
    assert_eq!(handle_request(&rpc, &config, &request(HttpMethod::Other, "/discovery")), not_found());
}

#[test]
fn get_discovery_reports_version_features_and_key() {
    let config = unlocked_store("pw");
    let response = respond(handle_request(
        &gateway(),
        &config,
        &request(HttpMethod::Get, "/discovery"),
    ));
    assert_eq!(
        response,
        HttpResponse {
            status: 200,
            content_type: ContentType::Json,
            cors: true,
            body: ResponseBody::Discovery(Discovery {
                version: "1.2.3".to_string(),
                features: features(),
                pubkey: hex::encode(server_public(&config)),
            }),
        }
    );
}

#[test]
fn discovery_of_a_known_secret() {
    let mut config = unlocked_store("");
    let mut one = vec![0u8; 32];
    one[31] = 1;
    config.put_secret_key(&one).unwrap();
    let discovery = gateway().discovery(&config).unwrap();
    assert_eq!(discovery.pubkey, "046b17d1f2e12c4247f8bce6e563a440f277037d812deb33a0f4a13945d898c2964fe342e2fe1a7f9b8ee7eb4a7c0f9e162bce33576b315ececbb6406837bf51f5");
    assert_eq!(discovery.version, "1.2.3");
    assert_eq!(discovery.features, features());
    assert_eq!(RpcImpl::features(), features());
}

#[test]
fn discovery_on_a_locked_store_is_a_handler_error() {
    let locked = Config::new(unlocked_store("pw").db);
    let expected = rpc_error(500, "database not decrypted", Some("database not decrypted"));
    assert_eq!(gateway().discovery(&locked), Err(rpc_error(500, "database not decrypted", Some("database not decrypted"))));
    let response = respond(handle_request(
        &gateway(),
        &locked,
        &request(HttpMethod::Get, "/discovery"),
    ));
    assert_eq!(
        response,
        HttpResponse {
            status: 200,
            content_type: ContentType::Json,
            cors: true,
            body: ResponseBody::Error(expected),
        }
    );
    assert_eq!(
        gateway().discovery(&Config::new(None)),
        Err(rpc_error(500, "cant get db", Some("cant get db")))
    );
    let unset = Config::new(Some(Record { password_test: None, secret_key: None, proxy: None }));
    assert_eq!(
        gateway().discovery(&unset),
        Err(rpc_error(500, "database not decrypted", Some("database not decrypted")))
    );
    let mut no_secret = Config::new(Some(Record {
        password_test: Some(b"hello world!".to_vec()),
        secret_key: None,
        proxy: None,
    }));
    no_secret.decrypt_config("").unwrap();
    assert_eq!(gateway().discovery(&no_secret), Err(rpc_error(500, "not set", Some("not set"))));
}

#[test]
fn discovery_with_an_unusable_secret_is_a_handler_error() {
    let mut config = unlocked_store("");
    config.put_secret_key(&[0u8; 32]).unwrap();
    assert_eq!(
        gateway().discovery(&config),
        Err(rpc_error(500, "invalid secret key", Some("invalid secret key")))
    );
    config.put_secret_key(&[1u8; 8]).unwrap();
    assert_eq!(
        gateway().discovery(&config),
        Err(rpc_error(500, "invalid secret key", Some("invalid secret key")))
    );
}

#[test]
fn post_without_public_key_is_a_json_rpc_error_in_a_200() {
    let config = unlocked_store("pw");
    let response = respond(handle_request(&gateway(), &config, &request(HttpMethod::Post, "/")));
    assert_eq!(
        response,
        HttpResponse {
            status: 200,
            content_type: ContentType::Json,
            cors: true,
            body: ResponseBody::Error(rpc_error(1235, "no public key found", Some("no value"))),
        }
    );
    assert_eq!(CODE_NO_PUBKEY_FOUND, 1235);
    assert_eq!(HEADER_PUBLIC_KEY, "Public-Key");
}

#[test]
fn post_with_a_malformed_public_key_header() {
    let config = unlocked_store("pw");
    let mut req = request(HttpMethod::Post, "/");
    req.public_key = Some(b"abc".to_vec());
    assert_eq!(
        bare_error(respond(handle_request(&gateway(), &config, &req))),
        rpc_error(1235, "no public key found", Some("Odd number of digits"))
    );
    req.public_key = Some(b"zz".to_vec());
    assert_eq!(
        bare_error(respond(handle_request(&gateway(), &config, &req))),
        rpc_error(1235, "no public key found", Some("Invalid character"))
    );
    req.public_key = Some(vec![0xff, 0xfe]);
    assert_eq!(
        bare_error(respond(handle_request(&gateway(), &config, &req))),
        rpc_error(1235, "no public key found", Some("Invalid character"))
    );
}

#[test]
fn header_is_decoded_from_hex_of_either_case() {
    assert_eq!(read_header_hex_as_bytes(None), Err(HeaderError::Missing));
    assert_eq!(read_header_hex_as_bytes(Some(b"")), Ok(Vec::new()));
    assert_eq!(read_header_hex_as_bytes(Some(b"00ff10")), Ok(vec![0x00, 0xff, 0x10]));
    assert_eq!(
        read_header_hex_as_bytes(Some(b"0123456789abcdefABCDEF")),
        Ok(vec![0x01, 0x23, 0x45, 0x67, 0x89, 0xab, 0xcd, 0xef, 0xab, 0xcd, 0xef])
    );
    assert_eq!(read_header_hex_as_bytes(Some(b"aB")), Ok(vec![0xab]));
    assert_eq!(read_header_hex_as_bytes(Some(b"a")), Err(HeaderError::Hex(HexError::OddLength)));
    assert_eq!(read_header_hex_as_bytes(Some(b"g0g")), Err(HeaderError::Hex(HexError::OddLength)));
    assert_eq!(
        read_header_hex_as_bytes(Some(b"0g")),
        Err(HeaderError::Hex(HexError::InvalidCharacter { index: 1 }))
    );
    assert_eq!(
        read_header_hex_as_bytes(Some(b"00x0y0")),
        Err(HeaderError::Hex(HexError::InvalidCharacter { index: 2 }))
    );
    assert_eq!(
        read_header_hex_as_bytes(Some(b" 0")),
        Err(HeaderError::Hex(HexError::InvalidCharacter { index: 0 }))
    );
    assert_eq!(
        read_header_hex_as_bytes(Some(b"0/")),
        Err(HeaderError::Hex(HexError::InvalidCharacter { index: 1 }))
    );
    assert_eq!(
        read_header_hex_as_bytes(Some(b"0:")),
        Err(HeaderError::Hex(HexError::InvalidCharacter { index: 1 }))
    );
    assert_eq!(
        read_header_hex_as_bytes(Some(b"0@0G0`")),
        Err(HeaderError::Hex(HexError::InvalidCharacter { index: 1 }))
    );
    assert_eq!(
        read_header_hex_as_bytes(Some(b"0G")),
        Err(HeaderError::Hex(HexError::InvalidCharacter { index: 1 }))
    );
    assert_eq!(HeaderError::Missing.message(), "no value");
}

#[test]
fn handshake_derives_the_session_key_of_the_client() {
    let config = unlocked_store("pw");
    let client_secret = generate_p256_secret().unwrap();
    let client_public = get_p256_pubkey(&client_secret);
    let header = hex::encode_upper(&client_public).into_bytes();
    let key = handshake(&config, Some(&header)).unwrap();
    assert_eq!(key.len(), 32);
    assert_eq!(key, session_key(&client_secret, &server_public(&config)));
}

#[test]
fn handshake_failures_carry_their_codes() {
    let config = unlocked_store("pw");
    assert_eq!(
        handshake(&config, None),
        Err(rpc_error(1235, "no public key found", Some("no value")))
    );
    assert_eq!(
        handshake(&config, Some(b"0102")),
        Err(rpc_error(1236, "failed to generate shared secret", Some("invalid peer key")))
    );
    let client_public = hex::encode(get_p256_pubkey(&generate_p256_secret().unwrap()));
    let locked = Config::new(unlocked_store("pw").db);
    assert_eq!(
        handshake(&locked, Some(client_public.as_bytes())),
        Err(rpc_error(1236, "failed to generate shared secret", Some("database not decrypted")))
    );
    assert_eq!(
        handshake(&Config::new(None), Some(client_public.as_bytes())),
        Err(rpc_error(1236, "failed to generate shared secret", Some("cant get db")))
    );
    assert_eq!(
        handshake(&Config::new(None), None),
        Err(rpc_error(1235, "no public key found", Some("no value")))
    );
    assert_eq!(CODE_ECDH_ERROR, 1236);
}

#[test]
fn a_body_that_does_not_decrypt_is_a_decrypt_error() {
    let config = unlocked_store("pw");
    let public = server_public(&config);
    let body = br#"{"jsonrpc":"2.0","method":"discovery","id":1}"#;

    let mut short = encrypted_post(&public, body);
    short.body.truncate(11);
    assert_eq!(
        respond(handle_request(&gateway(), &config, &short)),
        HttpResponse {
            status: 200,
            content_type: ContentType::Json,
            cors: true,
            body: ResponseBody::Error(rpc_error(
                1234,
                "cipher text too short",
                Some("cipher text too short")
            )),
        }
    );

    let mut empty = encrypted_post(&public, body);
    empty.body.clear();
    assert_eq!(
        bare_error(respond(handle_request(&gateway(), &config, &empty))),
        rpc_error(1234, "cipher text too short", Some("cipher text too short"))
    );

    let mut altered = encrypted_post(&public, body);
    altered.body[15] ^= 1;
    assert_eq!(
        bare_error(respond(handle_request(&gateway(), &config, &altered))),
        rpc_error(1234, "aead::Error", Some("aead::Error"))
    );

    let mut plain = encrypted_post(&public, body);
    plain.body = body.to_vec();
    assert_eq!(
        bare_error(respond(handle_request(&gateway(), &config, &plain))),
        rpc_error(1234, "aead::Error", Some("aead::Error"))
    );

    let mut other_key = encrypted_post(&public, body);
    other_key.public_key =
        Some(hex::encode(get_p256_pubkey(&generate_p256_secret().unwrap())).into_bytes());
    assert_eq!(
        bare_error(respond(handle_request(&gateway(), &config, &other_key))),
        rpc_error(1234, "aead::Error", Some("aead::Error"))
    );
    assert_eq!(CODE_AES_DECRYPT_ERROR, 1234);
}

#[test]
fn encrypted_discovery_call_end_to_end() {
    let config = unlocked_store("s3cr3t");
    let rpc = gateway();
    let discovered = match respond(handle_request(
        &rpc,
        &config,
        &request(HttpMethod::Get, "/discovery"),
    ))
    .body
    {
        ResponseBody::Discovery(discovery) => discovery,
        other => panic!("unexpected body: {:?}", other),
    };
    let public = hex::decode(&discovered.pubkey).unwrap();
    let post =
        encrypted_post(&public, br#"{"jsonrpc":"2.0","method":"discovery","id":"call-7"}"#);
    let response = respond(handle_request(&rpc, &config, &post));
    assert_eq!(
        response,
        HttpResponse {
            status: 200,
            content_type: ContentType::Json,
            cors: true,
            body: ResponseBody::Output(RpcOutput {
                jsonrpc: true,
                id: Id::Str("call-7".to_string()),
                outcome: Ok(RpcValue::Discovery(discovered)),
            }),
        }
    );
}

#[test]
fn encrypted_split_call_end_to_end() {
    let config = unlocked_store("");
    let rpc = gateway();
    let post = encrypted_post(
        &server_public(&config),
        br#"{"jsonrpc":"2.0","method":"split","params":["APrivateKey1","record1",5],"id":42}"#,
    );
    let invocation = invoke(handle_request(&rpc, &config, &post));
    assert_eq!(
        invocation,
        Invocation {
            cors: true,
            jsonrpc: true,
            id: Id::Num(42),
            method: Method::Split,
            params: Params::Array(vec![
                Value::String("APrivateKey1".to_string()),
                Value::String("record1".to_string()),
                Value::from(5u64),
            ]),
        }
    );
    let failed = to_jsonrpc_result::<String>(Err(HandlerError {
        message: "record not found".to_string(),
        detail: "record not found\n\nCaused by: 404".to_string(),
    }));
    let response = finish_call(invocation, failed);
    assert_eq!(
        response,
        HttpResponse {
            status: 200,
            content_type: ContentType::Json,
            cors: true,
            body: ResponseBody::Output(RpcOutput {
                jsonrpc: true,
                id: Id::Num(42),
                outcome: Err(rpc_error(
                    500,
                    "record not found",
                    Some("record not found\n\nCaused by: 404")
                )),
            }),
        }
    );
}

#[test]
fn a_finished_call_carries_the_result_text() {
    let invocation = Invocation {
        cors: false,
        jsonrpc: true,
        id: Id::Null,
        method: Method::Transfer,
        params: Params::None,
    };
    assert_eq!(
        finish_call(invocation, Ok("at1txid".to_string())),
        HttpResponse {
            status: 200,
            content_type: ContentType::Json,
            cors: false,
            body: ResponseBody::Output(RpcOutput {
                jsonrpc: true,
                id: Id::Null,
                outcome: Ok(RpcValue::Text("at1txid".to_string())),
            }),
        }
    );
}

#[test]
fn every_sdk_method_waits_for_the_sdk() {
    let config = unlocked_store("");
    let methods = [
        ("deploy", Method::Deploy),
        ("execute", Method::Execute),
        ("transfer", Method::Transfer),
        ("join", Method::Join),
        ("split", Method::Split),
    ];
    for (name, method) in methods {
        let body =
            format!(r#"{{"jsonrpc":"2.0","method":"{}","params":["a","b","c","d"],"id":3}}"#, name);
        let invocation = invoke(handle_rpc(&gateway(), &config, body.as_bytes()));
        assert_eq!(invocation.method, method);
        assert_eq!(invocation.id, Id::Num(3));
        assert!(!invocation.cors);
        assert!(invocation.jsonrpc);
        let items = ["a", "b", "c", "d"].iter().map(|s| Value::String(s.to_string())).collect();
        assert_eq!(invocation.params, Params::Array(items));
    }
}

fn array_of(len: usize) -> Params {
    Params::Array((0..len).map(|n| Value::from(n as u64)).collect())
}

fn refusal(method: &str, params: Params) -> RpcError {
    let config = unlocked_store("");
    let response = respond(dispatch(&gateway(), &config, Some(call(method, Id::Num(1), params))));
    assert_eq!(response.status, 200);
    assert_eq!(response.content_type, ContentType::Json);
    let output = output(response);
    assert_eq!(output.id, Id::Num(1));
    assert!(output.jsonrpc);
    output.outcome.unwrap_err()
}

#[test]
fn the_number_of_parameters_is_checked() {
    let config = unlocked_store("");
    let table = [
        (Method::Deploy, 3usize, 6usize),
        (Method::Execute, 4, 7),
        (Method::Transfer, 4, 8),
        (Method::Join, 3, 6),
        (Method::Split, 3, 4),
    ];
    for (method, required, max) in table {
        assert_eq!(method.required_params(), required);
        assert_eq!(method.max_params(), max);
        for count in 0..required {
            assert_eq!(
                refusal(method.name(), array_of(count)),
                rpc_error(
                    -32602,
                    &format!("`params` should have at least {} argument(s)", required),
                    None
                )
            );
        }
        assert_eq!(
            refusal(method.name(), Params::None),
            rpc_error(
                -32602,
                &format!("`params` should have at least {} argument(s)", required),
                None
            )
        );
        for count in required..=max {
            let step = dispatch(
                &gateway(),
                &config,
                Some(call(method.name(), Id::Num(1), array_of(count))),
            );
            let invocation = invoke(step);
            assert_eq!(invocation.method, method);
            assert_eq!(invocation.params, array_of(count));
        }
        for count in [max + 1, max + 2, 10, 12, 100, 1234] {
            assert_eq!(
                refusal(method.name(), array_of(count)),
                rpc_error(
                    -32602,
                    &format!("Invalid parameters: Expected from {} to {} parameters.", required, max),
                    Some(&format!("\"Got: {}\"", count))
                )
            );
        }
        assert_eq!(
            refusal(method.name(), Params::Map(serde_json::Map::new())),
            rpc_error(-32602, "`params` should be an array", None)
        );
    }
    assert_eq!(Method::Discovery.required_params(), 0);
    assert_eq!(Method::Discovery.max_params(), 0);
}

#[test]
fn named_parameters_are_refused() {
    let config = unlocked_store("");
    let body = br#"{"jsonrpc":"2.0","method":"split","params":{"record":"r"},"id":3}"#;
    let response = respond(handle_rpc(&gateway(), &config, body));
    assert_eq!(
        output(response),
        RpcOutput {
            jsonrpc: true,
            id: Id::Num(3),
            outcome: Err(rpc_error(-32602, "`params` should be an array", None)),
        }
    );
}

#[test]
fn a_body_that_is_no_call_is_a_bad_request() {
    let config = unlocked_store("");
    let rpc = gateway();
    for body in [&b"not json"[..], b"", b"{", b"42", b"\"text\"", b"null", b"\xff\xfe"] {
        assert_eq!(handle_rpc(&rpc, &config, body), Step::Respond(bad_request(false)));
        let post = encrypted_post(&server_public(&config), body);
        assert_eq!(handle_request(&rpc, &config, &post), Step::Respond(bad_request(true)));
    }
    assert_eq!(dispatch(&rpc, &config, None), Step::Respond(bad_request(false)));
}

#[test]
fn a_batch_is_a_bad_request() {
    let config = unlocked_store("");
    let body = br#"[{"jsonrpc":"2.0","method":"discovery","id":1},{"jsonrpc":"2.0","method":"discovery","id":2}]"#;
    assert_eq!(handle_rpc(&gateway(), &config, body), Step::Respond(bad_request(false)));
    assert_eq!(handle_rpc(&gateway(), &config, b"[]"), Step::Respond(bad_request(false)));
    assert_eq!(
        dispatch(&gateway(), &config, Some(Envelope::Batch)),
        Step::Respond(bad_request(false))
    );
}

#[test]
fn a_notification_gets_the_plain_response() {
    let config = unlocked_store("");
    let expected = Step::Respond(HttpResponse {
        status: 200,
        content_type: ContentType::Text,
        cors: false,
        body: ResponseBody::Text("Response".to_string()),
    });
    assert_eq!(
        handle_rpc(&gateway(), &config, br#"{"jsonrpc":"2.0","method":"split","params":[1]}"#),
        expected
    );
    assert_eq!(dispatch(&gateway(), &config, Some(Envelope::Notification)), expected);
}

#[test]
fn an_object_that_is_no_call_is_an_invalid_request() {
    let config = unlocked_store("");
    let expected = |id: Id| {
        Step::Respond(HttpResponse {
            status: 200,
            content_type: ContentType::Json,
            cors: false,
            body: ResponseBody::Output(RpcOutput {
                jsonrpc: true,
                id,
                outcome: Err(rpc_error(-32600, "Invalid request", None)),
            }),
        })
    };
    assert_eq!(
        dispatch(&gateway(), &config, Some(Envelope::Invalid { id: Id::Num(9) })),
        expected(Id::Num(9))
    );
    assert_eq!(handle_rpc(&gateway(), &config, br#"{"id":9,"method":5}"#), expected(Id::Num(9)));
    assert_eq!(handle_rpc(&gateway(), &config, b"{}"), expected(Id::Null));
    assert_eq!(CODE_INVALID_REQUEST, -32600);
}

#[test]
fn a_call_without_protocol_version_is_refused() {
    let config = unlocked_store("");
    let response =
        respond(handle_rpc(&gateway(), &config, br#"{"method":"discovery","id":1}"#));
    assert_eq!(
        response,
        HttpResponse {
            status: 200,
            content_type: ContentType::Json,
            cors: false,
            body: ResponseBody::Output(RpcOutput {
                jsonrpc: false,
                id: Id::Num(1),
                outcome: Err(rpc_error(-32600, "Unsupported JSON-RPC protocol version", None)),
            }),
        }
    );
    let other_version = respond(handle_rpc(
        &gateway(),
        &config,
        br#"{"jsonrpc":"1.0","method":"discovery","id":1}"#,
    ));
    assert_eq!(
        output(other_version),
        RpcOutput {
            jsonrpc: true,
            id: Id::Num(1),
            outcome: Err(rpc_error(-32600, "Invalid request", None)),
        }
    );
}

#[test]
fn an_unknown_method_is_not_found() {
    let config = unlocked_store("");
    for name in ["", "Deploy", "deploy ", "discover", "splits", "rpc.discover"] {
        let response = respond(dispatch(
            &gateway(),
            &config,
            Some(call(name, Id::Str("x".to_string()), Params::None)),
        ));
        assert_eq!(
            response,
            HttpResponse {
                status: 200,
                content_type: ContentType::Json,
                cors: false,
                body: ResponseBody::Output(RpcOutput {
                    jsonrpc: true,
                    id: Id::Str("x".to_string()),
                    outcome: Err(rpc_error(-32601, "Method not found", None)),
                }),
            }
        );
    }
    let response =
        respond(handle_rpc(&gateway(), &config, br#"{"jsonrpc":"2.0","method":"mint","id":1}"#));
    assert_eq!(output(response).outcome, Err(rpc_error(-32601, "Method not found", None)));
    assert_eq!(CODE_METHOD_NOT_FOUND, -32601);
}

#[test]
fn discovery_takes_no_parameters() {
    let config = unlocked_store("");
    let ok = output(respond(handle_rpc(
        &gateway(),
        &config,
        br#"{"jsonrpc":"2.0","method":"discovery","params":[],"id":1}"#,
    )));
    assert!(matches!(ok.outcome, Ok(RpcValue::Discovery(_))));
    let refused = output(respond(handle_rpc(
        &gateway(),
        &config,
        br#"{"jsonrpc":"2.0","method":"discovery","params":[1],"id":1}"#,
    )));
    assert_eq!(
        refused.outcome,
        Err(rpc_error(
            -32602,
            "Invalid parameters: No parameters were expected",
            Some("Array([Number(1)])")
        ))
    );
    let named = output(respond(handle_rpc(
        &gateway(),
        &config,
        br#"{"jsonrpc":"2.0","method":"discovery","params":{},"id":1}"#,
    )));
    assert_eq!(
        named.outcome,
        Err(rpc_error(
            -32602,
            "Invalid parameters: No parameters were expected",
            Some("Map({})")
        ))
    );
    assert_eq!(CODE_INVALID_PARAMS, -32602);
}

#[test]
fn middleware_without_routing_attaches_no_cors() {
    let config = unlocked_store("");
    let post = encrypted_post(
        &server_public(&config),
        br#"{"jsonrpc":"2.0","method":"join","params":["key","r1","r2"],"id":1}"#,
    );
    let step = aes_decode_middleware(
        &gateway(),
        &config,
        post.public_key.as_deref(),
        &post.body,
    );
    let invocation = invoke(step);
    assert!(!invocation.cors);
    assert_eq!(invocation.method, Method::Join);
    assert_eq!(
        aes_decode_middleware(&gateway(), &config, None, &post.body),
        Step::Respond(HttpResponse {
            status: 200,
            content_type: ContentType::Json,
            cors: false,
            body: ResponseBody::Error(rpc_error(1235, "no public key found", Some("no value"))),
        })
    );
}

#[test]
fn with_cors_changes_the_flag_only() {
    let response = HttpResponse {
        status: 400,
        content_type: ContentType::Absent,
        cors: false,
        body: ResponseBody::Empty,
    };
    assert_eq!(with_cors(Step::Respond(response)), Step::Respond(bad_request(true)));
    let invocation = Invocation {
        cors: false,
        jsonrpc: false,
        id: Id::Num(5),
        method: Method::Execute,
        params: Params::None,
    };
    assert_eq!(
        with_cors(Step::Invoke(invocation)),
        Step::Invoke(Invocation {
            cors: true,
            jsonrpc: false,
            id: Id::Num(5),
            method: Method::Execute,
            params: Params::None,
        })
    );
}

#[test]
fn error_and_output_responses_are_json_in_a_200() {
    assert_eq!(
        jsonrpc_error_to_response(rpc_error(7, "m", None)),
        HttpResponse {
            status: 200,
            content_type: ContentType::Json,
            cors: false,
            body: ResponseBody::Error(rpc_error(7, "m", None)),
        }
    );
    let out = || RpcOutput { jsonrpc: true, id: Id::Null, outcome: Ok(RpcValue::Text("t".to_string())) };
    assert_eq!(
        output_response(out()),
        HttpResponse {
            status: 200,
            content_type: ContentType::Json,
            cors: false,
            body: ResponseBody::Output(out()),
        }
    );
}

#[test]
fn handler_failures_become_code_500() {
    let error = to_jsonrpc_error(HandlerError {
        message: "boom".to_string(),
        detail: "boom: detail".to_string(),
    });
    assert_eq!(error, rpc_error(500, "boom", Some("boom: detail")));
    assert_eq!(CODE_SERVER_ERROR, 500);
    assert_eq!(to_jsonrpc_result(Ok::<u8, HandlerError>(3)), Ok(3));
    assert_eq!(
        to_jsonrpc_result::<u8>(Err(HandlerError {
            message: String::new(),
            detail: String::new()
        })),
        Err(rpc_error(500, "", Some("")))
    );
}

#[test]
fn method_table() {
    let table = [
        ("deploy", Method::Deploy),
        ("execute", Method::Execute),
        ("transfer", Method::Transfer),
        ("join", Method::Join),
        ("split", Method::Split),
        ("discovery", Method::Discovery),
    ];
    for (name, method) in table {
        assert_eq!(Method::lookup(name), Some(method));
        assert_eq!(method.name(), name);
    }
    for name in ["", "DEPLOY", "deploy\n", "discoveryy", "spli", "j\u{f6}in"] {
        assert_eq!(Method::lookup(name), None);
    }
}

#[test]
fn absent_parameters_count_as_none() {
    let config = unlocked_store("");
    for shape in [ParamShape::Absent, ParamShape::ByPosition(0)] {
        assert_eq!(arity_error(Method::Discovery, shape, "text".to_string()), None);
        assert_eq!(
            arity_error(Method::Split, shape, "text".to_string()),
            Some(rpc_error(-32602, "`params` should have at least 3 argument(s)", None))
        );
    }
    assert_eq!(
        arity_error(Method::Discovery, ParamShape::ByName, "Map({})".to_string()),
        Some(rpc_error(
            -32602,
            "Invalid parameters: No parameters were expected",
            Some("Map({})")
        ))
    );
    assert_eq!(
        arity_error(Method::Discovery, ParamShape::ByPosition(1), "t".to_string()),
        Some(rpc_error(-32602, "Invalid parameters: No parameters were expected", Some("t")))
    );
    assert_eq!(
        arity_error(Method::Join, ParamShape::ByName, "t".to_string()),
        Some(rpc_error(-32602, "`params` should be an array", None))
    );
    assert_eq!(arity_error(Method::Join, ParamShape::ByPosition(3), "t".to_string()), None);
    assert_eq!(arity_error(Method::Join, ParamShape::ByPosition(6), "t".to_string()), None);
    assert_eq!(
        arity_error(Method::Join, ParamShape::ByPosition(7), "t".to_string()),
        Some(rpc_error(
            -32602,
            "Invalid parameters: Expected from 3 to 6 parameters.",
            Some("\"Got: 7\"")
        ))
    );
    let parsed = handle_rpc(&gateway(), &config, br#"{"jsonrpc":"2.0","method":"discovery","id":1}"#);
    assert!(matches!(output(respond(parsed)).outcome, Ok(RpcValue::Discovery(_))));
}

#[test]
fn a_call_that_names_no_version_is_refused_before_lookup() {
    let config = unlocked_store("");
    let unversioned = Envelope::Call(MethodCall {
        jsonrpc: None,
        id: Id::Num(4),
        method: "no such method".to_string(),
        shape: ParamShape::ByName,
        params_text: String::new(),
        params: Params::None,
    });
    assert_eq!(
        output(respond(dispatch(&gateway(), &config, Some(unversioned)))),
        RpcOutput {
            jsonrpc: false,
            id: Id::Num(4),
            outcome: Err(rpc_error(-32600, "Unsupported JSON-RPC protocol version", None)),
        }
    );
}
