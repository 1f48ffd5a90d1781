use formanator::claims::{ClaimsListData, ClaimsListResponse, LimitValue};
use formanator::error::{Endpoint, FormaError};
use formanator::forma::{
    CompanyInfo, EmployeeInfo, EmployeeSettings, ProfileData, ProfileResponse,
};
use formanator::http::{
    create_claim, error_for_reply, exchange_id_and_tk_for_access_token, fetch_claims_page,
    get_profile, handle_error_response, request_magic_link, GenericSuccessResponse, HttpReply,
    MagicLinkExchangeData, MagicLinkExchangeResponse,
};

fn reply(status: u16, body: &str) -> HttpReply {
    HttpReply { status, body: body.to_string() }
}

fn exchange(success: bool) -> MagicLinkExchangeResponse {
    MagicLinkExchangeResponse {
        success,
        data: MagicLinkExchangeData { auth_token: "long-lived".to_string() },
    }
}

#[test]
fn error_message_from_json_body() {
    let r = reply(400, r#"{"errors":{"message":"Amount is required"}}"#);
    let e = handle_error_response(&r);
    assert!(matches!(&e, FormaError::Api(m) if m == "Amount is required"));
    assert_eq!(e.message(), "Amount is required");
}

#[test]
fn invalid_jwt_message_becomes_invalid_token() {
    let r = reply(401, r#"{"errors":{"message":"Error: JWT token is invalid"}}"#);
    let e = handle_error_response(&r);
    assert!(matches!(e, FormaError::InvalidToken));
    assert_eq!(
        e.message(),
        "Your Forma access token is invalid. Please log in again with `formanator login`."
    );
}

#[test]
fn body_without_message_gives_unexpected_response() {
    for body in ["not json", r#"{"errors":{"message":42}}"#, r#"{"errors":"x"}"#, r#"[1,2]"#, ""] {
        let e = handle_error_response(&reply(500, body));
        assert_eq!(
            e.message(),
            format!("Received an unexpected 500 Internal Server Error response from Forma: {}", body)
        );
    }
}

#[test]
fn reason_phrase_comes_from_the_status_code() {
    let e = handle_error_response(&reply(401, "denied"));
    assert_eq!(e.message(), "Received an unexpected 401 Unauthorized response from Forma: denied");
    let e = handle_error_response(&reply(503, ""));
    assert_eq!(e.message(), "Received an unexpected 503 Service Unavailable response from Forma: ");
}

#[test]
fn missing_reason_reads_unknown_status() {
    let e = handle_error_response(&reply(42, "odd"));
    assert_eq!(e.message(), "Received an unexpected 42 unknown status response from Forma: odd");
    let e = handle_error_response(&reply(599, "oops"));
    assert_eq!(e.message(), "Received an unexpected 599 unknown status response from Forma: oops");
}

#[test]
fn error_for_reply_uses_given_message() {
    let r = reply(418, "ignored");
    let teapot = || Some("I'm a teapot".to_string());
    assert!(matches!(error_for_reply(&r, teapot(), Some("Nope".to_string())), FormaError::Api(m) if m == "Nope"));
    assert!(matches!(error_for_reply(&r, teapot(), Some("JWT token is invalid".to_string())), FormaError::InvalidToken));
    assert_eq!(
        error_for_reply(&r, teapot(), None).message(),
        "Received an unexpected 418 I'm a teapot response from Forma: ignored"
    );
    assert_eq!(
        error_for_reply(&r, None, None).message(),
        "Received an unexpected 418 unknown status response from Forma: ignored"
    );
}

fn empty_profile() -> ProfileResponse {
    ProfileResponse {
        data: ProfileData {
            company: CompanyInfo { company_wallet_configurations: vec![] },
            employee: EmployeeInfo {
                employee_wallets: vec![],
                settings: EmployeeSettings { currency: "EUR".to_string() },
            },
        },
    }
}

#[test]
fn profile_reply_decoding() {
    let p = get_profile(&reply(200, "{}"), Some(empty_profile())).unwrap();
    assert_eq!(p.data.employee.settings.currency, "EUR");
    let e = get_profile(&reply(200, "{}"), None).unwrap_err();
    assert_eq!(e.message(), "Failed to parse Forma profile response");
    let e = get_profile(&reply(404, "gone"), Some(empty_profile())).unwrap_err();
    assert_eq!(e.message(), "Received an unexpected 404 Not Found response from Forma: gone");
}

#[test]
fn claims_page_decoding() {
    let body = ClaimsListResponse {
        data: ClaimsListData { claims: vec![], limit: LimitValue::Number(Some(10)), count: 0 },
    };
    let d = fetch_claims_page(&reply(204, ""), Some(body)).unwrap();
    assert_eq!(d.count, 0);
    let e = fetch_claims_page(&reply(200, ""), None).unwrap_err();
    assert!(matches!(e, FormaError::ParseFailure(Endpoint::Claims)));
    assert_eq!(e.message(), "Failed to parse Forma claims response");
}

#[test]
fn claim_creation_needs_201_and_success() {
    assert!(create_claim(&reply(201, ""), Some(GenericSuccessResponse { success: true })).is_ok());
    let e = create_claim(&reply(200, "{}"), Some(GenericSuccessResponse { success: true })).unwrap_err();
    assert_eq!(e.message(), "Received an unexpected 200 OK response from Forma: {}");
    let e = create_claim(&reply(201, ""), Some(GenericSuccessResponse { success: false })).unwrap_err();
    assert_eq!(
        e.message(),
        "Something went wrong while submitting your claim. Forma returned `201 Created`, but the response body indicated that the request was not successful."
    );
    let e = create_claim(&reply(201, ""), None).unwrap_err();
    assert_eq!(e.message(), "Failed to parse Forma claim creation response");
}

#[test]
fn magic_link_request_outcomes() {
    assert!(request_magic_link(&reply(200, ""), Some(GenericSuccessResponse { success: true })).is_ok());
    let e = request_magic_link(&reply(200, ""), Some(GenericSuccessResponse { success: false })).unwrap_err();
    assert_eq!(e.message(), "Something went wrong while requesting a magic link from Forma.");
    let e = request_magic_link(&reply(200, ""), None).unwrap_err();
    assert_eq!(e.message(), "Failed to parse Forma magic link response");
    let e = request_magic_link(&reply(400, r#"{"errors":{"message":"Unknown email"}}"#), None).unwrap_err();
    assert_eq!(e.message(), "Unknown email");
}

#[test]
fn magic_link_exchange_outcomes() {
    assert_eq!(
        exchange_id_and_tk_for_access_token(&reply(200, ""), Some(exchange(true))).unwrap(),
        "long-lived"
    );
    let e = exchange_id_and_tk_for_access_token(&reply(200, ""), Some(exchange(false))).unwrap_err();
    assert_eq!(e.message(), "Something went wrong while exchanging the magic link for an access token.");
    let e = exchange_id_and_tk_for_access_token(&reply(200, ""), None).unwrap_err();
    assert_eq!(e.message(), "Failed to parse Forma magic link exchange response");
    let e = exchange_id_and_tk_for_access_token(&reply(403, "no"), Some(exchange(true))).unwrap_err();
    assert!(matches!(e, FormaError::UnexpectedResponse(403, _, _)));
}
