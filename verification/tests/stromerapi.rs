use stromer2mqtt::stromerapi::{
    authorization_code, bool_from_int_or_bool, check_call_status, check_detect_response,
    choose_record, ApiError, ApiVersion, BikeDetectInfo, BikeIdValue, CommandBody, DataShape,
    FlagError, FlagToken, HeaderField, RecordChoice, RecordKind, StromerApi,
    UpdateAction, UpdateEvent, UpdateRetry,
};

fn v4_api() -> StromerApi {
    StromerApi::new("user@example.com".into(), "secret pw".into(), "client-1".into(), None)
}

fn v3_api() -> StromerApi {
    StromerApi::new(
        "user@example.com".into(),
        "pw".into(),
        "client-1".into(),
        Some("s3cr3t".into()),
    )
}

fn logged_in(mut api: StromerApi) -> StromerApi {
    api.finish_login(Some("tok".into()), String::new()).ok().expect("token kept");
    api
}

#[test]
fn api_version_follows_client_secret() {
    assert_eq!(v4_api().api_version(), ApiVersion::V4);
    assert_eq!(v3_api().api_version(), ApiVersion::V3);
}

#[test]
fn api_urls_per_version() {
    let v4 = v4_api();
    assert_eq!(v4.login_url(), "https://api3.stromer-portal.ch/mobile/v4/login/");
    assert_eq!(v4.token_url(), "https://api3.stromer-portal.ch/mobile/v4/o/token/");
    assert_eq!(v4.authorize_path(), "/mobile/v4/o/authorize/");
    assert_eq!(v4.redirect_uri(), "stromer://auth");
    assert_eq!(v4.api_url("bike/"), "https://api3.stromer-portal.ch/rapi/mobile/v4.1/bike/");

    let v3 = v3_api();
    assert_eq!(v3.login_url(), "https://api3.stromer-portal.ch/users/login/");
    assert_eq!(v3.token_url(), "https://api3.stromer-portal.ch/o/token/");
    assert_eq!(v3.authorize_path(), "/o/authorize/");
    assert_eq!(v3.redirect_uri(), "stromerauth://auth");
    assert_eq!(v3.api_url("bike/"), "https://api3.stromer-portal.ch/rapi/mobile/v2/bike/");
}

#[test]
fn login_form_carries_csrf_token_and_encoded_next() {
    let api = v4_api();
    assert_eq!(api.login_page_request().url, api.login_url());
    let post = api
        .login_form(HeaderField::Text("csrftoken=abc123; Path=/; Secure".into()))
        .ok()
        .expect("form");
    assert_eq!(post.url, "https://api3.stromer-portal.ch/mobile/v4/login/");
    assert_eq!(post.referer.as_deref(), Some("https://api3.stromer-portal.ch/mobile/v4/login/"));
    let fields: Vec<(String, String)> =
        post.form.iter().map(|f| (f.name.clone(), f.value.clone())).collect();
    assert_eq!(fields[0], ("username".to_string(), "user@example.com".to_string()));
    assert_eq!(fields[1], ("password".to_string(), "secret pw".to_string()));
    assert_eq!(fields[2], ("csrfmiddlewaretoken".to_string(), "abc123".to_string()));
    assert_eq!(
        fields[3],
        (
            "next".to_string(),
            "/mobile/v4/o/authorize/?client_id=client%2D1&response_type=code&redirect_url=stromer%3A%2F%2Fauth&scope=bikeposition%20bikestatus%20bikeconfiguration%20bikelock%20biketheft%20bikedata%20bikepin%20bikeblink%20userprofile".to_string()
        )
    );
}

#[test]
fn login_form_errors() {
    let api = v4_api();
    assert!(matches!(api.login_form(HeaderField::Missing), Err(ApiError::MissingSetCookie)));
    assert!(matches!(api.login_form(HeaderField::Invalid), Err(ApiError::InvalidSetCookie)));
    assert!(matches!(
        api.login_form(HeaderField::Text("no token here".into())),
        Err(ApiError::CsrfTokenNotFound)
    ));
}

#[test]
fn authorize_request_checks_location() {
    let api = v4_api();
    let get = api
        .authorize_request(HeaderField::Text("/mobile/v4/o/authorize/?x=1".into()))
        .ok()
        .expect("location accepted");
    assert_eq!(get.url, "https://api3.stromer-portal.ch/mobile/v4/o/authorize/?x=1");
    assert!(api.authorize_request(HeaderField::Text("?a=b".into())).is_ok());
    match api.authorize_request(HeaderField::Text("https://evil/".into())) {
        Err(ApiError::InvalidNextLocation(l)) => assert_eq!(l, "https://evil/"),
        _ => panic!("expected an invalid location"),
    }
    assert!(matches!(
        api.authorize_request(HeaderField::Text(String::new())),
        Err(ApiError::InvalidNextLocation(_))
    ));
    assert!(matches!(
        api.authorize_request(HeaderField::Missing),
        Err(ApiError::MissingLoginLocation)
    ));
    assert!(matches!(
        api.authorize_request(HeaderField::Invalid),
        Err(ApiError::InvalidLoginLocation)
    ));
}

#[test]
fn authorization_code_extraction() {
    assert_eq!(authorization_code("stromer://auth?code=XXXX").as_deref(), Some("XXXX"));
    assert_eq!(authorization_code("stromerauth://auth?code=ab&state=1").as_deref(), Some("ab"));
    assert_eq!(authorization_code("x?code=a1code=b2").as_deref(), Some("a1"));
    assert_eq!(authorization_code("x?code=").as_deref(), Some(""));
    assert_eq!(authorization_code("stromer://auth?error=denied"), None);
}

#[test]
fn token_form_per_version() {
    let v4 = v4_api();
    let post = v4
        .token_form(HeaderField::Text("stromer://auth?code=C0DE".into()))
        .ok()
        .expect("form");
    assert_eq!(post.url, "https://api3.stromer-portal.ch/mobile/v4/o/token/");
    assert!(post.referer.is_none());
    let fields: Vec<(String, String)> =
        post.form.iter().map(|f| (f.name.clone(), f.value.clone())).collect();
    assert_eq!(
        fields,
        vec![
            ("grant_type".to_string(), "authorization_code".to_string()),
            ("client_id".to_string(), "client-1".to_string()),
            ("code".to_string(), "C0DE".to_string()),
            ("redirect_uri".to_string(), "stromer://auth".to_string()),
        ]
    );

    let v3 = v3_api();
    let post = v3.token_form_with_code("C0DE".into());
    assert_eq!(post.form.len(), 5);
    assert_eq!(post.form[4].name, "client_secret");
    assert_eq!(post.form[4].value, "s3cr3t");

    match v4.token_form(HeaderField::Text("stromer://auth".into())) {
        Err(ApiError::CodeNotFound(l)) => assert_eq!(l, "stromer://auth"),
        _ => panic!("expected a missing code"),
    }
    assert!(matches!(
        v4.token_form(HeaderField::Missing),
        Err(ApiError::MissingAuthorizeLocation)
    ));
}

#[test]
fn finish_login_and_auth_header() {
    let mut api = v4_api();
    assert!(matches!(api.auth_header(), Err(ApiError::NotAuthenticated)));
    assert!(matches!(api.detect_request(), Err(ApiError::NotAuthenticated)));
    match api.finish_login(None, "{\"error\":\"x\"}".into()) {
        Err(ApiError::NoAccessToken(body)) => assert_eq!(body, "{\"error\":\"x\"}"),
        _ => panic!("expected no token"),
    }
    assert!(api.auth_header().is_err());
    assert!(api.finish_login(Some("abc".into()), String::new()).is_ok());
    assert_eq!(api.auth_header().ok().as_deref(), Some("Bearer abc"));
}

#[test]
fn token_response_is_read_as_json() {
    let mut api = v4_api();
    let body = "{\"token_type\": \"Bearer\", \"access_token\": \"tok-42\"}";
    assert!(api.finish_login_with_response(body).is_ok());
    assert_eq!(api.auth_header().ok().as_deref(), Some("Bearer tok-42"));

    let mut api = v4_api();
    match api.finish_login_with_response("{\"access_token\": 5}") {
        Err(ApiError::NoAccessToken(b)) => assert_eq!(b, "{\"access_token\": 5}"),
        _ => panic!("a number is no access token"),
    }
    match api.finish_login_with_response("[]") {
        Err(ApiError::NoAccessToken(_)) => {}
        _ => panic!("an array holds no access token"),
    }
    match api.finish_login_with_response("<html>") {
        Err(ApiError::TokenResponseNotJson(b)) => assert_eq!(b, "<html>"),
        _ => panic!("not JSON"),
    }
    assert!(matches!(api.auth_header(), Err(ApiError::NotAuthenticated)));
}

#[test]
fn data_requests() {
    let api = logged_in(v4_api());
    let get = api.detect_request().ok().expect("detect");
    assert_eq!(get.url, "https://api3.stromer-portal.ch/rapi/mobile/v4.1/bike/");
    assert_eq!(get.authorization, "Bearer tok");
    let get = api.status_request("137011").ok().expect("status");
    assert_eq!(get.url, "https://api3.stromer-portal.ch/rapi/mobile/v4.1/bike/137011/state/");
    let get = api.position_request("137011").ok().expect("position");
    assert_eq!(get.url, "https://api3.stromer-portal.ch/rapi/mobile/v4.1/bike/137011/position/");
    let post = api.lock_request("137011", true).ok().expect("lock");
    assert_eq!(post.url, "https://api3.stromer-portal.ch/rapi/mobile/v4.1/bike/137011/settings/");
    assert!(matches!(post.body, CommandBody::Lock(true)));
    let post = api.light_request("137011", "off").ok().expect("light");
    assert_eq!(post.url, "https://api3.stromer-portal.ch/rapi/mobile/v4.1/bike/137011/light/");
    match post.body {
        CommandBody::Light(mode) => assert_eq!(mode, "off"),
        _ => panic!("expected a light body"),
    }
}

#[test]
fn response_checks() {
    assert!(check_detect_response(200, true).is_ok());
    assert!(matches!(check_detect_response(500, true), Err(ApiError::DetectFailed(500))));
    assert!(matches!(check_detect_response(204, false), Err(ApiError::DetectDataNotArray)));
    assert!(check_call_status(299).is_ok());
    assert!(matches!(check_call_status(401), Err(ApiError::AuthenticationExpired)));
    assert!(matches!(check_call_status(404), Err(ApiError::CallFailed(404))));
    assert!(matches!(check_call_status(199), Err(ApiError::CallFailed(199))));
}

#[test]
fn record_choice() {
    assert!(matches!(choose_record(DataShape::Array(2), RecordKind::Status), Ok(RecordChoice::First)));
    assert!(matches!(choose_record(DataShape::Single, RecordKind::Position), Ok(RecordChoice::Whole)));
    assert!(matches!(
        choose_record(DataShape::Array(0), RecordKind::Status),
        Err(ApiError::EmptyStatusData)
    ));
    assert!(matches!(
        choose_record(DataShape::Array(0), RecordKind::Position),
        Err(ApiError::EmptyPositionData)
    ));
}

#[test]
fn update_retries_ten_times_and_reconnects_once() {
    let mut retry = UpdateRetry::new();
    let mut fetches = 0;
    let mut logins = 0;
    let mut action = retry.step(UpdateEvent::Start);
    loop {
        match action {
            UpdateAction::GiveUp => break,
            UpdateAction::Login => {
                logins += 1;
                assert_eq!(fetches, 5);
                action = retry.step(UpdateEvent::LoggedIn { ok: true });
            }
            UpdateAction::FetchStatus => {
                fetches += 1;
                // every other attempt fails at the position
                let ok = fetches % 2 == 0;
                action = retry.step(UpdateEvent::StatusFetched { ok });
            }
            UpdateAction::FetchPosition => {
                action = retry.step(UpdateEvent::PositionFetched { ok: false });
            }
            other => panic!("unexpected action {:?}", other),
        }
    }
    assert_eq!(fetches, 10);
    assert_eq!(logins, 1);
    assert_eq!(retry.step(UpdateEvent::Start), UpdateAction::GiveUp);
}

#[test]
fn update_finishes_when_both_calls_succeed() {
    let mut retry = UpdateRetry::new();
    assert_eq!(retry.step(UpdateEvent::Start), UpdateAction::FetchStatus);
    assert_eq!(
        retry.step(UpdateEvent::StatusFetched { ok: false }),
        UpdateAction::FetchStatus
    );
    assert_eq!(
        retry.step(UpdateEvent::StatusFetched { ok: true }),
        UpdateAction::FetchPosition
    );
    assert_eq!(
        retry.step(UpdateEvent::PositionFetched { ok: true }),
        UpdateAction::Finish
    );
}

#[test]
fn update_stops_when_the_new_login_fails() {
    let mut retry = UpdateRetry::new();
    let mut action = retry.step(UpdateEvent::Start);
    while action == UpdateAction::FetchStatus {
        action = retry.step(UpdateEvent::StatusFetched { ok: false });
    }
    assert_eq!(action, UpdateAction::Login);
    assert_eq!(
        retry.step(UpdateEvent::LoggedIn { ok: false }),
        UpdateAction::LoginFailed
    );
}

#[test]
fn flags_from_integers_or_booleans() {
    assert_eq!(bool_from_int_or_bool(FlagToken::Bool(true)).ok(), Some(Some(true)));
    assert_eq!(bool_from_int_or_bool(FlagToken::Signed(0)).ok(), Some(Some(false)));
    assert_eq!(bool_from_int_or_bool(FlagToken::Unsigned(1)).ok(), Some(Some(true)));
    assert_eq!(bool_from_int_or_bool(FlagToken::Null).ok(), Some(None));
    assert!(matches!(bool_from_int_or_bool(FlagToken::Signed(-1)), Err(FlagError::InvalidSigned(-1))));
    assert!(matches!(bool_from_int_or_bool(FlagToken::Unsigned(2)), Err(FlagError::InvalidUnsigned(2))));
    assert!(matches!(bool_from_int_or_bool(FlagToken::Other), Err(FlagError::InvalidType)));
}

#[test]
fn bike_id_as_text() {
    let info = |id: BikeIdValue| BikeDetectInfo {
        bike_id: id,
        nickname: "n".into(),
        bike_type: "t".into(),
        bike_model: None,
        maintenance_feature: None,
    };
    assert_eq!(info(BikeIdValue::Number("137011".into())).bike_id_string(), "137011");
    assert_eq!(info(BikeIdValue::Text("abc".into())).bike_id_string(), "abc");
    assert_eq!(info(BikeIdValue::Other("null".into())).bike_id_string(), "null");
}

fn csrf_of(header: &str) -> Option<String> {
    match v4_api().login_form(HeaderField::Text(header.into())) {
        Ok(post) => Some(post.form[2].value.clone()),
        Err(ApiError::CsrfTokenNotFound) => None,
        Err(_) => panic!("only a missing token is expected"),
    }
}

#[test]
fn csrf_token_is_the_leftmost_lazy_match() {
    assert_eq!(csrf_of("csrftoken=abc; Path=/").as_deref(), Some("abc"));
    assert_eq!(csrf_of("k=v=w; z").as_deref(), Some("v=w"));
    assert_eq!(csrf_of("a=b\nc=d; x").as_deref(), Some("d"));
    assert_eq!(csrf_of("k=;").as_deref(), Some(""));
    assert_eq!(csrf_of("k=v").as_deref(), None);
    assert_eq!(csrf_of("k=v\n;").as_deref(), None);
}
