use iaqualink::{
    decimal, from_text, ApiRequest, Client, DecodeError, Expected, Instant, Json, LoginResponse, Method, Strictness,
    System, IAQUALINK_API_KEY,
};

const LOGIN: &str = "{\"id\":1234567,\"created_at\":\"2020-05-01T10:20:30.000Z\",\
    \"updated_at\":\"2023-06-11T19:21:46.500+02:00\",\"email\":\"user@example.com\",\"username\":\"user\",\
    \"first_name\":\"Ada\",\"last_name\":null,\"address\":null,\"address_1\":null,\"address_2\":null,\
    \"postal_code\":\"1000\",\"city\":null,\"country\":\"BE\",\"opt_in_1\":\"0\",\"opt_in_2\":\"1\",\
    \"phone\":\"\",\"role\":\"customer\",\"state\":\"\",\"time_zone\":null,\"session_id\":\"SESSION\",\
    \"cognitoPool\":{\"appClientId\":\"client123\",\"region\":\"us-east-1\",\"domain\":\"pool.example\",\
    \"poolId\":\"us-east-1_abc\"},\"authentication_token\":\"TOKEN\",\
    \"credentials\":{\"AccessKeyId\":\"AKIA\",\"Expiration\":\"1970-01-02T00:00:01Z\",\"IdentityId\":\"id-1\",\
    \"SecretKey\":\"secret\",\"SessionToken\":\"session\"},\
    \"userPoolOAuth\":{\"AccessToken\":\"access\",\"ExpiresIn\":3600,\"TokenType\":\"Bearer\",\
    \"RefreshToken\":\"refresh\",\"IdToken\":\"idtoken\"}}";

const SYSTEM: &str = "{\"id\":42,\"name\":\"Pool\",\"created_at\":\"2020-05-01T10:20:30.000Z\",\
    \"updated_at\":\"2020-05-02T10:20:30.000Z\",\"device_type\":\"exo\",\"firmware_version\":null,\
    \"last_activity_at\":null,\"owner_id\":1234567,\"serial_number\":\"ALWA01011336200223\",\
    \"target_firmware_version\":null,\"update_firmware_start_at\":null,\"updating\":false}";

fn login() -> LoginResponse {
    from_text::<LoginResponse>(LOGIN.as_bytes(), Strictness::Strict).unwrap()
}

fn system() -> System {
    from_text::<System>(SYSTEM.as_bytes(), Strictness::Strict).unwrap()
}

#[test]
fn a_login_response_is_read() {
    let login = login();
    assert_eq!(login.id, 1234567);
    assert_eq!(login.first_name, Some("Ada".to_string()));
    assert_eq!(login.last_name, None);
    assert_eq!(login.cognito_pool.app_client_id, "client123");
    assert_eq!(login.cognito_pool.pool_id, "us-east-1_abc");
    assert_eq!(login.credentials.access_key_id, "AKIA");
    assert_eq!(login.credentials.session_token, "session");
    assert_eq!(login.user_pool_oauth.expires_in, 3600);
    assert_eq!(login.user_pool_oauth.id_token, "idtoken");
    assert_eq!(login.authentication_token, "TOKEN");
}

#[test]
fn dates_are_read_as_points_in_time() {
    let login = login();
    assert_eq!(login.credentials.expiration, Instant { seconds: 86401, nanos: 0 });
    assert_eq!(login.created_at, Instant { seconds: 1588328430, nanos: 0 });
    assert_eq!(login.updated_at, Instant { seconds: 1686504106, nanos: 500000000 });
}

#[test]
fn what_is_no_date_is_refused() {
    let text = LOGIN.replace("1970-01-02T00:00:01Z", "tomorrow");
    assert_eq!(
        from_text::<LoginResponse>(text.as_bytes(), Strictness::Strict),
        Err(DecodeError::Field(
            "credentials".to_string(),
            Box::new(DecodeError::Field("Expiration".to_string(), Box::new(DecodeError::Mismatch(Expected::Instant))))
        ))
    );
    let text = LOGIN.replace("\"2020-05-01T10:20:30.000Z\"", "1588328430");
    assert_eq!(
        from_text::<LoginResponse>(text.as_bytes(), Strictness::Lenient),
        Err(DecodeError::Field("created_at".to_string(), Box::new(DecodeError::Mismatch(Expected::Instant))))
    );
}

#[test]
fn a_point_in_time_comes_before_a_later_one() {
    let early = Instant { seconds: 10, nanos: 999999999 };
    let late = Instant { seconds: 11, nanos: 0 };
    assert!(early.is_before(&late));
    assert!(!late.is_before(&early));
    assert!(!early.is_before(&early));
    assert!(Instant { seconds: 10, nanos: 1 }.is_before(&early));
    assert!(Instant { seconds: -1, nanos: 5 }.is_before(&Instant { seconds: 0, nanos: 0 }));
}

#[test]
fn a_system_is_read() {
    let system = system();
    assert_eq!(system.id, 42);
    assert_eq!(system.serial_number, "ALWA01011336200223");
    assert_eq!(system.firmware_version, None);
    assert!(!system.updating);
    let wrong = SYSTEM.replace("false", "0");
    assert_eq!(
        from_text::<System>(wrong.as_bytes(), Strictness::Strict),
        Err(DecodeError::Field("updating".to_string(), Box::new(DecodeError::Mismatch(Expected::Boolean))))
    );
}

#[test]
fn the_devices_of_a_user_are_read_as_a_list() {
    let text = format!("[{},{}]", SYSTEM, SYSTEM.replace("\"id\":42", "\"id\":43"));
    let devices = from_text::<Vec<System>>(text.as_bytes(), Strictness::Strict).unwrap();
    assert_eq!(devices.len(), 2);
    assert_eq!(devices[0], system());
    assert_eq!(devices[1].id, 43);
    assert_eq!(from_text::<Vec<System>>(b"[]", Strictness::Strict), Ok(vec![]));
    assert_eq!(from_text::<Vec<System>>(b"{}", Strictness::Strict), Err(DecodeError::Mismatch(Expected::Array)));
    let broken = format!("[{},{},7]", SYSTEM, SYSTEM.replace("\"id\":42,", ""));
    assert_eq!(
        from_text::<Vec<System>>(broken.as_bytes(), Strictness::Strict),
        Err(DecodeError::Item(1, Box::new(DecodeError::MissingField("id".to_string()))))
    );
}

#[test]
fn numbers_are_written_in_decimal_digits() {
    assert_eq!(decimal(0), "0");
    assert_eq!(decimal(7), "7");
    assert_eq!(decimal(10), "10");
    assert_eq!(decimal(1234567), "1234567");
    assert_eq!(decimal(4294967295), "4294967295");
}

#[test]
fn signing_in_posts_the_address_and_the_password() {
    let client = Client { email: "user@example.com".to_string(), password: "hunter2".to_string() };
    assert_eq!(
        client.sign_in(),
        ApiRequest {
            method: Method::Post,
            url: "https://prod.zodiac-io.com/users/v1/login".to_string(),
            path: None,
            query: vec![],
            authorization: None,
            body: Some(Json::Object(vec![
                ("email".to_string(), Json::String("user@example.com".to_string())),
                ("password".to_string(), Json::String("hunter2".to_string())),
            ])),
        }
    );
    assert_eq!(Client::default(), Client { email: String::new(), password: String::new() });
}

#[test]
fn listing_devices_asks_with_the_user_the_key_and_the_token() {
    let client = Client::default();
    assert_eq!(
        client.devices(&login()),
        ApiRequest {
            method: Method::Get,
            url: "https://r-api.iaqualink.net/devices.json".to_string(),
            path: None,
            query: vec![
                ("user_id".to_string(), "1234567".to_string()),
                ("api_key".to_string(), IAQUALINK_API_KEY.to_string()),
                ("authentication_token".to_string(), "TOKEN".to_string()),
            ],
            authorization: None,
            body: None,
        }
    );
}

fn about(method: Method, url: &str, path: &str, body: Option<Json>) -> ApiRequest {
    ApiRequest {
        method,
        url: url.to_string(),
        path: Some(format!("ALWA01011336200223/{}", path)),
        query: vec![],
        authorization: Some("Bearer idtoken".to_string()),
        body,
    }
}

#[test]
fn requests_about_a_device_go_behind_its_serial_number() {
    let v1 = "https://prod.zodiac-io.com/devices/v1/";
    let v2 = "https://prod.zodiac-io.com/devices/v2/";
    assert_eq!(system().site(&login()), about(Method::Get, v2, "site", None));
    assert_eq!(system().info(&login()), about(Method::Get, v2, "info", None));
    assert_eq!(system().features(&login()), about(Method::Get, v2, "features", None));
    assert_eq!(system().shadow(&login()), about(Method::Get, v1, "shadow", None));
    let patch = Json::parse(b"{\"state\":{\"desired\":{\"equipment\":{\"swc_0\":{\"production\":1}}}}}").unwrap();
    assert_eq!(system().set_shadow(&login(), patch.clone()), about(Method::Post, v1, "shadow", Some(patch)));
    assert_eq!(
        system().request(Method::Post, "https://example.com/", "x/y", &login(), None),
        about(Method::Post, "https://example.com/", "x/y", None)
    );
}
