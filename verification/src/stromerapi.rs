//! The Stromer cloud API: the data it reports and the rules of talking to it
//! (addresses, the login flow, retries and the checks on its answers).
use vstd::prelude::*;
use vstd::string::*;

use vstd::utf8::encode_utf8;

use crate::changes::Reading;
use crate::text::{
    chars_of, find, find_first, has_char, join2, join3, lemma_find_from_first, lemma_find_from_none,
    lemma_occurs_char, occurs_at, opt_text, string_of, text_slice,
};

verus! {

/// Maintenance data of a bike, as the detect endpoint reports it.
pub struct MaintenanceInfo {
    pub last_maintenance_reset_date: Option<String>,
    pub last_maintenance_reset_km: Option<Reading>,
    pub next_maintenance_date: Option<String>,
    pub next_maintenance_interval: Option<Reading>,
    pub next_maintenance_km: Option<Reading>,
}

/// The state of a bike, as the status endpoint reports it.
pub struct BikeStatus {
    pub assistance_level: Option<Reading>,
    pub atmospheric_pressure: Option<Reading>,
    pub average_energy_consumption: Option<Reading>,
    pub average_speed_total: Option<Reading>,
    pub average_speed_trip: Option<Reading>,
    pub battery_soc: Option<Reading>,
    pub battery_health: Option<Reading>,
    pub battery_temp: Option<Reading>,
    pub bike_speed: Option<Reading>,
    pub motor_temp: Option<Reading>,
    pub power_on_cycles: Option<u64>,
    pub speed: Option<Reading>,
    pub total_distance: Option<Reading>,
    pub total_energy_consumption: Option<Reading>,
    pub total_time: Option<u64>,
    pub trip_distance: Option<Reading>,
    pub trip_time: Option<u64>,
    pub light_on: Option<bool>,
    pub lock_flag: Option<bool>,
    pub theft_flag: Option<bool>,
    pub rcvts: Option<i64>,
    pub timets: Option<i64>,
    pub suiversion: Option<String>,
    pub tntversion: Option<String>,
}

/// The position of a bike, as the position endpoint reports it.
pub struct BikePosition {
    pub latitude: Option<Reading>,
    pub longitude: Option<Reading>,
    pub altitude: Option<Reading>,
    pub rcvts: Option<i64>,
}

impl Clone for MaintenanceInfo {
    fn clone(&self) -> (r: Self)
        ensures
            r == *self,
    {
        MaintenanceInfo {
            last_maintenance_reset_date: clone_text(&self.last_maintenance_reset_date),
            last_maintenance_reset_km: clone_reading(&self.last_maintenance_reset_km),
            next_maintenance_date: clone_text(&self.next_maintenance_date),
            next_maintenance_interval: clone_reading(&self.next_maintenance_interval),
            next_maintenance_km: clone_reading(&self.next_maintenance_km),
        }
    }
}

impl Clone for BikePosition {
    fn clone(&self) -> (r: Self)
        ensures
            r == *self,
    {
        BikePosition {
            latitude: clone_reading(&self.latitude),
            longitude: clone_reading(&self.longitude),
            altitude: clone_reading(&self.altitude),
            rcvts: self.rcvts,
        }
    }
}

pub fn clone_text(o: &Option<String>) -> (r: Option<String>)
    ensures
        r == *o,
{
    match o {
        Some(s) => Some(s.clone()),
        None => None,
    }
}

pub fn clone_reading(o: &Option<Reading>) -> (r: Option<Reading>)
    ensures
        r == *o,
{
    match o {
        Some(v) => Some(v.clone()),
        None => None,
    }
}

/// The bike id as the detect endpoint gives it: a JSON number, a JSON string
/// or some other JSON value, each with its text.
pub enum BikeIdValue {
    /// A number, with its JSON text.
    Number(String),
    /// A string, with its content.
    Text(String),
    /// Any other JSON value, with its JSON text.
    Other(String),
}

/// One bike of the account, as the detect endpoint reports it.
pub struct BikeDetectInfo {
    pub bike_id: BikeIdValue,
    pub nickname: String,
    pub bike_type: String,
    pub bike_model: Option<String>,
    pub maintenance_feature: Option<MaintenanceInfo>,
}

/// The bike id as text: the number's text, the string itself, or the JSON
/// text of any other value.
pub open spec fn bike_id_text(id: BikeIdValue) -> Seq<char> {
    match id {
        BikeIdValue::Number(n) => n@,
        BikeIdValue::Text(s) => s@,
        BikeIdValue::Other(j) => j@,
    }
}

impl BikeDetectInfo {
    pub fn bike_id_string(&self) -> (r: String)
        ensures
            r@ == bike_id_text(self.bike_id),
    {
        match &self.bike_id {
            BikeIdValue::Number(n) => n.clone(),
            BikeIdValue::Text(s) => s.clone(),
            BikeIdValue::Other(j) => j.clone(),
        }
    }
}

/// A JSON value found where a flag (`light_on`, `lock_flag`, `theft_flag`)
/// is expected.
pub enum FlagToken {
    Bool(bool),
    Signed(i64),
    Unsigned(u64),
    /// `null` or unit.
    Null,
    /// A value of any other type.
    Other,
}

/// Why a JSON value is no flag.
pub enum FlagError {
    /// A signed integer other than 0 or 1.
    InvalidSigned(i64),
    /// An unsigned integer other than 0 or 1.
    InvalidUnsigned(u64),
    /// Neither a boolean, an integer nor null.
    InvalidType,
}

/// The flags of the API come as booleans or as the integers 0 and 1; null
/// means that the flag is unknown.
pub open spec fn flag_meaning(t: FlagToken) -> Result<Option<bool>, FlagError> {
    match t {
        FlagToken::Bool(b) => Ok(Some(b)),
        FlagToken::Signed(v) => if v == 0 {
            Ok(Some(false))
        } else if v == 1 {
            Ok(Some(true))
        } else {
            Err(FlagError::InvalidSigned(v))
        },
        FlagToken::Unsigned(v) => if v == 0 {
            Ok(Some(false))
        } else if v == 1 {
            Ok(Some(true))
        } else {
            Err(FlagError::InvalidUnsigned(v))
        },
        FlagToken::Null => Ok(None),
        FlagToken::Other => Err(FlagError::InvalidType),
    }
}

/// Reads a flag that may come as a boolean, as 0/1 or as null.
pub fn bool_from_int_or_bool(t: FlagToken) -> (r: Result<Option<bool>, FlagError>)
    ensures
        r == flag_meaning(t),
{
    match t {
        FlagToken::Bool(b) => Ok(Some(b)),
        FlagToken::Signed(v) => if v == 0 {
            Ok(Some(false))
        } else if v == 1 {
            Ok(Some(true))
        } else {
            Err(FlagError::InvalidSigned(v))
        },
        FlagToken::Unsigned(v) => if v == 0 {
            Ok(Some(false))
        } else if v == 1 {
            Ok(Some(true))
        } else {
            Err(FlagError::InvalidUnsigned(v))
        },
        FlagToken::Null => Ok(None),
        FlagToken::Other => Err(FlagError::InvalidType),
    }
}

/// The version of the API: the v3 API needs a client secret, the v4 API does not.
#[derive(Debug, Clone, Copy, PartialEq, Eq, Structural)]
pub enum ApiVersion {
    V3,
    V4,
}

/// Why a call of the API failed.
pub enum ApiError {
    /// The login page came without a Set-Cookie header.
    MissingSetCookie,
    /// The Set-Cookie header of the login page is no visible ASCII text.
    InvalidSetCookie,
    /// The pattern that finds the CSRF token is no valid regular expression.
    RegexError,
    /// The Set-Cookie header holds no CSRF token.
    CsrfTokenNotFound,
    /// The answer to the login form came without a Location header.
    MissingLoginLocation,
    /// The Location header after the login form is no visible ASCII text.
    InvalidLoginLocation,
    /// The location after the login form starts with neither '/' nor '?'.
    InvalidNextLocation(String),
    /// The authorize redirect came without a Location header.
    MissingAuthorizeLocation,
    /// The Location header of the authorize redirect is no visible ASCII text.
    InvalidAuthorizeLocation,
    /// The authorize redirect holds no authorization code.
    CodeNotFound(String),
    /// The token response is no JSON text; the response's text.
    TokenResponseNotJson(String),
    /// The token response holds no access token; the response's JSON text.
    NoAccessToken(String),
    /// No access token yet: the login has not been done.
    NotAuthenticated,
    /// The detect endpoint answered with this HTTP status.
    DetectFailed(u16),
    /// The data of the detect response is no array.
    DetectDataNotArray,
    /// The API answered 401: the access token expired.
    AuthenticationExpired,
    /// The API answered with this HTTP status.
    CallFailed(u16),
    /// The status response holds an empty array.
    EmptyStatusData,
    /// The position response holds an empty array.
    EmptyPositionData,
    /// The status and position calls failed ten times in a row.
    TooManyFailures,
}

/// A response header as it came: absent, not visible ASCII, or its text.
pub enum HeaderField {
    Missing,
    Invalid,
    Text(String),
}

/// A GET request to be sent without following redirects.
pub struct HttpGet {
    pub url: String,
}

/// One field of a form.
pub struct FormField {
    pub name: String,
    pub value: String,
}

/// The plain content of a form field: its name and value.
pub struct FormFieldView {
    pub name: Seq<char>,
    pub value: Seq<char>,
}

impl View for FormField {
    type V = FormFieldView;

    open spec fn view(&self) -> FormFieldView {
        FormFieldView { name: self.name@, value: self.value@ }
    }
}

/// A form sent by POST, without following redirects.
pub struct FormPost {
    pub url: String,
    pub referer: Option<String>,
    pub form: Vec<FormField>,
}

/// A GET request to the data API, with its Authorization header.
pub struct ApiGet {
    pub url: String,
    pub authorization: String,
}

/// The JSON body of a command: `{"lock": state}` or `{"mode": mode}`.
pub enum CommandBody {
    Lock(bool),
    Light(String),
}

/// A POST request to the data API, with its Authorization header and body.
pub struct ApiPost {
    pub url: String,
    pub authorization: String,
    pub body: CommandBody,
}

/// The `data` of a status or position response: an array of this many
/// records, or a single record.
pub enum DataShape {
    Array(usize),
    Single,
}

/// Which record of a response's `data` to read.
#[derive(Debug, Clone, Copy, PartialEq, Eq, Structural)]
pub enum RecordChoice {
    /// The first element of the array.
    First,
    /// The whole `data` value.
    Whole,
}

/// Which endpoint a record comes from.
#[derive(Debug, Clone, Copy, PartialEq, Eq, Structural)]
pub enum RecordKind {
    Status,
    Position,
}

/// The plain content of a `StromerApi`.
pub struct ApiView {
    pub base_url: Seq<char>,
    pub version: ApiVersion,
    pub username: Seq<char>,
    pub password: Seq<char>,
    pub client_id: Seq<char>,
    pub client_secret: Option<Seq<char>>,
    pub token: Option<Seq<char>>,
}

/// Credentials and session of the Stromer API.
pub struct StromerApi {
    base_url: String,
    api_version: ApiVersion,
    username: String,
    password: String,
    client_id: String,
    client_secret: Option<String>,
    token: Option<String>,
}

impl View for StromerApi {
    type V = ApiView;

    closed spec fn view(&self) -> ApiView {
        ApiView {
            base_url: self.base_url@,
            version: self.api_version,
            username: self.username@,
            password: self.password@,
            client_id: self.client_id@,
            client_secret: opt_text(self.client_secret),
            token: opt_text(self.token),
        }
    }
}

/// The address of the Stromer cloud.
pub open spec fn stromer_base_url() -> Seq<char> {
    "https://api3.stromer-portal.ch"@
}

/// The scopes asked for at login.
pub open spec fn login_scope() -> Seq<char> {
    "bikeposition bikestatus bikeconfiguration bikelock biketheft bikedata bikepin bikeblink userprofile"@
}

/// The pattern whose first group is the CSRF token in the login page's
/// Set-Cookie header.
pub open spec fn csrf_pattern() -> Seq<char> {
    "=(.*?);"@
}

/// The index of the first `;` in `t` from index `k` on, when no line break
/// comes before it.
pub open spec fn semicolon_on_line(t: Seq<char>, k: int) -> Option<int>
    decreases t.len() - k,
{
    if k < 0 || k >= t.len() {
        None
    } else if t[k] == ';' {
        Some(k)
    } else if t[k] == '\n' {
        None
    } else {
        semicolon_on_line(t, k + 1)
    }
}

/// What `=(.*?);` captures when its match starts at `i`: the text after the
/// `=` at `i` up to the first `;` on the same line.
pub open spec fn csrf_group_at(t: Seq<char>, i: int) -> Option<Seq<char>> {
    if 0 <= i < t.len() && t[i] == '=' {
        match semicolon_on_line(t, i + 1) {
            Some(j) => Some(t.subrange(i + 1, j)),
            None => None,
        }
    } else {
        None
    }
}

/// The group of the leftmost match of `=(.*?);` in `t` from index `i` on.
pub open spec fn first_csrf_group(t: Seq<char>, i: int) -> Option<Seq<char>>
    decreases t.len() - i,
{
    if i < 0 || i >= t.len() {
        None
    } else {
        match csrf_group_at(t, i) {
            Some(g) => Some(g),
            None => first_csrf_group(t, i + 1),
        }
    }
}

/// The CSRF token in the Set-Cookie header `t`: what `csrf_pattern()`
/// captures in its leftmost match, with `.` taking any character but a line
/// break and `*?` taking as few as it can.
pub open spec fn csrf_token_in(t: Seq<char>) -> Option<Seq<char>> {
    first_csrf_group(t, 0)
}

pub open spec fn login_url_of(api: ApiView) -> Seq<char> {
    match api.version {
        ApiVersion::V3 => api.base_url + "/users/login/"@,
        ApiVersion::V4 => api.base_url + "/mobile/v4/login/"@,
    }
}

pub open spec fn token_url_of(api: ApiView) -> Seq<char> {
    match api.version {
        ApiVersion::V3 => api.base_url + "/o/token/"@,
        ApiVersion::V4 => api.base_url + "/mobile/v4/o/token/"@,
    }
}

pub open spec fn authorize_path_of(v: ApiVersion) -> Seq<char> {
    match v {
        ApiVersion::V3 => "/o/authorize/"@,
        ApiVersion::V4 => "/mobile/v4/o/authorize/"@,
    }
}

pub open spec fn api_prefix_of(v: ApiVersion) -> Seq<char> {
    match v {
        ApiVersion::V3 => "/rapi/mobile/v2/"@,
        ApiVersion::V4 => "/rapi/mobile/v4.1/"@,
    }
}

pub open spec fn redirect_uri_of(v: ApiVersion) -> Seq<char> {
    match v {
        ApiVersion::V3 => "stromerauth://auth"@,
        ApiVersion::V4 => "stromer://auth"@,
    }
}

pub open spec fn api_url_of(api: ApiView, endpoint: Seq<char>) -> Seq<char> {
    api.base_url + api_prefix_of(api.version) + endpoint
}

/// Whether a byte is an ASCII letter or digit.
pub open spec fn is_ascii_alphanumeric_byte(b: u8) -> bool {
    (0x30 <= b <= 0x39) || (0x41 <= b <= 0x5a) || (0x61 <= b <= 0x7a)
}

/// The upper-case hexadecimal digit of a number below 16.
pub open spec fn hex_digit_upper(d: int) -> char {
    if d < 10 {
        ((0x30 + d) as u8) as char
    } else {
        ((0x41 + d - 10) as u8) as char
    }
}

/// A byte percent-encoded unless it is an ASCII letter or digit.
pub open spec fn percent_encoded_byte(b: u8) -> Seq<char> {
    if is_ascii_alphanumeric_byte(b) {
        seq![b as char]
    } else {
        seq!['%', hex_digit_upper((b / 16) as int), hex_digit_upper((b % 16) as int)]
    }
}

pub open spec fn percent_encoded_bytes(bytes: Seq<u8>) -> Seq<char>
    decreases bytes.len(),
{
    if bytes.len() == 0 {
        Seq::empty()
    } else {
        percent_encoded_byte(bytes[0]) + percent_encoded_bytes(bytes.drop_first())
    }
}

/// The UTF-8 bytes of `s`, each percent-encoded unless it is an ASCII letter
/// or digit.
pub open spec fn percent_encoded(s: Seq<char>) -> Seq<char> {
    percent_encoded_bytes(encode_utf8(s))
}

/// `percent_encoding::utf8_percent_encode` with the set `NON_ALPHANUMERIC`,
/// rendered as text: every UTF-8 byte of `s` that is not an ASCII letter or
/// digit becomes `%` and two upper-case hexadecimal digits.
#[verifier::external_body]
fn percent_encode_non_alphanumeric(s: &str) -> (r: String)
    ensures
        r@ == percent_encoded(s@),
{
    percent_encoding::utf8_percent_encode(s, percent_encoding::NON_ALPHANUMERIC).to_string()
}

/// The string member `key` of the JSON text `json`: `None` when `json` is
/// no JSON text, `Some(None)` when it is no object or its member `key` is
/// missing or no string.
pub uninterp spec fn json_member_text(json: Seq<char>, key: Seq<char>) -> Option<Option<Seq<char>>>;

/// `serde_json::from_str::<serde_json::Value>(json)`, then the member `key`
/// taken by `Value`'s index and `as_str`: the contract only names the result,
/// by `json_member_text`.
#[verifier::external_body]
fn json_string_member(json: &str, key: &str) -> (r: Option<Option<String>>)
    ensures
        json_member_text(json@, key@) == match r {
            Some(o) => Some(opt_text(o)),
            None => None,
        },
{
    match serde_json::from_str::<serde_json::Value>(json) {
        Ok(v) => Some(v[key].as_str().map(String::from)),
        Err(_) => None,
    }
}

/// The text of the first capture group of the leftmost match of the regular
/// expression `pattern` in `text`: `None` when `pattern` is no valid regular
/// expression, `Some(None)` when nothing matches.
pub uninterp spec fn regex_first_group(pattern: Seq<char>, text: Seq<char>) -> Option<Option<Seq<char>>>;

/// `regex::Regex::new(pattern)` and then `captures(text)` and its group 1:
/// the contract names the result by `regex_first_group`, and for the one
/// pattern the library uses, `csrf_pattern()`, states it as the regex
/// documentation gives it: leftmost-first matching, `.` any character but
/// `\n`, `*?` lazy. That pattern is valid, so it compiles.
#[verifier::external_body]
fn regex_first_capture(pattern: &str, text: &str) -> (r: Option<Option<String>>)
    ensures
        regex_first_group(pattern@, text@) == match r {
            Some(o) => Some(opt_text(o)),
            None => None,
        },
        pattern@ == csrf_pattern() ==> r is Some && opt_text(r->0) == csrf_token_in(text@),
{
    let re = match regex::Regex::new(pattern) {
        Ok(re) => re,
        Err(_) => return None,
    };
    match re.captures(text) {
        Some(caps) => match caps.get(1) {
            Some(m) => Some(Some(m.as_str().to_string())),
            None => Some(None),
        },
        None => Some(None),
    }
}

/// The authorization code in a redirect location: the text after the first
/// `code=` up to the next `code=` or `&`.
pub open spec fn code_in(location: Seq<char>) -> Option<Seq<char>> {
    match find_first(location, "code="@) {
        None => None,
        Some(i) => {
            let rest = location.subrange(i + 5, location.len() as int);
            let segment = match find_first(rest, "code="@) {
                Some(j) => rest.subrange(0, j),
                None => rest,
            };
            Some(
                match find_first(segment, "&"@) {
                    Some(k) => segment.subrange(0, k),
                    None => segment,
                },
            )
        },
    }
}

/// The form that logs in with the CSRF token `csrf`.
pub open spec fn login_form_fields(api: ApiView, csrf: Seq<char>) -> Seq<FormFieldView> {
    let query = "client_id="@ + percent_encoded(api.client_id) + "&response_type=code&redirect_url="@
        + percent_encoded(redirect_uri_of(api.version)) + "&scope="@ + percent_encoded(
        login_scope(),
    );
    seq![
        FormFieldView { name: "username"@, value: api.username },
        FormFieldView { name: "password"@, value: api.password },
        FormFieldView { name: "csrfmiddlewaretoken"@, value: csrf },
        FormFieldView { name: "next"@, value: authorize_path_of(api.version) + "?"@ + query },
    ]
}

/// The form that exchanges the authorization code `code` for an access token.
pub open spec fn token_form_fields(api: ApiView, code: Seq<char>) -> Seq<FormFieldView> {
    let fields = seq![
        FormFieldView { name: "grant_type"@, value: "authorization_code"@ },
        FormFieldView { name: "client_id"@, value: api.client_id },
        FormFieldView { name: "code"@, value: code },
        FormFieldView { name: "redirect_uri"@, value: redirect_uri_of(api.version) },
    ];
    match (api.version, api.client_secret) {
        (ApiVersion::V3, Some(secret)) => fields.push(
            FormFieldView { name: "client_secret"@, value: secret },
        ),
        _ => fields,
    }
}

/// The plain content of a list of form fields.
pub open spec fn form_view(form: Seq<FormField>) -> Seq<FormFieldView> {
    form.map_values(|f: FormField| f@)
}

fn field(name: &str, value: &str) -> (f: FormField)
    ensures
        f@ == (FormFieldView { name: name@, value: value@ }),
{
    FormField { name: name.to_string(), value: value.to_string() }
}

/// Whether the location after the login form is acceptable: it starts with
/// '/' or '?'.
pub open spec fn valid_next_location(location: Seq<char>) -> bool {
    location.len() > 0 && (location[0] == '/' || location[0] == '?')
}

impl StromerApi {
    pub fn new(
        username: String,
        password: String,
        client_id: String,
        client_secret: Option<String>,
    ) -> (r: Self)
        ensures
            r@.base_url == stromer_base_url(),
            r@.version == (if client_secret is Some {
                ApiVersion::V3
            } else {
                ApiVersion::V4
            }),
            r@.username == username@,
            r@.password == password@,
            r@.client_id == client_id@,
            r@.client_secret == opt_text(client_secret),
            r@.token is None,
    {
        let api_version = if client_secret.is_some() {
            ApiVersion::V3
        } else {
            ApiVersion::V4
        };
        StromerApi {
            base_url: "https://api3.stromer-portal.ch".to_string(),
            api_version,
            username,
            password,
            client_id,
            client_secret,
            token: None,
        }
    }

    pub fn api_version(&self) -> (r: ApiVersion)
        ensures
            r == self@.version,
    {
        self.api_version
    }

    pub fn login_url(&self) -> (r: String)
        ensures
            r@ == login_url_of(self@),
    {
        match self.api_version {
            ApiVersion::V3 => join2(self.base_url.as_str(), "/users/login/"),
            ApiVersion::V4 => join2(self.base_url.as_str(), "/mobile/v4/login/"),
        }
    }

    pub fn token_url(&self) -> (r: String)
        ensures
            r@ == token_url_of(self@),
    {
        match self.api_version {
            ApiVersion::V3 => join2(self.base_url.as_str(), "/o/token/"),
            ApiVersion::V4 => join2(self.base_url.as_str(), "/mobile/v4/o/token/"),
        }
    }

    pub fn authorize_path(&self) -> (r: &'static str)
        ensures
            r@ == authorize_path_of(self@.version),
    {
        match self.api_version {
            ApiVersion::V3 => "/o/authorize/",
            ApiVersion::V4 => "/mobile/v4/o/authorize/",
        }
    }

    pub fn api_prefix(&self) -> (r: &'static str)
        ensures
            r@ == api_prefix_of(self@.version),
    {
        match self.api_version {
            ApiVersion::V3 => "/rapi/mobile/v2/",
            ApiVersion::V4 => "/rapi/mobile/v4.1/",
        }
    }

    pub fn api_url(&self, endpoint: &str) -> (r: String)
        ensures
            r@ == api_url_of(self@, endpoint@),
    {
        join3(self.base_url.as_str(), self.api_prefix(), endpoint)
    }

    pub fn redirect_uri(&self) -> (r: &'static str)
        ensures
            r@ == redirect_uri_of(self@.version),
    {
        match self.api_version {
            ApiVersion::V3 => "stromerauth://auth",
            ApiVersion::V4 => "stromer://auth",
        }
    }

    /// The first request of the login: the login page, fetched for its CSRF
    /// cookie.
    pub fn login_page_request(&self) -> (r: HttpGet)
        ensures
            r.url@ == login_url_of(self@),
    {
        HttpGet { url: self.login_url() }
    }

    /// The login form, sent with the CSRF token `csrf`.
    pub fn login_form_with_token(&self, csrf: String) -> (r: FormPost)
        ensures
            r.url@ == login_url_of(self@),
            r.referer is Some,
            r.referer->0@ == login_url_of(self@),
            form_view(r.form@) == login_form_fields(self@, csrf@),
    {
        let login_url = self.login_url();
        let client_id = percent_encode_non_alphanumeric(self.client_id.as_str());
        let redirect = percent_encode_non_alphanumeric(self.redirect_uri());
        let scope = percent_encode_non_alphanumeric(
            "bikeposition bikestatus bikeconfiguration bikelock biketheft bikedata bikepin bikeblink userprofile",
        );
        let mut next = join3(self.authorize_path(), "?", "client_id=");
        next.append(client_id.as_str());
        next.append("&response_type=code&redirect_url=");
        next.append(redirect.as_str());
        next.append("&scope=");
        next.append(scope.as_str());
        let mut form: Vec<FormField> = Vec::new();
        form.push(field("username", self.username.as_str()));
        form.push(field("password", self.password.as_str()));
        form.push(field("csrfmiddlewaretoken", csrf.as_str()));
        form.push(field("next", next.as_str()));
        let referer = login_url.clone();
        proof {
            let query = "client_id="@ + percent_encoded(self@.client_id)
                + "&response_type=code&redirect_url="@ + percent_encoded(
                redirect_uri_of(self@.version),
            ) + "&scope="@ + percent_encoded(login_scope());
            assert(next@ =~= authorize_path_of(self@.version) + "?"@ + query);
            assert(form_view(form@) =~= login_form_fields(self@, csrf@));
        }
        FormPost { url: login_url, referer: Some(referer), form }
    }

    /// The login form, after the login page came with the Set-Cookie header
    /// `set_cookie`: the CSRF token is the first group of `csrf_pattern()` in
    /// it, `csrf_token_in`.
    pub fn login_form(&self, set_cookie: HeaderField) -> (r: Result<FormPost, ApiError>)
        ensures
            match set_cookie {
                HeaderField::Missing => r matches Err(ApiError::MissingSetCookie),
                HeaderField::Invalid => r matches Err(ApiError::InvalidSetCookie),
                HeaderField::Text(h) => match csrf_token_in(h@) {
                    None => r matches Err(ApiError::CsrfTokenNotFound),
                    Some(csrf) => r is Ok && r->Ok_0.url@ == login_url_of(self@)
                        && r->Ok_0.referer is Some && r->Ok_0.referer->0@ == login_url_of(self@)
                        && form_view(r->Ok_0.form@) == login_form_fields(self@, csrf),
                },
            },
    {
        match set_cookie {
            HeaderField::Missing => Err(ApiError::MissingSetCookie),
            HeaderField::Invalid => Err(ApiError::InvalidSetCookie),
            HeaderField::Text(h) => match regex_first_capture("=(.*?);", h.as_str()) {
                None => Err(ApiError::RegexError),
                Some(None) => Err(ApiError::CsrfTokenNotFound),
                Some(Some(csrf)) => Ok(self.login_form_with_token(csrf)),
            },
        }
    }

    /// The request that follows the redirect after the login form.
    pub fn authorize_request(&self, location: HeaderField) -> (r: Result<HttpGet, ApiError>)
        ensures
            match location {
                HeaderField::Missing => r matches Err(ApiError::MissingLoginLocation),
                HeaderField::Invalid => r matches Err(ApiError::InvalidLoginLocation),
                HeaderField::Text(l) => if valid_next_location(l@) {
                    r matches Ok(get) && get.url@ == self@.base_url + l@
                } else {
                    r matches Err(ApiError::InvalidNextLocation(e)) && e@ == l@
                },
            },
    {
        match location {
            HeaderField::Missing => Err(ApiError::MissingLoginLocation),
            HeaderField::Invalid => Err(ApiError::InvalidLoginLocation),
            HeaderField::Text(l) => {
                let chars = chars_of(l.as_str());
                if chars.len() > 0 && (chars[0] == '/' || chars[0] == '?') {
                    Ok(HttpGet { url: join2(self.base_url.as_str(), l.as_str()) })
                } else {
                    Err(ApiError::InvalidNextLocation(l))
                }
            },
        }
    }

    /// The form that exchanges the authorization code for a token.
    pub fn token_form_with_code(&self, code: String) -> (r: FormPost)
        ensures
            r.url@ == token_url_of(self@),
            r.referer is None,
            form_view(r.form@) == token_form_fields(self@, code@),
    {
        let mut form: Vec<FormField> = Vec::new();
        form.push(field("grant_type", "authorization_code"));
        form.push(field("client_id", self.client_id.as_str()));
        form.push(field("code", code.as_str()));
        form.push(field("redirect_uri", self.redirect_uri()));
        let ghost four = form_view(form@);
        if self.api_version == ApiVersion::V3 {
            if let Some(secret) = &self.client_secret {
                form.push(field("client_secret", secret.as_str()));
            }
        }
        proof {
            assert(four =~= seq![
                FormFieldView { name: "grant_type"@, value: "authorization_code"@ },
                FormFieldView { name: "client_id"@, value: self@.client_id },
                FormFieldView { name: "code"@, value: code@ },
                FormFieldView { name: "redirect_uri"@, value: redirect_uri_of(self@.version) },
            ]);
            assert(form_view(form@) =~= token_form_fields(self@, code@));
        }
        FormPost { url: self.token_url(), referer: None, form }
    }

    /// The token request, after the authorize redirect came with the Location
    /// header `location`.
    pub fn token_form(&self, location: HeaderField) -> (r: Result<FormPost, ApiError>)
        ensures
            match location {
                HeaderField::Missing => r matches Err(ApiError::MissingAuthorizeLocation),
                HeaderField::Invalid => r matches Err(ApiError::InvalidAuthorizeLocation),
                HeaderField::Text(l) => match code_in(l@) {
                    None => r matches Err(ApiError::CodeNotFound(e)) && e@ == l@,
                    Some(code) => r matches Ok(post) && post.url@ == token_url_of(self@)
                        && post.referer is None && form_view(post.form@) == token_form_fields(
                        self@,
                        code,
                    ),
                },
            },
    {
        match location {
            HeaderField::Missing => Err(ApiError::MissingAuthorizeLocation),
            HeaderField::Invalid => Err(ApiError::InvalidAuthorizeLocation),
            HeaderField::Text(l) => match authorization_code(l.as_str()) {
                None => Err(ApiError::CodeNotFound(l)),
                Some(code) => Ok(self.token_form_with_code(code)),
            },
        }
    }

    /// Keeps the access token of the token response; `response` is the
    /// response's JSON text, for the error.
    pub fn finish_login(&mut self, access_token: Option<String>, response: String) -> (r: Result<
        (),
        ApiError,
    >)
        ensures
            match access_token {
                Some(t) => r is Ok && final(self)@ == (ApiView { token: Some(t@), ..old(self)@ }),
                None => r matches Err(ApiError::NoAccessToken(e)) && e@ == response@
                    && final(self)@ == old(self)@,
            },
    {
        match access_token {
            Some(t) => {
                self.token = Some(t);
                Ok(())
            },
            None => Err(ApiError::NoAccessToken(response)),
        }
    }

    /// Reads the token response `body` and keeps its access token, the
    /// string member `access_token`.
    pub fn finish_login_with_response(&mut self, body: &str) -> (r: Result<(), ApiError>)
        ensures
            match json_member_text(body@, "access_token"@) {
                None => r matches Err(ApiError::TokenResponseNotJson(e)) && e@ == body@
                    && final(self)@ == old(self)@,
                Some(None) => r matches Err(ApiError::NoAccessToken(e)) && e@ == body@
                    && final(self)@ == old(self)@,
                Some(Some(t)) => r is Ok && final(self)@ == (ApiView {
                    token: Some(t),
                    ..old(self)@
                }),
            },
    {
        match json_string_member(body, "access_token") {
            None => Err(ApiError::TokenResponseNotJson(body.to_string())),
            Some(token) => self.finish_login(token, body.to_string()),
        }
    }

    pub fn auth_header(&self) -> (r: Result<String, ApiError>)
        ensures
            match self@.token {
                Some(t) => r matches Ok(h) && h@ == "Bearer "@ + t,
                None => r matches Err(ApiError::NotAuthenticated),
            },
    {
        match &self.token {
            Some(token) => Ok(join2("Bearer ", token.as_str())),
            None => Err(ApiError::NotAuthenticated),
        }
    }

    /// An authorized GET of `endpoint`.
    pub fn api_get(&self, endpoint: &str) -> (r: Result<ApiGet, ApiError>)
        ensures
            match self@.token {
                Some(t) => r matches Ok(get) && get.url@ == api_url_of(self@, endpoint@)
                    && get.authorization@ == "Bearer "@ + t,
                None => r matches Err(ApiError::NotAuthenticated),
            },
    {
        let url = self.api_url(endpoint);
        let authorization = self.auth_header()?;
        Ok(ApiGet { url, authorization })
    }

    /// The request that lists the bikes of the account.
    pub fn detect_request(&self) -> (r: Result<ApiGet, ApiError>)
        ensures
            match self@.token {
                Some(t) => r matches Ok(get) && get.url@ == api_url_of(self@, "bike/"@)
                    && get.authorization@ == "Bearer "@ + t,
                None => r matches Err(ApiError::NotAuthenticated),
            },
    {
        self.api_get("bike/")
    }

    /// The request for the state of the bike `bike_id`.
    pub fn status_request(&self, bike_id: &str) -> (r: Result<ApiGet, ApiError>)
        ensures
            match self@.token {
                Some(t) => r matches Ok(get) && get.url@ == api_url_of(
                    self@,
                    "bike/"@ + bike_id@ + "/state/"@,
                ) && get.authorization@ == "Bearer "@ + t,
                None => r matches Err(ApiError::NotAuthenticated),
            },
    {
        let endpoint = join3("bike/", bike_id, "/state/");
        self.api_get(endpoint.as_str())
    }

    /// The request for the position of the bike `bike_id`.
    pub fn position_request(&self, bike_id: &str) -> (r: Result<ApiGet, ApiError>)
        ensures
            match self@.token {
                Some(t) => r matches Ok(get) && get.url@ == api_url_of(
                    self@,
                    "bike/"@ + bike_id@ + "/position/"@,
                ) && get.authorization@ == "Bearer "@ + t,
                None => r matches Err(ApiError::NotAuthenticated),
            },
    {
        let endpoint = join3("bike/", bike_id, "/position/");
        self.api_get(endpoint.as_str())
    }

    /// The request that locks (`state` true) or unlocks the bike `bike_id`.
    pub fn lock_request(&self, bike_id: &str, state: bool) -> (r: Result<ApiPost, ApiError>)
        ensures
            match self@.token {
                Some(t) => r matches Ok(post) && post.url@ == api_url_of(
                    self@,
                    "bike/"@ + bike_id@ + "/settings/"@,
                ) && post.authorization@ == "Bearer "@ + t && post.body == CommandBody::Lock(state),
                None => r matches Err(ApiError::NotAuthenticated),
            },
    {
        let endpoint = join3("bike/", bike_id, "/settings/");
        let url = self.api_url(endpoint.as_str());
        let authorization = self.auth_header()?;
        Ok(ApiPost { url, authorization, body: CommandBody::Lock(state) })
    }

    /// The request that sets the light of the bike `bike_id` to `mode`.
    pub fn light_request(&self, bike_id: &str, mode: &str) -> (r: Result<ApiPost, ApiError>)
        ensures
            match self@.token {
                Some(t) => r is Ok && r->Ok_0.url@ == api_url_of(
                    self@,
                    "bike/"@ + bike_id@ + "/light/"@,
                ) && r->Ok_0.authorization@ == "Bearer "@ + t && r->Ok_0.body is Light
                    && r->Ok_0.body->Light_0@ == mode@,
                None => r matches Err(ApiError::NotAuthenticated),
            },
    {
        let endpoint = join3("bike/", bike_id, "/light/");
        let url = self.api_url(endpoint.as_str());
        let authorization = self.auth_header()?;
        Ok(ApiPost { url, authorization, body: CommandBody::Light(mode.to_string()) })
    }
}

/// Whether an HTTP status is a success (2xx).
pub open spec fn is_success(status: u16) -> bool {
    200 <= status <= 299
}

/// The check on the answer of the detect endpoint: its status must be a
/// success and its `data` an array.
pub fn check_detect_response(status: u16, data_is_array: bool) -> (r: Result<(), ApiError>)
    ensures
        !is_success(status) ==> (r matches Err(ApiError::DetectFailed(s)) && s == status),
        is_success(status) && !data_is_array ==> r matches Err(ApiError::DetectDataNotArray),
        is_success(status) && data_is_array ==> r is Ok,
{
    if !(200 <= status && status <= 299) {
        return Err(ApiError::DetectFailed(status));
    }
    if !data_is_array {
        return Err(ApiError::DetectDataNotArray);
    }
    Ok(())
}

/// The check on the status of a data call: 401 means that the token
/// expired, any other status but a success is a failure.
pub fn check_call_status(status: u16) -> (r: Result<(), ApiError>)
    ensures
        status == 401 ==> r matches Err(ApiError::AuthenticationExpired),
        status != 401 && !is_success(status) ==> (r matches Err(ApiError::CallFailed(s)) && s
            == status),
        is_success(status) ==> r is Ok,
{
    if status == 401 {
        return Err(ApiError::AuthenticationExpired);
    }
    if !(200 <= status && status <= 299) {
        return Err(ApiError::CallFailed(status));
    }
    Ok(())
}

/// Which record of a status or position response to read: the first
/// element of an array, which must not be empty, or the whole value.
pub fn choose_record(shape: DataShape, kind: RecordKind) -> (r: Result<RecordChoice, ApiError>)
    ensures
        match shape {
            DataShape::Single => r == Ok::<RecordChoice, ApiError>(RecordChoice::Whole),
            DataShape::Array(n) => if n > 0 {
                r == Ok::<RecordChoice, ApiError>(RecordChoice::First)
            } else {
                match kind {
                    RecordKind::Status => r matches Err(ApiError::EmptyStatusData),
                    RecordKind::Position => r matches Err(ApiError::EmptyPositionData),
                }
            },
        },
{
    match shape {
        DataShape::Single => Ok(RecordChoice::Whole),
        DataShape::Array(n) => if n > 0 {
            Ok(RecordChoice::First)
        } else {
            match kind {
                RecordKind::Status => Err(ApiError::EmptyStatusData),
                RecordKind::Position => Err(ApiError::EmptyPositionData),
            }
        },
    }
}

/// The authorization code in a redirect location, as
/// `location.split("code=").nth(1)` and then `.split('&').next()` find it.
pub fn authorization_code(location: &str) -> (r: Option<String>)
    ensures
        opt_text(r) == code_in(location@),
{
    let chars = chars_of(location);
    let marker = chars_of("code=");
    let amp = chars_of("&");
    proof {
        reveal_strlit("code=");
        reveal_strlit("&");
        assert(marker@ =~= "code="@);
        assert(amp@ =~= "&"@);
    }
    match find(&chars, &marker, 0) {
        None => None,
        Some(i) => {
            proof {
                crate::text::lemma_find_from_bounds(chars@, marker@, 0);
                assert(marker@.len() == 5);
                assert(i + 5 <= chars@.len());
                assert(i + 5 <= chars.len());
            }
            let rest = text_slice(&chars, i + 5, chars.len());
            let segment = match find(&rest, &marker, 0) {
                Some(j) => {
                    proof {
                        crate::text::lemma_find_from_bounds(rest@, marker@, 0);
                    }
                    text_slice(&rest, 0, j)
                },
                None => rest,
            };
            let code = match find(&segment, &amp, 0) {
                Some(k) => {
                    proof {
                        crate::text::lemma_find_from_bounds(segment@, amp@, 0);
                    }
                    string_of(&segment, 0, k)
                },
                None => string_of(&segment, 0, segment.len()),
            };
            proof {
                assert(segment@.subrange(0, segment@.len() as int) =~= segment@);
            }
            Some(code)
        },
    }
}

/// What happened in `stromer_update` since its last action.
#[derive(Debug, Clone, Copy, PartialEq, Eq, Structural)]
pub enum UpdateEvent {
    /// The update begins.
    Start,
    /// The new login ended, successfully or not.
    LoggedIn { ok: bool },
    /// The status call ended, successfully or not.
    StatusFetched { ok: bool },
    /// The position call ended, successfully or not.
    PositionFetched { ok: bool },
}

/// What `stromer_update` does next.
#[derive(Debug, Clone, Copy, PartialEq, Eq, Structural)]
pub enum UpdateAction {
    /// Log in again before the next attempt.
    Login,
    /// Begin an attempt: fetch the status.
    FetchStatus,
    /// Fetch the position.
    FetchPosition,
    /// Hand out the status and position that were fetched.
    Finish,
    /// Give up with the error of the failed login.
    LoginFailed,
    /// Give up after ten failed attempts.
    GiveUp,
}

/// The attempts at fetching status and position of a bike.
pub struct UpdateRetry {
    attempts: u32,
}

/// The attempts made and the action when a new attempt is due after
/// `attempts` attempts: give up after ten, log in again before the sixth,
/// else begin the next attempt.
pub open spec fn begin_attempt(attempts: nat) -> (nat, UpdateAction) {
    if attempts >= 10 {
        (attempts, UpdateAction::GiveUp)
    } else if attempts == 5 {
        (attempts, UpdateAction::Login)
    } else {
        (attempts + 1, UpdateAction::FetchStatus)
    }
}

/// The attempts made and the next action after `event`, with `attempts`
/// attempts made before: a failed call starts a new attempt, a failed login
/// ends the update, a fetched status leads to the position and a fetched
/// position ends the update.
pub open spec fn update_step(attempts: nat, event: UpdateEvent) -> (nat, UpdateAction) {
    match event {
        UpdateEvent::Start => begin_attempt(attempts),
        UpdateEvent::LoggedIn { ok } => if !ok {
            (attempts, UpdateAction::LoginFailed)
        } else if attempts >= 10 {
            (attempts, UpdateAction::GiveUp)
        } else {
            (attempts + 1, UpdateAction::FetchStatus)
        },
        UpdateEvent::StatusFetched { ok } => if ok {
            (attempts, UpdateAction::FetchPosition)
        } else {
            begin_attempt(attempts)
        },
        UpdateEvent::PositionFetched { ok } => if ok {
            (attempts, UpdateAction::Finish)
        } else {
            begin_attempt(attempts)
        },
    }
}

impl UpdateRetry {
    #[verifier::type_invariant]
    spec fn at_most_ten(&self) -> bool {
        self.attempts <= 10
    }

    /// The number of attempts made so far.
    pub closed spec fn made(&self) -> nat {
        self.attempts as nat
    }

    pub fn new() -> (r: Self)
        ensures
            r.made() == 0,
    {
        UpdateRetry { attempts: 0 }
    }

    /// Takes what happened and says what to do next, counting each attempt
    /// that begins.
    pub fn step(&mut self, event: UpdateEvent) -> (r: UpdateAction)
        ensures
            (final(self).made(), r) == update_step(old(self).made(), event),
            final(self).made() <= 10,
    {
        proof {
            use_type_invariant(&*self);
        }
        match event {
            UpdateEvent::Start => {},
            UpdateEvent::LoggedIn { ok } => {
                if !ok {
                    return UpdateAction::LoginFailed;
                }
                if self.attempts >= 10 {
                    return UpdateAction::GiveUp;
                }
                self.attempts = self.attempts + 1;
                return UpdateAction::FetchStatus;
            },
            UpdateEvent::StatusFetched { ok } => {
                if ok {
                    return UpdateAction::FetchPosition;
                }
            },
            UpdateEvent::PositionFetched { ok } => {
                if ok {
                    return UpdateAction::Finish;
                }
            },
        }
        if self.attempts >= 10 {
            UpdateAction::GiveUp
        } else if self.attempts == 5 {
            UpdateAction::Login
        } else {
            self.attempts = self.attempts + 1;
            UpdateAction::FetchStatus
        }
    }
}

/// The number of status fetches that `events`, in order, lead to from
/// `attempts` attempts made.
pub open spec fn status_fetches(attempts: nat, events: Seq<UpdateEvent>) -> nat
    decreases events.len(),
{
    if events.len() == 0 {
        0
    } else {
        let (next, action) = update_step(attempts, events[0]);
        (if action is FetchStatus {
            1nat
        } else {
            0nat
        }) + status_fetches(next, events.drop_first())
    }
}

/// `stromer_update` makes at most ten attempts, whatever the calls return:
/// from a new count, no sequence of events leads to more than ten status
/// fetches. A new login is asked for only after five attempts, and after
/// ten the update gives up.
pub proof fn law_update_retries_bounded(attempts: nat, events: Seq<UpdateEvent>)
    requires
        attempts <= 10,
    ensures
        status_fetches(attempts, events) + attempts <= 10,
        status_fetches(0, events) <= 10,
        update_step(attempts, UpdateEvent::Start).1 == UpdateAction::Login <==> attempts == 5,
        attempts == 10 ==> update_step(attempts, UpdateEvent::Start).1 == UpdateAction::GiveUp,
{
    lemma_status_fetches_bounded(attempts, events);
    lemma_status_fetches_bounded(0, events);
}

proof fn lemma_status_fetches_bounded(attempts: nat, events: Seq<UpdateEvent>)
    requires
        attempts <= 10,
    ensures
        status_fetches(attempts, events) + attempts <= 10,
    decreases events.len(),
{
    if events.len() > 0 {
        let (next, action) = update_step(attempts, events[0]);
        lemma_status_fetches_bounded(next, events.drop_first());
    }
}

/// A flag given as the integer 0 or 1 means the same as the boolean false
/// or true, whether the integer is read as signed or unsigned.
pub proof fn law_flag_integers_match_booleans(b: bool)
    ensures
        flag_meaning(FlagToken::Signed(if b { 1i64 } else { 0i64 })) == flag_meaning(FlagToken::Bool(b)),
        flag_meaning(FlagToken::Unsigned(if b { 1u64 } else { 0u64 })) == flag_meaning(FlagToken::Bool(b)),
        flag_meaning(FlagToken::Bool(b)) == Ok::<Option<bool>, FlagError>(Some(b)),
        flag_meaning(FlagToken::Null) == Ok::<Option<bool>, FlagError>(None),
{
}

/// The code that the authorize redirect hands out is the code sent to the
/// token endpoint: in `{prefix}code={code}`, where `code=` does not occur
/// before, and `code` holds neither `&` nor `code=`, the code found is `code`.
pub proof fn law_authorization_code_is_found(prefix: Seq<char>, code: Seq<char>)
    requires
        forall|k: int| 0 <= k < prefix.len() ==> !occurs_at(prefix + "code="@ + code, "code="@, k),
        forall|k: int| 0 <= k ==> !occurs_at(code, "code="@, k),
        !has_char(code, '&'),
    ensures
        code_in(prefix + "code="@ + code) == Some(code),
{
    reveal_strlit("code=");
    reveal_strlit("&");
    let loc = prefix + "code="@ + code;
    assert(loc.subrange(prefix.len() as int, prefix.len() as int + 5) =~= "code="@);
    lemma_find_from_first(loc, "code="@, 0, prefix.len() as int);
    let rest = loc.subrange(prefix.len() as int + 5, loc.len() as int);
    assert(rest =~= code);
    lemma_find_from_none(code, "code="@, 0);
    assert("&"@ =~= seq!['&']);
    assert forall|k: int| 0 <= k implies !occurs_at(code, "&"@, k) by {
        lemma_occurs_char(code, '&', k);
    }
    lemma_find_from_none(code, "&"@, 0);
}

/// The token exchange sends the redirect URI that the login sent: the
/// token form's `redirect_uri` is the one whose percent-encoding the login
/// form's `next` carries, `stromerauth://auth` on v3 and `stromer://auth`
/// on v4.
pub proof fn law_token_exchange_uses_login_redirect(api: ApiView, code: Seq<char>, csrf: Seq<char>)
    ensures
        token_form_fields(api, code)[3].name == "redirect_uri"@,
        login_form_fields(api, csrf)[3].name == "next"@,
        login_form_fields(api, csrf)[3].value == authorize_path_of(api.version) + "?"@ + (
        "client_id="@ + percent_encoded(api.client_id) + "&response_type=code&redirect_url="@
            + percent_encoded(token_form_fields(api, code)[3].value) + "&scope="@ + percent_encoded(
            login_scope(),
        )),
        api.version == ApiVersion::V3 ==> token_form_fields(api, code)[3].value
            == "stromerauth://auth"@,
        api.version == ApiVersion::V4 ==> token_form_fields(api, code)[3].value == "stromer://auth"@,
{
}

/// The login form sends the account's user name and password and the CSRF
/// token under their own names; the token form asks for the grant
/// `authorization_code` with the client id and the code, and adds the client
/// secret on v3 only, when there is one.
pub proof fn law_forms_carry_their_fields(api: ApiView, code: Seq<char>, csrf: Seq<char>)
    ensures
        login_form_fields(api, csrf).len() == 4,
        login_form_fields(api, csrf)[0] == (FormFieldView { name: "username"@, value: api.username }),
        login_form_fields(api, csrf)[1] == (FormFieldView { name: "password"@, value: api.password }),
        login_form_fields(api, csrf)[2] == (FormFieldView {
            name: "csrfmiddlewaretoken"@,
            value: csrf,
        }),
        token_form_fields(api, code)[0] == (FormFieldView {
            name: "grant_type"@,
            value: "authorization_code"@,
        }),
        token_form_fields(api, code)[1] == (FormFieldView {
            name: "client_id"@,
            value: api.client_id,
        }),
        token_form_fields(api, code)[2] == (FormFieldView { name: "code"@, value: code }),
        token_form_fields(api, code).len() == if api.version == ApiVersion::V3
            && api.client_secret is Some {
            5int
        } else {
            4int
        },
        api.version == ApiVersion::V3 && api.client_secret is Some ==> token_form_fields(api, code)[4]
            == (FormFieldView { name: "client_secret"@, value: api.client_secret->0 }),
{
}

} // verus!
