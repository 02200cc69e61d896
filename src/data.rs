//! The records that the appliance's API exchanges, and how each is read from a
//! JSON document.
use vstd::prelude::*;
use crate::json::{
    field, field_shape, field_value, opt_field, opt_field_shape, opt_field_value, FromJson, Json,
};

verus! {

/// Body of a login request.
#[derive(Debug, Clone)]
pub struct AuthRequest {
    pub password: String,
}

/// The session that a successful login hands out.
#[derive(Debug, Clone)]
pub struct AuthResponseSession {
    pub valid: bool,
    pub totp: bool,
    pub sid: String,
    pub csrf: String,
    pub validity: u32,
    pub message: String,
}

impl FromJson for AuthResponseSession {
    open spec fn shape() -> Seq<char> {
        "a AuthResponseSession object"@
    }

    fn shape_name() -> (r: &'static str) {
        "a AuthResponseSession object"
    }

    open spec fn json_shape(j: Json) -> bool {
        &&& field_shape::<bool>(j, "valid"@)
        &&& field_shape::<bool>(j, "totp"@)
        &&& field_shape::<String>(j, "sid"@)
        &&& field_shape::<String>(j, "csrf"@)
        &&& field_shape::<u32>(j, "validity"@)
        &&& field_shape::<String>(j, "message"@)
    }

    open spec fn json_value(j: Json, v: AuthResponseSession) -> bool {
        &&& field_value::<bool>(j, "valid"@, v.valid)
        &&& field_value::<bool>(j, "totp"@, v.totp)
        &&& field_value::<String>(j, "sid"@, v.sid)
        &&& field_value::<String>(j, "csrf"@, v.csrf)
        &&& field_value::<u32>(j, "validity"@, v.validity)
        &&& field_value::<String>(j, "message"@, v.message)
    }

    fn from_json(j: &Json) -> (r: Option<AuthResponseSession>) {
        let valid = field::<bool>(j, "valid")?;
        let totp = field::<bool>(j, "totp")?;
        let sid = field::<String>(j, "sid")?;
        let csrf = field::<String>(j, "csrf")?;
        let validity = field::<u32>(j, "validity")?;
        let message = field::<String>(j, "message")?;
        Some(AuthResponseSession { valid, totp, sid, csrf, validity, message })
    }
}

/// Reply to a login request.
#[derive(Debug, Clone)]
pub struct AuthResponse {
    pub session: AuthResponseSession,
}

impl FromJson for AuthResponse {
    open spec fn shape() -> Seq<char> {
        "a AuthResponse object"@
    }

    fn shape_name() -> (r: &'static str) {
        "a AuthResponse object"
    }

    open spec fn json_shape(j: Json) -> bool {
        field_shape::<AuthResponseSession>(j, "session"@)
    }

    open spec fn json_value(j: Json, v: AuthResponse) -> bool {
        field_value::<AuthResponseSession>(j, "session"@, v.session)
    }

    fn from_json(j: &Json) -> (r: Option<AuthResponse>) {
        let session = field::<AuthResponseSession>(j, "session")?;
        Some(AuthResponse { session })
    }
}

/// A group as the API lists it.
#[derive(Debug, Clone)]
pub struct GroupResult {
    pub name: String,
    pub comment: Option<String>,
    pub enabled: bool,
    pub id: u8,
    pub date_added: i64,
    pub date_modified: i64,
}

impl FromJson for GroupResult {
    open spec fn shape() -> Seq<char> {
        "a GroupResult object"@
    }

    fn shape_name() -> (r: &'static str) {
        "a GroupResult object"
    }

    open spec fn json_shape(j: Json) -> bool {
        &&& field_shape::<String>(j, "name"@)
        &&& opt_field_shape::<String>(j, "comment"@)
        &&& field_shape::<bool>(j, "enabled"@)
        &&& field_shape::<u8>(j, "id"@)
        &&& field_shape::<i64>(j, "date_added"@)
        &&& field_shape::<i64>(j, "date_modified"@)
    }

    open spec fn json_value(j: Json, v: GroupResult) -> bool {
        &&& field_value::<String>(j, "name"@, v.name)
        &&& opt_field_value::<String>(j, "comment"@, v.comment)
        &&& field_value::<bool>(j, "enabled"@, v.enabled)
        &&& field_value::<u8>(j, "id"@, v.id)
        &&& field_value::<i64>(j, "date_added"@, v.date_added)
        &&& field_value::<i64>(j, "date_modified"@, v.date_modified)
    }

    fn from_json(j: &Json) -> (r: Option<GroupResult>) {
        let name = field::<String>(j, "name")?;
        let comment = opt_field::<String>(j, "comment")?;
        let enabled = field::<bool>(j, "enabled")?;
        let id = field::<u8>(j, "id")?;
        let date_added = field::<i64>(j, "date_added")?;
        let date_modified = field::<i64>(j, "date_modified")?;
        Some(GroupResult { name, comment, enabled, id, date_added, date_modified })
    }
}

/// Reply listing groups.
#[derive(Debug, Clone)]
pub struct GroupsResponse {
    pub groups: Vec<GroupResult>,
}

impl FromJson for GroupsResponse {
    open spec fn shape() -> Seq<char> {
        "a GroupsResponse object"@
    }

    fn shape_name() -> (r: &'static str) {
        "a GroupsResponse object"
    }

    open spec fn json_shape(j: Json) -> bool {
        field_shape::<Vec<GroupResult>>(j, "groups"@)
    }

    open spec fn json_value(j: Json, v: GroupsResponse) -> bool {
        field_value::<Vec<GroupResult>>(j, "groups"@, v.groups)
    }

    fn from_json(j: &Json) -> (r: Option<GroupsResponse>) {
        let groups = field::<Vec<GroupResult>>(j, "groups")?;
        Some(GroupsResponse { groups })
    }
}

/// An item that an update applied.
#[derive(Debug, Clone)]
pub struct SuccessItem {
    pub item: String,
}

impl FromJson for SuccessItem {
    open spec fn shape() -> Seq<char> {
        "a SuccessItem object"@
    }

    fn shape_name() -> (r: &'static str) {
        "a SuccessItem object"
    }

    open spec fn json_shape(j: Json) -> bool {
        field_shape::<String>(j, "item"@)
    }

    open spec fn json_value(j: Json, v: SuccessItem) -> bool {
        field_value::<String>(j, "item"@, v.item)
    }

    fn from_json(j: &Json) -> (r: Option<SuccessItem>) {
        let item = field::<String>(j, "item")?;
        Some(SuccessItem { item })
    }
}

/// An item that an update rejected, with the reason.
#[derive(Debug, Clone)]
pub struct ErrorItem {
    pub item: String,
    pub error: String,
}

impl FromJson for ErrorItem {
    open spec fn shape() -> Seq<char> {
        "a ErrorItem object"@
    }

    fn shape_name() -> (r: &'static str) {
        "a ErrorItem object"
    }

    open spec fn json_shape(j: Json) -> bool {
        field_shape::<String>(j, "item"@) && field_shape::<String>(j, "error"@)
    }

    open spec fn json_value(j: Json, v: ErrorItem) -> bool {
        field_value::<String>(j, "item"@, v.item) && field_value::<String>(j, "error"@, v.error)
    }

    fn from_json(j: &Json) -> (r: Option<ErrorItem>) {
        let item = field::<String>(j, "item")?;
        let error = field::<String>(j, "error")?;
        Some(ErrorItem { item, error })
    }
}

/// What an update did, item by item.
#[derive(Debug, Clone)]
pub struct ProcessedResult {
    pub success: Vec<SuccessItem>,
    pub errors: Vec<ErrorItem>,
}

impl FromJson for ProcessedResult {
    open spec fn shape() -> Seq<char> {
        "a ProcessedResult object"@
    }

    fn shape_name() -> (r: &'static str) {
        "a ProcessedResult object"
    }

    open spec fn json_shape(j: Json) -> bool {
        field_shape::<Vec<SuccessItem>>(j, "success"@) && field_shape::<Vec<ErrorItem>>(
            j,
            "errors"@,
        )
    }

    open spec fn json_value(j: Json, v: ProcessedResult) -> bool {
        field_value::<Vec<SuccessItem>>(j, "success"@, v.success) && field_value::<
            Vec<ErrorItem>,
        >(j, "errors"@, v.errors)
    }

    fn from_json(j: &Json) -> (r: Option<ProcessedResult>) {
        let success = field::<Vec<SuccessItem>>(j, "success")?;
        let errors = field::<Vec<ErrorItem>>(j, "errors")?;
        Some(ProcessedResult { success, errors })
    }
}

/// A client as the API lists it. `comment` is the key by which the toggle finds it.
#[derive(Debug, Clone)]
pub struct ClientResult {
    pub client: String,
    pub name: String,
    pub comment: String,
    pub groups: Vec<u8>,
    pub id: u8,
    pub date_added: i64,
    pub date_modified: i64,
    pub processed: Option<ProcessedResult>,
}

impl FromJson for ClientResult {
    open spec fn shape() -> Seq<char> {
        "a ClientResult object"@
    }

    fn shape_name() -> (r: &'static str) {
        "a ClientResult object"
    }

    open spec fn json_shape(j: Json) -> bool {
        &&& field_shape::<String>(j, "client"@)
        &&& field_shape::<String>(j, "name"@)
        &&& field_shape::<String>(j, "comment"@)
        &&& field_shape::<Vec<u8>>(j, "groups"@)
        &&& field_shape::<u8>(j, "id"@)
        &&& field_shape::<i64>(j, "date_added"@)
        &&& field_shape::<i64>(j, "date_modified"@)
        &&& opt_field_shape::<ProcessedResult>(j, "processed"@)
    }

    open spec fn json_value(j: Json, v: ClientResult) -> bool {
        &&& field_value::<String>(j, "client"@, v.client)
        &&& field_value::<String>(j, "name"@, v.name)
        &&& field_value::<String>(j, "comment"@, v.comment)
        &&& field_value::<Vec<u8>>(j, "groups"@, v.groups)
        &&& field_value::<u8>(j, "id"@, v.id)
        &&& field_value::<i64>(j, "date_added"@, v.date_added)
        &&& field_value::<i64>(j, "date_modified"@, v.date_modified)
        &&& opt_field_value::<ProcessedResult>(j, "processed"@, v.processed)
    }

    fn from_json(j: &Json) -> (r: Option<ClientResult>) {
        let client = field::<String>(j, "client")?;
        let name = field::<String>(j, "name")?;
        let comment = field::<String>(j, "comment")?;
        let groups = field::<Vec<u8>>(j, "groups")?;
        let id = field::<u8>(j, "id")?;
        let date_added = field::<i64>(j, "date_added")?;
        let date_modified = field::<i64>(j, "date_modified")?;
        let processed = opt_field::<ProcessedResult>(j, "processed")?;
        Some(ClientResult { client, name, comment, groups, id, date_added, date_modified, processed })
    }
}

/// Reply listing clients.
#[derive(Debug, Clone)]
pub struct ClientsResponse {
    pub clients: Vec<ClientResult>,
}

impl FromJson for ClientsResponse {
    open spec fn shape() -> Seq<char> {
        "a ClientsResponse object"@
    }

    fn shape_name() -> (r: &'static str) {
        "a ClientsResponse object"
    }

    open spec fn json_shape(j: Json) -> bool {
        field_shape::<Vec<ClientResult>>(j, "clients"@)
    }

    open spec fn json_value(j: Json, v: ClientsResponse) -> bool {
        field_value::<Vec<ClientResult>>(j, "clients"@, v.clients)
    }

    fn from_json(j: &Json) -> (r: Option<ClientsResponse>) {
        let clients = field::<Vec<ClientResult>>(j, "clients")?;
        Some(ClientsResponse { clients })
    }
}

/// Body of a client update: the comment and the full group set.
#[derive(Debug, Clone)]
pub struct ClientRequest {
    pub comment: String,
    pub groups: Vec<u8>,
}

/// Reply to a restart of the filtering service.
#[derive(Debug, Clone)]
pub struct RestartDnsResponse {
    pub status: String,
}

impl FromJson for RestartDnsResponse {
    open spec fn shape() -> Seq<char> {
        "a RestartDnsResponse object"@
    }

    fn shape_name() -> (r: &'static str) {
        "a RestartDnsResponse object"
    }

    open spec fn json_shape(j: Json) -> bool {
        field_shape::<String>(j, "status"@)
    }

    open spec fn json_value(j: Json, v: RestartDnsResponse) -> bool {
        field_value::<String>(j, "status"@, v.status)
    }

    fn from_json(j: &Json) -> (r: Option<RestartDnsResponse>) {
        let status = field::<String>(j, "status")?;
        Some(RestartDnsResponse { status })
    }
}

/// The structured failure that the API returns in place of a result.
#[derive(Debug, Clone)]
pub struct PiHoleErrorDetails {
    pub key: String,
    pub message: String,
    pub hint: Option<String>,
}

impl FromJson for PiHoleErrorDetails {
    open spec fn shape() -> Seq<char> {
        "a PiHoleErrorDetails object"@
    }

    fn shape_name() -> (r: &'static str) {
        "a PiHoleErrorDetails object"
    }

    open spec fn json_shape(j: Json) -> bool {
        &&& field_shape::<String>(j, "key"@)
        &&& field_shape::<String>(j, "message"@)
        &&& opt_field_shape::<String>(j, "hint"@)
    }

    open spec fn json_value(j: Json, v: PiHoleErrorDetails) -> bool {
        &&& field_value::<String>(j, "key"@, v.key)
        &&& field_value::<String>(j, "message"@, v.message)
        &&& opt_field_value::<String>(j, "hint"@, v.hint)
    }

    fn from_json(j: &Json) -> (r: Option<PiHoleErrorDetails>) {
        let key = field::<String>(j, "key")?;
        let message = field::<String>(j, "message")?;
        let hint = opt_field::<String>(j, "hint")?;
        Some(PiHoleErrorDetails { key, message, hint })
    }
}

/// The error shape of a response body: `{"error": {key, message, hint}}`.
#[derive(Debug, Clone)]
pub struct PiHoleError {
    pub error: PiHoleErrorDetails,
}

impl FromJson for PiHoleError {
    open spec fn shape() -> Seq<char> {
        "a PiHoleError object"@
    }

    fn shape_name() -> (r: &'static str) {
        "a PiHoleError object"
    }

    open spec fn json_shape(j: Json) -> bool {
        field_shape::<PiHoleErrorDetails>(j, "error"@)
    }

    open spec fn json_value(j: Json, v: PiHoleError) -> bool {
        field_value::<PiHoleErrorDetails>(j, "error"@, v.error)
    }

    fn from_json(j: &Json) -> (r: Option<PiHoleError>) {
        let error = field::<PiHoleErrorDetails>(j, "error")?;
        Some(PiHoleError { error })
    }
}

} // verus!
