//! The events that the server emits, in both wire schemas, and how each is
//! read from a JSON object.
//!
//! A record is read field by field: a field that the schema requires must be
//! there in its kind, a field that it leaves optional may be missing or null,
//! and a field that it does not know is passed over.

use crate::event::fields::{
    opt_bool, opt_bool_exec, opt_i32, opt_i32_exec, opt_json, opt_json_exec, opt_json_list,
    opt_json_list_exec, opt_text, opt_text_exec, opt_text_list, opt_text_list_exec, opt_text_map,
    opt_text_map_exec, opt_u64, opt_u64_exec, req_text, req_text_exec, req_u32, req_u32_exec,
    req_u64, req_u64_exec,
};
use crate::json::{Json, JsonView};
use crate::text::str_eq;
use vstd::prelude::*;

verus! {

/// The marker that tags an event line.
pub const DEV_EVENT_MAGIC: &'static str = "__FRONTMCP_DEV_EVENT__";

/// The fields that every event of the first schema carries.
#[derive(Debug)]
pub struct DevEventBase {
    pub id: String,
    pub timestamp: u64,
    pub scope_id: String,
    pub session_id: Option<String>,
    pub request_id: Option<String>,
}

/// The mathematical value of a [`DevEventBase`].
pub struct DevEventBaseView {
    pub id: Seq<char>,
    pub timestamp: u64,
    pub scope_id: Seq<char>,
    pub session_id: Option<Seq<char>>,
    pub request_id: Option<Seq<char>>,
}

impl View for DevEventBase {
    type V = DevEventBaseView;

    open spec fn view(&self) -> DevEventBaseView {
        DevEventBaseView {
            id: self.id@,
            timestamp: self.timestamp,
            scope_id: self.scope_id@,
            session_id: self.session_id.deep_view(),
            request_id: self.request_id.deep_view(),
        }
    }
}

impl DeepView for DevEventBase {
    type V = DevEventBaseView;

    open spec fn deep_view(&self) -> DevEventBaseView {
        self@
    }
}

impl Clone for DevEventBase {
    fn clone(&self) -> (r: Self)
        ensures
            r@ == self@,
    {
        DevEventBase {
            id: self.id.clone(),
            timestamp: self.timestamp,
            scope_id: self.scope_id.clone(),
            session_id: self.session_id.clone(),
            request_id: self.request_id.clone(),
        }
    }
}

impl DevEventBaseView {
    /// Whether `j` is an object that holds every field of a [`DevEventBase`] in its kind.
    pub open spec fn fits(j: JsonView) -> bool {
        &&& j is Object
        &&& req_text(j, "id"@) is Some
        &&& req_u64(j, "timestamp"@) is Some
        &&& req_text(j, "scopeId"@) is Some
        &&& opt_text(j, "sessionId"@) is Some
        &&& opt_text(j, "requestId"@) is Some
    }

    /// The value that the fields of `j` give.
    pub open spec fn of(j: JsonView) -> DevEventBaseView {
        DevEventBaseView {
            id: req_text(j, "id"@).unwrap(),
            timestamp: req_u64(j, "timestamp"@).unwrap(),
            scope_id: req_text(j, "scopeId"@).unwrap(),
            session_id: opt_text(j, "sessionId"@).unwrap(),
            request_id: opt_text(j, "requestId"@).unwrap(),
        }
    }

    /// The [`DevEventBase`] that `j` denotes, if it denotes one.
    pub open spec fn decode(j: JsonView) -> Option<DevEventBaseView> {
        if Self::fits(j) {
            Some(Self::of(j))
        } else {
            None
        }
    }
}

impl DevEventBase {
    /// Reads a [`DevEventBase`] from a JSON object.
    pub fn decode(j: &Json) -> (r: Option<DevEventBase>)
        ensures
            r.deep_view() == DevEventBaseView::decode(j@),
    {
        if !j.is_object() {
            return None;
        }
        let id = match req_text_exec(j, "id") {
            Some(v) => v,
            None => {
                return None;
            },
        };
        let timestamp = match req_u64_exec(j, "timestamp") {
            Some(v) => v,
            None => {
                return None;
            },
        };
        let scope_id = match req_text_exec(j, "scopeId") {
            Some(v) => v,
            None => {
                return None;
            },
        };
        let session_id = match opt_text_exec(j, "sessionId") {
            Some(v) => v,
            None => {
                return None;
            },
        };
        let request_id = match opt_text_exec(j, "requestId") {
            Some(v) => v,
            None => {
                return None;
            },
        };
        Some(DevEventBase { id, timestamp, scope_id, session_id, request_id })
    }
}

/// What happened to a session.
#[derive(Debug, Clone, Copy, PartialEq, Eq, Structural)]
pub enum SessionEventType {
    Connect,
    Disconnect,
    Idle,
    Active,
}

impl SessionEventType {
    /// The variant that a wire name stands for.
    pub open spec fn named(t: Seq<char>) -> Option<SessionEventType> {
        if t == "session:connect"@ {
            Some(SessionEventType::Connect)
        } else if t == "session:disconnect"@ {
            Some(SessionEventType::Disconnect)
        } else if t == "session:idle"@ {
            Some(SessionEventType::Idle)
        } else if t == "session:active"@ {
            Some(SessionEventType::Active)
        } else {
            None
        }
    }

    /// The variant named by the text in the field `key`.
    pub open spec fn named_in(j: JsonView, key: Seq<char>) -> Option<SessionEventType> {
        match req_text(j, key) {
            Some(t) => Self::named(t),
            None => None,
        }
    }

    /// The wire name of the variant.
    pub open spec fn wire_name(self) -> Seq<char> {
        match self {
            SessionEventType::Connect => "session:connect"@,
            SessionEventType::Disconnect => "session:disconnect"@,
            SessionEventType::Idle => "session:idle"@,
            SessionEventType::Active => "session:active"@,
        }
    }

    pub fn from_name(t: &str) -> (r: Option<SessionEventType>)
        ensures
            r == Self::named(t@),
    {
        if str_eq(t, "session:connect") {
            Some(SessionEventType::Connect)
        } else if str_eq(t, "session:disconnect") {
            Some(SessionEventType::Disconnect)
        } else if str_eq(t, "session:idle") {
            Some(SessionEventType::Idle)
        } else if str_eq(t, "session:active") {
            Some(SessionEventType::Active)
        } else {
            None
        }
    }

    pub fn read_in(j: &Json, key: &str) -> (r: Option<SessionEventType>)
        ensures
            r == Self::named_in(j@, key@),
    {
        match req_text_exec(j, key) {
            Some(t) => Self::from_name(t.as_str()),
            None => None,
        }
    }
}

/// The client program of a session.
#[derive(Debug)]
pub struct ClientInfo {
    pub name: String,
    pub version: String,
}

/// The mathematical value of a [`ClientInfo`].
pub struct ClientInfoView {
    pub name: Seq<char>,
    pub version: Seq<char>,
}

impl View for ClientInfo {
    type V = ClientInfoView;

    open spec fn view(&self) -> ClientInfoView {
        ClientInfoView {
            name: self.name@,
            version: self.version@,
        }
    }
}

impl DeepView for ClientInfo {
    type V = ClientInfoView;

    open spec fn deep_view(&self) -> ClientInfoView {
        self@
    }
}

impl Clone for ClientInfo {
    fn clone(&self) -> (r: Self)
        ensures
            r@ == self@,
    {
        ClientInfo {
            name: self.name.clone(),
            version: self.version.clone(),
        }
    }
}

impl ClientInfoView {
    /// Whether `j` is an object that holds every field of a [`ClientInfo`] in its kind.
    pub open spec fn fits(j: JsonView) -> bool {
        &&& j is Object
        &&& req_text(j, "name"@) is Some
        &&& req_text(j, "version"@) is Some
    }

    /// The value that the fields of `j` give.
    pub open spec fn of(j: JsonView) -> ClientInfoView {
        ClientInfoView {
            name: req_text(j, "name"@).unwrap(),
            version: req_text(j, "version"@).unwrap(),
        }
    }

    /// The [`ClientInfo`] that `j` denotes, if it denotes one.
    pub open spec fn decode(j: JsonView) -> Option<ClientInfoView> {
        if Self::fits(j) {
            Some(Self::of(j))
        } else {
            None
        }
    }

    /// The value in the field `key`; a missing field and null give `Some(None)`.
    pub open spec fn decode_optional(j: JsonView, key: Seq<char>) -> Option<Option<ClientInfoView>> {
        match j.get(key) {
            None => Some(None),
            Some(JsonView::Null) => Some(None),
            Some(v) => match Self::decode(v) {
                Some(t) => Some(Some(t)),
                None => None,
            },
        }
    }
}

impl ClientInfo {
    /// Reads a [`ClientInfo`] from a JSON object.
    pub fn decode(j: &Json) -> (r: Option<ClientInfo>)
        ensures
            r.deep_view() == ClientInfoView::decode(j@),
    {
        if !j.is_object() {
            return None;
        }
        let name = match req_text_exec(j, "name") {
            Some(v) => v,
            None => {
                return None;
            },
        };
        let version = match req_text_exec(j, "version") {
            Some(v) => v,
            None => {
                return None;
            },
        };
        Some(ClientInfo { name, version })
    }

    pub fn decode_optional(j: &Json, key: &str) -> (r: Option<Option<ClientInfo>>)
        ensures
            r.deep_view() == ClientInfoView::decode_optional(j@, key@),
    {
        match j.get(key) {
            None => Some(None),
            Some(Json::Null) => Some(None),
            Some(v) => match ClientInfo::decode(v) {
                Some(t) => Some(Some(t)),
                None => None,
            },
        }
    }
}

/// The user that a session is authenticated as.
#[derive(Debug)]
pub struct AuthUser {
    pub name: Option<String>,
    pub email: Option<String>,
}

/// The mathematical value of a [`AuthUser`].
pub struct AuthUserView {
    pub name: Option<Seq<char>>,
    pub email: Option<Seq<char>>,
}

impl View for AuthUser {
    type V = AuthUserView;

    open spec fn view(&self) -> AuthUserView {
        AuthUserView {
            name: self.name.deep_view(),
            email: self.email.deep_view(),
        }
    }
}

impl DeepView for AuthUser {
    type V = AuthUserView;

    open spec fn deep_view(&self) -> AuthUserView {
        self@
    }
}

impl Clone for AuthUser {
    fn clone(&self) -> (r: Self)
        ensures
            r@ == self@,
    {
        AuthUser {
            name: self.name.clone(),
            email: self.email.clone(),
        }
    }
}

impl AuthUserView {
    /// Whether `j` is an object that holds every field of a [`AuthUser`] in its kind.
    pub open spec fn fits(j: JsonView) -> bool {
        &&& j is Object
        &&& opt_text(j, "name"@) is Some
        &&& opt_text(j, "email"@) is Some
    }

    /// The value that the fields of `j` give.
    pub open spec fn of(j: JsonView) -> AuthUserView {
        AuthUserView {
            name: opt_text(j, "name"@).unwrap(),
            email: opt_text(j, "email"@).unwrap(),
        }
    }

    /// The [`AuthUser`] that `j` denotes, if it denotes one.
    pub open spec fn decode(j: JsonView) -> Option<AuthUserView> {
        if Self::fits(j) {
            Some(Self::of(j))
        } else {
            None
        }
    }

    /// The value in the field `key`; a missing field and null give `Some(None)`.
    pub open spec fn decode_optional(j: JsonView, key: Seq<char>) -> Option<Option<AuthUserView>> {
        match j.get(key) {
            None => Some(None),
            Some(JsonView::Null) => Some(None),
            Some(v) => match Self::decode(v) {
                Some(t) => Some(Some(t)),
                None => None,
            },
        }
    }
}

impl AuthUser {
    /// Reads a [`AuthUser`] from a JSON object.
    pub fn decode(j: &Json) -> (r: Option<AuthUser>)
        ensures
            r.deep_view() == AuthUserView::decode(j@),
    {
        if !j.is_object() {
            return None;
        }
        let name = match opt_text_exec(j, "name") {
            Some(v) => v,
            None => {
                return None;
            },
        };
        let email = match opt_text_exec(j, "email") {
            Some(v) => v,
            None => {
                return None;
            },
        };
        Some(AuthUser { name, email })
    }

    pub fn decode_optional(j: &Json, key: &str) -> (r: Option<Option<AuthUser>>)
        ensures
            r.deep_view() == AuthUserView::decode_optional(j@, key@),
    {
        match j.get(key) {
            None => Some(None),
            Some(Json::Null) => Some(None),
            Some(v) => match AuthUser::decode(v) {
                Some(t) => Some(Some(t)),
                None => None,
            },
        }
    }
}

/// The payload of a session event.
#[derive(Debug, Clone)]
pub struct SessionEventData {
    pub session_id: String,
    pub transport_type: Option<String>,
    pub client_info: Option<ClientInfo>,
    pub platform_type: Option<String>,
    pub reason: Option<String>,
    pub duration_ms: Option<u64>,
    /// One of public, transparent, orchestrated.
    pub auth_mode: Option<String>,
    pub auth_user: Option<AuthUser>,
    pub is_anonymous: Option<bool>,
    pub token_expires_at: Option<u64>,
}

/// The mathematical value of a [`SessionEventData`].
pub struct SessionEventDataView {
    pub session_id: Seq<char>,
    pub transport_type: Option<Seq<char>>,
    pub client_info: Option<ClientInfoView>,
    pub platform_type: Option<Seq<char>>,
    pub reason: Option<Seq<char>>,
    pub duration_ms: Option<u64>,
    pub auth_mode: Option<Seq<char>>,
    pub auth_user: Option<AuthUserView>,
    pub is_anonymous: Option<bool>,
    pub token_expires_at: Option<u64>,
}

impl View for SessionEventData {
    type V = SessionEventDataView;

    open spec fn view(&self) -> SessionEventDataView {
        SessionEventDataView {
            session_id: self.session_id@,
            transport_type: self.transport_type.deep_view(),
            client_info: self.client_info.deep_view(),
            platform_type: self.platform_type.deep_view(),
            reason: self.reason.deep_view(),
            duration_ms: self.duration_ms,
            auth_mode: self.auth_mode.deep_view(),
            auth_user: self.auth_user.deep_view(),
            is_anonymous: self.is_anonymous,
            token_expires_at: self.token_expires_at,
        }
    }
}

impl DeepView for SessionEventData {
    type V = SessionEventDataView;

    open spec fn deep_view(&self) -> SessionEventDataView {
        self@
    }
}

impl SessionEventDataView {
    /// Whether `j` is an object that holds every field of a [`SessionEventData`] in its kind.
    pub open spec fn fits(j: JsonView) -> bool {
        &&& j is Object
        &&& req_text(j, "sessionId"@) is Some
        &&& opt_text(j, "transportType"@) is Some
        &&& ClientInfoView::decode_optional(j, "clientInfo"@) is Some
        &&& opt_text(j, "platformType"@) is Some
        &&& opt_text(j, "reason"@) is Some
        &&& opt_u64(j, "durationMs"@) is Some
        &&& opt_text(j, "authMode"@) is Some
        &&& AuthUserView::decode_optional(j, "authUser"@) is Some
        &&& opt_bool(j, "isAnonymous"@) is Some
        &&& opt_u64(j, "tokenExpiresAt"@) is Some
    }

    /// The value that the fields of `j` give.
    pub open spec fn of(j: JsonView) -> SessionEventDataView {
        SessionEventDataView {
            session_id: req_text(j, "sessionId"@).unwrap(),
            transport_type: opt_text(j, "transportType"@).unwrap(),
            client_info: ClientInfoView::decode_optional(j, "clientInfo"@).unwrap(),
            platform_type: opt_text(j, "platformType"@).unwrap(),
            reason: opt_text(j, "reason"@).unwrap(),
            duration_ms: opt_u64(j, "durationMs"@).unwrap(),
            auth_mode: opt_text(j, "authMode"@).unwrap(),
            auth_user: AuthUserView::decode_optional(j, "authUser"@).unwrap(),
            is_anonymous: opt_bool(j, "isAnonymous"@).unwrap(),
            token_expires_at: opt_u64(j, "tokenExpiresAt"@).unwrap(),
        }
    }

    /// The [`SessionEventData`] that `j` denotes, if it denotes one.
    pub open spec fn decode(j: JsonView) -> Option<SessionEventDataView> {
        if Self::fits(j) {
            Some(Self::of(j))
        } else {
            None
        }
    }

    /// The value in the field `key`, which must be there.
    pub open spec fn decode_field(j: JsonView, key: Seq<char>) -> Option<SessionEventDataView> {
        match j.get(key) {
            Some(v) => Self::decode(v),
            None => None,
        }
    }
}

impl SessionEventData {
    /// Reads a [`SessionEventData`] from a JSON object.
    pub fn decode(j: &Json) -> (r: Option<SessionEventData>)
        ensures
            r.deep_view() == SessionEventDataView::decode(j@),
    {
        if !j.is_object() {
            return None;
        }
        let session_id = match req_text_exec(j, "sessionId") {
            Some(v) => v,
            None => {
                return None;
            },
        };
        let transport_type = match opt_text_exec(j, "transportType") {
            Some(v) => v,
            None => {
                return None;
            },
        };
        let client_info = match ClientInfo::decode_optional(j, "clientInfo") {
            Some(v) => v,
            None => {
                return None;
            },
        };
        let platform_type = match opt_text_exec(j, "platformType") {
            Some(v) => v,
            None => {
                return None;
            },
        };
        let reason = match opt_text_exec(j, "reason") {
            Some(v) => v,
            None => {
                return None;
            },
        };
        let duration_ms = match opt_u64_exec(j, "durationMs") {
            Some(v) => v,
            None => {
                return None;
            },
        };
        let auth_mode = match opt_text_exec(j, "authMode") {
            Some(v) => v,
            None => {
                return None;
            },
        };
        let auth_user = match AuthUser::decode_optional(j, "authUser") {
            Some(v) => v,
            None => {
                return None;
            },
        };
        let is_anonymous = match opt_bool_exec(j, "isAnonymous") {
            Some(v) => v,
            None => {
                return None;
            },
        };
        let token_expires_at = match opt_u64_exec(j, "tokenExpiresAt") {
            Some(v) => v,
            None => {
                return None;
            },
        };
        Some(SessionEventData { session_id, transport_type, client_info, platform_type, reason, duration_ms, auth_mode, auth_user, is_anonymous, token_expires_at })
    }

    pub fn decode_field(j: &Json, key: &str) -> (r: Option<SessionEventData>)
        ensures
            r.deep_view() == SessionEventDataView::decode_field(j@, key@),
    {
        match j.get(key) {
            Some(v) => SessionEventData::decode(v),
            None => None,
        }
    }
}

/// A session connected, disconnected, went idle or woke up.
#[derive(Debug, Clone)]
pub struct SessionEvent {
    pub base: DevEventBase,
    pub event_type: SessionEventType,
    pub data: SessionEventData,
}

/// The mathematical value of a [`SessionEvent`].
pub struct SessionEventView {
    pub base: DevEventBaseView,
    pub event_type: SessionEventType,
    pub data: SessionEventDataView,
}

impl View for SessionEvent {
    type V = SessionEventView;

    open spec fn view(&self) -> SessionEventView {
        SessionEventView {
            base: self.base@,
            event_type: self.event_type,
            data: self.data@,
        }
    }
}

impl DeepView for SessionEvent {
    type V = SessionEventView;

    open spec fn deep_view(&self) -> SessionEventView {
        self@
    }
}

impl SessionEventView {
    /// Whether `j` is an object that holds every field of a [`SessionEvent`] in its kind.
    pub open spec fn fits(j: JsonView) -> bool {
        &&& j is Object
        &&& DevEventBaseView::decode(j) is Some
        &&& SessionEventType::named_in(j, "type"@) is Some
        &&& SessionEventDataView::decode_field(j, "data"@) is Some
    }

    /// The value that the fields of `j` give.
    pub open spec fn of(j: JsonView) -> SessionEventView {
        SessionEventView {
            base: DevEventBaseView::decode(j).unwrap(),
            event_type: SessionEventType::named_in(j, "type"@).unwrap(),
            data: SessionEventDataView::decode_field(j, "data"@).unwrap(),
        }
    }

    /// The [`SessionEvent`] that `j` denotes, if it denotes one.
    pub open spec fn decode(j: JsonView) -> Option<SessionEventView> {
        if Self::fits(j) {
            Some(Self::of(j))
        } else {
            None
        }
    }
}

impl SessionEvent {
    /// Reads a [`SessionEvent`] from a JSON object.
    pub fn decode(j: &Json) -> (r: Option<SessionEvent>)
        ensures
            r.deep_view() == SessionEventView::decode(j@),
    {
        if !j.is_object() {
            return None;
        }
        let base = match DevEventBase::decode(j) {
            Some(v) => v,
            None => {
                return None;
            },
        };
        let event_type = match SessionEventType::read_in(j, "type") {
            Some(v) => v,
            None => {
                return None;
            },
        };
        let data = match SessionEventData::decode_field(j, "data") {
            Some(v) => v,
            None => {
                return None;
            },
        };
        Some(SessionEvent { base, event_type, data })
    }
}

/// What happened to a request.
#[derive(Debug, Clone, Copy, PartialEq, Eq, Structural)]
pub enum RequestEventType {
    Start,
    Complete,
    Error,
}

impl RequestEventType {
    /// The variant that a wire name stands for.
    pub open spec fn named(t: Seq<char>) -> Option<RequestEventType> {
        if t == "request:start"@ {
            Some(RequestEventType::Start)
        } else if t == "request:complete"@ {
            Some(RequestEventType::Complete)
        } else if t == "request:error"@ {
            Some(RequestEventType::Error)
        } else {
            None
        }
    }

    /// The variant named by the text in the field `key`.
    pub open spec fn named_in(j: JsonView, key: Seq<char>) -> Option<RequestEventType> {
        match req_text(j, key) {
            Some(t) => Self::named(t),
            None => None,
        }
    }

    /// The wire name of the variant.
    pub open spec fn wire_name(self) -> Seq<char> {
        match self {
            RequestEventType::Start => "request:start"@,
            RequestEventType::Complete => "request:complete"@,
            RequestEventType::Error => "request:error"@,
        }
    }

    pub fn from_name(t: &str) -> (r: Option<RequestEventType>)
        ensures
            r == Self::named(t@),
    {
        if str_eq(t, "request:start") {
            Some(RequestEventType::Start)
        } else if str_eq(t, "request:complete") {
            Some(RequestEventType::Complete)
        } else if str_eq(t, "request:error") {
            Some(RequestEventType::Error)
        } else {
            None
        }
    }

    pub fn read_in(j: &Json, key: &str) -> (r: Option<RequestEventType>)
        ensures
            r == Self::named_in(j@, key@),
    {
        match req_text_exec(j, key) {
            Some(t) => Self::from_name(t.as_str()),
            None => None,
        }
    }
}

/// Who registered an entry: the kind is one of app, scope, plugin, adapter.
#[derive(Debug)]
pub struct EntryOwner {
    pub kind: String,
    pub id: String,
}

/// The mathematical value of a [`EntryOwner`].
pub struct EntryOwnerView {
    pub kind: Seq<char>,
    pub id: Seq<char>,
}

impl View for EntryOwner {
    type V = EntryOwnerView;

    open spec fn view(&self) -> EntryOwnerView {
        EntryOwnerView {
            kind: self.kind@,
            id: self.id@,
        }
    }
}

impl DeepView for EntryOwner {
    type V = EntryOwnerView;

    open spec fn deep_view(&self) -> EntryOwnerView {
        self@
    }
}

impl Clone for EntryOwner {
    fn clone(&self) -> (r: Self)
        ensures
            r@ == self@,
    {
        EntryOwner {
            kind: self.kind.clone(),
            id: self.id.clone(),
        }
    }
}

impl EntryOwnerView {
    /// Whether `j` is an object that holds every field of a [`EntryOwner`] in its kind.
    pub open spec fn fits(j: JsonView) -> bool {
        &&& j is Object
        &&& req_text(j, "kind"@) is Some
        &&& req_text(j, "id"@) is Some
    }

    /// The value that the fields of `j` give.
    pub open spec fn of(j: JsonView) -> EntryOwnerView {
        EntryOwnerView {
            kind: req_text(j, "kind"@).unwrap(),
            id: req_text(j, "id"@).unwrap(),
        }
    }

    /// The [`EntryOwner`] that `j` denotes, if it denotes one.
    pub open spec fn decode(j: JsonView) -> Option<EntryOwnerView> {
        if Self::fits(j) {
            Some(Self::of(j))
        } else {
            None
        }
    }

    /// The value in the field `key`; a missing field and null give `Some(None)`.
    pub open spec fn decode_optional(j: JsonView, key: Seq<char>) -> Option<Option<EntryOwnerView>> {
        match j.get(key) {
            None => Some(None),
            Some(JsonView::Null) => Some(None),
            Some(v) => match Self::decode(v) {
                Some(t) => Some(Some(t)),
                None => None,
            },
        }
    }
}

impl EntryOwner {
    /// Reads a [`EntryOwner`] from a JSON object.
    pub fn decode(j: &Json) -> (r: Option<EntryOwner>)
        ensures
            r.deep_view() == EntryOwnerView::decode(j@),
    {
        if !j.is_object() {
            return None;
        }
        let kind = match req_text_exec(j, "kind") {
            Some(v) => v,
            None => {
                return None;
            },
        };
        let id = match req_text_exec(j, "id") {
            Some(v) => v,
            None => {
                return None;
            },
        };
        Some(EntryOwner { kind, id })
    }

    pub fn decode_optional(j: &Json, key: &str) -> (r: Option<Option<EntryOwner>>)
        ensures
            r.deep_view() == EntryOwnerView::decode_optional(j@, key@),
    {
        match j.get(key) {
            None => Some(None),
            Some(Json::Null) => Some(None),
            Some(v) => match EntryOwner::decode(v) {
                Some(t) => Some(Some(t)),
                None => None,
            },
        }
    }
}

/// Why a request failed.
#[derive(Debug)]
pub struct RequestError {
    pub name: String,
    pub message: String,
    pub code: Option<i32>,
}

/// The mathematical value of a [`RequestError`].
pub struct RequestErrorView {
    pub name: Seq<char>,
    pub message: Seq<char>,
    pub code: Option<i32>,
}

impl View for RequestError {
    type V = RequestErrorView;

    open spec fn view(&self) -> RequestErrorView {
        RequestErrorView {
            name: self.name@,
            message: self.message@,
            code: self.code,
        }
    }
}

impl DeepView for RequestError {
    type V = RequestErrorView;

    open spec fn deep_view(&self) -> RequestErrorView {
        self@
    }
}

impl Clone for RequestError {
    fn clone(&self) -> (r: Self)
        ensures
            r@ == self@,
    {
        RequestError {
            name: self.name.clone(),
            message: self.message.clone(),
            code: self.code,
        }
    }
}

impl RequestErrorView {
    /// Whether `j` is an object that holds every field of a [`RequestError`] in its kind.
    pub open spec fn fits(j: JsonView) -> bool {
        &&& j is Object
        &&& req_text(j, "name"@) is Some
        &&& req_text(j, "message"@) is Some
        &&& opt_i32(j, "code"@) is Some
    }

    /// The value that the fields of `j` give.
    pub open spec fn of(j: JsonView) -> RequestErrorView {
        RequestErrorView {
            name: req_text(j, "name"@).unwrap(),
            message: req_text(j, "message"@).unwrap(),
            code: opt_i32(j, "code"@).unwrap(),
        }
    }

    /// The [`RequestError`] that `j` denotes, if it denotes one.
    pub open spec fn decode(j: JsonView) -> Option<RequestErrorView> {
        if Self::fits(j) {
            Some(Self::of(j))
        } else {
            None
        }
    }

    /// The value in the field `key`; a missing field and null give `Some(None)`.
    pub open spec fn decode_optional(j: JsonView, key: Seq<char>) -> Option<Option<RequestErrorView>> {
        match j.get(key) {
            None => Some(None),
            Some(JsonView::Null) => Some(None),
            Some(v) => match Self::decode(v) {
                Some(t) => Some(Some(t)),
                None => None,
            },
        }
    }
}

impl RequestError {
    /// Reads a [`RequestError`] from a JSON object.
    pub fn decode(j: &Json) -> (r: Option<RequestError>)
        ensures
            r.deep_view() == RequestErrorView::decode(j@),
    {
        if !j.is_object() {
            return None;
        }
        let name = match req_text_exec(j, "name") {
            Some(v) => v,
            None => {
                return None;
            },
        };
        let message = match req_text_exec(j, "message") {
            Some(v) => v,
            None => {
                return None;
            },
        };
        let code = match opt_i32_exec(j, "code") {
            Some(v) => v,
            None => {
                return None;
            },
        };
        Some(RequestError { name, message, code })
    }

    pub fn decode_optional(j: &Json, key: &str) -> (r: Option<Option<RequestError>>)
        ensures
            r.deep_view() == RequestErrorView::decode_optional(j@, key@),
    {
        match j.get(key) {
            None => Some(None),
            Some(Json::Null) => Some(None),
            Some(v) => match RequestError::decode(v) {
                Some(t) => Some(Some(t)),
                None => None,
            },
        }
    }
}

/// The payload of a request event.
#[derive(Debug, Clone)]
pub struct RequestEventData {
    pub flow_name: String,
    pub method: Option<String>,
    pub entry_name: Option<String>,
    pub entry_owner: Option<EntryOwner>,
    pub request_body: Option<Json>,
    pub headers: Option<Vec<(String, String)>>,
    pub response_body: Option<Json>,
    pub duration_ms: Option<u64>,
    pub is_error: Option<bool>,
    pub error: Option<RequestError>,
}

/// The mathematical value of a [`RequestEventData`].
pub struct RequestEventDataView {
    pub flow_name: Seq<char>,
    pub method: Option<Seq<char>>,
    pub entry_name: Option<Seq<char>>,
    pub entry_owner: Option<EntryOwnerView>,
    pub request_body: Option<JsonView>,
    pub headers: Option<Seq<(Seq<char>, Seq<char>)>>,
    pub response_body: Option<JsonView>,
    pub duration_ms: Option<u64>,
    pub is_error: Option<bool>,
    pub error: Option<RequestErrorView>,
}

impl View for RequestEventData {
    type V = RequestEventDataView;

    open spec fn view(&self) -> RequestEventDataView {
        RequestEventDataView {
            flow_name: self.flow_name@,
            method: self.method.deep_view(),
            entry_name: self.entry_name.deep_view(),
            entry_owner: self.entry_owner.deep_view(),
            request_body: self.request_body.deep_view(),
            headers: self.headers.deep_view(),
            response_body: self.response_body.deep_view(),
            duration_ms: self.duration_ms,
            is_error: self.is_error,
            error: self.error.deep_view(),
        }
    }
}

impl DeepView for RequestEventData {
    type V = RequestEventDataView;

    open spec fn deep_view(&self) -> RequestEventDataView {
        self@
    }
}

impl RequestEventDataView {
    /// Whether `j` is an object that holds every field of a [`RequestEventData`] in its kind.
    pub open spec fn fits(j: JsonView) -> bool {
        &&& j is Object
        &&& req_text(j, "flowName"@) is Some
        &&& opt_text(j, "method"@) is Some
        &&& opt_text(j, "entryName"@) is Some
        &&& EntryOwnerView::decode_optional(j, "entryOwner"@) is Some
        &&& opt_text_map(j, "headers"@) is Some
        &&& opt_u64(j, "durationMs"@) is Some
        &&& opt_bool(j, "isError"@) is Some
        &&& RequestErrorView::decode_optional(j, "error"@) is Some
    }

    /// The value that the fields of `j` give.
    pub open spec fn of(j: JsonView) -> RequestEventDataView {
        RequestEventDataView {
            flow_name: req_text(j, "flowName"@).unwrap(),
            method: opt_text(j, "method"@).unwrap(),
            entry_name: opt_text(j, "entryName"@).unwrap(),
            entry_owner: EntryOwnerView::decode_optional(j, "entryOwner"@).unwrap(),
            request_body: opt_json(j, "requestBody"@),
            headers: opt_text_map(j, "headers"@).unwrap(),
            response_body: opt_json(j, "responseBody"@),
            duration_ms: opt_u64(j, "durationMs"@).unwrap(),
            is_error: opt_bool(j, "isError"@).unwrap(),
            error: RequestErrorView::decode_optional(j, "error"@).unwrap(),
        }
    }

    /// The [`RequestEventData`] that `j` denotes, if it denotes one.
    pub open spec fn decode(j: JsonView) -> Option<RequestEventDataView> {
        if Self::fits(j) {
            Some(Self::of(j))
        } else {
            None
        }
    }

    /// The value in the field `key`, which must be there.
    pub open spec fn decode_field(j: JsonView, key: Seq<char>) -> Option<RequestEventDataView> {
        match j.get(key) {
            Some(v) => Self::decode(v),
            None => None,
        }
    }
}

impl RequestEventData {
    /// Reads a [`RequestEventData`] from a JSON object.
    pub fn decode(j: &Json) -> (r: Option<RequestEventData>)
        ensures
            r.deep_view() == RequestEventDataView::decode(j@),
    {
        if !j.is_object() {
            return None;
        }
        let flow_name = match req_text_exec(j, "flowName") {
            Some(v) => v,
            None => {
                return None;
            },
        };
        let method = match opt_text_exec(j, "method") {
            Some(v) => v,
            None => {
                return None;
            },
        };
        let entry_name = match opt_text_exec(j, "entryName") {
            Some(v) => v,
            None => {
                return None;
            },
        };
        let entry_owner = match EntryOwner::decode_optional(j, "entryOwner") {
            Some(v) => v,
            None => {
                return None;
            },
        };
        let request_body = opt_json_exec(j, "requestBody");
        let headers = match opt_text_map_exec(j, "headers") {
            Some(v) => v,
            None => {
                return None;
            },
        };
        let response_body = opt_json_exec(j, "responseBody");
        let duration_ms = match opt_u64_exec(j, "durationMs") {
            Some(v) => v,
            None => {
                return None;
            },
        };
        let is_error = match opt_bool_exec(j, "isError") {
            Some(v) => v,
            None => {
                return None;
            },
        };
        let error = match RequestError::decode_optional(j, "error") {
            Some(v) => v,
            None => {
                return None;
            },
        };
        Some(RequestEventData { flow_name, method, entry_name, entry_owner, request_body, headers, response_body, duration_ms, is_error, error })
    }

    pub fn decode_field(j: &Json, key: &str) -> (r: Option<RequestEventData>)
        ensures
            r.deep_view() == RequestEventDataView::decode_field(j@, key@),
    {
        match j.get(key) {
            Some(v) => RequestEventData::decode(v),
            None => None,
        }
    }
}

/// A request started, completed or failed.
#[derive(Debug, Clone)]
pub struct RequestEvent {
    pub base: DevEventBase,
    pub event_type: RequestEventType,
    pub data: RequestEventData,
}

/// The mathematical value of a [`RequestEvent`].
pub struct RequestEventView {
    pub base: DevEventBaseView,
    pub event_type: RequestEventType,
    pub data: RequestEventDataView,
}

impl View for RequestEvent {
    type V = RequestEventView;

    open spec fn view(&self) -> RequestEventView {
        RequestEventView {
            base: self.base@,
            event_type: self.event_type,
            data: self.data@,
        }
    }
}

impl DeepView for RequestEvent {
    type V = RequestEventView;

    open spec fn deep_view(&self) -> RequestEventView {
        self@
    }
}

impl RequestEventView {
    /// Whether `j` is an object that holds every field of a [`RequestEvent`] in its kind.
    pub open spec fn fits(j: JsonView) -> bool {
        &&& j is Object
        &&& DevEventBaseView::decode(j) is Some
        &&& RequestEventType::named_in(j, "type"@) is Some
        &&& RequestEventDataView::decode_field(j, "data"@) is Some
    }

    /// The value that the fields of `j` give.
    pub open spec fn of(j: JsonView) -> RequestEventView {
        RequestEventView {
            base: DevEventBaseView::decode(j).unwrap(),
            event_type: RequestEventType::named_in(j, "type"@).unwrap(),
            data: RequestEventDataView::decode_field(j, "data"@).unwrap(),
        }
    }

    /// The [`RequestEvent`] that `j` denotes, if it denotes one.
    pub open spec fn decode(j: JsonView) -> Option<RequestEventView> {
        if Self::fits(j) {
            Some(Self::of(j))
        } else {
            None
        }
    }
}

impl RequestEvent {
    /// Reads a [`RequestEvent`] from a JSON object.
    pub fn decode(j: &Json) -> (r: Option<RequestEvent>)
        ensures
            r.deep_view() == RequestEventView::decode(j@),
    {
        if !j.is_object() {
            return None;
        }
        let base = match DevEventBase::decode(j) {
            Some(v) => v,
            None => {
                return None;
            },
        };
        let event_type = match RequestEventType::read_in(j, "type") {
            Some(v) => v,
            None => {
                return None;
            },
        };
        let data = match RequestEventData::decode_field(j, "data") {
            Some(v) => v,
            None => {
                return None;
            },
        };
        Some(RequestEvent { base, event_type, data })
    }
}

/// Which registry changed, and how.
#[derive(Debug, Clone, Copy, PartialEq, Eq, Structural)]
pub enum RegistryEventType {
    ToolAdded,
    ToolRemoved,
    ToolUpdated,
    ToolReset,
    ResourceAdded,
    ResourceRemoved,
    ResourceUpdated,
    ResourceReset,
    PromptAdded,
    PromptRemoved,
    PromptUpdated,
    PromptReset,
    AgentAdded,
    AgentRemoved,
    AgentUpdated,
    AgentReset,
    PluginAdded,
    PluginRemoved,
    PluginUpdated,
    PluginReset,
    AdapterAdded,
    AdapterRemoved,
    AdapterUpdated,
    AdapterReset,
}

impl RegistryEventType {
    /// The variant that a wire name stands for.
    pub open spec fn named(t: Seq<char>) -> Option<RegistryEventType> {
        if t == "registry:tool:added"@ {
            Some(RegistryEventType::ToolAdded)
        } else if t == "registry:tool:removed"@ {
            Some(RegistryEventType::ToolRemoved)
        } else if t == "registry:tool:updated"@ {
            Some(RegistryEventType::ToolUpdated)
        } else if t == "registry:tool:reset"@ {
            Some(RegistryEventType::ToolReset)
        } else if t == "registry:resource:added"@ {
            Some(RegistryEventType::ResourceAdded)
        } else if t == "registry:resource:removed"@ {
            Some(RegistryEventType::ResourceRemoved)
        } else if t == "registry:resource:updated"@ {
            Some(RegistryEventType::ResourceUpdated)
        } else if t == "registry:resource:reset"@ {
            Some(RegistryEventType::ResourceReset)
        } else if t == "registry:prompt:added"@ {
            Some(RegistryEventType::PromptAdded)
        } else if t == "registry:prompt:removed"@ {
            Some(RegistryEventType::PromptRemoved)
        } else if t == "registry:prompt:updated"@ {
            Some(RegistryEventType::PromptUpdated)
        } else if t == "registry:prompt:reset"@ {
            Some(RegistryEventType::PromptReset)
        } else if t == "registry:agent:added"@ {
            Some(RegistryEventType::AgentAdded)
        } else if t == "registry:agent:removed"@ {
            Some(RegistryEventType::AgentRemoved)
        } else if t == "registry:agent:updated"@ {
            Some(RegistryEventType::AgentUpdated)
        } else if t == "registry:agent:reset"@ {
            Some(RegistryEventType::AgentReset)
        } else if t == "registry:plugin:added"@ {
            Some(RegistryEventType::PluginAdded)
        } else if t == "registry:plugin:removed"@ {
            Some(RegistryEventType::PluginRemoved)
        } else if t == "registry:plugin:updated"@ {
            Some(RegistryEventType::PluginUpdated)
        } else if t == "registry:plugin:reset"@ {
            Some(RegistryEventType::PluginReset)
        } else if t == "registry:adapter:added"@ {
            Some(RegistryEventType::AdapterAdded)
        } else if t == "registry:adapter:removed"@ {
            Some(RegistryEventType::AdapterRemoved)
        } else if t == "registry:adapter:updated"@ {
            Some(RegistryEventType::AdapterUpdated)
        } else if t == "registry:adapter:reset"@ {
            Some(RegistryEventType::AdapterReset)
        } else {
            None
        }
    }

    /// The variant named by the text in the field `key`.
    pub open spec fn named_in(j: JsonView, key: Seq<char>) -> Option<RegistryEventType> {
        match req_text(j, key) {
            Some(t) => Self::named(t),
            None => None,
        }
    }

    /// The wire name of the variant.
    pub open spec fn wire_name(self) -> Seq<char> {
        match self {
            RegistryEventType::ToolAdded => "registry:tool:added"@,
            RegistryEventType::ToolRemoved => "registry:tool:removed"@,
            RegistryEventType::ToolUpdated => "registry:tool:updated"@,
            RegistryEventType::ToolReset => "registry:tool:reset"@,
            RegistryEventType::ResourceAdded => "registry:resource:added"@,
            RegistryEventType::ResourceRemoved => "registry:resource:removed"@,
            RegistryEventType::ResourceUpdated => "registry:resource:updated"@,
            RegistryEventType::ResourceReset => "registry:resource:reset"@,
            RegistryEventType::PromptAdded => "registry:prompt:added"@,
            RegistryEventType::PromptRemoved => "registry:prompt:removed"@,
            RegistryEventType::PromptUpdated => "registry:prompt:updated"@,
            RegistryEventType::PromptReset => "registry:prompt:reset"@,
            RegistryEventType::AgentAdded => "registry:agent:added"@,
            RegistryEventType::AgentRemoved => "registry:agent:removed"@,
            RegistryEventType::AgentUpdated => "registry:agent:updated"@,
            RegistryEventType::AgentReset => "registry:agent:reset"@,
            RegistryEventType::PluginAdded => "registry:plugin:added"@,
            RegistryEventType::PluginRemoved => "registry:plugin:removed"@,
            RegistryEventType::PluginUpdated => "registry:plugin:updated"@,
            RegistryEventType::PluginReset => "registry:plugin:reset"@,
            RegistryEventType::AdapterAdded => "registry:adapter:added"@,
            RegistryEventType::AdapterRemoved => "registry:adapter:removed"@,
            RegistryEventType::AdapterUpdated => "registry:adapter:updated"@,
            RegistryEventType::AdapterReset => "registry:adapter:reset"@,
        }
    }

    pub fn from_name(t: &str) -> (r: Option<RegistryEventType>)
        ensures
            r == Self::named(t@),
    {
        if str_eq(t, "registry:tool:added") {
            Some(RegistryEventType::ToolAdded)
        } else if str_eq(t, "registry:tool:removed") {
            Some(RegistryEventType::ToolRemoved)
        } else if str_eq(t, "registry:tool:updated") {
            Some(RegistryEventType::ToolUpdated)
        } else if str_eq(t, "registry:tool:reset") {
            Some(RegistryEventType::ToolReset)
        } else if str_eq(t, "registry:resource:added") {
            Some(RegistryEventType::ResourceAdded)
        } else if str_eq(t, "registry:resource:removed") {
            Some(RegistryEventType::ResourceRemoved)
        } else if str_eq(t, "registry:resource:updated") {
            Some(RegistryEventType::ResourceUpdated)
        } else if str_eq(t, "registry:resource:reset") {
            Some(RegistryEventType::ResourceReset)
        } else if str_eq(t, "registry:prompt:added") {
            Some(RegistryEventType::PromptAdded)
        } else if str_eq(t, "registry:prompt:removed") {
            Some(RegistryEventType::PromptRemoved)
        } else if str_eq(t, "registry:prompt:updated") {
            Some(RegistryEventType::PromptUpdated)
        } else if str_eq(t, "registry:prompt:reset") {
            Some(RegistryEventType::PromptReset)
        } else if str_eq(t, "registry:agent:added") {
            Some(RegistryEventType::AgentAdded)
        } else if str_eq(t, "registry:agent:removed") {
            Some(RegistryEventType::AgentRemoved)
        } else if str_eq(t, "registry:agent:updated") {
            Some(RegistryEventType::AgentUpdated)
        } else if str_eq(t, "registry:agent:reset") {
            Some(RegistryEventType::AgentReset)
        } else if str_eq(t, "registry:plugin:added") {
            Some(RegistryEventType::PluginAdded)
        } else if str_eq(t, "registry:plugin:removed") {
            Some(RegistryEventType::PluginRemoved)
        } else if str_eq(t, "registry:plugin:updated") {
            Some(RegistryEventType::PluginUpdated)
        } else if str_eq(t, "registry:plugin:reset") {
            Some(RegistryEventType::PluginReset)
        } else if str_eq(t, "registry:adapter:added") {
            Some(RegistryEventType::AdapterAdded)
        } else if str_eq(t, "registry:adapter:removed") {
            Some(RegistryEventType::AdapterRemoved)
        } else if str_eq(t, "registry:adapter:updated") {
            Some(RegistryEventType::AdapterUpdated)
        } else if str_eq(t, "registry:adapter:reset") {
            Some(RegistryEventType::AdapterReset)
        } else {
            None
        }
    }

    pub fn read_in(j: &Json, key: &str) -> (r: Option<RegistryEventType>)
        ensures
            r == Self::named_in(j@, key@),
    {
        match req_text_exec(j, key) {
            Some(t) => Self::from_name(t.as_str()),
            None => None,
        }
    }
}

/// One registry entry in full.
#[derive(Debug, Clone)]
pub struct RegistryEntryInfo {
    pub name: String,
    pub description: Option<String>,
    pub owner: Option<EntryOwner>,
    /// Of a tool: the schema of its input.
    pub input_schema: Option<Json>,
    /// Of a resource: its URI or URI template.
    pub uri: Option<String>,
    /// Of a plugin: its version.
    pub version: Option<String>,
}

/// The mathematical value of a [`RegistryEntryInfo`].
pub struct RegistryEntryInfoView {
    pub name: Seq<char>,
    pub description: Option<Seq<char>>,
    pub owner: Option<EntryOwnerView>,
    pub input_schema: Option<JsonView>,
    pub uri: Option<Seq<char>>,
    pub version: Option<Seq<char>>,
}

impl View for RegistryEntryInfo {
    type V = RegistryEntryInfoView;

    open spec fn view(&self) -> RegistryEntryInfoView {
        RegistryEntryInfoView {
            name: self.name@,
            description: self.description.deep_view(),
            owner: self.owner.deep_view(),
            input_schema: self.input_schema.deep_view(),
            uri: self.uri.deep_view(),
            version: self.version.deep_view(),
        }
    }
}

impl DeepView for RegistryEntryInfo {
    type V = RegistryEntryInfoView;

    open spec fn deep_view(&self) -> RegistryEntryInfoView {
        self@
    }
}

impl RegistryEntryInfoView {
    /// Whether `j` is an object that holds every field of a [`RegistryEntryInfo`] in its kind.
    pub open spec fn fits(j: JsonView) -> bool {
        &&& j is Object
        &&& req_text(j, "name"@) is Some
        &&& opt_text(j, "description"@) is Some
        &&& EntryOwnerView::decode_optional(j, "owner"@) is Some
        &&& opt_text(j, "uri"@) is Some
        &&& opt_text(j, "version"@) is Some
    }

    /// The value that the fields of `j` give.
    pub open spec fn of(j: JsonView) -> RegistryEntryInfoView {
        RegistryEntryInfoView {
            name: req_text(j, "name"@).unwrap(),
            description: opt_text(j, "description"@).unwrap(),
            owner: EntryOwnerView::decode_optional(j, "owner"@).unwrap(),
            input_schema: opt_json(j, "inputSchema"@),
            uri: opt_text(j, "uri"@).unwrap(),
            version: opt_text(j, "version"@).unwrap(),
        }
    }

    /// The [`RegistryEntryInfo`] that `j` denotes, if it denotes one.
    pub open spec fn decode(j: JsonView) -> Option<RegistryEntryInfoView> {
        if Self::fits(j) {
            Some(Self::of(j))
        } else {
            None
        }
    }

    /// The values that the items denote, where every item denotes one.
    pub open spec fn decode_list(items: Seq<JsonView>) -> Option<Seq<RegistryEntryInfoView>> {
        if forall|i: int| 0 <= i < items.len() ==> Self::decode(#[trigger] items[i]) is Some {
            Some(Seq::new(items.len(), |i: int| Self::decode(items[i]).unwrap()))
        } else {
            None
        }
    }

    /// The list in the field `key`; a missing field and null give `Some(None)`.
    pub open spec fn decode_optional_list(j: JsonView, key: Seq<char>) -> Option<
        Option<Seq<RegistryEntryInfoView>>,
    > {
        match j.get(key) {
            None => Some(None),
            Some(JsonView::Null) => Some(None),
            Some(JsonView::Array(items)) => match Self::decode_list(items) {
                Some(t) => Some(Some(t)),
                None => None,
            },
            _ => None,
        }
    }
}

impl RegistryEntryInfo {
    /// Reads a [`RegistryEntryInfo`] from a JSON object.
    pub fn decode(j: &Json) -> (r: Option<RegistryEntryInfo>)
        ensures
            r.deep_view() == RegistryEntryInfoView::decode(j@),
    {
        if !j.is_object() {
            return None;
        }
        let name = match req_text_exec(j, "name") {
            Some(v) => v,
            None => {
                return None;
            },
        };
        let description = match opt_text_exec(j, "description") {
            Some(v) => v,
            None => {
                return None;
            },
        };
        let owner = match EntryOwner::decode_optional(j, "owner") {
            Some(v) => v,
            None => {
                return None;
            },
        };
        let input_schema = opt_json_exec(j, "inputSchema");
        let uri = match opt_text_exec(j, "uri") {
            Some(v) => v,
            None => {
                return None;
            },
        };
        let version = match opt_text_exec(j, "version") {
            Some(v) => v,
            None => {
                return None;
            },
        };
        Some(RegistryEntryInfo { name, description, owner, input_schema, uri, version })
    }

    pub fn decode_list(items: &Vec<Json>) -> (r: Option<Vec<RegistryEntryInfo>>)
        ensures
            r.deep_view() == RegistryEntryInfoView::decode_list(items.deep_view()),
    {
        let mut out: Vec<RegistryEntryInfo> = Vec::new();
        let mut i: usize = 0;
        while i < items.len()
            invariant
                i <= items.len(),
                out.len() == i,
                forall|k: int| 0 <= k < i ==> RegistryEntryInfoView::decode(items@[k]@) == Some(#[trigger] out@[k]@),
            decreases items.len() - i,
        {
            match RegistryEntryInfo::decode(&items[i]) {
                Some(t) => {
                    out.push(t);
                },
                None => {
                    assert(RegistryEntryInfoView::decode(items.deep_view()[i as int]) is None);
                    return None;
                },
            }
            i += 1;
        }
        proof {
            let views = items.deep_view();
            assert forall|k: int| 0 <= k < views.len() implies RegistryEntryInfoView::decode(
                #[trigger] views[k],
            ) is Some by {
                assert(RegistryEntryInfoView::decode(items@[k]@) == Some(out@[k]@));
            }
            assert(out.deep_view() =~= RegistryEntryInfoView::decode_list(views).unwrap());
        }
        Some(out)
    }

    pub fn decode_optional_list(j: &Json, key: &str) -> (r: Option<Option<Vec<RegistryEntryInfo>>>)
        ensures
            r.deep_view() == RegistryEntryInfoView::decode_optional_list(j@, key@),
    {
        match j.get(key) {
            None => Some(None),
            Some(Json::Null) => Some(None),
            Some(v) => match v.as_array() {
                Some(items) => match RegistryEntryInfo::decode_list(items) {
                    Some(t) => Some(Some(t)),
                    None => None,
                },
                None => None,
            },
        }
    }
}

/// The payload of a registry event.
#[derive(Debug, Clone)]
pub struct RegistryEventData {
    pub registry_type: String,
    pub entry_names: Option<Vec<String>>,
    pub change_kind: String,
    pub change_scope: String,
    pub owner: Option<EntryOwner>,
    pub snapshot_count: u32,
    pub version: u32,
    /// The entries in full, where the event carries them.
    pub entries: Option<Vec<RegistryEntryInfo>>,
}

/// The mathematical value of a [`RegistryEventData`].
pub struct RegistryEventDataView {
    pub registry_type: Seq<char>,
    pub entry_names: Option<Seq<Seq<char>>>,
    pub change_kind: Seq<char>,
    pub change_scope: Seq<char>,
    pub owner: Option<EntryOwnerView>,
    pub snapshot_count: u32,
    pub version: u32,
    pub entries: Option<Seq<RegistryEntryInfoView>>,
}

impl View for RegistryEventData {
    type V = RegistryEventDataView;

    open spec fn view(&self) -> RegistryEventDataView {
        RegistryEventDataView {
            registry_type: self.registry_type@,
            entry_names: self.entry_names.deep_view(),
            change_kind: self.change_kind@,
            change_scope: self.change_scope@,
            owner: self.owner.deep_view(),
            snapshot_count: self.snapshot_count,
            version: self.version,
            entries: self.entries.deep_view(),
        }
    }
}

impl DeepView for RegistryEventData {
    type V = RegistryEventDataView;

    open spec fn deep_view(&self) -> RegistryEventDataView {
        self@
    }
}

impl RegistryEventDataView {
    /// Whether `j` is an object that holds every field of a [`RegistryEventData`] in its kind.
    pub open spec fn fits(j: JsonView) -> bool {
        &&& j is Object
        &&& req_text(j, "registryType"@) is Some
        &&& opt_text_list(j, "entryNames"@) is Some
        &&& req_text(j, "changeKind"@) is Some
        &&& req_text(j, "changeScope"@) is Some
        &&& EntryOwnerView::decode_optional(j, "owner"@) is Some
        &&& req_u32(j, "snapshotCount"@) is Some
        &&& req_u32(j, "version"@) is Some
        &&& RegistryEntryInfoView::decode_optional_list(j, "entries"@) is Some
    }

    /// The value that the fields of `j` give.
    pub open spec fn of(j: JsonView) -> RegistryEventDataView {
        RegistryEventDataView {
            registry_type: req_text(j, "registryType"@).unwrap(),
            entry_names: opt_text_list(j, "entryNames"@).unwrap(),
            change_kind: req_text(j, "changeKind"@).unwrap(),
            change_scope: req_text(j, "changeScope"@).unwrap(),
            owner: EntryOwnerView::decode_optional(j, "owner"@).unwrap(),
            snapshot_count: req_u32(j, "snapshotCount"@).unwrap(),
            version: req_u32(j, "version"@).unwrap(),
            entries: RegistryEntryInfoView::decode_optional_list(j, "entries"@).unwrap(),
        }
    }

    /// The [`RegistryEventData`] that `j` denotes, if it denotes one.
    pub open spec fn decode(j: JsonView) -> Option<RegistryEventDataView> {
        if Self::fits(j) {
            Some(Self::of(j))
        } else {
            None
        }
    }

    /// The value in the field `key`, which must be there.
    pub open spec fn decode_field(j: JsonView, key: Seq<char>) -> Option<RegistryEventDataView> {
        match j.get(key) {
            Some(v) => Self::decode(v),
            None => None,
        }
    }
}

impl RegistryEventData {
    /// Reads a [`RegistryEventData`] from a JSON object.
    pub fn decode(j: &Json) -> (r: Option<RegistryEventData>)
        ensures
            r.deep_view() == RegistryEventDataView::decode(j@),
    {
        if !j.is_object() {
            return None;
        }
        let registry_type = match req_text_exec(j, "registryType") {
            Some(v) => v,
            None => {
                return None;
            },
        };
        let entry_names = match opt_text_list_exec(j, "entryNames") {
            Some(v) => v,
            None => {
                return None;
            },
        };
        let change_kind = match req_text_exec(j, "changeKind") {
            Some(v) => v,
            None => {
                return None;
            },
        };
        let change_scope = match req_text_exec(j, "changeScope") {
            Some(v) => v,
            None => {
                return None;
            },
        };
        let owner = match EntryOwner::decode_optional(j, "owner") {
            Some(v) => v,
            None => {
                return None;
            },
        };
        let snapshot_count = match req_u32_exec(j, "snapshotCount") {
            Some(v) => v,
            None => {
                return None;
            },
        };
        let version = match req_u32_exec(j, "version") {
            Some(v) => v,
            None => {
                return None;
            },
        };
        let entries = match RegistryEntryInfo::decode_optional_list(j, "entries") {
            Some(v) => v,
            None => {
                return None;
            },
        };
        Some(RegistryEventData { registry_type, entry_names, change_kind, change_scope, owner, snapshot_count, version, entries })
    }

    pub fn decode_field(j: &Json, key: &str) -> (r: Option<RegistryEventData>)
        ensures
            r.deep_view() == RegistryEventDataView::decode_field(j@, key@),
    {
        match j.get(key) {
            Some(v) => RegistryEventData::decode(v),
            None => None,
        }
    }
}

/// Entries of one registry were added, removed, updated or reset.
#[derive(Debug, Clone)]
pub struct RegistryEvent {
    pub base: DevEventBase,
    pub event_type: RegistryEventType,
    pub data: RegistryEventData,
}

/// The mathematical value of a [`RegistryEvent`].
pub struct RegistryEventView {
    pub base: DevEventBaseView,
    pub event_type: RegistryEventType,
    pub data: RegistryEventDataView,
}

impl View for RegistryEvent {
    type V = RegistryEventView;

    open spec fn view(&self) -> RegistryEventView {
        RegistryEventView {
            base: self.base@,
            event_type: self.event_type,
            data: self.data@,
        }
    }
}

impl DeepView for RegistryEvent {
    type V = RegistryEventView;

    open spec fn deep_view(&self) -> RegistryEventView {
        self@
    }
}

impl RegistryEventView {
    /// Whether `j` is an object that holds every field of a [`RegistryEvent`] in its kind.
    pub open spec fn fits(j: JsonView) -> bool {
        &&& j is Object
        &&& DevEventBaseView::decode(j) is Some
        &&& RegistryEventType::named_in(j, "type"@) is Some
        &&& RegistryEventDataView::decode_field(j, "data"@) is Some
    }

    /// The value that the fields of `j` give.
    pub open spec fn of(j: JsonView) -> RegistryEventView {
        RegistryEventView {
            base: DevEventBaseView::decode(j).unwrap(),
            event_type: RegistryEventType::named_in(j, "type"@).unwrap(),
            data: RegistryEventDataView::decode_field(j, "data"@).unwrap(),
        }
    }

    /// The [`RegistryEvent`] that `j` denotes, if it denotes one.
    pub open spec fn decode(j: JsonView) -> Option<RegistryEventView> {
        if Self::fits(j) {
            Some(Self::of(j))
        } else {
            None
        }
    }
}

impl RegistryEvent {
    /// Reads a [`RegistryEvent`] from a JSON object.
    pub fn decode(j: &Json) -> (r: Option<RegistryEvent>)
        ensures
            r.deep_view() == RegistryEventView::decode(j@),
    {
        if !j.is_object() {
            return None;
        }
        let base = match DevEventBase::decode(j) {
            Some(v) => v,
            None => {
                return None;
            },
        };
        let event_type = match RegistryEventType::read_in(j, "type") {
            Some(v) => v,
            None => {
                return None;
            },
        };
        let data = match RegistryEventData::decode_field(j, "data") {
            Some(v) => v,
            None => {
                return None;
            },
        };
        Some(RegistryEvent { base, event_type, data })
    }
}

/// What happened to the server.
#[derive(Debug, Clone, Copy, PartialEq, Eq, Structural)]
pub enum ServerEventType {
    Starting,
    Ready,
    Error,
    Shutdown,
}

impl ServerEventType {
    /// The variant that a wire name stands for.
    pub open spec fn named(t: Seq<char>) -> Option<ServerEventType> {
        if t == "server:starting"@ {
            Some(ServerEventType::Starting)
        } else if t == "server:ready"@ {
            Some(ServerEventType::Ready)
        } else if t == "server:error"@ {
            Some(ServerEventType::Error)
        } else if t == "server:shutdown"@ {
            Some(ServerEventType::Shutdown)
        } else {
            None
        }
    }

    /// The variant named by the text in the field `key`.
    pub open spec fn named_in(j: JsonView, key: Seq<char>) -> Option<ServerEventType> {
        match req_text(j, key) {
            Some(t) => Self::named(t),
            None => None,
        }
    }

    /// The wire name of the variant.
    pub open spec fn wire_name(self) -> Seq<char> {
        match self {
            ServerEventType::Starting => "server:starting"@,
            ServerEventType::Ready => "server:ready"@,
            ServerEventType::Error => "server:error"@,
            ServerEventType::Shutdown => "server:shutdown"@,
        }
    }

    pub fn from_name(t: &str) -> (r: Option<ServerEventType>)
        ensures
            r == Self::named(t@),
    {
        if str_eq(t, "server:starting") {
            Some(ServerEventType::Starting)
        } else if str_eq(t, "server:ready") {
            Some(ServerEventType::Ready)
        } else if str_eq(t, "server:error") {
            Some(ServerEventType::Error)
        } else if str_eq(t, "server:shutdown") {
            Some(ServerEventType::Shutdown)
        } else {
            None
        }
    }

    pub fn read_in(j: &Json, key: &str) -> (r: Option<ServerEventType>)
        ensures
            r == Self::named_in(j@, key@),
    {
        match req_text_exec(j, key) {
            Some(t) => Self::from_name(t.as_str()),
            None => None,
        }
    }
}

/// The name and version of the server.
#[derive(Debug)]
pub struct ServerInfo {
    pub name: String,
    pub version: String,
}

/// The mathematical value of a [`ServerInfo`].
pub struct ServerInfoView {
    pub name: Seq<char>,
    pub version: Seq<char>,
}

impl View for ServerInfo {
    type V = ServerInfoView;

    open spec fn view(&self) -> ServerInfoView {
        ServerInfoView {
            name: self.name@,
            version: self.version@,
        }
    }
}

impl DeepView for ServerInfo {
    type V = ServerInfoView;

    open spec fn deep_view(&self) -> ServerInfoView {
        self@
    }
}

impl Clone for ServerInfo {
    fn clone(&self) -> (r: Self)
        ensures
            r@ == self@,
    {
        ServerInfo {
            name: self.name.clone(),
            version: self.version.clone(),
        }
    }
}

impl ServerInfoView {
    /// Whether `j` is an object that holds every field of a [`ServerInfo`] in its kind.
    pub open spec fn fits(j: JsonView) -> bool {
        &&& j is Object
        &&& req_text(j, "name"@) is Some
        &&& req_text(j, "version"@) is Some
    }

    /// The value that the fields of `j` give.
    pub open spec fn of(j: JsonView) -> ServerInfoView {
        ServerInfoView {
            name: req_text(j, "name"@).unwrap(),
            version: req_text(j, "version"@).unwrap(),
        }
    }

    /// The [`ServerInfo`] that `j` denotes, if it denotes one.
    pub open spec fn decode(j: JsonView) -> Option<ServerInfoView> {
        if Self::fits(j) {
            Some(Self::of(j))
        } else {
            None
        }
    }

    /// The value in the field `key`; a missing field and null give `Some(None)`.
    pub open spec fn decode_optional(j: JsonView, key: Seq<char>) -> Option<Option<ServerInfoView>> {
        match j.get(key) {
            None => Some(None),
            Some(JsonView::Null) => Some(None),
            Some(v) => match Self::decode(v) {
                Some(t) => Some(Some(t)),
                None => None,
            },
        }
    }
}

impl ServerInfo {
    /// Reads a [`ServerInfo`] from a JSON object.
    pub fn decode(j: &Json) -> (r: Option<ServerInfo>)
        ensures
            r.deep_view() == ServerInfoView::decode(j@),
    {
        if !j.is_object() {
            return None;
        }
        let name = match req_text_exec(j, "name") {
            Some(v) => v,
            None => {
                return None;
            },
        };
        let version = match req_text_exec(j, "version") {
            Some(v) => v,
            None => {
                return None;
            },
        };
        Some(ServerInfo { name, version })
    }

    pub fn decode_optional(j: &Json, key: &str) -> (r: Option<Option<ServerInfo>>)
        ensures
            r.deep_view() == ServerInfoView::decode_optional(j@, key@),
    {
        match j.get(key) {
            None => Some(None),
            Some(Json::Null) => Some(None),
            Some(v) => match ServerInfo::decode(v) {
                Some(t) => Some(Some(t)),
                None => None,
            },
        }
    }
}

/// The payload of a server event.
#[derive(Debug, Clone)]
pub struct ServerEventData {
    pub server_info: Option<ServerInfo>,
    pub capabilities: Option<Json>,
    pub address: Option<String>,
    pub uptime_ms: Option<u64>,
    pub error: Option<String>,
}

/// The mathematical value of a [`ServerEventData`].
pub struct ServerEventDataView {
    pub server_info: Option<ServerInfoView>,
    pub capabilities: Option<JsonView>,
    pub address: Option<Seq<char>>,
    pub uptime_ms: Option<u64>,
    pub error: Option<Seq<char>>,
}

impl View for ServerEventData {
    type V = ServerEventDataView;

    open spec fn view(&self) -> ServerEventDataView {
        ServerEventDataView {
            server_info: self.server_info.deep_view(),
            capabilities: self.capabilities.deep_view(),
            address: self.address.deep_view(),
            uptime_ms: self.uptime_ms,
            error: self.error.deep_view(),
        }
    }
}

impl DeepView for ServerEventData {
    type V = ServerEventDataView;

    open spec fn deep_view(&self) -> ServerEventDataView {
        self@
    }
}

impl ServerEventDataView {
    /// Whether `j` is an object that holds every field of a [`ServerEventData`] in its kind.
    pub open spec fn fits(j: JsonView) -> bool {
        &&& j is Object
        &&& ServerInfoView::decode_optional(j, "serverInfo"@) is Some
        &&& opt_text(j, "address"@) is Some
        &&& opt_u64(j, "uptimeMs"@) is Some
        &&& opt_text(j, "error"@) is Some
    }

    /// The value that the fields of `j` give.
    pub open spec fn of(j: JsonView) -> ServerEventDataView {
        ServerEventDataView {
            server_info: ServerInfoView::decode_optional(j, "serverInfo"@).unwrap(),
            capabilities: opt_json(j, "capabilities"@),
            address: opt_text(j, "address"@).unwrap(),
            uptime_ms: opt_u64(j, "uptimeMs"@).unwrap(),
            error: opt_text(j, "error"@).unwrap(),
        }
    }

    /// The [`ServerEventData`] that `j` denotes, if it denotes one.
    pub open spec fn decode(j: JsonView) -> Option<ServerEventDataView> {
        if Self::fits(j) {
            Some(Self::of(j))
        } else {
            None
        }
    }

    /// The value in the field `key`, which must be there.
    pub open spec fn decode_field(j: JsonView, key: Seq<char>) -> Option<ServerEventDataView> {
        match j.get(key) {
            Some(v) => Self::decode(v),
            None => None,
        }
    }
}

impl ServerEventData {
    /// Reads a [`ServerEventData`] from a JSON object.
    pub fn decode(j: &Json) -> (r: Option<ServerEventData>)
        ensures
            r.deep_view() == ServerEventDataView::decode(j@),
    {
        if !j.is_object() {
            return None;
        }
        let server_info = match ServerInfo::decode_optional(j, "serverInfo") {
            Some(v) => v,
            None => {
                return None;
            },
        };
        let capabilities = opt_json_exec(j, "capabilities");
        let address = match opt_text_exec(j, "address") {
            Some(v) => v,
            None => {
                return None;
            },
        };
        let uptime_ms = match opt_u64_exec(j, "uptimeMs") {
            Some(v) => v,
            None => {
                return None;
            },
        };
        let error = match opt_text_exec(j, "error") {
            Some(v) => v,
            None => {
                return None;
            },
        };
        Some(ServerEventData { server_info, capabilities, address, uptime_ms, error })
    }

    pub fn decode_field(j: &Json, key: &str) -> (r: Option<ServerEventData>)
        ensures
            r.deep_view() == ServerEventDataView::decode_field(j@, key@),
    {
        match j.get(key) {
            Some(v) => ServerEventData::decode(v),
            None => None,
        }
    }
}

/// The server is starting, ready, failing or shutting down.
#[derive(Debug, Clone)]
pub struct ServerEvent {
    pub base: DevEventBase,
    pub event_type: ServerEventType,
    pub data: ServerEventData,
}

/// The mathematical value of a [`ServerEvent`].
pub struct ServerEventView {
    pub base: DevEventBaseView,
    pub event_type: ServerEventType,
    pub data: ServerEventDataView,
}

impl View for ServerEvent {
    type V = ServerEventView;

    open spec fn view(&self) -> ServerEventView {
        ServerEventView {
            base: self.base@,
            event_type: self.event_type,
            data: self.data@,
        }
    }
}

impl DeepView for ServerEvent {
    type V = ServerEventView;

    open spec fn deep_view(&self) -> ServerEventView {
        self@
    }
}

impl ServerEventView {
    /// Whether `j` is an object that holds every field of a [`ServerEvent`] in its kind.
    pub open spec fn fits(j: JsonView) -> bool {
        &&& j is Object
        &&& DevEventBaseView::decode(j) is Some
        &&& ServerEventType::named_in(j, "type"@) is Some
        &&& ServerEventDataView::decode_field(j, "data"@) is Some
    }

    /// The value that the fields of `j` give.
    pub open spec fn of(j: JsonView) -> ServerEventView {
        ServerEventView {
            base: DevEventBaseView::decode(j).unwrap(),
            event_type: ServerEventType::named_in(j, "type"@).unwrap(),
            data: ServerEventDataView::decode_field(j, "data"@).unwrap(),
        }
    }

    /// The [`ServerEvent`] that `j` denotes, if it denotes one.
    pub open spec fn decode(j: JsonView) -> Option<ServerEventView> {
        if Self::fits(j) {
            Some(Self::of(j))
        } else {
            None
        }
    }
}

impl ServerEvent {
    /// Reads a [`ServerEvent`] from a JSON object.
    pub fn decode(j: &Json) -> (r: Option<ServerEvent>)
        ensures
            r.deep_view() == ServerEventView::decode(j@),
    {
        if !j.is_object() {
            return None;
        }
        let base = match DevEventBase::decode(j) {
            Some(v) => v,
            None => {
                return None;
            },
        };
        let event_type = match ServerEventType::read_in(j, "type") {
            Some(v) => v,
            None => {
                return None;
            },
        };
        let data = match ServerEventData::decode_field(j, "data") {
            Some(v) => v,
            None => {
                return None;
            },
        };
        Some(ServerEvent { base, event_type, data })
    }
}

/// What happened to the configuration.
#[derive(Debug, Clone, Copy, PartialEq, Eq, Structural)]
pub enum ConfigEventType {
    Loaded,
    Error,
    Missing,
}

impl ConfigEventType {
    /// The variant that a wire name stands for.
    pub open spec fn named(t: Seq<char>) -> Option<ConfigEventType> {
        if t == "config:loaded"@ {
            Some(ConfigEventType::Loaded)
        } else if t == "config:error"@ {
            Some(ConfigEventType::Error)
        } else if t == "config:missing"@ {
            Some(ConfigEventType::Missing)
        } else {
            None
        }
    }

    /// The variant named by the text in the field `key`.
    pub open spec fn named_in(j: JsonView, key: Seq<char>) -> Option<ConfigEventType> {
        match req_text(j, key) {
            Some(t) => Self::named(t),
            None => None,
        }
    }

    /// The wire name of the variant.
    pub open spec fn wire_name(self) -> Seq<char> {
        match self {
            ConfigEventType::Loaded => "config:loaded"@,
            ConfigEventType::Error => "config:error"@,
            ConfigEventType::Missing => "config:missing"@,
        }
    }

    pub fn from_name(t: &str) -> (r: Option<ConfigEventType>)
        ensures
            r == Self::named(t@),
    {
        if str_eq(t, "config:loaded") {
            Some(ConfigEventType::Loaded)
        } else if str_eq(t, "config:error") {
            Some(ConfigEventType::Error)
        } else if str_eq(t, "config:missing") {
            Some(ConfigEventType::Missing)
        } else {
            None
        }
    }

    pub fn read_in(j: &Json, key: &str) -> (r: Option<ConfigEventType>)
        ensures
            r == Self::named_in(j@, key@),
    {
        match req_text_exec(j, key) {
            Some(t) => Self::from_name(t.as_str()),
            None => None,
        }
    }
}

/// One fault in the configuration.
#[derive(Debug)]
pub struct ConfigError {
    pub path: String,
    pub message: String,
}

/// The mathematical value of a [`ConfigError`].
pub struct ConfigErrorView {
    pub path: Seq<char>,
    pub message: Seq<char>,
}

impl View for ConfigError {
    type V = ConfigErrorView;

    open spec fn view(&self) -> ConfigErrorView {
        ConfigErrorView {
            path: self.path@,
            message: self.message@,
        }
    }
}

impl DeepView for ConfigError {
    type V = ConfigErrorView;

    open spec fn deep_view(&self) -> ConfigErrorView {
        self@
    }
}

impl Clone for ConfigError {
    fn clone(&self) -> (r: Self)
        ensures
            r@ == self@,
    {
        ConfigError {
            path: self.path.clone(),
            message: self.message.clone(),
        }
    }
}

impl ConfigErrorView {
    /// Whether `j` is an object that holds every field of a [`ConfigError`] in its kind.
    pub open spec fn fits(j: JsonView) -> bool {
        &&& j is Object
        &&& req_text(j, "path"@) is Some
        &&& req_text(j, "message"@) is Some
    }

    /// The value that the fields of `j` give.
    pub open spec fn of(j: JsonView) -> ConfigErrorView {
        ConfigErrorView {
            path: req_text(j, "path"@).unwrap(),
            message: req_text(j, "message"@).unwrap(),
        }
    }

    /// The [`ConfigError`] that `j` denotes, if it denotes one.
    pub open spec fn decode(j: JsonView) -> Option<ConfigErrorView> {
        if Self::fits(j) {
            Some(Self::of(j))
        } else {
            None
        }
    }

    /// The values that the items denote, where every item denotes one.
    pub open spec fn decode_list(items: Seq<JsonView>) -> Option<Seq<ConfigErrorView>> {
        if forall|i: int| 0 <= i < items.len() ==> Self::decode(#[trigger] items[i]) is Some {
            Some(Seq::new(items.len(), |i: int| Self::decode(items[i]).unwrap()))
        } else {
            None
        }
    }

    /// The list in the field `key`; a missing field and null give `Some(None)`.
    pub open spec fn decode_optional_list(j: JsonView, key: Seq<char>) -> Option<
        Option<Seq<ConfigErrorView>>,
    > {
        match j.get(key) {
            None => Some(None),
            Some(JsonView::Null) => Some(None),
            Some(JsonView::Array(items)) => match Self::decode_list(items) {
                Some(t) => Some(Some(t)),
                None => None,
            },
            _ => None,
        }
    }
}

impl ConfigError {
    /// Reads a [`ConfigError`] from a JSON object.
    pub fn decode(j: &Json) -> (r: Option<ConfigError>)
        ensures
            r.deep_view() == ConfigErrorView::decode(j@),
    {
        if !j.is_object() {
            return None;
        }
        let path = match req_text_exec(j, "path") {
            Some(v) => v,
            None => {
                return None;
            },
        };
        let message = match req_text_exec(j, "message") {
            Some(v) => v,
            None => {
                return None;
            },
        };
        Some(ConfigError { path, message })
    }

    pub fn decode_list(items: &Vec<Json>) -> (r: Option<Vec<ConfigError>>)
        ensures
            r.deep_view() == ConfigErrorView::decode_list(items.deep_view()),
    {
        let mut out: Vec<ConfigError> = Vec::new();
        let mut i: usize = 0;
        while i < items.len()
            invariant
                i <= items.len(),
                out.len() == i,
                forall|k: int| 0 <= k < i ==> ConfigErrorView::decode(items@[k]@) == Some(#[trigger] out@[k]@),
            decreases items.len() - i,
        {
            match ConfigError::decode(&items[i]) {
                Some(t) => {
                    out.push(t);
                },
                None => {
                    assert(ConfigErrorView::decode(items.deep_view()[i as int]) is None);
                    return None;
                },
            }
            i += 1;
        }
        proof {
            let views = items.deep_view();
            assert forall|k: int| 0 <= k < views.len() implies ConfigErrorView::decode(
                #[trigger] views[k],
            ) is Some by {
                assert(ConfigErrorView::decode(items@[k]@) == Some(out@[k]@));
            }
            assert(out.deep_view() =~= ConfigErrorView::decode_list(views).unwrap());
        }
        Some(out)
    }

    pub fn decode_optional_list(j: &Json, key: &str) -> (r: Option<Option<Vec<ConfigError>>>)
        ensures
            r.deep_view() == ConfigErrorView::decode_optional_list(j@, key@),
    {
        match j.get(key) {
            None => Some(None),
            Some(Json::Null) => Some(None),
            Some(v) => match v.as_array() {
                Some(items) => match ConfigError::decode_list(items) {
                    Some(t) => Some(Some(t)),
                    None => None,
                },
                None => None,
            },
        }
    }
}

/// The payload of a config event.
#[derive(Debug, Clone)]
pub struct ConfigEventData {
    pub config_path: Option<String>,
    pub errors: Option<Vec<ConfigError>>,
    pub missing_keys: Option<Vec<String>>,
    pub loaded_keys: Option<Vec<String>>,
}

/// The mathematical value of a [`ConfigEventData`].
pub struct ConfigEventDataView {
    pub config_path: Option<Seq<char>>,
    pub errors: Option<Seq<ConfigErrorView>>,
    pub missing_keys: Option<Seq<Seq<char>>>,
    pub loaded_keys: Option<Seq<Seq<char>>>,
}

impl View for ConfigEventData {
    type V = ConfigEventDataView;

    open spec fn view(&self) -> ConfigEventDataView {
        ConfigEventDataView {
            config_path: self.config_path.deep_view(),
            errors: self.errors.deep_view(),
            missing_keys: self.missing_keys.deep_view(),
            loaded_keys: self.loaded_keys.deep_view(),
        }
    }
}

impl DeepView for ConfigEventData {
    type V = ConfigEventDataView;

    open spec fn deep_view(&self) -> ConfigEventDataView {
        self@
    }
}

impl ConfigEventDataView {
    /// Whether `j` is an object that holds every field of a [`ConfigEventData`] in its kind.
    pub open spec fn fits(j: JsonView) -> bool {
        &&& j is Object
        &&& opt_text(j, "configPath"@) is Some
        &&& ConfigErrorView::decode_optional_list(j, "errors"@) is Some
        &&& opt_text_list(j, "missingKeys"@) is Some
        &&& opt_text_list(j, "loadedKeys"@) is Some
    }

    /// The value that the fields of `j` give.
    pub open spec fn of(j: JsonView) -> ConfigEventDataView {
        ConfigEventDataView {
            config_path: opt_text(j, "configPath"@).unwrap(),
            errors: ConfigErrorView::decode_optional_list(j, "errors"@).unwrap(),
            missing_keys: opt_text_list(j, "missingKeys"@).unwrap(),
            loaded_keys: opt_text_list(j, "loadedKeys"@).unwrap(),
        }
    }

    /// The [`ConfigEventData`] that `j` denotes, if it denotes one.
    pub open spec fn decode(j: JsonView) -> Option<ConfigEventDataView> {
        if Self::fits(j) {
            Some(Self::of(j))
        } else {
            None
        }
    }

    /// The value in the field `key`, which must be there.
    pub open spec fn decode_field(j: JsonView, key: Seq<char>) -> Option<ConfigEventDataView> {
        match j.get(key) {
            Some(v) => Self::decode(v),
            None => None,
        }
    }
}

impl ConfigEventData {
    /// Reads a [`ConfigEventData`] from a JSON object.
    pub fn decode(j: &Json) -> (r: Option<ConfigEventData>)
        ensures
            r.deep_view() == ConfigEventDataView::decode(j@),
    {
        if !j.is_object() {
            return None;
        }
        let config_path = match opt_text_exec(j, "configPath") {
            Some(v) => v,
            None => {
                return None;
            },
        };
        let errors = match ConfigError::decode_optional_list(j, "errors") {
            Some(v) => v,
            None => {
                return None;
            },
        };
        let missing_keys = match opt_text_list_exec(j, "missingKeys") {
            Some(v) => v,
            None => {
                return None;
            },
        };
        let loaded_keys = match opt_text_list_exec(j, "loadedKeys") {
            Some(v) => v,
            None => {
                return None;
            },
        };
        Some(ConfigEventData { config_path, errors, missing_keys, loaded_keys })
    }

    pub fn decode_field(j: &Json, key: &str) -> (r: Option<ConfigEventData>)
        ensures
            r.deep_view() == ConfigEventDataView::decode_field(j@, key@),
    {
        match j.get(key) {
            Some(v) => ConfigEventData::decode(v),
            None => None,
        }
    }
}

/// The configuration was loaded, is faulty or lacks keys.
#[derive(Debug, Clone)]
pub struct ConfigEvent {
    pub base: DevEventBase,
    pub event_type: ConfigEventType,
    pub data: ConfigEventData,
}

/// The mathematical value of a [`ConfigEvent`].
pub struct ConfigEventView {
    pub base: DevEventBaseView,
    pub event_type: ConfigEventType,
    pub data: ConfigEventDataView,
}

impl View for ConfigEvent {
    type V = ConfigEventView;

    open spec fn view(&self) -> ConfigEventView {
        ConfigEventView {
            base: self.base@,
            event_type: self.event_type,
            data: self.data@,
        }
    }
}

impl DeepView for ConfigEvent {
    type V = ConfigEventView;

    open spec fn deep_view(&self) -> ConfigEventView {
        self@
    }
}

impl ConfigEventView {
    /// Whether `j` is an object that holds every field of a [`ConfigEvent`] in its kind.
    pub open spec fn fits(j: JsonView) -> bool {
        &&& j is Object
        &&& DevEventBaseView::decode(j) is Some
        &&& ConfigEventType::named_in(j, "type"@) is Some
        &&& ConfigEventDataView::decode_field(j, "data"@) is Some
    }

    /// The value that the fields of `j` give.
    pub open spec fn of(j: JsonView) -> ConfigEventView {
        ConfigEventView {
            base: DevEventBaseView::decode(j).unwrap(),
            event_type: ConfigEventType::named_in(j, "type"@).unwrap(),
            data: ConfigEventDataView::decode_field(j, "data"@).unwrap(),
        }
    }

    /// The [`ConfigEvent`] that `j` denotes, if it denotes one.
    pub open spec fn decode(j: JsonView) -> Option<ConfigEventView> {
        if Self::fits(j) {
            Some(Self::of(j))
        } else {
            None
        }
    }
}

impl ConfigEvent {
    /// Reads a [`ConfigEvent`] from a JSON object.
    pub fn decode(j: &Json) -> (r: Option<ConfigEvent>)
        ensures
            r.deep_view() == ConfigEventView::decode(j@),
    {
        if !j.is_object() {
            return None;
        }
        let base = match DevEventBase::decode(j) {
            Some(v) => v,
            None => {
                return None;
            },
        };
        let event_type = match ConfigEventType::read_in(j, "type") {
            Some(v) => v,
            None => {
                return None;
            },
        };
        let data = match ConfigEventData::decode_field(j, "data") {
            Some(v) => v,
            None => {
                return None;
            },
        };
        Some(ConfigEvent { base, event_type, data })
    }
}

/// Where an event stands in a trace.
#[derive(Debug)]
pub struct TraceContext {
    pub trace_id: String,
    pub parent_id: Option<String>,
}

/// The mathematical value of a [`TraceContext`].
pub struct TraceContextView {
    pub trace_id: Seq<char>,
    pub parent_id: Option<Seq<char>>,
}

impl View for TraceContext {
    type V = TraceContextView;

    open spec fn view(&self) -> TraceContextView {
        TraceContextView {
            trace_id: self.trace_id@,
            parent_id: self.parent_id.deep_view(),
        }
    }
}

impl DeepView for TraceContext {
    type V = TraceContextView;

    open spec fn deep_view(&self) -> TraceContextView {
        self@
    }
}

impl Clone for TraceContext {
    fn clone(&self) -> (r: Self)
        ensures
            r@ == self@,
    {
        TraceContext {
            trace_id: self.trace_id.clone(),
            parent_id: self.parent_id.clone(),
        }
    }
}

impl TraceContextView {
    /// Whether `j` is an object that holds every field of a [`TraceContext`] in its kind.
    pub open spec fn fits(j: JsonView) -> bool {
        &&& j is Object
        &&& req_text(j, "traceId"@) is Some
        &&& opt_text(j, "parentId"@) is Some
    }

    /// The value that the fields of `j` give.
    pub open spec fn of(j: JsonView) -> TraceContextView {
        TraceContextView {
            trace_id: req_text(j, "traceId"@).unwrap(),
            parent_id: opt_text(j, "parentId"@).unwrap(),
        }
    }

    /// The [`TraceContext`] that `j` denotes, if it denotes one.
    pub open spec fn decode(j: JsonView) -> Option<TraceContextView> {
        if Self::fits(j) {
            Some(Self::of(j))
        } else {
            None
        }
    }

    /// The value in the field `key`; a missing field and null give `Some(None)`.
    pub open spec fn decode_optional(j: JsonView, key: Seq<char>) -> Option<Option<TraceContextView>> {
        match j.get(key) {
            None => Some(None),
            Some(JsonView::Null) => Some(None),
            Some(v) => match Self::decode(v) {
                Some(t) => Some(Some(t)),
                None => None,
            },
        }
    }
}

impl TraceContext {
    /// Reads a [`TraceContext`] from a JSON object.
    pub fn decode(j: &Json) -> (r: Option<TraceContext>)
        ensures
            r.deep_view() == TraceContextView::decode(j@),
    {
        if !j.is_object() {
            return None;
        }
        let trace_id = match req_text_exec(j, "traceId") {
            Some(v) => v,
            None => {
                return None;
            },
        };
        let parent_id = match opt_text_exec(j, "parentId") {
            Some(v) => v,
            None => {
                return None;
            },
        };
        Some(TraceContext { trace_id, parent_id })
    }

    pub fn decode_optional(j: &Json, key: &str) -> (r: Option<Option<TraceContext>>)
        ensures
            r.deep_view() == TraceContextView::decode_optional(j@, key@),
    {
        match j.get(key) {
            None => Some(None),
            Some(Json::Null) => Some(None),
            Some(v) => match TraceContext::decode(v) {
                Some(t) => Some(Some(t)),
                None => None,
            },
        }
    }
}

/// An event of the second, flatter schema: a trace event or a log line.
#[derive(Debug, Clone)]
pub struct DevBusLogEvent {
    pub id: String,
    pub timestamp: u64,
    /// `trace` for an event that changes state, `log` for a log line.
    pub category: String,
    /// Of a trace event, its kind, such as `session:connect`; of a log line, the name of its level.
    pub event_type: String,
    /// The prefix of the logger.
    pub prefix: String,
    pub scope_id: String,
    /// The session, or `unknown`.
    pub session_id: String,
    /// The request, or `unknown`.
    pub request_id: String,
    pub trace_context: Option<TraceContext>,
    /// Of a trace event: its payload.
    pub data: Option<Json>,
    /// Of a log line: its text.
    pub message: Option<String>,
    /// Of a log line: its arguments.
    pub args: Option<Vec<Json>>,
    /// Of a log line: the number of its level.
    pub level: Option<i32>,
    /// Of a log line: the name of its level.
    pub level_name: Option<String>,
}

/// The mathematical value of a [`DevBusLogEvent`].
pub struct DevBusLogEventView {
    pub id: Seq<char>,
    pub timestamp: u64,
    pub category: Seq<char>,
    pub event_type: Seq<char>,
    pub prefix: Seq<char>,
    pub scope_id: Seq<char>,
    pub session_id: Seq<char>,
    pub request_id: Seq<char>,
    pub trace_context: Option<TraceContextView>,
    pub data: Option<JsonView>,
    pub message: Option<Seq<char>>,
    pub args: Option<Seq<JsonView>>,
    pub level: Option<i32>,
    pub level_name: Option<Seq<char>>,
}

impl View for DevBusLogEvent {
    type V = DevBusLogEventView;

    open spec fn view(&self) -> DevBusLogEventView {
        DevBusLogEventView {
            id: self.id@,
            timestamp: self.timestamp,
            category: self.category@,
            event_type: self.event_type@,
            prefix: self.prefix@,
            scope_id: self.scope_id@,
            session_id: self.session_id@,
            request_id: self.request_id@,
            trace_context: self.trace_context.deep_view(),
            data: self.data.deep_view(),
            message: self.message.deep_view(),
            args: self.args.deep_view(),
            level: self.level,
            level_name: self.level_name.deep_view(),
        }
    }
}

impl DeepView for DevBusLogEvent {
    type V = DevBusLogEventView;

    open spec fn deep_view(&self) -> DevBusLogEventView {
        self@
    }
}

impl DevBusLogEventView {
    /// Whether `j` is an object that holds every field of a [`DevBusLogEvent`] in its kind.
    pub open spec fn fits(j: JsonView) -> bool {
        &&& j is Object
        &&& req_text(j, "id"@) is Some
        &&& req_u64(j, "timestamp"@) is Some
        &&& req_text(j, "category"@) is Some
        &&& req_text(j, "type"@) is Some
        &&& req_text(j, "prefix"@) is Some
        &&& req_text(j, "scopeId"@) is Some
        &&& req_text(j, "sessionId"@) is Some
        &&& req_text(j, "requestId"@) is Some
        &&& TraceContextView::decode_optional(j, "traceContext"@) is Some
        &&& opt_text(j, "message"@) is Some
        &&& opt_json_list(j, "args"@) is Some
        &&& opt_i32(j, "level"@) is Some
        &&& opt_text(j, "levelName"@) is Some
    }

    /// The value that the fields of `j` give.
    pub open spec fn of(j: JsonView) -> DevBusLogEventView {
        DevBusLogEventView {
            id: req_text(j, "id"@).unwrap(),
            timestamp: req_u64(j, "timestamp"@).unwrap(),
            category: req_text(j, "category"@).unwrap(),
            event_type: req_text(j, "type"@).unwrap(),
            prefix: req_text(j, "prefix"@).unwrap(),
            scope_id: req_text(j, "scopeId"@).unwrap(),
            session_id: req_text(j, "sessionId"@).unwrap(),
            request_id: req_text(j, "requestId"@).unwrap(),
            trace_context: TraceContextView::decode_optional(j, "traceContext"@).unwrap(),
            data: opt_json(j, "data"@),
            message: opt_text(j, "message"@).unwrap(),
            args: opt_json_list(j, "args"@).unwrap(),
            level: opt_i32(j, "level"@).unwrap(),
            level_name: opt_text(j, "levelName"@).unwrap(),
        }
    }

    /// The [`DevBusLogEvent`] that `j` denotes, if it denotes one.
    pub open spec fn decode(j: JsonView) -> Option<DevBusLogEventView> {
        if Self::fits(j) {
            Some(Self::of(j))
        } else {
            None
        }
    }
}

impl DevBusLogEvent {
    /// Reads a [`DevBusLogEvent`] from a JSON object.
    pub fn decode(j: &Json) -> (r: Option<DevBusLogEvent>)
        ensures
            r.deep_view() == DevBusLogEventView::decode(j@),
    {
        if !j.is_object() {
            return None;
        }
        let id = match req_text_exec(j, "id") {
            Some(v) => v,
            None => {
                return None;
            },
        };
        let timestamp = match req_u64_exec(j, "timestamp") {
            Some(v) => v,
            None => {
                return None;
            },
        };
        let category = match req_text_exec(j, "category") {
            Some(v) => v,
            None => {
                return None;
            },
        };
        let event_type = match req_text_exec(j, "type") {
            Some(v) => v,
            None => {
                return None;
            },
        };
        let prefix = match req_text_exec(j, "prefix") {
            Some(v) => v,
            None => {
                return None;
            },
        };
        let scope_id = match req_text_exec(j, "scopeId") {
            Some(v) => v,
            None => {
                return None;
            },
        };
        let session_id = match req_text_exec(j, "sessionId") {
            Some(v) => v,
            None => {
                return None;
            },
        };
        let request_id = match req_text_exec(j, "requestId") {
            Some(v) => v,
            None => {
                return None;
            },
        };
        let trace_context = match TraceContext::decode_optional(j, "traceContext") {
            Some(v) => v,
            None => {
                return None;
            },
        };
        let data = opt_json_exec(j, "data");
        let message = match opt_text_exec(j, "message") {
            Some(v) => v,
            None => {
                return None;
            },
        };
        let args = match opt_json_list_exec(j, "args") {
            Some(v) => v,
            None => {
                return None;
            },
        };
        let level = match opt_i32_exec(j, "level") {
            Some(v) => v,
            None => {
                return None;
            },
        };
        let level_name = match opt_text_exec(j, "levelName") {
            Some(v) => v,
            None => {
                return None;
            },
        };
        Some(DevBusLogEvent { id, timestamp, category, event_type, prefix, scope_id, session_id, request_id, trace_context, data, message, args, level, level_name })
    }
}

/// A node of a scope graph.
#[derive(Debug)]
pub struct ScopeGraphNode {
    pub id: String,
    pub node_type: String,
    pub name: String,
    pub children: Vec<ScopeGraphNode>,
    pub metadata: Option<Json>,
}

/// The payload of a scope graph event.
#[derive(Debug)]
pub struct ScopeGraphEventData {
    pub root: ScopeGraphNode,
}

/// A scope graph was published.
#[derive(Debug)]
pub struct ScopeGraphEvent {
    pub base: DevEventBase,
    pub event_type: String,
    pub data: ScopeGraphEventData,
}

/// An event of the first schema, told apart by its category.
#[derive(Debug, Clone)]
pub enum DevEvent {
    Session(SessionEvent),
    Request(RequestEvent),
    Registry(RegistryEvent),
    Server(ServerEvent),
    Config(ConfigEvent),
}

/// The mathematical value of a [`DevEvent`].
pub enum DevEventView {
    Session(SessionEventView),
    Request(RequestEventView),
    Registry(RegistryEventView),
    Server(ServerEventView),
    Config(ConfigEventView),
}

impl View for DevEvent {
    type V = DevEventView;

    open spec fn view(&self) -> DevEventView {
        match self {
            DevEvent::Session(e) => DevEventView::Session(e@),
            DevEvent::Request(e) => DevEventView::Request(e@),
            DevEvent::Registry(e) => DevEventView::Registry(e@),
            DevEvent::Server(e) => DevEventView::Server(e@),
            DevEvent::Config(e) => DevEventView::Config(e@),
        }
    }
}

impl DeepView for DevEvent {
    type V = DevEventView;

    open spec fn deep_view(&self) -> DevEventView {
        self@
    }
}

impl DevEventView {
    /// The event that `j` denotes: the text in its field `category` picks
    /// the family, and the whole object is then read as an event of it.
    pub open spec fn decode(j: JsonView) -> Option<DevEventView> {
        match req_text(j, "category"@) {
            Some(c) => if c == "session"@ {
                match SessionEventView::decode(j) {
                    Some(e) => Some(DevEventView::Session(e)),
                    None => None,
                }
            } else if c == "request"@ {
                match RequestEventView::decode(j) {
                    Some(e) => Some(DevEventView::Request(e)),
                    None => None,
                }
            } else if c == "registry"@ {
                match RegistryEventView::decode(j) {
                    Some(e) => Some(DevEventView::Registry(e)),
                    None => None,
                }
            } else if c == "server"@ {
                match ServerEventView::decode(j) {
                    Some(e) => Some(DevEventView::Server(e)),
                    None => None,
                }
            } else if c == "config"@ {
                match ConfigEventView::decode(j) {
                    Some(e) => Some(DevEventView::Config(e)),
                    None => None,
                }
            } else {
                None
            },
            None => None,
        }
    }

    /// The event in the field `key`, which must be there.
    pub open spec fn decode_field(j: JsonView, key: Seq<char>) -> Option<DevEventView> {
        match j.get(key) {
            Some(v) => Self::decode(v),
            None => None,
        }
    }
}

impl DevEvent {
    /// Reads an event of the first schema from a JSON object.
    pub fn decode(j: &Json) -> (r: Option<DevEvent>)
        ensures
            r.deep_view() == DevEventView::decode(j@),
    {
        let category = match req_text_exec(j, "category") {
            Some(c) => c,
            None => {
                return None;
            },
        };
        let c = category.as_str();
        if str_eq(c, "session") {
            match SessionEvent::decode(j) {
                Some(e) => Some(DevEvent::Session(e)),
                None => None,
            }
        } else if str_eq(c, "request") {
            match RequestEvent::decode(j) {
                Some(e) => Some(DevEvent::Request(e)),
                None => None,
            }
        } else if str_eq(c, "registry") {
            match RegistryEvent::decode(j) {
                Some(e) => Some(DevEvent::Registry(e)),
                None => None,
            }
        } else if str_eq(c, "server") {
            match ServerEvent::decode(j) {
                Some(e) => Some(DevEvent::Server(e)),
                None => None,
            }
        } else if str_eq(c, "config") {
            match ConfigEvent::decode(j) {
                Some(e) => Some(DevEvent::Config(e)),
                None => None,
            }
        } else {
            None
        }
    }

    pub fn decode_field(j: &Json, key: &str) -> (r: Option<DevEvent>)
        ensures
            r.deep_view() == DevEventView::decode_field(j@, key@),
    {
        match j.get(key) {
            Some(v) => DevEvent::decode(v),
            None => None,
        }
    }
}

/// An event of either schema, or a fault to show.
#[derive(Debug, Clone)]
pub enum UnifiedEvent {
    /// An event of the first schema.
    Legacy(DevEvent),
    /// An event of the second schema.
    LogTransport(DevBusLogEvent),
    /// A fault in reading or connecting.
    Error(String),
}

/// The mathematical value of a [`UnifiedEvent`].
pub enum UnifiedEventView {
    Legacy(DevEventView),
    LogTransport(DevBusLogEventView),
    Error(Seq<char>),
}

impl View for UnifiedEvent {
    type V = UnifiedEventView;

    open spec fn view(&self) -> UnifiedEventView {
        match self {
            UnifiedEvent::Legacy(e) => UnifiedEventView::Legacy(e@),
            UnifiedEvent::LogTransport(e) => UnifiedEventView::LogTransport(e@),
            UnifiedEvent::Error(m) => UnifiedEventView::Error(m@),
        }
    }
}

impl DeepView for UnifiedEvent {
    type V = UnifiedEventView;

    open spec fn deep_view(&self) -> UnifiedEventView {
        self@
    }
}

/// The envelope of the first schema: a type and the event.
#[derive(Debug, Clone)]
pub struct DevEventMessage {
    pub msg_type: String,
    pub event: DevEvent,
}

/// The mathematical value of a [`DevEventMessage`].
pub struct DevEventMessageView {
    pub msg_type: Seq<char>,
    pub event: DevEventView,
}

impl View for DevEventMessage {
    type V = DevEventMessageView;

    open spec fn view(&self) -> DevEventMessageView {
        DevEventMessageView {
            msg_type: self.msg_type@,
            event: self.event@,
        }
    }
}

impl DeepView for DevEventMessage {
    type V = DevEventMessageView;

    open spec fn deep_view(&self) -> DevEventMessageView {
        self@
    }
}

impl DevEventMessageView {
    /// Whether `j` is an object that holds every field of a [`DevEventMessage`] in its kind.
    pub open spec fn fits(j: JsonView) -> bool {
        &&& j is Object
        &&& req_text(j, "type"@) is Some
        &&& DevEventView::decode_field(j, "event"@) is Some
    }

    /// The value that the fields of `j` give.
    pub open spec fn of(j: JsonView) -> DevEventMessageView {
        DevEventMessageView {
            msg_type: req_text(j, "type"@).unwrap(),
            event: DevEventView::decode_field(j, "event"@).unwrap(),
        }
    }

    /// The [`DevEventMessage`] that `j` denotes, if it denotes one.
    pub open spec fn decode(j: JsonView) -> Option<DevEventMessageView> {
        if Self::fits(j) {
            Some(Self::of(j))
        } else {
            None
        }
    }
}

impl DevEventMessage {
    /// Reads a [`DevEventMessage`] from a JSON object.
    pub fn decode(j: &Json) -> (r: Option<DevEventMessage>)
        ensures
            r.deep_view() == DevEventMessageView::decode(j@),
    {
        if !j.is_object() {
            return None;
        }
        let msg_type = match req_text_exec(j, "type") {
            Some(v) => v,
            None => {
                return None;
            },
        };
        let event = match DevEvent::decode_field(j, "event") {
            Some(v) => v,
            None => {
                return None;
            },
        };
        Some(DevEventMessage { msg_type, event })
    }
}

impl DevEventMessage {
    /// Whether the envelope is tagged with the marker.
    pub fn is_valid(&self) -> (r: bool)
        ensures
            r == (self.msg_type@ == DEV_EVENT_MAGIC@),
    {
        str_eq(self.msg_type.as_str(), DEV_EVENT_MAGIC)
    }
}

} // verus!
