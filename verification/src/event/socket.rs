//! The messages of the manager socket: what the server sends, and how each
//! is read from a JSON object.

use crate::event::fields::{
    opt_bool, opt_bool_exec, opt_json, opt_json_exec, opt_text, opt_text_exec, req_bool,
    req_bool_exec, req_json, req_json_exec, req_text, req_text_exec, req_u64, req_u64_exec,
};
use crate::event::types::{DevEvent, DevEventView};
use crate::json::{Json, JsonView};
use vstd::prelude::*;

verus! {

/// The greeting that the server sends on connection.
#[derive(Debug)]
pub struct WelcomeMessage {
    pub msg_type: String,
    pub server_id: String,
    pub server_version: String,
    pub protocol_version: String,
}

/// The mathematical value of a [`WelcomeMessage`].
pub struct WelcomeMessageView {
    pub msg_type: Seq<char>,
    pub server_id: Seq<char>,
    pub server_version: Seq<char>,
    pub protocol_version: Seq<char>,
}

impl View for WelcomeMessage {
    type V = WelcomeMessageView;

    open spec fn view(&self) -> WelcomeMessageView {
        WelcomeMessageView {
            msg_type: self.msg_type@,
            server_id: self.server_id@,
            server_version: self.server_version@,
            protocol_version: self.protocol_version@,
        }
    }
}

impl DeepView for WelcomeMessage {
    type V = WelcomeMessageView;

    open spec fn deep_view(&self) -> WelcomeMessageView {
        self@
    }
}

impl Clone for WelcomeMessage {
    fn clone(&self) -> (r: Self)
        ensures
            r@ == self@,
    {
        WelcomeMessage {
            msg_type: self.msg_type.clone(),
            server_id: self.server_id.clone(),
            server_version: self.server_version.clone(),
            protocol_version: self.protocol_version.clone(),
        }
    }
}

impl WelcomeMessageView {
    /// Whether `j` is an object that holds every field of a [`WelcomeMessage`] in its kind.
    pub open spec fn fits(j: JsonView) -> bool {
        &&& j is Object
        &&& req_text(j, "type"@) is Some
        &&& req_text(j, "serverId"@) is Some
        &&& req_text(j, "serverVersion"@) is Some
        &&& req_text(j, "protocolVersion"@) is Some
    }

    /// The value that the fields of `j` give.
    pub open spec fn of(j: JsonView) -> WelcomeMessageView {
        WelcomeMessageView {
            msg_type: req_text(j, "type"@).unwrap(),
            server_id: req_text(j, "serverId"@).unwrap(),
            server_version: req_text(j, "serverVersion"@).unwrap(),
            protocol_version: req_text(j, "protocolVersion"@).unwrap(),
        }
    }

    /// The [`WelcomeMessage`] that `j` denotes, if it denotes one.
    pub open spec fn decode(j: JsonView) -> Option<WelcomeMessageView> {
        if Self::fits(j) {
            Some(Self::of(j))
        } else {
            None
        }
    }
}

impl WelcomeMessage {
    /// Reads a [`WelcomeMessage`] from a JSON object.
    pub fn decode(j: &Json) -> (r: Option<WelcomeMessage>)
        ensures
            r.deep_view() == WelcomeMessageView::decode(j@),
    {
        if !j.is_object() {
            return None;
        }
        let msg_type = match req_text_exec(j, "type") {
            Some(v) => v,
            None => {
                return None;
            },
        };
        let server_id = match req_text_exec(j, "serverId") {
            Some(v) => v,
            None => {
                return None;
            },
        };
        let server_version = match req_text_exec(j, "serverVersion") {
            Some(v) => v,
            None => {
                return None;
            },
        };
        let protocol_version = match req_text_exec(j, "protocolVersion") {
            Some(v) => v,
            None => {
                return None;
            },
        };
        Some(WelcomeMessage { msg_type, server_id, server_version, protocol_version })
    }
}

/// Who registered an entry of a snapshot.
#[derive(Debug)]
pub struct OwnerInfo {
    pub kind: String,
    pub id: String,
}

/// The mathematical value of a [`OwnerInfo`].
pub struct OwnerInfoView {
    pub kind: Seq<char>,
    pub id: Seq<char>,
}

impl View for OwnerInfo {
    type V = OwnerInfoView;

    open spec fn view(&self) -> OwnerInfoView {
        OwnerInfoView {
            kind: self.kind@,
            id: self.id@,
        }
    }
}

impl DeepView for OwnerInfo {
    type V = OwnerInfoView;

    open spec fn deep_view(&self) -> OwnerInfoView {
        self@
    }
}

impl Clone for OwnerInfo {
    fn clone(&self) -> (r: Self)
        ensures
            r@ == self@,
    {
        OwnerInfo {
            kind: self.kind.clone(),
            id: self.id.clone(),
        }
    }
}

impl OwnerInfoView {
    /// Whether `j` is an object that holds every field of a [`OwnerInfo`] in its kind.
    pub open spec fn fits(j: JsonView) -> bool {
        &&& j is Object
        &&& req_text(j, "kind"@) is Some
        &&& req_text(j, "id"@) is Some
    }

    /// The value that the fields of `j` give.
    pub open spec fn of(j: JsonView) -> OwnerInfoView {
        OwnerInfoView {
            kind: req_text(j, "kind"@).unwrap(),
            id: req_text(j, "id"@).unwrap(),
        }
    }

    /// The [`OwnerInfo`] that `j` denotes, if it denotes one.
    pub open spec fn decode(j: JsonView) -> Option<OwnerInfoView> {
        if Self::fits(j) {
            Some(Self::of(j))
        } else {
            None
        }
    }

    /// The value in the field `key`; a missing field and null give `Some(None)`.
    pub open spec fn decode_optional(j: JsonView, key: Seq<char>) -> Option<Option<OwnerInfoView>> {
        match j.get(key) {
            None => Some(None),
            Some(JsonView::Null) => Some(None),
            Some(v) => match Self::decode(v) {
                Some(t) => Some(Some(t)),
                None => None,
            },
        }
    }
}

impl OwnerInfo {
    /// Reads a [`OwnerInfo`] from a JSON object.
    pub fn decode(j: &Json) -> (r: Option<OwnerInfo>)
        ensures
            r.deep_view() == OwnerInfoView::decode(j@),
    {
        if !j.is_object() {
            return None;
        }
        let kind = match req_text_exec(j, "kind") {
            Some(v) => v,
            None => {
                return None;
            },
        };
        let id = match req_text_exec(j, "id") {
            Some(v) => v,
            None => {
                return None;
            },
        };
        Some(OwnerInfo { kind, id })
    }

    pub fn decode_optional(j: &Json, key: &str) -> (r: Option<Option<OwnerInfo>>)
        ensures
            r.deep_view() == OwnerInfoView::decode_optional(j@, key@),
    {
        match j.get(key) {
            None => Some(None),
            Some(Json::Null) => Some(None),
            Some(v) => match OwnerInfo::decode(v) {
                Some(t) => Some(Some(t)),
                None => None,
            },
        }
    }
}

/// A tool in a snapshot.
#[derive(Debug, Clone)]
pub struct ToolInfo {
    pub name: String,
    pub description: Option<String>,
    pub owner: Option<OwnerInfo>,
}

/// The mathematical value of a [`ToolInfo`].
pub struct ToolInfoView {
    pub name: Seq<char>,
    pub description: Option<Seq<char>>,
    pub owner: Option<OwnerInfoView>,
}

impl View for ToolInfo {
    type V = ToolInfoView;

    open spec fn view(&self) -> ToolInfoView {
        ToolInfoView {
            name: self.name@,
            description: self.description.deep_view(),
            owner: self.owner.deep_view(),
        }
    }
}

impl DeepView for ToolInfo {
    type V = ToolInfoView;

    open spec fn deep_view(&self) -> ToolInfoView {
        self@
    }
}

impl ToolInfoView {
    /// Whether `j` is an object that holds every field of a [`ToolInfo`] in its kind.
    pub open spec fn fits(j: JsonView) -> bool {
        &&& j is Object
        &&& req_text(j, "name"@) is Some
        &&& opt_text(j, "description"@) is Some
        &&& OwnerInfoView::decode_optional(j, "owner"@) is Some
    }

    /// The value that the fields of `j` give.
    pub open spec fn of(j: JsonView) -> ToolInfoView {
        ToolInfoView {
            name: req_text(j, "name"@).unwrap(),
            description: opt_text(j, "description"@).unwrap(),
            owner: OwnerInfoView::decode_optional(j, "owner"@).unwrap(),
        }
    }

    /// The [`ToolInfo`] that `j` denotes, if it denotes one.
    pub open spec fn decode(j: JsonView) -> Option<ToolInfoView> {
        if Self::fits(j) {
            Some(Self::of(j))
        } else {
            None
        }
    }

    /// The values that the items denote, where every item denotes one.
    pub open spec fn decode_list(items: Seq<JsonView>) -> Option<Seq<ToolInfoView>> {
        if forall|i: int| 0 <= i < items.len() ==> Self::decode(#[trigger] items[i]) is Some {
            Some(Seq::new(items.len(), |i: int| Self::decode(items[i]).unwrap()))
        } else {
            None
        }
    }

    /// The list in the field `key`, which must be there.
    pub open spec fn decode_list_field(j: JsonView, key: Seq<char>) -> Option<Seq<ToolInfoView>> {
        match j.get(key) {
            Some(JsonView::Array(items)) => Self::decode_list(items),
            _ => None,
        }
    }
}

impl ToolInfo {
    /// Reads a [`ToolInfo`] from a JSON object.
    pub fn decode(j: &Json) -> (r: Option<ToolInfo>)
        ensures
            r.deep_view() == ToolInfoView::decode(j@),
    {
        if !j.is_object() {
            return None;
        }
        let name = match req_text_exec(j, "name") {
            Some(v) => v,
            None => {
                return None;
            },
        };
        let description = match opt_text_exec(j, "description") {
            Some(v) => v,
            None => {
                return None;
            },
        };
        let owner = match OwnerInfo::decode_optional(j, "owner") {
            Some(v) => v,
            None => {
                return None;
            },
        };
        Some(ToolInfo { name, description, owner })
    }

    pub fn decode_list(items: &Vec<Json>) -> (r: Option<Vec<ToolInfo>>)
        ensures
            r.deep_view() == ToolInfoView::decode_list(items.deep_view()),
    {
        let mut out: Vec<ToolInfo> = Vec::new();
        let mut i: usize = 0;
        while i < items.len()
            invariant
                i <= items.len(),
                out.len() == i,
                forall|k: int| 0 <= k < i ==> ToolInfoView::decode(items@[k]@) == Some(#[trigger] out@[k]@),
            decreases items.len() - i,
        {
            match ToolInfo::decode(&items[i]) {
                Some(t) => {
                    out.push(t);
                },
                None => {
                    assert(ToolInfoView::decode(items.deep_view()[i as int]) is None);
                    return None;
                },
            }
            i += 1;
        }
        proof {
            let views = items.deep_view();
            assert forall|k: int| 0 <= k < views.len() implies ToolInfoView::decode(
                #[trigger] views[k],
            ) is Some by {
                assert(ToolInfoView::decode(items@[k]@) == Some(out@[k]@));
            }
            assert(out.deep_view() =~= ToolInfoView::decode_list(views).unwrap());
        }
        Some(out)
    }

    pub fn decode_list_field(j: &Json, key: &str) -> (r: Option<Vec<ToolInfo>>)
        ensures
            r.deep_view() == ToolInfoView::decode_list_field(j@, key@),
    {
        match j.get(key) {
            Some(v) => match v.as_array() {
                Some(items) => ToolInfo::decode_list(items),
                None => None,
            },
            None => None,
        }
    }
}

/// A resource in a snapshot.
#[derive(Debug, Clone)]
pub struct ResourceInfo {
    pub uri: String,
    pub name: String,
    pub description: Option<String>,
    pub owner: Option<OwnerInfo>,
}

/// The mathematical value of a [`ResourceInfo`].
pub struct ResourceInfoView {
    pub uri: Seq<char>,
    pub name: Seq<char>,
    pub description: Option<Seq<char>>,
    pub owner: Option<OwnerInfoView>,
}

impl View for ResourceInfo {
    type V = ResourceInfoView;

    open spec fn view(&self) -> ResourceInfoView {
        ResourceInfoView {
            uri: self.uri@,
            name: self.name@,
            description: self.description.deep_view(),
            owner: self.owner.deep_view(),
        }
    }
}

impl DeepView for ResourceInfo {
    type V = ResourceInfoView;

    open spec fn deep_view(&self) -> ResourceInfoView {
        self@
    }
}

impl ResourceInfoView {
    /// Whether `j` is an object that holds every field of a [`ResourceInfo`] in its kind.
    pub open spec fn fits(j: JsonView) -> bool {
        &&& j is Object
        &&& req_text(j, "uri"@) is Some
        &&& req_text(j, "name"@) is Some
        &&& opt_text(j, "description"@) is Some
        &&& OwnerInfoView::decode_optional(j, "owner"@) is Some
    }

    /// The value that the fields of `j` give.
    pub open spec fn of(j: JsonView) -> ResourceInfoView {
        ResourceInfoView {
            uri: req_text(j, "uri"@).unwrap(),
            name: req_text(j, "name"@).unwrap(),
            description: opt_text(j, "description"@).unwrap(),
            owner: OwnerInfoView::decode_optional(j, "owner"@).unwrap(),
        }
    }

    /// The [`ResourceInfo`] that `j` denotes, if it denotes one.
    pub open spec fn decode(j: JsonView) -> Option<ResourceInfoView> {
        if Self::fits(j) {
            Some(Self::of(j))
        } else {
            None
        }
    }

    /// The values that the items denote, where every item denotes one.
    pub open spec fn decode_list(items: Seq<JsonView>) -> Option<Seq<ResourceInfoView>> {
        if forall|i: int| 0 <= i < items.len() ==> Self::decode(#[trigger] items[i]) is Some {
            Some(Seq::new(items.len(), |i: int| Self::decode(items[i]).unwrap()))
        } else {
            None
        }
    }

    /// The list in the field `key`, which must be there.
    pub open spec fn decode_list_field(j: JsonView, key: Seq<char>) -> Option<Seq<ResourceInfoView>> {
        match j.get(key) {
            Some(JsonView::Array(items)) => Self::decode_list(items),
            _ => None,
        }
    }
}

impl ResourceInfo {
    /// Reads a [`ResourceInfo`] from a JSON object.
    pub fn decode(j: &Json) -> (r: Option<ResourceInfo>)
        ensures
            r.deep_view() == ResourceInfoView::decode(j@),
    {
        if !j.is_object() {
            return None;
        }
        let uri = match req_text_exec(j, "uri") {
            Some(v) => v,
            None => {
                return None;
            },
        };
        let name = match req_text_exec(j, "name") {
            Some(v) => v,
            None => {
                return None;
            },
        };
        let description = match opt_text_exec(j, "description") {
            Some(v) => v,
            None => {
                return None;
            },
        };
        let owner = match OwnerInfo::decode_optional(j, "owner") {
            Some(v) => v,
            None => {
                return None;
            },
        };
        Some(ResourceInfo { uri, name, description, owner })
    }

    pub fn decode_list(items: &Vec<Json>) -> (r: Option<Vec<ResourceInfo>>)
        ensures
            r.deep_view() == ResourceInfoView::decode_list(items.deep_view()),
    {
        let mut out: Vec<ResourceInfo> = Vec::new();
        let mut i: usize = 0;
        while i < items.len()
            invariant
                i <= items.len(),
                out.len() == i,
                forall|k: int| 0 <= k < i ==> ResourceInfoView::decode(items@[k]@) == Some(#[trigger] out@[k]@),
            decreases items.len() - i,
        {
            match ResourceInfo::decode(&items[i]) {
                Some(t) => {
                    out.push(t);
                },
                None => {
                    assert(ResourceInfoView::decode(items.deep_view()[i as int]) is None);
                    return None;
                },
            }
            i += 1;
        }
        proof {
            let views = items.deep_view();
            assert forall|k: int| 0 <= k < views.len() implies ResourceInfoView::decode(
                #[trigger] views[k],
            ) is Some by {
                assert(ResourceInfoView::decode(items@[k]@) == Some(out@[k]@));
            }
            assert(out.deep_view() =~= ResourceInfoView::decode_list(views).unwrap());
        }
        Some(out)
    }

    pub fn decode_list_field(j: &Json, key: &str) -> (r: Option<Vec<ResourceInfo>>)
        ensures
            r.deep_view() == ResourceInfoView::decode_list_field(j@, key@),
    {
        match j.get(key) {
            Some(v) => match v.as_array() {
                Some(items) => ResourceInfo::decode_list(items),
                None => None,
            },
            None => None,
        }
    }
}

/// A prompt in a snapshot.
#[derive(Debug, Clone)]
pub struct PromptInfo {
    pub name: String,
    pub description: Option<String>,
    pub owner: Option<OwnerInfo>,
}

/// The mathematical value of a [`PromptInfo`].
pub struct PromptInfoView {
    pub name: Seq<char>,
    pub description: Option<Seq<char>>,
    pub owner: Option<OwnerInfoView>,
}

impl View for PromptInfo {
    type V = PromptInfoView;

    open spec fn view(&self) -> PromptInfoView {
        PromptInfoView {
            name: self.name@,
            description: self.description.deep_view(),
            owner: self.owner.deep_view(),
        }
    }
}

impl DeepView for PromptInfo {
    type V = PromptInfoView;

    open spec fn deep_view(&self) -> PromptInfoView {
        self@
    }
}

impl PromptInfoView {
    /// Whether `j` is an object that holds every field of a [`PromptInfo`] in its kind.
    pub open spec fn fits(j: JsonView) -> bool {
        &&& j is Object
        &&& req_text(j, "name"@) is Some
        &&& opt_text(j, "description"@) is Some
        &&& OwnerInfoView::decode_optional(j, "owner"@) is Some
    }

    /// The value that the fields of `j` give.
    pub open spec fn of(j: JsonView) -> PromptInfoView {
        PromptInfoView {
            name: req_text(j, "name"@).unwrap(),
            description: opt_text(j, "description"@).unwrap(),
            owner: OwnerInfoView::decode_optional(j, "owner"@).unwrap(),
        }
    }

    /// The [`PromptInfo`] that `j` denotes, if it denotes one.
    pub open spec fn decode(j: JsonView) -> Option<PromptInfoView> {
        if Self::fits(j) {
            Some(Self::of(j))
        } else {
            None
        }
    }

    /// The values that the items denote, where every item denotes one.
    pub open spec fn decode_list(items: Seq<JsonView>) -> Option<Seq<PromptInfoView>> {
        if forall|i: int| 0 <= i < items.len() ==> Self::decode(#[trigger] items[i]) is Some {
            Some(Seq::new(items.len(), |i: int| Self::decode(items[i]).unwrap()))
        } else {
            None
        }
    }

    /// The list in the field `key`, which must be there.
    pub open spec fn decode_list_field(j: JsonView, key: Seq<char>) -> Option<Seq<PromptInfoView>> {
        match j.get(key) {
            Some(JsonView::Array(items)) => Self::decode_list(items),
            _ => None,
        }
    }
}

impl PromptInfo {
    /// Reads a [`PromptInfo`] from a JSON object.
    pub fn decode(j: &Json) -> (r: Option<PromptInfo>)
        ensures
            r.deep_view() == PromptInfoView::decode(j@),
    {
        if !j.is_object() {
            return None;
        }
        let name = match req_text_exec(j, "name") {
            Some(v) => v,
            None => {
                return None;
            },
        };
        let description = match opt_text_exec(j, "description") {
            Some(v) => v,
            None => {
                return None;
            },
        };
        let owner = match OwnerInfo::decode_optional(j, "owner") {
            Some(v) => v,
            None => {
                return None;
            },
        };
        Some(PromptInfo { name, description, owner })
    }

    pub fn decode_list(items: &Vec<Json>) -> (r: Option<Vec<PromptInfo>>)
        ensures
            r.deep_view() == PromptInfoView::decode_list(items.deep_view()),
    {
        let mut out: Vec<PromptInfo> = Vec::new();
        let mut i: usize = 0;
        while i < items.len()
            invariant
                i <= items.len(),
                out.len() == i,
                forall|k: int| 0 <= k < i ==> PromptInfoView::decode(items@[k]@) == Some(#[trigger] out@[k]@),
            decreases items.len() - i,
        {
            match PromptInfo::decode(&items[i]) {
                Some(t) => {
                    out.push(t);
                },
                None => {
                    assert(PromptInfoView::decode(items.deep_view()[i as int]) is None);
                    return None;
                },
            }
            i += 1;
        }
        proof {
            let views = items.deep_view();
            assert forall|k: int| 0 <= k < views.len() implies PromptInfoView::decode(
                #[trigger] views[k],
            ) is Some by {
                assert(PromptInfoView::decode(items@[k]@) == Some(out@[k]@));
            }
            assert(out.deep_view() =~= PromptInfoView::decode_list(views).unwrap());
        }
        Some(out)
    }

    pub fn decode_list_field(j: &Json, key: &str) -> (r: Option<Vec<PromptInfo>>)
        ensures
            r.deep_view() == PromptInfoView::decode_list_field(j@, key@),
    {
        match j.get(key) {
            Some(v) => match v.as_array() {
                Some(items) => PromptInfo::decode_list(items),
                None => None,
            },
            None => None,
        }
    }
}

/// An agent in a snapshot.
#[derive(Debug, Clone)]
pub struct AgentInfo {
    pub name: String,
    pub description: Option<String>,
    pub owner: Option<OwnerInfo>,
}

/// The mathematical value of a [`AgentInfo`].
pub struct AgentInfoView {
    pub name: Seq<char>,
    pub description: Option<Seq<char>>,
    pub owner: Option<OwnerInfoView>,
}

impl View for AgentInfo {
    type V = AgentInfoView;

    open spec fn view(&self) -> AgentInfoView {
        AgentInfoView {
            name: self.name@,
            description: self.description.deep_view(),
            owner: self.owner.deep_view(),
        }
    }
}

impl DeepView for AgentInfo {
    type V = AgentInfoView;

    open spec fn deep_view(&self) -> AgentInfoView {
        self@
    }
}

impl AgentInfoView {
    /// Whether `j` is an object that holds every field of a [`AgentInfo`] in its kind.
    pub open spec fn fits(j: JsonView) -> bool {
        &&& j is Object
        &&& req_text(j, "name"@) is Some
        &&& opt_text(j, "description"@) is Some
        &&& OwnerInfoView::decode_optional(j, "owner"@) is Some
    }

    /// The value that the fields of `j` give.
    pub open spec fn of(j: JsonView) -> AgentInfoView {
        AgentInfoView {
            name: req_text(j, "name"@).unwrap(),
            description: opt_text(j, "description"@).unwrap(),
            owner: OwnerInfoView::decode_optional(j, "owner"@).unwrap(),
        }
    }

    /// The [`AgentInfo`] that `j` denotes, if it denotes one.
    pub open spec fn decode(j: JsonView) -> Option<AgentInfoView> {
        if Self::fits(j) {
            Some(Self::of(j))
        } else {
            None
        }
    }

    /// The values that the items denote, where every item denotes one.
    pub open spec fn decode_list(items: Seq<JsonView>) -> Option<Seq<AgentInfoView>> {
        if forall|i: int| 0 <= i < items.len() ==> Self::decode(#[trigger] items[i]) is Some {
            Some(Seq::new(items.len(), |i: int| Self::decode(items[i]).unwrap()))
        } else {
            None
        }
    }

    /// The list in the field `key`, which must be there.
    pub open spec fn decode_list_field(j: JsonView, key: Seq<char>) -> Option<Seq<AgentInfoView>> {
        match j.get(key) {
            Some(JsonView::Array(items)) => Self::decode_list(items),
            _ => None,
        }
    }
}

impl AgentInfo {
    /// Reads a [`AgentInfo`] from a JSON object.
    pub fn decode(j: &Json) -> (r: Option<AgentInfo>)
        ensures
            r.deep_view() == AgentInfoView::decode(j@),
    {
        if !j.is_object() {
            return None;
        }
        let name = match req_text_exec(j, "name") {
            Some(v) => v,
            None => {
                return None;
            },
        };
        let description = match opt_text_exec(j, "description") {
            Some(v) => v,
            None => {
                return None;
            },
        };
        let owner = match OwnerInfo::decode_optional(j, "owner") {
            Some(v) => v,
            None => {
                return None;
            },
        };
        Some(AgentInfo { name, description, owner })
    }

    pub fn decode_list(items: &Vec<Json>) -> (r: Option<Vec<AgentInfo>>)
        ensures
            r.deep_view() == AgentInfoView::decode_list(items.deep_view()),
    {
        let mut out: Vec<AgentInfo> = Vec::new();
        let mut i: usize = 0;
        while i < items.len()
            invariant
                i <= items.len(),
                out.len() == i,
                forall|k: int| 0 <= k < i ==> AgentInfoView::decode(items@[k]@) == Some(#[trigger] out@[k]@),
            decreases items.len() - i,
        {
            match AgentInfo::decode(&items[i]) {
                Some(t) => {
                    out.push(t);
                },
                None => {
                    assert(AgentInfoView::decode(items.deep_view()[i as int]) is None);
                    return None;
                },
            }
            i += 1;
        }
        proof {
            let views = items.deep_view();
            assert forall|k: int| 0 <= k < views.len() implies AgentInfoView::decode(
                #[trigger] views[k],
            ) is Some by {
                assert(AgentInfoView::decode(items@[k]@) == Some(out@[k]@));
            }
            assert(out.deep_view() =~= AgentInfoView::decode_list(views).unwrap());
        }
        Some(out)
    }

    pub fn decode_list_field(j: &Json, key: &str) -> (r: Option<Vec<AgentInfo>>)
        ensures
            r.deep_view() == AgentInfoView::decode_list_field(j@, key@),
    {
        match j.get(key) {
            Some(v) => match v.as_array() {
                Some(items) => AgentInfo::decode_list(items),
                None => None,
            },
            None => None,
        }
    }
}

/// A plugin in a snapshot.
#[derive(Debug, Clone)]
pub struct PluginInfoSnapshot {
    pub name: String,
    pub version: Option<String>,
    pub owner: Option<OwnerInfo>,
}

/// The mathematical value of a [`PluginInfoSnapshot`].
pub struct PluginInfoSnapshotView {
    pub name: Seq<char>,
    pub version: Option<Seq<char>>,
    pub owner: Option<OwnerInfoView>,
}

impl View for PluginInfoSnapshot {
    type V = PluginInfoSnapshotView;

    open spec fn view(&self) -> PluginInfoSnapshotView {
        PluginInfoSnapshotView {
            name: self.name@,
            version: self.version.deep_view(),
            owner: self.owner.deep_view(),
        }
    }
}

impl DeepView for PluginInfoSnapshot {
    type V = PluginInfoSnapshotView;

    open spec fn deep_view(&self) -> PluginInfoSnapshotView {
        self@
    }
}

impl PluginInfoSnapshotView {
    /// Whether `j` is an object that holds every field of a [`PluginInfoSnapshot`] in its kind.
    pub open spec fn fits(j: JsonView) -> bool {
        &&& j is Object
        &&& req_text(j, "name"@) is Some
        &&& opt_text(j, "version"@) is Some
        &&& OwnerInfoView::decode_optional(j, "owner"@) is Some
    }

    /// The value that the fields of `j` give.
    pub open spec fn of(j: JsonView) -> PluginInfoSnapshotView {
        PluginInfoSnapshotView {
            name: req_text(j, "name"@).unwrap(),
            version: opt_text(j, "version"@).unwrap(),
            owner: OwnerInfoView::decode_optional(j, "owner"@).unwrap(),
        }
    }

    /// The [`PluginInfoSnapshot`] that `j` denotes, if it denotes one.
    pub open spec fn decode(j: JsonView) -> Option<PluginInfoSnapshotView> {
        if Self::fits(j) {
            Some(Self::of(j))
        } else {
            None
        }
    }

    /// The values that the items denote, where every item denotes one.
    pub open spec fn decode_list(items: Seq<JsonView>) -> Option<Seq<PluginInfoSnapshotView>> {
        if forall|i: int| 0 <= i < items.len() ==> Self::decode(#[trigger] items[i]) is Some {
            Some(Seq::new(items.len(), |i: int| Self::decode(items[i]).unwrap()))
        } else {
            None
        }
    }

    /// The list in the field `key`; a missing field gives the empty list.
    pub open spec fn decode_list_or_empty(j: JsonView, key: Seq<char>) -> Option<Seq<PluginInfoSnapshotView>> {
        match j.get(key) {
            None => Some(Seq::empty()),
            Some(JsonView::Array(items)) => Self::decode_list(items),
            _ => None,
        }
    }
}

impl PluginInfoSnapshot {
    /// Reads a [`PluginInfoSnapshot`] from a JSON object.
    pub fn decode(j: &Json) -> (r: Option<PluginInfoSnapshot>)
        ensures
            r.deep_view() == PluginInfoSnapshotView::decode(j@),
    {
        if !j.is_object() {
            return None;
        }
        let name = match req_text_exec(j, "name") {
            Some(v) => v,
            None => {
                return None;
            },
        };
        let version = match opt_text_exec(j, "version") {
            Some(v) => v,
            None => {
                return None;
            },
        };
        let owner = match OwnerInfo::decode_optional(j, "owner") {
            Some(v) => v,
            None => {
                return None;
            },
        };
        Some(PluginInfoSnapshot { name, version, owner })
    }

    pub fn decode_list(items: &Vec<Json>) -> (r: Option<Vec<PluginInfoSnapshot>>)
        ensures
            r.deep_view() == PluginInfoSnapshotView::decode_list(items.deep_view()),
    {
        let mut out: Vec<PluginInfoSnapshot> = Vec::new();
        let mut i: usize = 0;
        while i < items.len()
            invariant
                i <= items.len(),
                out.len() == i,
                forall|k: int| 0 <= k < i ==> PluginInfoSnapshotView::decode(items@[k]@) == Some(#[trigger] out@[k]@),
            decreases items.len() - i,
        {
            match PluginInfoSnapshot::decode(&items[i]) {
                Some(t) => {
                    out.push(t);
                },
                None => {
                    assert(PluginInfoSnapshotView::decode(items.deep_view()[i as int]) is None);
                    return None;
                },
            }
            i += 1;
        }
        proof {
            let views = items.deep_view();
            assert forall|k: int| 0 <= k < views.len() implies PluginInfoSnapshotView::decode(
                #[trigger] views[k],
            ) is Some by {
                assert(PluginInfoSnapshotView::decode(items@[k]@) == Some(out@[k]@));
            }
            assert(out.deep_view() =~= PluginInfoSnapshotView::decode_list(views).unwrap());
        }
        Some(out)
    }

    pub fn decode_list_or_empty(j: &Json, key: &str) -> (r: Option<Vec<PluginInfoSnapshot>>)
        ensures
            r.deep_view() == PluginInfoSnapshotView::decode_list_or_empty(j@, key@),
    {
        match j.get(key) {
            None => {
                let out: Vec<PluginInfoSnapshot> = Vec::new();
                assert(out.deep_view() =~= Seq::<PluginInfoSnapshotView>::empty());
                Some(out)
            },
            Some(v) => match v.as_array() {
                Some(items) => PluginInfoSnapshot::decode_list(items),
                None => None,
            },
        }
    }
}

/// An adapter in a snapshot.
#[derive(Debug, Clone)]
pub struct AdapterInfoSnapshot {
    pub name: String,
    pub description: Option<String>,
    pub owner: Option<OwnerInfo>,
}

/// The mathematical value of a [`AdapterInfoSnapshot`].
pub struct AdapterInfoSnapshotView {
    pub name: Seq<char>,
    pub description: Option<Seq<char>>,
    pub owner: Option<OwnerInfoView>,
}

impl View for AdapterInfoSnapshot {
    type V = AdapterInfoSnapshotView;

    open spec fn view(&self) -> AdapterInfoSnapshotView {
        AdapterInfoSnapshotView {
            name: self.name@,
            description: self.description.deep_view(),
            owner: self.owner.deep_view(),
        }
    }
}

impl DeepView for AdapterInfoSnapshot {
    type V = AdapterInfoSnapshotView;

    open spec fn deep_view(&self) -> AdapterInfoSnapshotView {
        self@
    }
}

impl AdapterInfoSnapshotView {
    /// Whether `j` is an object that holds every field of a [`AdapterInfoSnapshot`] in its kind.
    pub open spec fn fits(j: JsonView) -> bool {
        &&& j is Object
        &&& req_text(j, "name"@) is Some
        &&& opt_text(j, "description"@) is Some
        &&& OwnerInfoView::decode_optional(j, "owner"@) is Some
    }

    /// The value that the fields of `j` give.
    pub open spec fn of(j: JsonView) -> AdapterInfoSnapshotView {
        AdapterInfoSnapshotView {
            name: req_text(j, "name"@).unwrap(),
            description: opt_text(j, "description"@).unwrap(),
            owner: OwnerInfoView::decode_optional(j, "owner"@).unwrap(),
        }
    }

    /// The [`AdapterInfoSnapshot`] that `j` denotes, if it denotes one.
    pub open spec fn decode(j: JsonView) -> Option<AdapterInfoSnapshotView> {
        if Self::fits(j) {
            Some(Self::of(j))
        } else {
            None
        }
    }

    /// The values that the items denote, where every item denotes one.
    pub open spec fn decode_list(items: Seq<JsonView>) -> Option<Seq<AdapterInfoSnapshotView>> {
        if forall|i: int| 0 <= i < items.len() ==> Self::decode(#[trigger] items[i]) is Some {
            Some(Seq::new(items.len(), |i: int| Self::decode(items[i]).unwrap()))
        } else {
            None
        }
    }

    /// The list in the field `key`; a missing field gives the empty list.
    pub open spec fn decode_list_or_empty(j: JsonView, key: Seq<char>) -> Option<Seq<AdapterInfoSnapshotView>> {
        match j.get(key) {
            None => Some(Seq::empty()),
            Some(JsonView::Array(items)) => Self::decode_list(items),
            _ => None,
        }
    }
}

impl AdapterInfoSnapshot {
    /// Reads a [`AdapterInfoSnapshot`] from a JSON object.
    pub fn decode(j: &Json) -> (r: Option<AdapterInfoSnapshot>)
        ensures
            r.deep_view() == AdapterInfoSnapshotView::decode(j@),
    {
        if !j.is_object() {
            return None;
        }
        let name = match req_text_exec(j, "name") {
            Some(v) => v,
            None => {
                return None;
            },
        };
        let description = match opt_text_exec(j, "description") {
            Some(v) => v,
            None => {
                return None;
            },
        };
        let owner = match OwnerInfo::decode_optional(j, "owner") {
            Some(v) => v,
            None => {
                return None;
            },
        };
        Some(AdapterInfoSnapshot { name, description, owner })
    }

    pub fn decode_list(items: &Vec<Json>) -> (r: Option<Vec<AdapterInfoSnapshot>>)
        ensures
            r.deep_view() == AdapterInfoSnapshotView::decode_list(items.deep_view()),
    {
        let mut out: Vec<AdapterInfoSnapshot> = Vec::new();
        let mut i: usize = 0;
        while i < items.len()
            invariant
                i <= items.len(),
                out.len() == i,
                forall|k: int| 0 <= k < i ==> AdapterInfoSnapshotView::decode(items@[k]@) == Some(#[trigger] out@[k]@),
            decreases items.len() - i,
        {
            match AdapterInfoSnapshot::decode(&items[i]) {
                Some(t) => {
                    out.push(t);
                },
                None => {
                    assert(AdapterInfoSnapshotView::decode(items.deep_view()[i as int]) is None);
                    return None;
                },
            }
            i += 1;
        }
        proof {
            let views = items.deep_view();
            assert forall|k: int| 0 <= k < views.len() implies AdapterInfoSnapshotView::decode(
                #[trigger] views[k],
            ) is Some by {
                assert(AdapterInfoSnapshotView::decode(items@[k]@) == Some(out@[k]@));
            }
            assert(out.deep_view() =~= AdapterInfoSnapshotView::decode_list(views).unwrap());
        }
        Some(out)
    }

    pub fn decode_list_or_empty(j: &Json, key: &str) -> (r: Option<Vec<AdapterInfoSnapshot>>)
        ensures
            r.deep_view() == AdapterInfoSnapshotView::decode_list_or_empty(j@, key@),
    {
        match j.get(key) {
            None => {
                let out: Vec<AdapterInfoSnapshot> = Vec::new();
                assert(out.deep_view() =~= Seq::<AdapterInfoSnapshotView>::empty());
                Some(out)
            },
            Some(v) => match v.as_array() {
                Some(items) => AdapterInfoSnapshot::decode_list(items),
                None => None,
            },
        }
    }
}

/// One scope of a snapshot, with all that is registered in it.
#[derive(Debug, Clone)]
pub struct ScopeState {
    pub id: String,
    pub tools: Vec<ToolInfo>,
    pub resources: Vec<ResourceInfo>,
    pub prompts: Vec<PromptInfo>,
    pub agents: Vec<AgentInfo>,
    /// Empty where the snapshot names none.
    pub plugins: Vec<PluginInfoSnapshot>,
    /// Empty where the snapshot names none.
    pub adapters: Vec<AdapterInfoSnapshot>,
}

/// The mathematical value of a [`ScopeState`].
pub struct ScopeStateView {
    pub id: Seq<char>,
    pub tools: Seq<ToolInfoView>,
    pub resources: Seq<ResourceInfoView>,
    pub prompts: Seq<PromptInfoView>,
    pub agents: Seq<AgentInfoView>,
    pub plugins: Seq<PluginInfoSnapshotView>,
    pub adapters: Seq<AdapterInfoSnapshotView>,
}

impl View for ScopeState {
    type V = ScopeStateView;

    open spec fn view(&self) -> ScopeStateView {
        ScopeStateView {
            id: self.id@,
            tools: self.tools.deep_view(),
            resources: self.resources.deep_view(),
            prompts: self.prompts.deep_view(),
            agents: self.agents.deep_view(),
            plugins: self.plugins.deep_view(),
            adapters: self.adapters.deep_view(),
        }
    }
}

impl DeepView for ScopeState {
    type V = ScopeStateView;

    open spec fn deep_view(&self) -> ScopeStateView {
        self@
    }
}

impl ScopeStateView {
    /// Whether `j` is an object that holds every field of a [`ScopeState`] in its kind.
    pub open spec fn fits(j: JsonView) -> bool {
        &&& j is Object
        &&& req_text(j, "id"@) is Some
        &&& ToolInfoView::decode_list_field(j, "tools"@) is Some
        &&& ResourceInfoView::decode_list_field(j, "resources"@) is Some
        &&& PromptInfoView::decode_list_field(j, "prompts"@) is Some
        &&& AgentInfoView::decode_list_field(j, "agents"@) is Some
        &&& PluginInfoSnapshotView::decode_list_or_empty(j, "plugins"@) is Some
        &&& AdapterInfoSnapshotView::decode_list_or_empty(j, "adapters"@) is Some
    }

    /// The value that the fields of `j` give.
    pub open spec fn of(j: JsonView) -> ScopeStateView {
        ScopeStateView {
            id: req_text(j, "id"@).unwrap(),
            tools: ToolInfoView::decode_list_field(j, "tools"@).unwrap(),
            resources: ResourceInfoView::decode_list_field(j, "resources"@).unwrap(),
            prompts: PromptInfoView::decode_list_field(j, "prompts"@).unwrap(),
            agents: AgentInfoView::decode_list_field(j, "agents"@).unwrap(),
            plugins: PluginInfoSnapshotView::decode_list_or_empty(j, "plugins"@).unwrap(),
            adapters: AdapterInfoSnapshotView::decode_list_or_empty(j, "adapters"@).unwrap(),
        }
    }

    /// The [`ScopeState`] that `j` denotes, if it denotes one.
    pub open spec fn decode(j: JsonView) -> Option<ScopeStateView> {
        if Self::fits(j) {
            Some(Self::of(j))
        } else {
            None
        }
    }

    /// The values that the items denote, where every item denotes one.
    pub open spec fn decode_list(items: Seq<JsonView>) -> Option<Seq<ScopeStateView>> {
        if forall|i: int| 0 <= i < items.len() ==> Self::decode(#[trigger] items[i]) is Some {
            Some(Seq::new(items.len(), |i: int| Self::decode(items[i]).unwrap()))
        } else {
            None
        }
    }

    /// The list in the field `key`, which must be there.
    pub open spec fn decode_list_field(j: JsonView, key: Seq<char>) -> Option<Seq<ScopeStateView>> {
        match j.get(key) {
            Some(JsonView::Array(items)) => Self::decode_list(items),
            _ => None,
        }
    }
}

impl ScopeState {
    /// Reads a [`ScopeState`] from a JSON object.
    pub fn decode(j: &Json) -> (r: Option<ScopeState>)
        ensures
            r.deep_view() == ScopeStateView::decode(j@),
    {
        if !j.is_object() {
            return None;
        }
        let id = match req_text_exec(j, "id") {
            Some(v) => v,
            None => {
                return None;
            },
        };
        let tools = match ToolInfo::decode_list_field(j, "tools") {
            Some(v) => v,
            None => {
                return None;
            },
        };
        let resources = match ResourceInfo::decode_list_field(j, "resources") {
            Some(v) => v,
            None => {
                return None;
            },
        };
        let prompts = match PromptInfo::decode_list_field(j, "prompts") {
            Some(v) => v,
            None => {
                return None;
            },
        };
        let agents = match AgentInfo::decode_list_field(j, "agents") {
            Some(v) => v,
            None => {
                return None;
            },
        };
        let plugins = match PluginInfoSnapshot::decode_list_or_empty(j, "plugins") {
            Some(v) => v,
            None => {
                return None;
            },
        };
        let adapters = match AdapterInfoSnapshot::decode_list_or_empty(j, "adapters") {
            Some(v) => v,
            None => {
                return None;
            },
        };
        Some(ScopeState { id, tools, resources, prompts, agents, plugins, adapters })
    }

    pub fn decode_list(items: &Vec<Json>) -> (r: Option<Vec<ScopeState>>)
        ensures
            r.deep_view() == ScopeStateView::decode_list(items.deep_view()),
    {
        let mut out: Vec<ScopeState> = Vec::new();
        let mut i: usize = 0;
        while i < items.len()
            invariant
                i <= items.len(),
                out.len() == i,
                forall|k: int| 0 <= k < i ==> ScopeStateView::decode(items@[k]@) == Some(#[trigger] out@[k]@),
            decreases items.len() - i,
        {
            match ScopeState::decode(&items[i]) {
                Some(t) => {
                    out.push(t);
                },
                None => {
                    assert(ScopeStateView::decode(items.deep_view()[i as int]) is None);
                    return None;
                },
            }
            i += 1;
        }
        proof {
            let views = items.deep_view();
            assert forall|k: int| 0 <= k < views.len() implies ScopeStateView::decode(
                #[trigger] views[k],
            ) is Some by {
                assert(ScopeStateView::decode(items@[k]@) == Some(out@[k]@));
            }
            assert(out.deep_view() =~= ScopeStateView::decode_list(views).unwrap());
        }
        Some(out)
    }

    pub fn decode_list_field(j: &Json, key: &str) -> (r: Option<Vec<ScopeState>>)
        ensures
            r.deep_view() == ScopeStateView::decode_list_field(j@, key@),
    {
        match j.get(key) {
            Some(v) => match v.as_array() {
                Some(items) => ScopeState::decode_list(items),
                None => None,
            },
            None => None,
        }
    }
}

/// The user that a session of a snapshot is authenticated as.
#[derive(Debug)]
pub struct AuthUserState {
    pub name: Option<String>,
    pub email: Option<String>,
}

/// The mathematical value of a [`AuthUserState`].
pub struct AuthUserStateView {
    pub name: Option<Seq<char>>,
    pub email: Option<Seq<char>>,
}

impl View for AuthUserState {
    type V = AuthUserStateView;

    open spec fn view(&self) -> AuthUserStateView {
        AuthUserStateView {
            name: self.name.deep_view(),
            email: self.email.deep_view(),
        }
    }
}

impl DeepView for AuthUserState {
    type V = AuthUserStateView;

    open spec fn deep_view(&self) -> AuthUserStateView {
        self@
    }
}

impl Clone for AuthUserState {
    fn clone(&self) -> (r: Self)
        ensures
            r@ == self@,
    {
        AuthUserState {
            name: self.name.clone(),
            email: self.email.clone(),
        }
    }
}

impl AuthUserStateView {
    /// Whether `j` is an object that holds every field of a [`AuthUserState`] in its kind.
    pub open spec fn fits(j: JsonView) -> bool {
        &&& j is Object
        &&& opt_text(j, "name"@) is Some
        &&& opt_text(j, "email"@) is Some
    }

    /// The value that the fields of `j` give.
    pub open spec fn of(j: JsonView) -> AuthUserStateView {
        AuthUserStateView {
            name: opt_text(j, "name"@).unwrap(),
            email: opt_text(j, "email"@).unwrap(),
        }
    }

    /// The [`AuthUserState`] that `j` denotes, if it denotes one.
    pub open spec fn decode(j: JsonView) -> Option<AuthUserStateView> {
        if Self::fits(j) {
            Some(Self::of(j))
        } else {
            None
        }
    }

    /// The value in the field `key`; a missing field and null give `Some(None)`.
    pub open spec fn decode_optional(j: JsonView, key: Seq<char>) -> Option<Option<AuthUserStateView>> {
        match j.get(key) {
            None => Some(None),
            Some(JsonView::Null) => Some(None),
            Some(v) => match Self::decode(v) {
                Some(t) => Some(Some(t)),
                None => None,
            },
        }
    }
}

impl AuthUserState {
    /// Reads a [`AuthUserState`] from a JSON object.
    pub fn decode(j: &Json) -> (r: Option<AuthUserState>)
        ensures
            r.deep_view() == AuthUserStateView::decode(j@),
    {
        if !j.is_object() {
            return None;
        }
        let name = match opt_text_exec(j, "name") {
            Some(v) => v,
            None => {
                return None;
            },
        };
        let email = match opt_text_exec(j, "email") {
            Some(v) => v,
            None => {
                return None;
            },
        };
        Some(AuthUserState { name, email })
    }

    pub fn decode_optional(j: &Json, key: &str) -> (r: Option<Option<AuthUserState>>)
        ensures
            r.deep_view() == AuthUserStateView::decode_optional(j@, key@),
    {
        match j.get(key) {
            None => Some(None),
            Some(Json::Null) => Some(None),
            Some(v) => match AuthUserState::decode(v) {
                Some(t) => Some(Some(t)),
                None => None,
            },
        }
    }
}

/// The client program of a session of a snapshot.
#[derive(Debug)]
pub struct ClientInfoState {
    pub name: String,
    pub version: String,
}

/// The mathematical value of a [`ClientInfoState`].
pub struct ClientInfoStateView {
    pub name: Seq<char>,
    pub version: Seq<char>,
}

impl View for ClientInfoState {
    type V = ClientInfoStateView;

    open spec fn view(&self) -> ClientInfoStateView {
        ClientInfoStateView {
            name: self.name@,
            version: self.version@,
        }
    }
}

impl DeepView for ClientInfoState {
    type V = ClientInfoStateView;

    open spec fn deep_view(&self) -> ClientInfoStateView {
        self@
    }
}

impl Clone for ClientInfoState {
    fn clone(&self) -> (r: Self)
        ensures
            r@ == self@,
    {
        ClientInfoState {
            name: self.name.clone(),
            version: self.version.clone(),
        }
    }
}

impl ClientInfoStateView {
    /// Whether `j` is an object that holds every field of a [`ClientInfoState`] in its kind.
    pub open spec fn fits(j: JsonView) -> bool {
        &&& j is Object
        &&& req_text(j, "name"@) is Some
        &&& req_text(j, "version"@) is Some
    }

    /// The value that the fields of `j` give.
    pub open spec fn of(j: JsonView) -> ClientInfoStateView {
        ClientInfoStateView {
            name: req_text(j, "name"@).unwrap(),
            version: req_text(j, "version"@).unwrap(),
        }
    }

    /// The [`ClientInfoState`] that `j` denotes, if it denotes one.
    pub open spec fn decode(j: JsonView) -> Option<ClientInfoStateView> {
        if Self::fits(j) {
            Some(Self::of(j))
        } else {
            None
        }
    }

    /// The value in the field `key`; a missing field and null give `Some(None)`.
    pub open spec fn decode_optional(j: JsonView, key: Seq<char>) -> Option<Option<ClientInfoStateView>> {
        match j.get(key) {
            None => Some(None),
            Some(JsonView::Null) => Some(None),
            Some(v) => match Self::decode(v) {
                Some(t) => Some(Some(t)),
                None => None,
            },
        }
    }
}

impl ClientInfoState {
    /// Reads a [`ClientInfoState`] from a JSON object.
    pub fn decode(j: &Json) -> (r: Option<ClientInfoState>)
        ensures
            r.deep_view() == ClientInfoStateView::decode(j@),
    {
        if !j.is_object() {
            return None;
        }
        let name = match req_text_exec(j, "name") {
            Some(v) => v,
            None => {
                return None;
            },
        };
        let version = match req_text_exec(j, "version") {
            Some(v) => v,
            None => {
                return None;
            },
        };
        Some(ClientInfoState { name, version })
    }

    pub fn decode_optional(j: &Json, key: &str) -> (r: Option<Option<ClientInfoState>>)
        ensures
            r.deep_view() == ClientInfoStateView::decode_optional(j@, key@),
    {
        match j.get(key) {
            None => Some(None),
            Some(Json::Null) => Some(None),
            Some(v) => match ClientInfoState::decode(v) {
                Some(t) => Some(Some(t)),
                None => None,
            },
        }
    }
}

/// A session of a snapshot.
#[derive(Debug, Clone)]
pub struct SessionState {
    pub scope_id: String,
    pub session_id: String,
    pub transport_type: String,
    pub client_info: Option<ClientInfoState>,
    pub connected_at: u64,
    /// One of public, transparent, orchestrated.
    pub auth_mode: Option<String>,
    pub auth_user: Option<AuthUserState>,
    pub is_anonymous: Option<bool>,
}

/// The mathematical value of a [`SessionState`].
pub struct SessionStateView {
    pub scope_id: Seq<char>,
    pub session_id: Seq<char>,
    pub transport_type: Seq<char>,
    pub client_info: Option<ClientInfoStateView>,
    pub connected_at: u64,
    pub auth_mode: Option<Seq<char>>,
    pub auth_user: Option<AuthUserStateView>,
    pub is_anonymous: Option<bool>,
}

impl View for SessionState {
    type V = SessionStateView;

    open spec fn view(&self) -> SessionStateView {
        SessionStateView {
            scope_id: self.scope_id@,
            session_id: self.session_id@,
            transport_type: self.transport_type@,
            client_info: self.client_info.deep_view(),
            connected_at: self.connected_at,
            auth_mode: self.auth_mode.deep_view(),
            auth_user: self.auth_user.deep_view(),
            is_anonymous: self.is_anonymous,
        }
    }
}

impl DeepView for SessionState {
    type V = SessionStateView;

    open spec fn deep_view(&self) -> SessionStateView {
        self@
    }
}

impl SessionStateView {
    /// Whether `j` is an object that holds every field of a [`SessionState`] in its kind.
    pub open spec fn fits(j: JsonView) -> bool {
        &&& j is Object
        &&& req_text(j, "scopeId"@) is Some
        &&& req_text(j, "sessionId"@) is Some
        &&& req_text(j, "transportType"@) is Some
        &&& ClientInfoStateView::decode_optional(j, "clientInfo"@) is Some
        &&& req_u64(j, "connectedAt"@) is Some
        &&& opt_text(j, "authMode"@) is Some
        &&& AuthUserStateView::decode_optional(j, "authUser"@) is Some
        &&& opt_bool(j, "isAnonymous"@) is Some
    }

    /// The value that the fields of `j` give.
    pub open spec fn of(j: JsonView) -> SessionStateView {
        SessionStateView {
            scope_id: req_text(j, "scopeId"@).unwrap(),
            session_id: req_text(j, "sessionId"@).unwrap(),
            transport_type: req_text(j, "transportType"@).unwrap(),
            client_info: ClientInfoStateView::decode_optional(j, "clientInfo"@).unwrap(),
            connected_at: req_u64(j, "connectedAt"@).unwrap(),
            auth_mode: opt_text(j, "authMode"@).unwrap(),
            auth_user: AuthUserStateView::decode_optional(j, "authUser"@).unwrap(),
            is_anonymous: opt_bool(j, "isAnonymous"@).unwrap(),
        }
    }

    /// The [`SessionState`] that `j` denotes, if it denotes one.
    pub open spec fn decode(j: JsonView) -> Option<SessionStateView> {
        if Self::fits(j) {
            Some(Self::of(j))
        } else {
            None
        }
    }

    /// The values that the items denote, where every item denotes one.
    pub open spec fn decode_list(items: Seq<JsonView>) -> Option<Seq<SessionStateView>> {
        if forall|i: int| 0 <= i < items.len() ==> Self::decode(#[trigger] items[i]) is Some {
            Some(Seq::new(items.len(), |i: int| Self::decode(items[i]).unwrap()))
        } else {
            None
        }
    }

    /// The list in the field `key`, which must be there.
    pub open spec fn decode_list_field(j: JsonView, key: Seq<char>) -> Option<Seq<SessionStateView>> {
        match j.get(key) {
            Some(JsonView::Array(items)) => Self::decode_list(items),
            _ => None,
        }
    }
}

impl SessionState {
    /// Reads a [`SessionState`] from a JSON object.
    pub fn decode(j: &Json) -> (r: Option<SessionState>)
        ensures
            r.deep_view() == SessionStateView::decode(j@),
    {
        if !j.is_object() {
            return None;
        }
        let scope_id = match req_text_exec(j, "scopeId") {
            Some(v) => v,
            None => {
                return None;
            },
        };
        let session_id = match req_text_exec(j, "sessionId") {
            Some(v) => v,
            None => {
                return None;
            },
        };
        let transport_type = match req_text_exec(j, "transportType") {
            Some(v) => v,
            None => {
                return None;
            },
        };
        let client_info = match ClientInfoState::decode_optional(j, "clientInfo") {
            Some(v) => v,
            None => {
                return None;
            },
        };
        let connected_at = match req_u64_exec(j, "connectedAt") {
            Some(v) => v,
            None => {
                return None;
            },
        };
        let auth_mode = match opt_text_exec(j, "authMode") {
            Some(v) => v,
            None => {
                return None;
            },
        };
        let auth_user = match AuthUserState::decode_optional(j, "authUser") {
            Some(v) => v,
            None => {
                return None;
            },
        };
        let is_anonymous = match opt_bool_exec(j, "isAnonymous") {
            Some(v) => v,
            None => {
                return None;
            },
        };
        Some(SessionState { scope_id, session_id, transport_type, client_info, connected_at, auth_mode, auth_user, is_anonymous })
    }

    pub fn decode_list(items: &Vec<Json>) -> (r: Option<Vec<SessionState>>)
        ensures
            r.deep_view() == SessionStateView::decode_list(items.deep_view()),
    {
        let mut out: Vec<SessionState> = Vec::new();
        let mut i: usize = 0;
        while i < items.len()
            invariant
                i <= items.len(),
                out.len() == i,
                forall|k: int| 0 <= k < i ==> SessionStateView::decode(items@[k]@) == Some(#[trigger] out@[k]@),
            decreases items.len() - i,
        {
            match SessionState::decode(&items[i]) {
                Some(t) => {
                    out.push(t);
                },
                None => {
                    assert(SessionStateView::decode(items.deep_view()[i as int]) is None);
                    return None;
                },
            }
            i += 1;
        }
        proof {
            let views = items.deep_view();
            assert forall|k: int| 0 <= k < views.len() implies SessionStateView::decode(
                #[trigger] views[k],
            ) is Some by {
                assert(SessionStateView::decode(items@[k]@) == Some(out@[k]@));
            }
            assert(out.deep_view() =~= SessionStateView::decode_list(views).unwrap());
        }
        Some(out)
    }

    pub fn decode_list_field(j: &Json, key: &str) -> (r: Option<Vec<SessionState>>)
        ensures
            r.deep_view() == SessionStateView::decode_list_field(j@, key@),
    {
        match j.get(key) {
            Some(v) => match v.as_array() {
                Some(items) => SessionState::decode_list(items),
                None => None,
            },
            None => None,
        }
    }
}

/// The server of a snapshot.
#[derive(Debug, Clone)]
pub struct ServerState {
    pub name: String,
    pub version: String,
    pub started_at: u64,
    pub capabilities: Json,
}

/// The mathematical value of a [`ServerState`].
pub struct ServerStateView {
    pub name: Seq<char>,
    pub version: Seq<char>,
    pub started_at: u64,
    pub capabilities: JsonView,
}

impl View for ServerState {
    type V = ServerStateView;

    open spec fn view(&self) -> ServerStateView {
        ServerStateView {
            name: self.name@,
            version: self.version@,
            started_at: self.started_at,
            capabilities: self.capabilities@,
        }
    }
}

impl DeepView for ServerState {
    type V = ServerStateView;

    open spec fn deep_view(&self) -> ServerStateView {
        self@
    }
}

impl ServerStateView {
    /// Whether `j` is an object that holds every field of a [`ServerState`] in its kind.
    pub open spec fn fits(j: JsonView) -> bool {
        &&& j is Object
        &&& req_text(j, "name"@) is Some
        &&& req_text(j, "version"@) is Some
        &&& req_u64(j, "startedAt"@) is Some
        &&& req_json(j, "capabilities"@) is Some
    }

    /// The value that the fields of `j` give.
    pub open spec fn of(j: JsonView) -> ServerStateView {
        ServerStateView {
            name: req_text(j, "name"@).unwrap(),
            version: req_text(j, "version"@).unwrap(),
            started_at: req_u64(j, "startedAt"@).unwrap(),
            capabilities: req_json(j, "capabilities"@).unwrap(),
        }
    }

    /// The [`ServerState`] that `j` denotes, if it denotes one.
    pub open spec fn decode(j: JsonView) -> Option<ServerStateView> {
        if Self::fits(j) {
            Some(Self::of(j))
        } else {
            None
        }
    }

    /// The value in the field `key`, which must be there.
    pub open spec fn decode_field(j: JsonView, key: Seq<char>) -> Option<ServerStateView> {
        match j.get(key) {
            Some(v) => Self::decode(v),
            None => None,
        }
    }
}

impl ServerState {
    /// Reads a [`ServerState`] from a JSON object.
    pub fn decode(j: &Json) -> (r: Option<ServerState>)
        ensures
            r.deep_view() == ServerStateView::decode(j@),
    {
        if !j.is_object() {
            return None;
        }
        let name = match req_text_exec(j, "name") {
            Some(v) => v,
            None => {
                return None;
            },
        };
        let version = match req_text_exec(j, "version") {
            Some(v) => v,
            None => {
                return None;
            },
        };
        let started_at = match req_u64_exec(j, "startedAt") {
            Some(v) => v,
            None => {
                return None;
            },
        };
        let capabilities = match req_json_exec(j, "capabilities") {
            Some(v) => v,
            None => {
                return None;
            },
        };
        Some(ServerState { name, version, started_at, capabilities })
    }

    pub fn decode_field(j: &Json, key: &str) -> (r: Option<ServerState>)
        ensures
            r.deep_view() == ServerStateView::decode_field(j@, key@),
    {
        match j.get(key) {
            Some(v) => ServerState::decode(v),
            None => None,
        }
    }
}

/// The whole state of the server at one moment.
#[derive(Debug, Clone)]
pub struct StateSnapshot {
    pub scopes: Vec<ScopeState>,
    pub sessions: Vec<SessionState>,
    pub server: ServerState,
}

/// The mathematical value of a [`StateSnapshot`].
pub struct StateSnapshotView {
    pub scopes: Seq<ScopeStateView>,
    pub sessions: Seq<SessionStateView>,
    pub server: ServerStateView,
}

impl View for StateSnapshot {
    type V = StateSnapshotView;

    open spec fn view(&self) -> StateSnapshotView {
        StateSnapshotView {
            scopes: self.scopes.deep_view(),
            sessions: self.sessions.deep_view(),
            server: self.server@,
        }
    }
}

impl DeepView for StateSnapshot {
    type V = StateSnapshotView;

    open spec fn deep_view(&self) -> StateSnapshotView {
        self@
    }
}

impl StateSnapshotView {
    /// Whether `j` is an object that holds every field of a [`StateSnapshot`] in its kind.
    pub open spec fn fits(j: JsonView) -> bool {
        &&& j is Object
        &&& ScopeStateView::decode_list_field(j, "scopes"@) is Some
        &&& SessionStateView::decode_list_field(j, "sessions"@) is Some
        &&& ServerStateView::decode_field(j, "server"@) is Some
    }

    /// The value that the fields of `j` give.
    pub open spec fn of(j: JsonView) -> StateSnapshotView {
        StateSnapshotView {
            scopes: ScopeStateView::decode_list_field(j, "scopes"@).unwrap(),
            sessions: SessionStateView::decode_list_field(j, "sessions"@).unwrap(),
            server: ServerStateView::decode_field(j, "server"@).unwrap(),
        }
    }

    /// The [`StateSnapshot`] that `j` denotes, if it denotes one.
    pub open spec fn decode(j: JsonView) -> Option<StateSnapshotView> {
        if Self::fits(j) {
            Some(Self::of(j))
        } else {
            None
        }
    }

    /// The value in the field `key`, which must be there.
    pub open spec fn decode_field(j: JsonView, key: Seq<char>) -> Option<StateSnapshotView> {
        match j.get(key) {
            Some(v) => Self::decode(v),
            None => None,
        }
    }
}

impl StateSnapshot {
    /// Reads a [`StateSnapshot`] from a JSON object.
    pub fn decode(j: &Json) -> (r: Option<StateSnapshot>)
        ensures
            r.deep_view() == StateSnapshotView::decode(j@),
    {
        if !j.is_object() {
            return None;
        }
        let scopes = match ScopeState::decode_list_field(j, "scopes") {
            Some(v) => v,
            None => {
                return None;
            },
        };
        let sessions = match SessionState::decode_list_field(j, "sessions") {
            Some(v) => v,
            None => {
                return None;
            },
        };
        let server = match ServerState::decode_field(j, "server") {
            Some(v) => v,
            None => {
                return None;
            },
        };
        Some(StateSnapshot { scopes, sessions, server })
    }

    pub fn decode_field(j: &Json, key: &str) -> (r: Option<StateSnapshot>)
        ensures
            r.deep_view() == StateSnapshotView::decode_field(j@, key@),
    {
        match j.get(key) {
            Some(v) => StateSnapshot::decode(v),
            None => None,
        }
    }
}

/// The message that carries a snapshot.
#[derive(Debug, Clone)]
pub struct StateMessage {
    pub msg_type: String,
    pub id: String,
    pub timestamp: u64,
    pub state: StateSnapshot,
}

/// The mathematical value of a [`StateMessage`].
pub struct StateMessageView {
    pub msg_type: Seq<char>,
    pub id: Seq<char>,
    pub timestamp: u64,
    pub state: StateSnapshotView,
}

impl View for StateMessage {
    type V = StateMessageView;

    open spec fn view(&self) -> StateMessageView {
        StateMessageView {
            msg_type: self.msg_type@,
            id: self.id@,
            timestamp: self.timestamp,
            state: self.state@,
        }
    }
}

impl DeepView for StateMessage {
    type V = StateMessageView;

    open spec fn deep_view(&self) -> StateMessageView {
        self@
    }
}

impl StateMessageView {
    /// Whether `j` is an object that holds every field of a [`StateMessage`] in its kind.
    pub open spec fn fits(j: JsonView) -> bool {
        &&& j is Object
        &&& req_text(j, "type"@) is Some
        &&& req_text(j, "id"@) is Some
        &&& req_u64(j, "timestamp"@) is Some
        &&& StateSnapshotView::decode_field(j, "state"@) is Some
    }

    /// The value that the fields of `j` give.
    pub open spec fn of(j: JsonView) -> StateMessageView {
        StateMessageView {
            msg_type: req_text(j, "type"@).unwrap(),
            id: req_text(j, "id"@).unwrap(),
            timestamp: req_u64(j, "timestamp"@).unwrap(),
            state: StateSnapshotView::decode_field(j, "state"@).unwrap(),
        }
    }

    /// The [`StateMessage`] that `j` denotes, if it denotes one.
    pub open spec fn decode(j: JsonView) -> Option<StateMessageView> {
        if Self::fits(j) {
            Some(Self::of(j))
        } else {
            None
        }
    }
}

impl StateMessage {
    /// Reads a [`StateMessage`] from a JSON object.
    pub fn decode(j: &Json) -> (r: Option<StateMessage>)
        ensures
            r.deep_view() == StateMessageView::decode(j@),
    {
        if !j.is_object() {
            return None;
        }
        let msg_type = match req_text_exec(j, "type") {
            Some(v) => v,
            None => {
                return None;
            },
        };
        let id = match req_text_exec(j, "id") {
            Some(v) => v,
            None => {
                return None;
            },
        };
        let timestamp = match req_u64_exec(j, "timestamp") {
            Some(v) => v,
            None => {
                return None;
            },
        };
        let state = match StateSnapshot::decode_field(j, "state") {
            Some(v) => v,
            None => {
                return None;
            },
        };
        Some(StateMessage { msg_type, id, timestamp, state })
    }
}

/// The message that carries an event of the first schema.
#[derive(Debug, Clone)]
pub struct EventMessage {
    pub msg_type: String,
    pub id: String,
    pub timestamp: u64,
    pub event: DevEvent,
}

/// The mathematical value of a [`EventMessage`].
pub struct EventMessageView {
    pub msg_type: Seq<char>,
    pub id: Seq<char>,
    pub timestamp: u64,
    pub event: DevEventView,
}

impl View for EventMessage {
    type V = EventMessageView;

    open spec fn view(&self) -> EventMessageView {
        EventMessageView {
            msg_type: self.msg_type@,
            id: self.id@,
            timestamp: self.timestamp,
            event: self.event@,
        }
    }
}

impl DeepView for EventMessage {
    type V = EventMessageView;

    open spec fn deep_view(&self) -> EventMessageView {
        self@
    }
}

impl EventMessageView {
    /// Whether `j` is an object that holds every field of a [`EventMessage`] in its kind.
    pub open spec fn fits(j: JsonView) -> bool {
        &&& j is Object
        &&& req_text(j, "type"@) is Some
        &&& req_text(j, "id"@) is Some
        &&& req_u64(j, "timestamp"@) is Some
        &&& DevEventView::decode_field(j, "event"@) is Some
    }

    /// The value that the fields of `j` give.
    pub open spec fn of(j: JsonView) -> EventMessageView {
        EventMessageView {
            msg_type: req_text(j, "type"@).unwrap(),
            id: req_text(j, "id"@).unwrap(),
            timestamp: req_u64(j, "timestamp"@).unwrap(),
            event: DevEventView::decode_field(j, "event"@).unwrap(),
        }
    }

    /// The [`EventMessage`] that `j` denotes, if it denotes one.
    pub open spec fn decode(j: JsonView) -> Option<EventMessageView> {
        if Self::fits(j) {
            Some(Self::of(j))
        } else {
            None
        }
    }
}

impl EventMessage {
    /// Reads a [`EventMessage`] from a JSON object.
    pub fn decode(j: &Json) -> (r: Option<EventMessage>)
        ensures
            r.deep_view() == EventMessageView::decode(j@),
    {
        if !j.is_object() {
            return None;
        }
        let msg_type = match req_text_exec(j, "type") {
            Some(v) => v,
            None => {
                return None;
            },
        };
        let id = match req_text_exec(j, "id") {
            Some(v) => v,
            None => {
                return None;
            },
        };
        let timestamp = match req_u64_exec(j, "timestamp") {
            Some(v) => v,
            None => {
                return None;
            },
        };
        let event = match DevEvent::decode_field(j, "event") {
            Some(v) => v,
            None => {
                return None;
            },
        };
        Some(EventMessage { msg_type, id, timestamp, event })
    }
}

/// The message that carries an event of any shape.
#[derive(Debug, Clone)]
pub struct RawEventMessage {
    pub msg_type: String,
    pub id: String,
    pub timestamp: u64,
    pub event: Json,
}

/// The mathematical value of a [`RawEventMessage`].
pub struct RawEventMessageView {
    pub msg_type: Seq<char>,
    pub id: Seq<char>,
    pub timestamp: u64,
    pub event: JsonView,
}

impl View for RawEventMessage {
    type V = RawEventMessageView;

    open spec fn view(&self) -> RawEventMessageView {
        RawEventMessageView {
            msg_type: self.msg_type@,
            id: self.id@,
            timestamp: self.timestamp,
            event: self.event@,
        }
    }
}

impl DeepView for RawEventMessage {
    type V = RawEventMessageView;

    open spec fn deep_view(&self) -> RawEventMessageView {
        self@
    }
}

impl RawEventMessageView {
    /// Whether `j` is an object that holds every field of a [`RawEventMessage`] in its kind.
    pub open spec fn fits(j: JsonView) -> bool {
        &&& j is Object
        &&& req_text(j, "type"@) is Some
        &&& req_text(j, "id"@) is Some
        &&& req_u64(j, "timestamp"@) is Some
        &&& req_json(j, "event"@) is Some
    }

    /// The value that the fields of `j` give.
    pub open spec fn of(j: JsonView) -> RawEventMessageView {
        RawEventMessageView {
            msg_type: req_text(j, "type"@).unwrap(),
            id: req_text(j, "id"@).unwrap(),
            timestamp: req_u64(j, "timestamp"@).unwrap(),
            event: req_json(j, "event"@).unwrap(),
        }
    }

    /// The [`RawEventMessage`] that `j` denotes, if it denotes one.
    pub open spec fn decode(j: JsonView) -> Option<RawEventMessageView> {
        if Self::fits(j) {
            Some(Self::of(j))
        } else {
            None
        }
    }
}

impl RawEventMessage {
    /// Reads a [`RawEventMessage`] from a JSON object.
    pub fn decode(j: &Json) -> (r: Option<RawEventMessage>)
        ensures
            r.deep_view() == RawEventMessageView::decode(j@),
    {
        if !j.is_object() {
            return None;
        }
        let msg_type = match req_text_exec(j, "type") {
            Some(v) => v,
            None => {
                return None;
            },
        };
        let id = match req_text_exec(j, "id") {
            Some(v) => v,
            None => {
                return None;
            },
        };
        let timestamp = match req_u64_exec(j, "timestamp") {
            Some(v) => v,
            None => {
                return None;
            },
        };
        let event = match req_json_exec(j, "event") {
            Some(v) => v,
            None => {
                return None;
            },
        };
        Some(RawEventMessage { msg_type, id, timestamp, event })
    }
}

/// Why a command failed.
#[derive(Debug)]
pub struct ResponseError {
    pub code: String,
    pub message: String,
}

/// The mathematical value of a [`ResponseError`].
pub struct ResponseErrorView {
    pub code: Seq<char>,
    pub message: Seq<char>,
}

impl View for ResponseError {
    type V = ResponseErrorView;

    open spec fn view(&self) -> ResponseErrorView {
        ResponseErrorView {
            code: self.code@,
            message: self.message@,
        }
    }
}

impl DeepView for ResponseError {
    type V = ResponseErrorView;

    open spec fn deep_view(&self) -> ResponseErrorView {
        self@
    }
}

impl Clone for ResponseError {
    fn clone(&self) -> (r: Self)
        ensures
            r@ == self@,
    {
        ResponseError {
            code: self.code.clone(),
            message: self.message.clone(),
        }
    }
}

impl ResponseErrorView {
    /// Whether `j` is an object that holds every field of a [`ResponseError`] in its kind.
    pub open spec fn fits(j: JsonView) -> bool {
        &&& j is Object
        &&& req_text(j, "code"@) is Some
        &&& req_text(j, "message"@) is Some
    }

    /// The value that the fields of `j` give.
    pub open spec fn of(j: JsonView) -> ResponseErrorView {
        ResponseErrorView {
            code: req_text(j, "code"@).unwrap(),
            message: req_text(j, "message"@).unwrap(),
        }
    }

    /// The [`ResponseError`] that `j` denotes, if it denotes one.
    pub open spec fn decode(j: JsonView) -> Option<ResponseErrorView> {
        if Self::fits(j) {
            Some(Self::of(j))
        } else {
            None
        }
    }

    /// The value in the field `key`; a missing field and null give `Some(None)`.
    pub open spec fn decode_optional(j: JsonView, key: Seq<char>) -> Option<Option<ResponseErrorView>> {
        match j.get(key) {
            None => Some(None),
            Some(JsonView::Null) => Some(None),
            Some(v) => match Self::decode(v) {
                Some(t) => Some(Some(t)),
                None => None,
            },
        }
    }
}

impl ResponseError {
    /// Reads a [`ResponseError`] from a JSON object.
    pub fn decode(j: &Json) -> (r: Option<ResponseError>)
        ensures
            r.deep_view() == ResponseErrorView::decode(j@),
    {
        if !j.is_object() {
            return None;
        }
        let code = match req_text_exec(j, "code") {
            Some(v) => v,
            None => {
                return None;
            },
        };
        let message = match req_text_exec(j, "message") {
            Some(v) => v,
            None => {
                return None;
            },
        };
        Some(ResponseError { code, message })
    }

    pub fn decode_optional(j: &Json, key: &str) -> (r: Option<Option<ResponseError>>)
        ensures
            r.deep_view() == ResponseErrorView::decode_optional(j@, key@),
    {
        match j.get(key) {
            None => Some(None),
            Some(Json::Null) => Some(None),
            Some(v) => match ResponseError::decode(v) {
                Some(t) => Some(Some(t)),
                None => None,
            },
        }
    }
}

/// The answer to a command, tied to it by the id of the command.
#[derive(Debug, Clone)]
pub struct ResponseMessage {
    pub msg_type: String,
    pub command_id: String,
    pub success: bool,
    pub data: Option<Json>,
    pub error: Option<ResponseError>,
}

/// The mathematical value of a [`ResponseMessage`].
pub struct ResponseMessageView {
    pub msg_type: Seq<char>,
    pub command_id: Seq<char>,
    pub success: bool,
    pub data: Option<JsonView>,
    pub error: Option<ResponseErrorView>,
}

impl View for ResponseMessage {
    type V = ResponseMessageView;

    open spec fn view(&self) -> ResponseMessageView {
        ResponseMessageView {
            msg_type: self.msg_type@,
            command_id: self.command_id@,
            success: self.success,
            data: self.data.deep_view(),
            error: self.error.deep_view(),
        }
    }
}

impl DeepView for ResponseMessage {
    type V = ResponseMessageView;

    open spec fn deep_view(&self) -> ResponseMessageView {
        self@
    }
}

impl ResponseMessageView {
    /// Whether `j` is an object that holds every field of a [`ResponseMessage`] in its kind.
    pub open spec fn fits(j: JsonView) -> bool {
        &&& j is Object
        &&& req_text(j, "type"@) is Some
        &&& req_text(j, "commandId"@) is Some
        &&& req_bool(j, "success"@) is Some
        &&& ResponseErrorView::decode_optional(j, "error"@) is Some
    }

    /// The value that the fields of `j` give.
    pub open spec fn of(j: JsonView) -> ResponseMessageView {
        ResponseMessageView {
            msg_type: req_text(j, "type"@).unwrap(),
            command_id: req_text(j, "commandId"@).unwrap(),
            success: req_bool(j, "success"@).unwrap(),
            data: opt_json(j, "data"@),
            error: ResponseErrorView::decode_optional(j, "error"@).unwrap(),
        }
    }

    /// The [`ResponseMessage`] that `j` denotes, if it denotes one.
    pub open spec fn decode(j: JsonView) -> Option<ResponseMessageView> {
        if Self::fits(j) {
            Some(Self::of(j))
        } else {
            None
        }
    }
}

impl ResponseMessage {
    /// Reads a [`ResponseMessage`] from a JSON object.
    pub fn decode(j: &Json) -> (r: Option<ResponseMessage>)
        ensures
            r.deep_view() == ResponseMessageView::decode(j@),
    {
        if !j.is_object() {
            return None;
        }
        let msg_type = match req_text_exec(j, "type") {
            Some(v) => v,
            None => {
                return None;
            },
        };
        let command_id = match req_text_exec(j, "commandId") {
            Some(v) => v,
            None => {
                return None;
            },
        };
        let success = match req_bool_exec(j, "success") {
            Some(v) => v,
            None => {
                return None;
            },
        };
        let data = opt_json_exec(j, "data");
        let error = match ResponseError::decode_optional(j, "error") {
            Some(v) => v,
            None => {
                return None;
            },
        };
        Some(ResponseMessage { msg_type, command_id, success, data, error })
    }
}

} // verus!
