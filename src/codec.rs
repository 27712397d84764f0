//! Reading notifications from JSON documents and writing them back.
//!
//! A notification is an object whose "method" member is the discriminator and
//! whose "params" member is the payload object. Decoding runs in two phases:
//! the discriminator first, then the one payload schema that it selects.
use vstd::prelude::*;
use crate::events::{
    string_of, str_is, ClusterNodeState, ClustererNodeStateChange, DialogChange, DialogChangeV,
    DialogState, DispatcherState, DispatcherStatus, DispatcherStatusV, Notification,
    NotificationV, UAEventType, UASession, UASessionV, UlContact, UlContactV, opt_str_view,
    spec_method_name,
};
use crate::json::{
    find_leaf, find_member, json_read, json_text, leaf_entries_view, lookup,
    member_entries_view, parse_document, print_document, printable, printable_leaf, printable_member, reserved_key, same_doc, same_member,
    DocV, Document, Element, ElementV, Leaf, LeafV, Member, MemberV,
};

verus! {

/// Why a datagram did not give a notification.
#[derive(Clone, Debug)]
pub enum DecodeError {
    /// The bytes are not JSON text; the message says where and why.
    Malformed(String),
    /// The document is not an object with a string "method" member.
    NoDiscriminator,
    /// The discriminator names no notification variant.
    Unrecognized(String),
    /// The discriminator is known, but "params" does not fit its schema.
    BadPayload(String),
}

pub enum DecodeErrorV {
    Malformed(Seq<char>),
    NoDiscriminator,
    Unrecognized(Seq<char>),
    BadPayload(Seq<char>),
}

impl View for DecodeError {
    type V = DecodeErrorV;

    open spec fn view(&self) -> DecodeErrorV {
        match self {
            DecodeError::Malformed(m) => DecodeErrorV::Malformed(m@),
            DecodeError::NoDiscriminator => DecodeErrorV::NoDiscriminator,
            DecodeError::Unrecognized(m) => DecodeErrorV::Unrecognized(m@),
            DecodeError::BadPayload(m) => DecodeErrorV::BadPayload(m@),
        }
    }
}

pub open spec fn result_view(r: Result<Notification, DecodeError>) -> Result<
    NotificationV,
    DecodeErrorV,
> {
    match r {
        Ok(n) => Ok(n@),
        Err(e) => Err(e@),
    }
}

pub type Fields = Seq<(Seq<char>, LeafV)>;

/// A string member that must be present.
pub open spec fn str_field(p: Fields, k: Seq<char>) -> Option<Seq<char>> {
    match lookup(p, k) {
        Some(LeafV::Str(s)) => Some(s),
        _ => None,
    }
}

/// A string member that reads as empty where it is absent or null.
pub open spec fn defaulted_str_field(p: Fields, k: Seq<char>) -> Option<Seq<char>> {
    match lookup(p, k) {
        None => Some(Seq::empty()),
        Some(LeafV::Null) => Some(Seq::empty()),
        Some(LeafV::Str(s)) => Some(s),
        _ => None,
    }
}

/// An optional string member: `Some(None)` where it is absent or null.
pub open spec fn opt_str_field(p: Fields, k: Seq<char>) -> Option<Option<Seq<char>>> {
    match lookup(p, k) {
        None => Some(None),
        Some(LeafV::Null) => Some(None),
        Some(LeafV::Str(s)) => Some(Some(s)),
        _ => None,
    }
}

/// An integer member that must be present and lie within `lo..=hi`.
pub open spec fn int_field(p: Fields, k: Seq<char>, lo: int, hi: int) -> Option<int> {
    match lookup(p, k) {
        Some(LeafV::Int(i)) => if lo <= i <= hi {
            Some(i)
        } else {
            None
        },
        _ => None,
    }
}

pub open spec fn i64_field(p: Fields, k: Seq<char>) -> Option<int> {
    int_field(p, k, i64::MIN as int, i64::MAX as int)
}

pub open spec fn u64_field(p: Fields, k: Seq<char>) -> Option<int> {
    int_field(p, k, 0, u64::MAX as int)
}

pub open spec fn usize_field(p: Fields, k: Seq<char>) -> Option<int> {
    int_field(p, k, 0, usize::MAX as int)
}

pub open spec fn dialog_state_field(p: Fields, k: Seq<char>) -> Option<DialogState> {
    match lookup(p, k) {
        Some(LeafV::Int(i)) => DialogState::spec_from_code(i),
        _ => None,
    }
}

pub open spec fn ul_contact_of(p: Fields) -> Option<UlContactV> {
    let domain = str_field(p, "domain"@);
    let aor = str_field(p, "aor"@);
    let uri = str_field(p, "uri"@);
    let received = defaulted_str_field(p, "received"@);
    let path = opt_str_field(p, "path"@);
    let qval = i64_field(p, "qval"@);
    let user_agent = str_field(p, "user_agent"@);
    let socket = str_field(p, "socket"@);
    let bflags = i64_field(p, "bflags"@);
    let expires = u64_field(p, "expires"@);
    let callid = str_field(p, "callid"@);
    let cseq = u64_field(p, "cseq"@);
    let attr = str_field(p, "attr"@);
    let latency = i64_field(p, "latency"@);
    let shtag = str_field(p, "shtag"@);
    if domain is Some && aor is Some && uri is Some && received is Some && path is Some
        && qval is Some && user_agent is Some && socket is Some && bflags is Some
        && expires is Some && callid is Some && cseq is Some && attr is Some && latency is Some
        && shtag is Some {
        Some(
            UlContactV {
                domain: domain.unwrap(),
                aor: aor.unwrap(),
                uri: uri.unwrap(),
                received: received.unwrap(),
                path: path.unwrap(),
                qval: qval.unwrap() as i64,
                user_agent: user_agent.unwrap(),
                socket: socket.unwrap(),
                bflags: bflags.unwrap() as i64,
                expires: expires.unwrap() as u64,
                callid: callid.unwrap(),
                cseq: cseq.unwrap() as u64,
                attr: attr.unwrap(),
                latency: latency.unwrap() as i64,
                shtag: shtag.unwrap(),
            },
        )
    } else {
        None
    }
}

pub open spec fn dialog_change_of(p: Fields) -> Option<DialogChangeV> {
    let id = str_field(p, "id"@);
    let call_id = str_field(p, "callid"@);
    let from_tag = str_field(p, "from_tag"@);
    let to_tag = defaulted_str_field(p, "to_tag"@);
    let old_state = dialog_state_field(p, "old_state"@);
    let new_state = dialog_state_field(p, "new_state"@);
    if id is Some && call_id is Some && from_tag is Some && to_tag is Some && old_state is Some
        && new_state is Some {
        Some(
            DialogChangeV {
                id: id.unwrap(),
                call_id: call_id.unwrap(),
                from_tag: from_tag.unwrap(),
                to_tag: to_tag.unwrap(),
                old_state: old_state.unwrap(),
                new_state: new_state.unwrap(),
            },
        )
    } else {
        None
    }
}

pub open spec fn dispatcher_status_of(p: Fields) -> Option<DispatcherStatusV> {
    let partition = str_field(p, "partition"@);
    let group = str_field(p, "group"@);
    let address = str_field(p, "address"@);
    let status = match str_field(p, "status"@) {
        Some(s) => DispatcherState::spec_from_wire(s),
        None => None,
    };
    if partition is Some && group is Some && address is Some && status is Some {
        Some(
            DispatcherStatusV {
                partition: partition.unwrap(),
                group: group.unwrap(),
                address: address.unwrap(),
                status: status.unwrap(),
            },
        )
    } else {
        None
    }
}

pub open spec fn node_state_change_of(p: Fields) -> Option<ClustererNodeStateChange> {
    let cluster_id = usize_field(p, "cluster_id"@);
    let node_id = usize_field(p, "node_id"@);
    let new_state = match lookup(p, "new_state"@) {
        Some(LeafV::Int(i)) => ClusterNodeState::spec_from_code(i),
        _ => None,
    };
    if cluster_id is Some && node_id is Some && new_state is Some {
        Some(
            ClustererNodeStateChange {
                cluster_id: cluster_id.unwrap() as usize,
                node_id: node_id.unwrap() as usize,
                new_state: new_state.unwrap(),
            },
        )
    } else {
        None
    }
}

pub open spec fn ua_session_of(p: Fields) -> Option<UASessionV> {
    let key = str_field(p, "key"@);
    let entity_type = str_field(p, "entity_type"@);
    let event_type = match str_field(p, "event_type"@) {
        Some(s) => UAEventType::spec_from_wire(s),
        None => None,
    };
    let status = usize_field(p, "status"@);
    let reason = str_field(p, "reason"@);
    let method = str_field(p, "method"@);
    let body = str_field(p, "body"@);
    let headers = str_field(p, "headers"@);
    if key is Some && entity_type is Some && event_type is Some && status is Some && reason is Some
        && method is Some && body is Some && headers is Some {
        Some(
            UASessionV {
                key: key.unwrap(),
                entity_type: entity_type.unwrap(),
                event_type: event_type.unwrap(),
                status: status.unwrap() as usize,
                reason: reason.unwrap(),
                method: method.unwrap(),
                body: body.unwrap(),
                headers: headers.unwrap(),
            },
        )
    } else {
        None
    }
}

/// The discriminators of the closed set of notification variants.
pub open spec fn known_method(m: Seq<char>) -> bool {
    m == "E_UL_CONTACT_INSERT"@ || m == "E_UL_CONTACT_DELETE"@ || m == "E_UL_CONTACT_UPDATE"@
        || m == "E_DLG_STATE_CHANGED"@ || m == "E_DISPATCHER_STATUS"@
        || m == "E_CLUSTERER_NODE_STATE_CHANGE"@ || m == "E_UA_SESSION"@
}

/// The notification that discriminator `m` and payload `p` make, if `p` fits
/// the schema that `m` selects.
pub open spec fn payload_of(m: Seq<char>, p: Fields) -> Option<NotificationV> {
    if m == "E_UL_CONTACT_INSERT"@ {
        match ul_contact_of(p) {
            Some(c) => Some(NotificationV::EUlContactInsert(c)),
            None => None,
        }
    } else if m == "E_UL_CONTACT_DELETE"@ {
        match ul_contact_of(p) {
            Some(c) => Some(NotificationV::EUlContactDelete(c)),
            None => None,
        }
    } else if m == "E_UL_CONTACT_UPDATE"@ {
        match ul_contact_of(p) {
            Some(c) => Some(NotificationV::EUlContactUpdate(c)),
            None => None,
        }
    } else if m == "E_DLG_STATE_CHANGED"@ {
        match dialog_change_of(p) {
            Some(d) => Some(NotificationV::EDlgStateChanged(d)),
            None => None,
        }
    } else if m == "E_DISPATCHER_STATUS"@ {
        match dispatcher_status_of(p) {
            Some(d) => Some(NotificationV::EDispatcherStatus(d)),
            None => None,
        }
    } else if m == "E_CLUSTERER_NODE_STATE_CHANGE"@ {
        match node_state_change_of(p) {
            Some(c) => Some(NotificationV::EClustererNodeStateChange(c)),
            None => None,
        }
    } else if m == "E_UA_SESSION"@ {
        match ua_session_of(p) {
            Some(u) => Some(NotificationV::EUaSession(u)),
            None => None,
        }
    } else {
        None
    }
}

/// What a top-level object decodes to.
pub open spec fn decode_object(top: Seq<(Seq<char>, MemberV)>) -> Result<NotificationV, DecodeErrorV> {
    match lookup(top, "method"@) {
        Some(MemberV::Leaf(LeafV::Str(m))) => if !known_method(m) {
            Err(DecodeErrorV::Unrecognized(m))
        } else {
            match lookup(top, "params"@) {
                Some(MemberV::Object(p)) => match payload_of(m, p) {
                    Some(n) => Ok(n),
                    None => Err(DecodeErrorV::BadPayload(m)),
                },
                _ => Err(DecodeErrorV::BadPayload(m)),
            }
        },
        _ => Err(DecodeErrorV::NoDiscriminator),
    }
}

/// What a JSON document decodes to.
pub open spec fn decode_doc(d: DocV) -> Result<NotificationV, DecodeErrorV> {
    match d {
        DocV::Object(top) => decode_object(top),
        _ => Err(DecodeErrorV::NoDiscriminator),
    }
}

/// What one element of a batch decodes to.
pub open spec fn decode_element(e: ElementV) -> Result<NotificationV, DecodeErrorV> {
    match e {
        ElementV::Object(top) => decode_object(top),
        ElementV::Other => Err(DecodeErrorV::NoDiscriminator),
    }
}

/// What a batch decodes to: each element of an array on its own, or a
/// document that is no array as a batch of one.
pub open spec fn decode_batch_doc(d: DocV) -> Seq<Result<NotificationV, DecodeErrorV>> {
    match d {
        DocV::Array(items) => items.map_values(|e: ElementV| decode_element(e)),
        _ => seq![decode_doc(d)],
    }
}

/// What the bytes of a batch decode to.
pub open spec fn decode_batch_bytes(b: Seq<u8>) -> Result<
    Seq<Result<NotificationV, DecodeErrorV>>,
    DecodeErrorV,
> {
    match json_read(b) {
        Err(m) => Err(DecodeErrorV::Malformed(m)),
        Ok(d) => Ok(decode_batch_doc(d)),
    }
}

pub open spec fn results_view(rs: Seq<Result<Notification, DecodeError>>) -> Seq<
    Result<NotificationV, DecodeErrorV>,
> {
    rs.map_values(|r: Result<Notification, DecodeError>| result_view(r))
}

/// What the bytes of a datagram decode to.
pub open spec fn decode_bytes(b: Seq<u8>) -> Result<NotificationV, DecodeErrorV> {
    match json_read(b) {
        Err(m) => Err(DecodeErrorV::Malformed(m)),
        Ok(d) => decode_doc(d),
    }
}


fn read_str(p: &Vec<(String, Leaf)>, k: &str) -> (r: Option<String>)
    ensures
        opt_str_view(r) == str_field(leaf_entries_view(p@), k@),
{
    match find_leaf(p, k) {
        Some(i) => match &p[i].1 {
            Leaf::Str(s) => Some(s.clone()),
            _ => None,
        },
        None => None,
    }
}

fn read_defaulted_str(p: &Vec<(String, Leaf)>, k: &str) -> (r: Option<String>)
    ensures
        opt_str_view(r) == defaulted_str_field(leaf_entries_view(p@), k@),
{
    match find_leaf(p, k) {
        Some(i) => match &p[i].1 {
            Leaf::Str(s) => Some(s.clone()),
            Leaf::Null => Some(String::new()),
            _ => None,
        },
        None => Some(String::new()),
    }
}

fn read_opt_str(p: &Vec<(String, Leaf)>, k: &str) -> (r: Option<Option<String>>)
    ensures
        match r {
            Some(o) => opt_str_field(leaf_entries_view(p@), k@) == Some(opt_str_view(o)),
            None => opt_str_field(leaf_entries_view(p@), k@) is None,
        },
{
    match find_leaf(p, k) {
        Some(i) => match &p[i].1 {
            Leaf::Str(s) => Some(Some(s.clone())),
            Leaf::Null => Some(None),
            _ => None,
        },
        None => Some(None),
    }
}

fn read_int(p: &Vec<(String, Leaf)>, k: &str) -> (r: Option<i128>)
    ensures
        match r {
            Some(i) => lookup(leaf_entries_view(p@), k@) == Some(LeafV::Int(i as int)),
            None => !(lookup(leaf_entries_view(p@), k@) matches Some(LeafV::Int(_))),
        },
{
    match find_leaf(p, k) {
        Some(i) => match &p[i].1 {
            Leaf::Int(v) => Some(*v),
            _ => None,
        },
        None => None,
    }
}

fn read_i64(p: &Vec<(String, Leaf)>, k: &str) -> (r: Option<i64>)
    ensures
        match r {
            Some(v) => i64_field(leaf_entries_view(p@), k@) == Some(v as int),
            None => i64_field(leaf_entries_view(p@), k@) is None,
        },
{
    match read_int(p, k) {
        Some(v) => if i64::MIN as i128 <= v && v <= i64::MAX as i128 {
            Some(v as i64)
        } else {
            None
        },
        None => None,
    }
}

fn read_u64(p: &Vec<(String, Leaf)>, k: &str) -> (r: Option<u64>)
    ensures
        match r {
            Some(v) => u64_field(leaf_entries_view(p@), k@) == Some(v as int),
            None => u64_field(leaf_entries_view(p@), k@) is None,
        },
{
    match read_int(p, k) {
        Some(v) => if 0 <= v && v <= u64::MAX as i128 {
            Some(v as u64)
        } else {
            None
        },
        None => None,
    }
}

fn read_usize(p: &Vec<(String, Leaf)>, k: &str) -> (r: Option<usize>)
    ensures
        match r {
            Some(v) => usize_field(leaf_entries_view(p@), k@) == Some(v as int),
            None => usize_field(leaf_entries_view(p@), k@) is None,
        },
{
    match read_int(p, k) {
        Some(v) => if 0 <= v && v <= usize::MAX as i128 {
            Some(v as usize)
        } else {
            None
        },
        None => None,
    }
}

/// Reads a location-service binding from a payload object.
pub fn decode_ul_contact(p: &Vec<(String, Leaf)>) -> (r: Option<UlContact>)
    ensures
        match r {
            Some(c) => ul_contact_of(leaf_entries_view(p@)) == Some(c@),
            None => ul_contact_of(leaf_entries_view(p@)) is None,
        },
{
    let domain = match read_str(p, "domain") { Some(v) => v, None => return None };
    let aor = match read_str(p, "aor") { Some(v) => v, None => return None };
    let uri = match read_str(p, "uri") { Some(v) => v, None => return None };
    let received = match read_defaulted_str(p, "received") { Some(v) => v, None => return None };
    let path = match read_opt_str(p, "path") { Some(v) => v, None => return None };
    let qval = match read_i64(p, "qval") { Some(v) => v, None => return None };
    let user_agent = match read_str(p, "user_agent") { Some(v) => v, None => return None };
    let socket = match read_str(p, "socket") { Some(v) => v, None => return None };
    let bflags = match read_i64(p, "bflags") { Some(v) => v, None => return None };
    let expires = match read_u64(p, "expires") { Some(v) => v, None => return None };
    let callid = match read_str(p, "callid") { Some(v) => v, None => return None };
    let cseq = match read_u64(p, "cseq") { Some(v) => v, None => return None };
    let attr = match read_str(p, "attr") { Some(v) => v, None => return None };
    let latency = match read_i64(p, "latency") { Some(v) => v, None => return None };
    let shtag = match read_str(p, "shtag") { Some(v) => v, None => return None };
    Some(UlContact {
        domain, aor, uri, received, path, qval, user_agent, socket, bflags, expires, callid,
        cseq, attr, latency, shtag,
    })
}

fn read_dialog_state(p: &Vec<(String, Leaf)>, k: &str) -> (r: Option<DialogState>)
    ensures
        r == dialog_state_field(leaf_entries_view(p@), k@),
{
    match read_int(p, k) {
        Some(v) => DialogState::from_code(v),
        None => None,
    }
}

/// Reads a dialog state change from a payload object.
pub fn decode_dialog_change(p: &Vec<(String, Leaf)>) -> (r: Option<DialogChange>)
    ensures
        match r {
            Some(d) => dialog_change_of(leaf_entries_view(p@)) == Some(d@),
            None => dialog_change_of(leaf_entries_view(p@)) is None,
        },
{
    let id = match read_str(p, "id") { Some(v) => v, None => return None };
    let call_id = match read_str(p, "callid") { Some(v) => v, None => return None };
    let from_tag = match read_str(p, "from_tag") { Some(v) => v, None => return None };
    let to_tag = match read_defaulted_str(p, "to_tag") { Some(v) => v, None => return None };
    let old_state = match read_dialog_state(p, "old_state") { Some(v) => v, None => return None };
    let new_state = match read_dialog_state(p, "new_state") { Some(v) => v, None => return None };
    Some(DialogChange { id, call_id, from_tag, to_tag, old_state, new_state })
}

/// Reads a dispatcher destination's status from a payload object.
pub fn decode_dispatcher_status(p: &Vec<(String, Leaf)>) -> (r: Option<DispatcherStatus>)
    ensures
        match r {
            Some(d) => dispatcher_status_of(leaf_entries_view(p@)) == Some(d@),
            None => dispatcher_status_of(leaf_entries_view(p@)) is None,
        },
{
    let partition = match read_str(p, "partition") { Some(v) => v, None => return None };
    let group = match read_str(p, "group") { Some(v) => v, None => return None };
    let address = match read_str(p, "address") { Some(v) => v, None => return None };
    let status_text = match read_str(p, "status") { Some(v) => v, None => return None };
    let status = match DispatcherState::from_wire(&status_text) { Some(v) => v, None => return None };
    Some(DispatcherStatus { partition, group, address, status })
}

/// Reads a cluster node's state change from a payload object.
pub fn decode_node_state_change(p: &Vec<(String, Leaf)>) -> (r: Option<ClustererNodeStateChange>)
    ensures
        r == node_state_change_of(leaf_entries_view(p@)),
{
    let cluster_id = match read_usize(p, "cluster_id") { Some(v) => v, None => return None };
    let node_id = match read_usize(p, "node_id") { Some(v) => v, None => return None };
    let code = match read_int(p, "new_state") { Some(v) => v, None => return None };
    let new_state = match ClusterNodeState::from_code(code) { Some(v) => v, None => return None };
    Some(ClustererNodeStateChange { cluster_id, node_id, new_state })
}

/// Reads a user-agent session event from a payload object.
pub fn decode_ua_session(p: &Vec<(String, Leaf)>) -> (r: Option<UASession>)
    ensures
        match r {
            Some(u) => ua_session_of(leaf_entries_view(p@)) == Some(u@),
            None => ua_session_of(leaf_entries_view(p@)) is None,
        },
{
    let key = match read_str(p, "key") { Some(v) => v, None => return None };
    let entity_type = match read_str(p, "entity_type") { Some(v) => v, None => return None };
    let event_text = match read_str(p, "event_type") { Some(v) => v, None => return None };
    let event_type = match UAEventType::from_wire(&event_text) { Some(v) => v, None => return None };
    let status = match read_usize(p, "status") { Some(v) => v, None => return None };
    let reason = match read_str(p, "reason") { Some(v) => v, None => return None };
    let method = match read_str(p, "method") { Some(v) => v, None => return None };
    let body = match read_str(p, "body") { Some(v) => v, None => return None };
    let headers = match read_str(p, "headers") { Some(v) => v, None => return None };
    Some(UASession { key, entity_type, event_type, status, reason, method, body, headers })
}

/// Reads the payload that discriminator `m` selects; `None` where `m` is no
/// known discriminator or `p` does not fit its schema.
pub fn decode_payload(m: &String, p: &Vec<(String, Leaf)>) -> (r: Option<Notification>)
    ensures
        match r {
            Some(n) => payload_of(m@, leaf_entries_view(p@)) == Some(n@),
            None => payload_of(m@, leaf_entries_view(p@)) is None,
        },
{
    if str_is(m, "E_UL_CONTACT_INSERT") {
        match decode_ul_contact(p) { Some(c) => Some(Notification::EUlContactInsert(c)), None => None }
    } else if str_is(m, "E_UL_CONTACT_DELETE") {
        match decode_ul_contact(p) { Some(c) => Some(Notification::EUlContactDelete(c)), None => None }
    } else if str_is(m, "E_UL_CONTACT_UPDATE") {
        match decode_ul_contact(p) { Some(c) => Some(Notification::EUlContactUpdate(c)), None => None }
    } else if str_is(m, "E_DLG_STATE_CHANGED") {
        match decode_dialog_change(p) { Some(d) => Some(Notification::EDlgStateChanged(d)), None => None }
    } else if str_is(m, "E_DISPATCHER_STATUS") {
        match decode_dispatcher_status(p) { Some(d) => Some(Notification::EDispatcherStatus(d)), None => None }
    } else if str_is(m, "E_CLUSTERER_NODE_STATE_CHANGE") {
        match decode_node_state_change(p) {
            Some(c) => Some(Notification::EClustererNodeStateChange(c)),
            None => None,
        }
    } else if str_is(m, "E_UA_SESSION") {
        match decode_ua_session(p) { Some(u) => Some(Notification::EUaSession(u)), None => None }
    } else {
        None
    }
}

/// Whether `m` is the discriminator of a notification variant.
pub fn is_known_method(m: &String) -> (r: bool)
    ensures
        r == known_method(m@),
{
    str_is(m, "E_UL_CONTACT_INSERT") || str_is(m, "E_UL_CONTACT_DELETE") || str_is(
        m,
        "E_UL_CONTACT_UPDATE",
    ) || str_is(m, "E_DLG_STATE_CHANGED") || str_is(m, "E_DISPATCHER_STATUS") || str_is(
        m,
        "E_CLUSTERER_NODE_STATE_CHANGE",
    ) || str_is(m, "E_UA_SESSION")
}

/// Decodes a top-level object: first the discriminator, then its payload.
pub fn decode_entries(top: &Vec<(String, Member)>) -> (r: Result<Notification, DecodeError>)
    ensures
        result_view(r) == decode_object(member_entries_view(top@)),
{
    let method = match find_member(top, "method") {
        Some(i) => match &top[i].1 {
            Member::Leaf(Leaf::Str(m)) => m,
            _ => return Err(DecodeError::NoDiscriminator),
        },
        None => return Err(DecodeError::NoDiscriminator),
    };
    if !is_known_method(method) {
        return Err(DecodeError::Unrecognized(method.clone()));
    }
    let params = match find_member(top, "params") {
        Some(i) => match &top[i].1 {
            Member::Object(p) => p,
            _ => return Err(DecodeError::BadPayload(method.clone())),
        },
        None => return Err(DecodeError::BadPayload(method.clone())),
    };
    match decode_payload(method, params) {
        Some(n) => Ok(n),
        None => Err(DecodeError::BadPayload(method.clone())),
    }
}

/// Decodes a parsed JSON document.
pub fn decode_document(d: &Document) -> (r: Result<Notification, DecodeError>)
    ensures
        result_view(r) == decode_doc(d@),
{
    match d {
        Document::Object(top) => decode_entries(top),
        _ => Err(DecodeError::NoDiscriminator),
    }
}

/// Decodes a parsed batch: each element of an array on its own, so that one
/// bad element does not spoil the others.
pub fn decode_batch_document(d: &Document) -> (r: Vec<Result<Notification, DecodeError>>)
    ensures
        results_view(r@) == decode_batch_doc(d@),
{
    match d {
        Document::Array(items) => {
            let ghost want = decode_batch_doc(d@);
            let mut out: Vec<Result<Notification, DecodeError>> = Vec::new();
            let mut i: usize = 0;
            while i < items.len()
                invariant
                    i <= items.len(),
                    want == items@.map_values(|e: Element| e@).map_values(
                        |e: ElementV| decode_element(e),
                    ),
                    results_view(out@) == want.take(i as int),
                decreases items.len() - i,
            {
                let r = match &items[i] {
                    Element::Object(top) => decode_entries(top),
                    Element::Other => Err(DecodeError::NoDiscriminator),
                };
                assert(result_view(r) == want[i as int]);
                let ghost prev = out@;
                out.push(r);
                assert(results_view(out@) =~= results_view(prev).push(result_view(r)));
                assert(want.take(i + 1) =~= want.take(i as int).push(want[i as int]));
                i += 1;
            }
            assert(want.take(items.len() as int) =~= want);
            out
        },
        _ => {
            let out = vec![decode_document(d)];
            assert(results_view(out@) =~= decode_batch_doc(d@));
            out
        },
    }
}

/// Decodes a batch of messages held in one JSON array (a single message is a
/// batch of one). Only bytes that are not JSON text fail as a whole.
pub fn decode_batch(b: &[u8]) -> (r: Result<Vec<Result<Notification, DecodeError>>, DecodeError>)
    ensures
        match r {
            Ok(v) => decode_batch_bytes(b@) == Ok::<_, DecodeErrorV>(results_view(v@)),
            Err(e) => decode_batch_bytes(b@) == Err::<Seq<Result<NotificationV, DecodeErrorV>>, _>(e@),
        },
{
    match parse_document(b) {
        Ok(d) => Ok(decode_batch_document(&d)),
        Err(m) => Err(DecodeError::Malformed(m)),
    }
}

/// Decodes the bytes of one datagram. Never fails but with a `DecodeError`.
pub fn decode(b: &[u8]) -> (r: Result<Notification, DecodeError>)
    ensures
        result_view(r) == decode_bytes(b@),
{
    match parse_document(b) {
        Ok(d) => decode_document(&d),
        Err(m) => Err(DecodeError::Malformed(m)),
    }
}

pub open spec fn str_leaf(s: Seq<char>) -> LeafV {
    LeafV::Str(s)
}

pub open spec fn opt_str_leaf(o: Option<Seq<char>>) -> LeafV {
    match o {
        Some(s) => LeafV::Str(s),
        None => LeafV::Null,
    }
}

pub open spec fn ul_contact_fields(c: UlContactV) -> Fields {
    Seq::empty()
        .push(("domain"@, str_leaf(c.domain)))
        .push(("aor"@, str_leaf(c.aor)))
        .push(("uri"@, str_leaf(c.uri)))
        .push(("received"@, str_leaf(c.received)))
        .push(("path"@, opt_str_leaf(c.path)))
        .push(("qval"@, LeafV::Int(c.qval as int)))
        .push(("user_agent"@, str_leaf(c.user_agent)))
        .push(("socket"@, str_leaf(c.socket)))
        .push(("bflags"@, LeafV::Int(c.bflags as int)))
        .push(("expires"@, LeafV::Int(c.expires as int)))
        .push(("callid"@, str_leaf(c.callid)))
        .push(("cseq"@, LeafV::Int(c.cseq as int)))
        .push(("attr"@, str_leaf(c.attr)))
        .push(("latency"@, LeafV::Int(c.latency as int)))
        .push(("shtag"@, str_leaf(c.shtag)))
}

pub open spec fn dialog_change_fields(d: DialogChangeV) -> Fields {
    Seq::empty()
        .push(("id"@, str_leaf(d.id)))
        .push(("callid"@, str_leaf(d.call_id)))
        .push(("from_tag"@, str_leaf(d.from_tag)))
        .push(("to_tag"@, str_leaf(d.to_tag)))
        .push(("old_state"@, LeafV::Int(d.old_state.spec_code())))
        .push(("new_state"@, LeafV::Int(d.new_state.spec_code())))
}

pub open spec fn dispatcher_status_fields(d: DispatcherStatusV) -> Fields {
    Seq::empty()
        .push(("partition"@, str_leaf(d.partition)))
        .push(("group"@, str_leaf(d.group)))
        .push(("address"@, str_leaf(d.address)))
        .push(("status"@, str_leaf(d.status.spec_wire())))
}

pub open spec fn node_state_change_fields(c: ClustererNodeStateChange) -> Fields {
    Seq::empty()
        .push(("cluster_id"@, LeafV::Int(c.cluster_id as int)))
        .push(("node_id"@, LeafV::Int(c.node_id as int)))
        .push(("new_state"@, LeafV::Int(c.new_state.spec_code())))
}

pub open spec fn ua_session_fields(u: UASessionV) -> Fields {
    Seq::empty()
        .push(("key"@, str_leaf(u.key)))
        .push(("entity_type"@, str_leaf(u.entity_type)))
        .push(("event_type"@, str_leaf(u.event_type.spec_wire())))
        .push(("status"@, LeafV::Int(u.status as int)))
        .push(("reason"@, str_leaf(u.reason)))
        .push(("method"@, str_leaf(u.method)))
        .push(("body"@, str_leaf(u.body)))
        .push(("headers"@, str_leaf(u.headers)))
}

/// The payload object of a notification.
pub open spec fn payload_fields(n: NotificationV) -> Fields {
    match n {
        NotificationV::EUlContactInsert(c) => ul_contact_fields(c),
        NotificationV::EUlContactDelete(c) => ul_contact_fields(c),
        NotificationV::EUlContactUpdate(c) => ul_contact_fields(c),
        NotificationV::EDlgStateChanged(d) => dialog_change_fields(d),
        NotificationV::EDispatcherStatus(d) => dispatcher_status_fields(d),
        NotificationV::EClustererNodeStateChange(c) => node_state_change_fields(c),
        NotificationV::EUaSession(u) => ua_session_fields(u),
    }
}

/// The document that carries a notification: the protocol version, the
/// discriminator, and the payload.
pub open spec fn notification_doc(n: NotificationV) -> DocV {
    DocV::Object(
        Seq::empty()
            .push(("jsonrpc"@, MemberV::Leaf(LeafV::Str("2.0"@))))
            .push(("method"@, MemberV::Leaf(LeafV::Str(spec_method_name(n)))))
            .push(("params"@, MemberV::Object(payload_fields(n)))),
    )
}

fn str_entry(k: &str, v: &String) -> (r: (String, Leaf))
    ensures
        r.0@ == k@,
        r.1@ == str_leaf(v@),
{
    (string_of(k), Leaf::Str(v.clone()))
}

fn int_entry(k: &str, v: i128) -> (r: (String, Leaf))
    ensures
        r.0@ == k@,
        r.1@ == LeafV::Int(v as int),
{
    (string_of(k), Leaf::Int(v))
}

fn ul_contact_entries(c: &UlContact) -> (r: Vec<(String, Leaf)>)
    ensures
        leaf_entries_view(r@) == ul_contact_fields(c@),
{
    let path = match &c.path {
        Some(s) => Leaf::Str(s.clone()),
        None => Leaf::Null,
    };
    let r = vec![
        str_entry("domain", &c.domain),
        str_entry("aor", &c.aor),
        str_entry("uri", &c.uri),
        str_entry("received", &c.received),
        (string_of("path"), path),
        int_entry("qval", c.qval as i128),
        str_entry("user_agent", &c.user_agent),
        str_entry("socket", &c.socket),
        int_entry("bflags", c.bflags as i128),
        int_entry("expires", c.expires as i128),
        str_entry("callid", &c.callid),
        int_entry("cseq", c.cseq as i128),
        str_entry("attr", &c.attr),
        int_entry("latency", c.latency as i128),
        str_entry("shtag", &c.shtag),
    ];
    assert(leaf_entries_view(r@) =~= ul_contact_fields(c@));
    r
}

fn dialog_change_entries(d: &DialogChange) -> (r: Vec<(String, Leaf)>)
    ensures
        leaf_entries_view(r@) == dialog_change_fields(d@),
{
    let r = vec![
        str_entry("id", &d.id),
        str_entry("callid", &d.call_id),
        str_entry("from_tag", &d.from_tag),
        str_entry("to_tag", &d.to_tag),
        int_entry("old_state", d.old_state.code() as i128),
        int_entry("new_state", d.new_state.code() as i128),
    ];
    assert(leaf_entries_view(r@) =~= dialog_change_fields(d@));
    r
}

fn dispatcher_status_entries(d: &DispatcherStatus) -> (r: Vec<(String, Leaf)>)
    ensures
        leaf_entries_view(r@) == dispatcher_status_fields(d@),
{
    let r = vec![
        str_entry("partition", &d.partition),
        str_entry("group", &d.group),
        str_entry("address", &d.address),
        str_entry("status", &d.status.wire()),
    ];
    assert(leaf_entries_view(r@) =~= dispatcher_status_fields(d@));
    r
}

fn node_state_change_entries(c: &ClustererNodeStateChange) -> (r: Vec<(String, Leaf)>)
    ensures
        leaf_entries_view(r@) == node_state_change_fields(*c),
{
    let r = vec![
        int_entry("cluster_id", c.cluster_id as i128),
        int_entry("node_id", c.node_id as i128),
        int_entry("new_state", c.new_state.code() as i128),
    ];
    assert(leaf_entries_view(r@) =~= node_state_change_fields(*c));
    r
}

fn ua_session_entries(u: &UASession) -> (r: Vec<(String, Leaf)>)
    ensures
        leaf_entries_view(r@) == ua_session_fields(u@),
{
    let r = vec![
        str_entry("key", &u.key),
        str_entry("entity_type", &u.entity_type),
        str_entry("event_type", &u.event_type.wire()),
        int_entry("status", u.status as i128),
        str_entry("reason", &u.reason),
        str_entry("method", &u.method),
        str_entry("body", &u.body),
        str_entry("headers", &u.headers),
    ];
    assert(leaf_entries_view(r@) =~= ua_session_fields(u@));
    r
}

/// The JSON document that carries `n`.
pub fn to_document(n: &Notification) -> (r: Document)
    ensures
        r@ == notification_doc(n@),
{
    let params = match n {
        Notification::EUlContactInsert(c) => ul_contact_entries(c),
        Notification::EUlContactDelete(c) => ul_contact_entries(c),
        Notification::EUlContactUpdate(c) => ul_contact_entries(c),
        Notification::EDlgStateChanged(d) => dialog_change_entries(d),
        Notification::EDispatcherStatus(d) => dispatcher_status_entries(d),
        Notification::EClustererNodeStateChange(c) => node_state_change_entries(c),
        Notification::EUaSession(u) => ua_session_entries(u),
    };
    let top = vec![
        (string_of("jsonrpc"), Member::Leaf(Leaf::Str(string_of("2.0")))),
        (string_of("method"), Member::Leaf(Leaf::Str(n.method_name()))),
        (string_of("params"), Member::Object(params)),
    ];
    assert(member_entries_view(top@) =~= Seq::empty()
        .push(("jsonrpc"@, MemberV::Leaf(LeafV::Str("2.0"@))))
        .push(("method"@, MemberV::Leaf(LeafV::Str(spec_method_name(n@)))))
        .push(("params"@, MemberV::Object(payload_fields(n@)))));
    Document::Object(top)
}

/// Adding an entry overrides whatever earlier entries gave its key.
pub broadcast proof fn lemma_lookup_push<V>(s: Seq<(Seq<char>, V)>, e: (Seq<char>, V), k: Seq<char>)
    ensures
        #[trigger] lookup(s.push(e), k) == if e.0 == k {
            Some(e.1)
        } else {
            lookup(s, k)
        },
{
    assert(s.push(e).drop_last() =~= s);
}

/// Every key that the wire format writes is told apart from the others by
/// its length or by its first character (the discriminators of nineteen
/// characters by their fourteenth).
proof fn lemma_wire_keys_distinct()
    ensures
        "domain"@.len() == 6 && "domain"@[0] == 'd',
        "aor"@.len() == 3 && "aor"@[0] == 'a',
        "uri"@.len() == 3 && "uri"@[0] == 'u',
        "received"@.len() == 8 && "received"@[0] == 'r',
        "path"@.len() == 4 && "path"@[0] == 'p',
        "qval"@.len() == 4 && "qval"@[0] == 'q',
        "user_agent"@.len() == 10 && "user_agent"@[0] == 'u',
        "socket"@.len() == 6 && "socket"@[0] == 's',
        "bflags"@.len() == 6 && "bflags"@[0] == 'b',
        "expires"@.len() == 7 && "expires"@[0] == 'e',
        "callid"@.len() == 6 && "callid"@[0] == 'c',
        "cseq"@.len() == 4 && "cseq"@[0] == 'c',
        "attr"@.len() == 4 && "attr"@[0] == 'a',
        "latency"@.len() == 7 && "latency"@[0] == 'l',
        "shtag"@.len() == 5 && "shtag"@[0] == 's',
        "id"@.len() == 2 && "id"@[0] == 'i',
        "from_tag"@.len() == 8 && "from_tag"@[0] == 'f',
        "to_tag"@.len() == 6 && "to_tag"@[0] == 't',
        "old_state"@.len() == 9 && "old_state"@[0] == 'o',
        "new_state"@.len() == 9 && "new_state"@[0] == 'n',
        "partition"@.len() == 9 && "partition"@[0] == 'p',
        "group"@.len() == 5 && "group"@[0] == 'g',
        "address"@.len() == 7 && "address"@[0] == 'a',
        "status"@.len() == 6 && "status"@[0] == 's',
        "cluster_id"@.len() == 10 && "cluster_id"@[0] == 'c',
        "node_id"@.len() == 7 && "node_id"@[0] == 'n',
        "key"@.len() == 3 && "key"@[0] == 'k',
        "entity_type"@.len() == 11 && "entity_type"@[0] == 'e',
        "event_type"@.len() == 10 && "event_type"@[0] == 'e',
        "reason"@.len() == 6 && "reason"@[0] == 'r',
        "method"@.len() == 6 && "method"@[0] == 'm',
        "body"@.len() == 4 && "body"@[0] == 'b',
        "headers"@.len() == 7 && "headers"@[0] == 'h',
        "E_UL_CONTACT_INSERT"@.len() == 19 && "E_UL_CONTACT_INSERT"@[0] == 'E',
        "E_UL_CONTACT_INSERT"@[13] == 'I',
        "E_UL_CONTACT_DELETE"@.len() == 19 && "E_UL_CONTACT_DELETE"@[0] == 'E',
        "E_UL_CONTACT_DELETE"@[13] == 'D',
        "E_UL_CONTACT_UPDATE"@.len() == 19 && "E_UL_CONTACT_UPDATE"@[0] == 'E',
        "E_UL_CONTACT_UPDATE"@[13] == 'U',
        "E_DLG_STATE_CHANGED"@.len() == 19 && "E_DLG_STATE_CHANGED"@[0] == 'E',
        "E_DLG_STATE_CHANGED"@[13] == 'H',
        "E_DISPATCHER_STATUS"@.len() == 19 && "E_DISPATCHER_STATUS"@[0] == 'E',
        "E_DISPATCHER_STATUS"@[13] == 'S',
        "E_CLUSTERER_NODE_STATE_CHANGE"@.len() == 29 && "E_CLUSTERER_NODE_STATE_CHANGE"@[0] == 'E',
        "E_UA_SESSION"@.len() == 12 && "E_UA_SESSION"@[0] == 'E',
        "active"@.len() == 6 && "active"@[0] == 'a',
        "inactive"@.len() == 8 && "inactive"@[0] == 'i',
        "NEW"@.len() == 3 && "NEW"@[0] == 'N',
        "EARLY"@.len() == 5 && "EARLY"@[0] == 'E',
        "ANSWERED"@.len() == 8 && "ANSWERED"@[0] == 'A',
        "REJECTED"@.len() == 8 && "REJECTED"@[0] == 'R',
        "UPDATED"@.len() == 7 && "UPDATED"@[0] == 'U',
        "TERMINATED"@.len() == 10 && "TERMINATED"@[0] == 'T',
        "jsonrpc"@.len() == 7 && "jsonrpc"@[0] == 'j',
        "params"@.len() == 6 && "params"@[0] == 'p',
        "2.0"@.len() == 3 && "2.0"@[0] == '2',
{
    reveal_strlit("domain");
    reveal_strlit("aor");
    reveal_strlit("uri");
    reveal_strlit("received");
    reveal_strlit("path");
    reveal_strlit("qval");
    reveal_strlit("user_agent");
    reveal_strlit("socket");
    reveal_strlit("bflags");
    reveal_strlit("expires");
    reveal_strlit("callid");
    reveal_strlit("cseq");
    reveal_strlit("attr");
    reveal_strlit("latency");
    reveal_strlit("shtag");
    reveal_strlit("id");
    reveal_strlit("from_tag");
    reveal_strlit("to_tag");
    reveal_strlit("old_state");
    reveal_strlit("new_state");
    reveal_strlit("partition");
    reveal_strlit("group");
    reveal_strlit("address");
    reveal_strlit("status");
    reveal_strlit("cluster_id");
    reveal_strlit("node_id");
    reveal_strlit("key");
    reveal_strlit("entity_type");
    reveal_strlit("event_type");
    reveal_strlit("reason");
    reveal_strlit("method");
    reveal_strlit("body");
    reveal_strlit("headers");
    reveal_strlit("E_UL_CONTACT_INSERT");
    reveal_strlit("E_UL_CONTACT_DELETE");
    reveal_strlit("E_UL_CONTACT_UPDATE");
    reveal_strlit("E_DLG_STATE_CHANGED");
    reveal_strlit("E_DISPATCHER_STATUS");
    reveal_strlit("E_CLUSTERER_NODE_STATE_CHANGE");
    reveal_strlit("E_UA_SESSION");
    reveal_strlit("active");
    reveal_strlit("inactive");
    reveal_strlit("NEW");
    reveal_strlit("EARLY");
    reveal_strlit("ANSWERED");
    reveal_strlit("REJECTED");
    reveal_strlit("UPDATED");
    reveal_strlit("TERMINATED");
    reveal_strlit("jsonrpc");
    reveal_strlit("params");
    reveal_strlit("2.0");
}

proof fn lemma_ul_contact_round_trip(v: UlContactV)
    ensures
        ul_contact_of(ul_contact_fields(v)) == Some(v),
{
    broadcast use lemma_lookup_push;

    lemma_wire_keys_distinct();
    let p = ul_contact_fields(v);
    assert(lookup(p, "domain"@) == Some(str_leaf(v.domain)));
    assert(lookup(p, "aor"@) == Some(str_leaf(v.aor)));
    assert(lookup(p, "uri"@) == Some(str_leaf(v.uri)));
    assert(lookup(p, "received"@) == Some(str_leaf(v.received)));
    assert(lookup(p, "path"@) == Some(opt_str_leaf(v.path)));
    assert(lookup(p, "qval"@) == Some(LeafV::Int(v.qval as int)));
    assert(lookup(p, "user_agent"@) == Some(str_leaf(v.user_agent)));
    assert(lookup(p, "socket"@) == Some(str_leaf(v.socket)));
    assert(lookup(p, "bflags"@) == Some(LeafV::Int(v.bflags as int)));
    assert(lookup(p, "expires"@) == Some(LeafV::Int(v.expires as int)));
    assert(lookup(p, "callid"@) == Some(str_leaf(v.callid)));
    assert(lookup(p, "cseq"@) == Some(LeafV::Int(v.cseq as int)));
    assert(lookup(p, "attr"@) == Some(str_leaf(v.attr)));
    assert(lookup(p, "latency"@) == Some(LeafV::Int(v.latency as int)));
    assert(lookup(p, "shtag"@) == Some(str_leaf(v.shtag)));
}

proof fn lemma_dialog_change_round_trip(v: DialogChangeV)
    ensures
        dialog_change_of(dialog_change_fields(v)) == Some(v),
{
    broadcast use lemma_lookup_push;

    lemma_wire_keys_distinct();
    let p = dialog_change_fields(v);
    assert(lookup(p, "id"@) == Some(str_leaf(v.id)));
    assert(lookup(p, "callid"@) == Some(str_leaf(v.call_id)));
    assert(lookup(p, "from_tag"@) == Some(str_leaf(v.from_tag)));
    assert(lookup(p, "to_tag"@) == Some(str_leaf(v.to_tag)));
    assert(lookup(p, "old_state"@) == Some(LeafV::Int(v.old_state.spec_code())));
    assert(lookup(p, "new_state"@) == Some(LeafV::Int(v.new_state.spec_code())));
}

proof fn lemma_dispatcher_status_round_trip(v: DispatcherStatusV)
    ensures
        dispatcher_status_of(dispatcher_status_fields(v)) == Some(v),
{
    broadcast use lemma_lookup_push;

    lemma_wire_keys_distinct();
    let p = dispatcher_status_fields(v);
    assert(lookup(p, "partition"@) == Some(str_leaf(v.partition)));
    assert(lookup(p, "group"@) == Some(str_leaf(v.group)));
    assert(lookup(p, "address"@) == Some(str_leaf(v.address)));
    assert(lookup(p, "status"@) == Some(str_leaf(v.status.spec_wire())));
}

proof fn lemma_node_state_change_round_trip(v: ClustererNodeStateChange)
    ensures
        node_state_change_of(node_state_change_fields(v)) == Some(v),
{
    broadcast use lemma_lookup_push;

    lemma_wire_keys_distinct();
    let p = node_state_change_fields(v);
    assert(lookup(p, "cluster_id"@) == Some(LeafV::Int(v.cluster_id as int)));
    assert(lookup(p, "node_id"@) == Some(LeafV::Int(v.node_id as int)));
    assert(lookup(p, "new_state"@) == Some(LeafV::Int(v.new_state.spec_code())));
}

proof fn lemma_ua_session_round_trip(v: UASessionV)
    ensures
        ua_session_of(ua_session_fields(v)) == Some(v),
{
    broadcast use lemma_lookup_push;

    lemma_wire_keys_distinct();
    let p = ua_session_fields(v);
    assert(lookup(p, "key"@) == Some(str_leaf(v.key)));
    assert(lookup(p, "entity_type"@) == Some(str_leaf(v.entity_type)));
    assert(lookup(p, "event_type"@) == Some(str_leaf(v.event_type.spec_wire())));
    assert(lookup(p, "status"@) == Some(LeafV::Int(v.status as int)));
    assert(lookup(p, "reason"@) == Some(str_leaf(v.reason)));
    assert(lookup(p, "method"@) == Some(str_leaf(v.method)));
    assert(lookup(p, "body"@) == Some(str_leaf(v.body)));
    assert(lookup(p, "headers"@) == Some(str_leaf(v.headers)));
}

proof fn lemma_payload_round_trip(n: NotificationV)
    ensures
        known_method(spec_method_name(n)),
        payload_of(spec_method_name(n), payload_fields(n)) == Some(n),
{
    lemma_wire_keys_distinct();
    match n {
        NotificationV::EUlContactInsert(c) => lemma_ul_contact_round_trip(c),
        NotificationV::EUlContactDelete(c) => lemma_ul_contact_round_trip(c),
        NotificationV::EUlContactUpdate(c) => lemma_ul_contact_round_trip(c),
        NotificationV::EDlgStateChanged(d) => lemma_dialog_change_round_trip(d),
        NotificationV::EDispatcherStatus(d) => lemma_dispatcher_status_round_trip(d),
        NotificationV::EClustererNodeStateChange(c) => lemma_node_state_change_round_trip(c),
        NotificationV::EUaSession(u) => lemma_ua_session_round_trip(u),
    }
}

/// Every notification, written as a document and read back, is itself.
pub proof fn lemma_round_trip(n: NotificationV)
    ensures
        decode_doc(notification_doc(n)) == Ok::<NotificationV, DecodeErrorV>(n),
{
    broadcast use lemma_lookup_push;

    lemma_wire_keys_distinct();
    lemma_payload_round_trip(n);
    let top = notification_doc(n)->Object_0;
    assert(lookup(top, "method"@) == Some(MemberV::Leaf(LeafV::Str(spec_method_name(n)))));
    assert(lookup(top, "params"@) == Some(MemberV::Object(payload_fields(n))));
}

/// Payloads that read the same through `lookup` decode the same.
proof fn lemma_same_fields_payload(m: Seq<char>, fx: Fields, fy: Fields)
    requires
        forall|k: Seq<char>| #[trigger] lookup(fx, k) == lookup(fy, k),
    ensures
        payload_of(m, fx) == payload_of(m, fy),
{
    assert(ul_contact_of(fx) == ul_contact_of(fy));
    assert(dialog_change_of(fx) == dialog_change_of(fy));
    assert(dispatcher_status_of(fx) == dispatcher_status_of(fy));
    assert(node_state_change_of(fx) == node_state_change_of(fy));
    assert(ua_session_of(fx) == ua_session_of(fy));
}

/// Decoding reads a document through `lookup` alone, so two documents that
/// read the same decode the same.
pub proof fn lemma_same_doc_decodes(a: DocV, b: DocV)
    requires
        same_doc(a, b),
    ensures
        decode_doc(a) == decode_doc(b),
{
    if let (DocV::Object(x), DocV::Object(y)) = (a, b) {
        let mx = lookup(x, "method"@);
        let my = lookup(y, "method"@);
        let px = lookup(x, "params"@);
        let py = lookup(y, "params"@);
        assert(mx is Some ==> my is Some && same_member(mx.unwrap(), my.unwrap()));
        assert(mx is None ==> my is None);
        assert(px is Some ==> py is Some && same_member(px.unwrap(), py.unwrap()));
        assert(px is None ==> py is None);
        if let (Some(MemberV::Object(fx)), Some(MemberV::Object(fy))) = (px, py) {
            if let Some(MemberV::Leaf(LeafV::Str(m))) = mx {
                lemma_same_fields_payload(m, fx, fy);
            }
        }
    }
}

/// A notification's document holds only what JSON text carries unchanged.
proof fn lemma_notification_printable(n: NotificationV)
    ensures
        printable(notification_doc(n)),
{
    let top = notification_doc(n)->Object_0;
    let p = payload_fields(n);
    lemma_wire_keys_distinct();
    reveal_strlit("$serde_json::private::RawValue");
    assert(reserved_key().len() == 30);
    assert(usize::MAX as int <= u64::MAX as int);
    assert forall|i: int| 0 <= i < p.len() implies printable_leaf(#[trigger] p[i].1) && p[i].0.len()
        < 30 by {
        match n {
            NotificationV::EDlgStateChanged(d) => {
                assert(0 <= d.old_state.spec_code() <= 5);
                assert(0 <= d.new_state.spec_code() <= 5);
            },
            NotificationV::EClustererNodeStateChange(c) => {
                assert(0 <= c.new_state.spec_code() <= 1);
            },
            _ => {},
        }
    }
    assert forall|i: int| 0 <= i < top.len() implies top[i].0.len() < 30 by {}
    assert(printable_member(top[2].1));
}

/// The JSON text of `n`, which decodes back to `n`.
pub fn encode(n: &Notification) -> (r: Vec<u8>)
    ensures
        r@ == json_text(notification_doc(n@)),
        decode_bytes(r@) == Ok::<NotificationV, DecodeErrorV>(n@),
{
    let d = to_document(n);
    let r = print_document(&d);
    proof {
        lemma_notification_printable(n@);
        let e = json_read(r@)->Ok_0;
        lemma_same_doc_decodes(e, d@);
        lemma_round_trip(n@);
    }
    r
}

/// Bytes that are not JSON text decode to `Malformed`, with serde_json's
/// message: a failure value, never a notification and never a fault.
pub proof fn lemma_malformed_rejected(b: Seq<u8>)
    requires
        json_read(b) is Err,
    ensures
        decode_bytes(b) == Err::<NotificationV, DecodeErrorV>(
            DecodeErrorV::Malformed(json_read(b)->Err_0),
        ),
{
}

/// A discriminator outside the closed set of variants decodes to
/// `Unrecognized`, whatever the payload, and so never to `BadPayload`.
pub proof fn lemma_unknown_discriminator(top: Seq<(Seq<char>, MemberV)>, m: Seq<char>)
    requires
        lookup(top, "method"@) == Some(MemberV::Leaf(LeafV::Str(m))),
        !known_method(m),
    ensures
        decode_doc(DocV::Object(top)) == Err::<NotificationV, DecodeErrorV>(
            DecodeErrorV::Unrecognized(m),
        ),
        decode_doc(DocV::Object(top)) != Err::<NotificationV, DecodeErrorV>(
            DecodeErrorV::BadPayload(m),
        ),
{
}

/// A binding's payload without its "received" and "path" members.
pub open spec fn ul_contact_fields_without_optional(c: UlContactV) -> Fields {
    Seq::empty()
        .push(("domain"@, str_leaf(c.domain)))
        .push(("aor"@, str_leaf(c.aor)))
        .push(("uri"@, str_leaf(c.uri)))
        .push(("qval"@, LeafV::Int(c.qval as int)))
        .push(("user_agent"@, str_leaf(c.user_agent)))
        .push(("socket"@, str_leaf(c.socket)))
        .push(("bflags"@, LeafV::Int(c.bflags as int)))
        .push(("expires"@, LeafV::Int(c.expires as int)))
        .push(("callid"@, str_leaf(c.callid)))
        .push(("cseq"@, LeafV::Int(c.cseq as int)))
        .push(("attr"@, str_leaf(c.attr)))
        .push(("latency"@, LeafV::Int(c.latency as int)))
        .push(("shtag"@, str_leaf(c.shtag)))
}

/// A binding's payload with "received" and "path" written as null.
pub open spec fn ul_contact_fields_with_nulls(c: UlContactV) -> Fields {
    ul_contact_fields_without_optional(c).push(("received"@, LeafV::Null)).push(
        ("path"@, LeafV::Null),
    )
}

/// A binding whose "received" and "path" members are absent, or null, decodes
/// with an empty "received" and no "path", not to a failure.
pub proof fn lemma_optional_members_default(c: UlContactV)
    requires
        c.received == Seq::<char>::empty(),
        c.path is None,
    ensures
        ul_contact_of(ul_contact_fields_without_optional(c)) == Some(c),
        ul_contact_of(ul_contact_fields_with_nulls(c)) == Some(c),
{
    broadcast use lemma_lookup_push;

    lemma_wire_keys_distinct();
    let p = ul_contact_fields_without_optional(c);
    let q = ul_contact_fields_with_nulls(c);
    assert(lookup(Seq::<(Seq<char>, LeafV)>::empty(), "received"@) is None);
    assert(lookup(Seq::<(Seq<char>, LeafV)>::empty(), "path"@) is None);
    assert(lookup(p, "received"@) is None);
    assert(lookup(p, "path"@) is None);
    assert(lookup(q, "received"@) == Some(LeafV::Null));
    assert(lookup(q, "path"@) == Some(LeafV::Null));
    assert(lookup(p, "domain"@) == Some(str_leaf(c.domain)));
    assert(lookup(p, "aor"@) == Some(str_leaf(c.aor)));
    assert(lookup(p, "uri"@) == Some(str_leaf(c.uri)));
    assert(lookup(p, "qval"@) == Some(LeafV::Int(c.qval as int)));
    assert(lookup(p, "user_agent"@) == Some(str_leaf(c.user_agent)));
    assert(lookup(p, "socket"@) == Some(str_leaf(c.socket)));
    assert(lookup(p, "bflags"@) == Some(LeafV::Int(c.bflags as int)));
    assert(lookup(p, "expires"@) == Some(LeafV::Int(c.expires as int)));
    assert(lookup(p, "callid"@) == Some(str_leaf(c.callid)));
    assert(lookup(p, "cseq"@) == Some(LeafV::Int(c.cseq as int)));
    assert(lookup(p, "attr"@) == Some(str_leaf(c.attr)));
    assert(lookup(p, "latency"@) == Some(LeafV::Int(c.latency as int)));
    assert(lookup(p, "shtag"@) == Some(str_leaf(c.shtag)));
    assert(ul_contact_of(p) == Some(c));
    assert(ul_contact_of(q) == Some(c));
}

} // verus!
