//! The notification variants, their payload records and the wire form of
//! each enumeration in them.
use vstd::prelude::*;
use vstd::string::to_string_from_display_ensures_for_str;

verus! {

/// `s` holds exactly the characters of `lit`.
pub fn str_is(s: &String, lit: &str) -> (r: bool)
    ensures
        r == (s@ == lit@),
{
    let l: String = lit.to_string();
    proof {
        to_string_from_display_ensures_for_str(lit, l);
    }
    *s == l
}

/// A new `String` holding the characters of `lit`.
pub fn string_of(lit: &str) -> (r: String)
    ensures
        r@ == lit@,
{
    let l: String = lit.to_string();
    proof {
        to_string_from_display_ensures_for_str(lit, l);
    }
    l
}

/// The state of a dialog, written on the wire as the integers 1 to 5.
#[derive(Clone, Copy, Debug, PartialEq, Eq, Structural)]
pub enum DialogState {
    Unconfirmed,
    Early,
    ConfirmedNA,
    Confirmed,
    Deleted,
}

impl DialogState {
    pub open spec fn spec_code(self) -> int {
        match self {
            DialogState::Unconfirmed => 1,
            DialogState::Early => 2,
            DialogState::ConfirmedNA => 3,
            DialogState::Confirmed => 4,
            DialogState::Deleted => 5,
        }
    }

    pub open spec fn spec_from_code(i: int) -> Option<DialogState> {
        if i == 1 {
            Some(DialogState::Unconfirmed)
        } else if i == 2 {
            Some(DialogState::Early)
        } else if i == 3 {
            Some(DialogState::ConfirmedNA)
        } else if i == 4 {
            Some(DialogState::Confirmed)
        } else if i == 5 {
            Some(DialogState::Deleted)
        } else {
            None
        }
    }

    pub open spec fn spec_name(self) -> Seq<char> {
        match self {
            DialogState::Unconfirmed => "Unconfirmed"@,
            DialogState::Early => "Early"@,
            DialogState::ConfirmedNA => "Confirmed NoACk"@,
            DialogState::Confirmed => "Confirmed"@,
            DialogState::Deleted => "Deleted"@,
        }
    }

    pub fn code(&self) -> (r: u8)
        ensures
            r as int == self.spec_code(),
    {
        match self {
            DialogState::Unconfirmed => 1,
            DialogState::Early => 2,
            DialogState::ConfirmedNA => 3,
            DialogState::Confirmed => 4,
            DialogState::Deleted => 5,
        }
    }

    pub fn from_code(i: i128) -> (r: Option<DialogState>)
        ensures
            r == DialogState::spec_from_code(i as int),
    {
        if i == 1 {
            Some(DialogState::Unconfirmed)
        } else if i == 2 {
            Some(DialogState::Early)
        } else if i == 3 {
            Some(DialogState::ConfirmedNA)
        } else if i == 4 {
            Some(DialogState::Confirmed)
        } else if i == 5 {
            Some(DialogState::Deleted)
        } else {
            None
        }
    }

    /// The state's name as people read it.
    pub fn name(&self) -> (r: String)
        ensures
            r@ == self.spec_name(),
    {
        match self {
            DialogState::Unconfirmed => string_of("Unconfirmed"),
            DialogState::Early => string_of("Early"),
            DialogState::ConfirmedNA => string_of("Confirmed NoACk"),
            DialogState::Confirmed => string_of("Confirmed"),
            DialogState::Deleted => string_of("Deleted"),
        }
    }
}

/// The state of a dispatcher destination, written as "active" or "inactive".
#[derive(Clone, Copy, Debug, PartialEq, Eq, Structural)]
pub enum DispatcherState {
    Active,
    Inactive,
}

impl DispatcherState {
    pub open spec fn spec_wire(self) -> Seq<char> {
        match self {
            DispatcherState::Active => "active"@,
            DispatcherState::Inactive => "inactive"@,
        }
    }

    pub open spec fn spec_from_wire(s: Seq<char>) -> Option<DispatcherState> {
        if s == "active"@ {
            Some(DispatcherState::Active)
        } else if s == "inactive"@ {
            Some(DispatcherState::Inactive)
        } else {
            None
        }
    }

    pub fn wire(&self) -> (r: String)
        ensures
            r@ == self.spec_wire(),
    {
        match self {
            DispatcherState::Active => string_of("active"),
            DispatcherState::Inactive => string_of("inactive"),
        }
    }

    pub fn from_wire(s: &String) -> (r: Option<DispatcherState>)
        ensures
            r == DispatcherState::spec_from_wire(s@),
    {
        if str_is(s, "active") {
            Some(DispatcherState::Active)
        } else if str_is(s, "inactive") {
            Some(DispatcherState::Inactive)
        } else {
            None
        }
    }
}

/// The state of a cluster node, written on the wire as the integer 0 or 1.
#[derive(Clone, Copy, Debug, PartialEq, Eq, Structural)]
pub enum ClusterNodeState {
    Down,
    Up,
}

impl ClusterNodeState {
    pub open spec fn spec_code(self) -> int {
        match self {
            ClusterNodeState::Down => 0,
            ClusterNodeState::Up => 1,
        }
    }

    pub open spec fn spec_from_code(i: int) -> Option<ClusterNodeState> {
        if i == 0 {
            Some(ClusterNodeState::Down)
        } else if i == 1 {
            Some(ClusterNodeState::Up)
        } else {
            None
        }
    }

    pub fn code(&self) -> (r: u8)
        ensures
            r as int == self.spec_code(),
    {
        match self {
            ClusterNodeState::Down => 0,
            ClusterNodeState::Up => 1,
        }
    }

    pub fn from_code(i: i128) -> (r: Option<ClusterNodeState>)
        ensures
            r == ClusterNodeState::spec_from_code(i as int),
    {
        if i == 0 {
            Some(ClusterNodeState::Down)
        } else if i == 1 {
            Some(ClusterNodeState::Up)
        } else {
            None
        }
    }
}

/// The kind of a user-agent session event, written in capitals.
#[derive(Clone, Copy, Debug, PartialEq, Eq, Structural)]
pub enum UAEventType {
    New,
    Early,
    Answered,
    Rejected,
    Updated,
    Terminated,
}

impl UAEventType {
    pub open spec fn spec_wire(self) -> Seq<char> {
        match self {
            UAEventType::New => "NEW"@,
            UAEventType::Early => "EARLY"@,
            UAEventType::Answered => "ANSWERED"@,
            UAEventType::Rejected => "REJECTED"@,
            UAEventType::Updated => "UPDATED"@,
            UAEventType::Terminated => "TERMINATED"@,
        }
    }

    pub open spec fn spec_from_wire(s: Seq<char>) -> Option<UAEventType> {
        if s == "NEW"@ {
            Some(UAEventType::New)
        } else if s == "EARLY"@ {
            Some(UAEventType::Early)
        } else if s == "ANSWERED"@ {
            Some(UAEventType::Answered)
        } else if s == "REJECTED"@ {
            Some(UAEventType::Rejected)
        } else if s == "UPDATED"@ {
            Some(UAEventType::Updated)
        } else if s == "TERMINATED"@ {
            Some(UAEventType::Terminated)
        } else {
            None
        }
    }

    pub fn wire(&self) -> (r: String)
        ensures
            r@ == self.spec_wire(),
    {
        match self {
            UAEventType::New => string_of("NEW"),
            UAEventType::Early => string_of("EARLY"),
            UAEventType::Answered => string_of("ANSWERED"),
            UAEventType::Rejected => string_of("REJECTED"),
            UAEventType::Updated => string_of("UPDATED"),
            UAEventType::Terminated => string_of("TERMINATED"),
        }
    }

    pub fn from_wire(s: &String) -> (r: Option<UAEventType>)
        ensures
            r == UAEventType::spec_from_wire(s@),
    {
        if str_is(s, "NEW") {
            Some(UAEventType::New)
        } else if str_is(s, "EARLY") {
            Some(UAEventType::Early)
        } else if str_is(s, "ANSWERED") {
            Some(UAEventType::Answered)
        } else if str_is(s, "REJECTED") {
            Some(UAEventType::Rejected)
        } else if str_is(s, "UPDATED") {
            Some(UAEventType::Updated)
        } else if str_is(s, "TERMINATED") {
            Some(UAEventType::Terminated)
        } else {
            None
        }
    }
}

/// A binding of the location service, as inserted, updated or deleted.
#[derive(Clone, Debug)]
pub struct UlContact {
    pub domain: String,
    pub aor: String,
    pub uri: String,
    pub received: String,
    pub path: Option<String>,
    pub qval: i64,
    pub user_agent: String,
    pub socket: String,
    pub bflags: i64,
    pub expires: u64,
    pub callid: String,
    pub cseq: u64,
    pub attr: String,
    pub latency: i64,
    pub shtag: String,
}

pub struct UlContactV {
    pub domain: Seq<char>,
    pub aor: Seq<char>,
    pub uri: Seq<char>,
    pub received: Seq<char>,
    pub path: Option<Seq<char>>,
    pub qval: i64,
    pub user_agent: Seq<char>,
    pub socket: Seq<char>,
    pub bflags: i64,
    pub expires: u64,
    pub callid: Seq<char>,
    pub cseq: u64,
    pub attr: Seq<char>,
    pub latency: i64,
    pub shtag: Seq<char>,
}

pub open spec fn opt_str_view(o: Option<String>) -> Option<Seq<char>> {
    match o {
        Some(s) => Some(s@),
        None => None,
    }
}

impl View for UlContact {
    type V = UlContactV;

    open spec fn view(&self) -> UlContactV {
        UlContactV {
            domain: self.domain@,
            aor: self.aor@,
            uri: self.uri@,
            received: self.received@,
            path: opt_str_view(self.path),
            qval: self.qval,
            user_agent: self.user_agent@,
            socket: self.socket@,
            bflags: self.bflags,
            expires: self.expires,
            callid: self.callid@,
            cseq: self.cseq,
            attr: self.attr@,
            latency: self.latency,
            shtag: self.shtag@,
        }
    }
}

/// A dialog that went from one state to another.
#[derive(Clone, Debug)]
pub struct DialogChange {
    pub id: String,
    pub call_id: String,
    pub from_tag: String,
    pub to_tag: String,
    pub old_state: DialogState,
    pub new_state: DialogState,
}

pub struct DialogChangeV {
    pub id: Seq<char>,
    pub call_id: Seq<char>,
    pub from_tag: Seq<char>,
    pub to_tag: Seq<char>,
    pub old_state: DialogState,
    pub new_state: DialogState,
}

impl View for DialogChange {
    type V = DialogChangeV;

    open spec fn view(&self) -> DialogChangeV {
        DialogChangeV {
            id: self.id@,
            call_id: self.call_id@,
            from_tag: self.from_tag@,
            to_tag: self.to_tag@,
            old_state: self.old_state,
            new_state: self.new_state,
        }
    }
}

/// A dispatcher destination whose state changed.
#[derive(Clone, Debug)]
pub struct DispatcherStatus {
    pub partition: String,
    pub group: String,
    pub address: String,
    pub status: DispatcherState,
}

pub struct DispatcherStatusV {
    pub partition: Seq<char>,
    pub group: Seq<char>,
    pub address: Seq<char>,
    pub status: DispatcherState,
}

impl View for DispatcherStatus {
    type V = DispatcherStatusV;

    open spec fn view(&self) -> DispatcherStatusV {
        DispatcherStatusV {
            partition: self.partition@,
            group: self.group@,
            address: self.address@,
            status: self.status,
        }
    }
}

/// A cluster node that went up or down.
#[derive(Clone, Copy, Debug, PartialEq, Eq, Structural)]
pub struct ClustererNodeStateChange {
    pub cluster_id: usize,
    pub node_id: usize,
    pub new_state: ClusterNodeState,
}

/// An event of a back-to-back user-agent session.
#[derive(Clone, Debug)]
pub struct UASession {
    pub key: String,
    pub entity_type: String,
    pub event_type: UAEventType,
    pub status: usize,
    pub reason: String,
    pub method: String,
    pub body: String,
    pub headers: String,
}

pub struct UASessionV {
    pub key: Seq<char>,
    pub entity_type: Seq<char>,
    pub event_type: UAEventType,
    pub status: usize,
    pub reason: Seq<char>,
    pub method: Seq<char>,
    pub body: Seq<char>,
    pub headers: Seq<char>,
}

impl View for UASession {
    type V = UASessionV;

    open spec fn view(&self) -> UASessionV {
        UASessionV {
            key: self.key@,
            entity_type: self.entity_type@,
            event_type: self.event_type,
            status: self.status,
            reason: self.reason@,
            method: self.method@,
            body: self.body@,
            headers: self.headers@,
        }
    }
}

/// One notification, as one datagram carries it.
#[derive(Clone, Debug)]
pub enum Notification {
    EUlContactInsert(UlContact),
    EUlContactDelete(UlContact),
    EUlContactUpdate(UlContact),
    EDlgStateChanged(DialogChange),
    EDispatcherStatus(DispatcherStatus),
    EClustererNodeStateChange(ClustererNodeStateChange),
    EUaSession(UASession),
}

pub enum NotificationV {
    EUlContactInsert(UlContactV),
    EUlContactDelete(UlContactV),
    EUlContactUpdate(UlContactV),
    EDlgStateChanged(DialogChangeV),
    EDispatcherStatus(DispatcherStatusV),
    EClustererNodeStateChange(ClustererNodeStateChange),
    EUaSession(UASessionV),
}

impl View for Notification {
    type V = NotificationV;

    open spec fn view(&self) -> NotificationV {
        match self {
            Notification::EUlContactInsert(c) => NotificationV::EUlContactInsert(c@),
            Notification::EUlContactDelete(c) => NotificationV::EUlContactDelete(c@),
            Notification::EUlContactUpdate(c) => NotificationV::EUlContactUpdate(c@),
            Notification::EDlgStateChanged(d) => NotificationV::EDlgStateChanged(d@),
            Notification::EDispatcherStatus(d) => NotificationV::EDispatcherStatus(d@),
            Notification::EClustererNodeStateChange(c) => NotificationV::EClustererNodeStateChange(*c),
            Notification::EUaSession(u) => NotificationV::EUaSession(u@),
        }
    }
}

/// The discriminator that names each variant on the wire.
pub open spec fn spec_method_name(n: NotificationV) -> Seq<char> {
    match n {
        NotificationV::EUlContactInsert(_) => "E_UL_CONTACT_INSERT"@,
        NotificationV::EUlContactDelete(_) => "E_UL_CONTACT_DELETE"@,
        NotificationV::EUlContactUpdate(_) => "E_UL_CONTACT_UPDATE"@,
        NotificationV::EDlgStateChanged(_) => "E_DLG_STATE_CHANGED"@,
        NotificationV::EDispatcherStatus(_) => "E_DISPATCHER_STATUS"@,
        NotificationV::EClustererNodeStateChange(_) => "E_CLUSTERER_NODE_STATE_CHANGE"@,
        NotificationV::EUaSession(_) => "E_UA_SESSION"@,
    }
}

impl Notification {
    /// The discriminator of this notification's variant.
    pub fn method_name(&self) -> (r: String)
        ensures
            r@ == spec_method_name(self@),
    {
        match self {
            Notification::EUlContactInsert(_) => string_of("E_UL_CONTACT_INSERT"),
            Notification::EUlContactDelete(_) => string_of("E_UL_CONTACT_DELETE"),
            Notification::EUlContactUpdate(_) => string_of("E_UL_CONTACT_UPDATE"),
            Notification::EDlgStateChanged(_) => string_of("E_DLG_STATE_CHANGED"),
            Notification::EDispatcherStatus(_) => string_of("E_DISPATCHER_STATUS"),
            Notification::EClustererNodeStateChange(_) => string_of("E_CLUSTERER_NODE_STATE_CHANGE"),
            Notification::EUaSession(_) => string_of("E_UA_SESSION"),
        }
    }
}

} // verus!
