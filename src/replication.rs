use vstd::prelude::*;

verus! {

/// A time-ordered unique identifier (a KSUID), held as its twenty bytes: a four-byte
/// big-endian timestamp and sixteen random bytes.
#[derive(Clone, Copy, Debug, PartialEq, Eq)]
pub struct AlertId {
    pub bytes: [u8; 20],
}

/// The kind of stream an alert watches.
#[derive(Clone, Copy, Debug, PartialEq, Eq, Structural)]
pub enum StreamType {
    Logs,
    Metrics,
    Traces,
    EnrichmentTables,
    Filelist,
    Metadata,
    Index,
}

/// An alert definition, as far as replication reads it.
#[derive(Clone, Debug, PartialEq, Eq)]
pub struct Alert {
    /// Its identifier; storage assigns one when it is absent.
    pub id: Option<AlertId>,
    pub name: String,
    pub stream_type: StreamType,
    pub stream_name: String,
    /// The rest of the definition (query, conditions, destinations), carried as is.
    pub details: String,
}

/// A change to alert definitions, replicated from another cluster.
#[derive(Clone, Debug, PartialEq, Eq)]
pub enum AlertMessage {
    Create { org_id: String, folder_id: String, alert: Alert },
    Update { org_id: String, folder_id: Option<String>, alert: Alert },
    Delete { org_id: String, alert_id: AlertId },
}

/// The channel a queued message was sent on.
#[derive(Clone, Debug, PartialEq, Eq)]
pub enum MessageType {
    /// The current channel of the alerts table.
    AlertsTable,
    /// Any other channel, such as the legacy metadata channel.
    Other { name: String },
}

/// A message as it arrives from the replication queue: a tag and an opaque payload.
#[derive(Clone, Debug, PartialEq, Eq)]
pub struct RawQueueMessage {
    pub message_type: MessageType,
    pub value: Option<Vec<u8>>,
}

/// Why a message of the alerts channel could not be decoded.
#[derive(Clone, Copy, Debug, PartialEq, Eq, Structural)]
pub enum DecodeError {
    /// The message has no payload.
    MissingValue,
    /// The payload is not an encoded alert message.
    Malformed,
}

/// Which handler takes a message.
#[derive(Clone, Copy, Debug, PartialEq, Eq, Structural)]
pub enum Route {
    /// Decode the payload as an `AlertMessage` and apply it.
    Decode,
    /// Hand the whole message to the legacy metadata processor, undecoded.
    Legacy,
}

/// The handler of a message, chosen by its tag before any decoding: the alerts channel is
/// decoded, every other channel goes to the legacy processor. A message of the alerts
/// channel without a payload, or with an empty one, fails to decode.
pub open spec fn route_of(msg: RawQueueMessage) -> Result<Route, DecodeError> {
    match msg.message_type {
        MessageType::Other { .. } => Ok(Route::Legacy),
        MessageType::AlertsTable => match msg.value {
            None => Err(DecodeError::MissingValue),
            Some(v) => if v@.len() == 0 {
                Err(DecodeError::Malformed)
            } else {
                Ok(Route::Decode)
            },
        },
    }
}

/// Picks the handler of a message; see `route_of`.
pub fn route(msg: &RawQueueMessage) -> (r: Result<Route, DecodeError>)
    ensures
        r == route_of(*msg),
{
    match &msg.message_type {
        MessageType::Other { .. } => Ok(Route::Legacy),
        MessageType::AlertsTable => match &msg.value {
            None => Err(DecodeError::MissingValue),
            Some(v) => if v.len() == 0 {
                Err(DecodeError::Malformed)
            } else {
                Ok(Route::Decode)
            },
        },
    }
}

/// Where the application of one message stands.
#[derive(Clone, Debug)]
pub enum ApplyPhase {
    Start { msg: AlertMessage },
    AwaitStored { org_id: String },
    AwaitLookup { org_id: String, alert_id: AlertId },
    AwaitDeleted { org_id: String, alert: Alert },
    AwaitEmitted,
    Finished,
}

/// What the driver reports back after doing an action.
#[derive(Clone, Debug, PartialEq, Eq)]
pub enum ApplyEvent {
    /// Application is asked to begin.
    Begin,
    /// Storage wrote the alert and returned it as stored.
    Stored { alert: Alert },
    /// Storage looked the alert up.
    Found { alert: Option<Alert> },
    /// Storage deleted the alert.
    Deleted,
    /// The coordination event was emitted.
    Emitted,
    /// Storage or the event sink failed.
    Failed,
}

/// What the driver must do next.
#[derive(Clone, Debug, PartialEq, Eq)]
pub enum ApplyAction {
    /// Create the alert in storage under the organization and folder.
    CreateAlert { org_id: String, folder_id: String, alert: Alert },
    /// Replace the alert in storage, moving it when a folder is given.
    UpdateAlert { org_id: String, folder_id: Option<String>, alert: Alert },
    /// Look the alert up in storage.
    GetAlert { org_id: String, alert_id: AlertId },
    /// Delete the alert from storage.
    DeleteAlert { org_id: String, alert_id: AlertId },
    /// Emit a local "put" coordination event with the stored alert.
    EmitPut { org_id: String, alert: Alert },
    /// Emit a local "delete" coordination event for the deleted alert.
    EmitDelete { org_id: String, stream_type: StreamType, stream_name: String, alert_name: String },
    /// The message is applied.
    Done,
    /// Return the error of storage or of the event sink to the caller.
    Fail,
    /// The event did not fit the phase: nothing to do.
    Ignore,
}

/// The transition of the application of one message: the next phase and the action.
/// A coordination event is emitted only after storage succeeded; deleting an absent
/// alert succeeds without any event.
pub open spec fn apply_next(phase: ApplyPhase, event: ApplyEvent) -> (ApplyPhase, ApplyAction) {
    match (phase, event) {
        (ApplyPhase::Start { msg }, ApplyEvent::Begin) => match msg {
            AlertMessage::Create { org_id, folder_id, alert } => (
                ApplyPhase::AwaitStored { org_id },
                ApplyAction::CreateAlert { org_id, folder_id, alert },
            ),
            AlertMessage::Update { org_id, folder_id, alert } => (
                ApplyPhase::AwaitStored { org_id },
                ApplyAction::UpdateAlert { org_id, folder_id, alert },
            ),
            AlertMessage::Delete { org_id, alert_id } => (
                ApplyPhase::AwaitLookup { org_id, alert_id },
                ApplyAction::GetAlert { org_id, alert_id },
            ),
        },
        (ApplyPhase::AwaitStored { org_id }, ApplyEvent::Stored { alert }) => (
            ApplyPhase::AwaitEmitted,
            ApplyAction::EmitPut { org_id, alert },
        ),
        (ApplyPhase::AwaitLookup { org_id, alert_id }, ApplyEvent::Found { alert }) => match alert {
            None => (ApplyPhase::Finished, ApplyAction::Done),
            Some(a) => (
                ApplyPhase::AwaitDeleted { org_id, alert: a },
                ApplyAction::DeleteAlert { org_id, alert_id },
            ),
        },
        (ApplyPhase::AwaitDeleted { org_id, alert }, ApplyEvent::Deleted) => (
            ApplyPhase::AwaitEmitted,
            ApplyAction::EmitDelete {
                org_id,
                stream_type: alert.stream_type,
                stream_name: alert.stream_name,
                alert_name: alert.name,
            },
        ),
        (ApplyPhase::AwaitEmitted, ApplyEvent::Emitted) => (ApplyPhase::Finished, ApplyAction::Done),
        (ApplyPhase::AwaitStored { .. }, ApplyEvent::Failed) => (ApplyPhase::Finished, ApplyAction::Fail),
        (ApplyPhase::AwaitLookup { .. }, ApplyEvent::Failed) => (ApplyPhase::Finished, ApplyAction::Fail),
        (ApplyPhase::AwaitDeleted { .. }, ApplyEvent::Failed) => (ApplyPhase::Finished, ApplyAction::Fail),
        (ApplyPhase::AwaitEmitted, ApplyEvent::Failed) => (ApplyPhase::Finished, ApplyAction::Fail),
        (p, _) => (p, ApplyAction::Ignore),
    }
}

/// The application of one decoded message to local storage, followed by a local
/// coordination event.
pub struct Apply {
    pub phase: ApplyPhase,
}

impl Apply {
    /// Application of `msg` that has not begun.
    pub fn new(msg: AlertMessage) -> (r: Apply)
        ensures
            r.phase == (ApplyPhase::Start { msg }),
    {
        Apply { phase: ApplyPhase::Start { msg } }
    }

    /// Takes one event and says what to do next.
    pub fn step(self, event: ApplyEvent) -> (r: (Apply, ApplyAction))
        ensures
            (r.0.phase, r.1) == apply_next(self.phase, event),
    {
        let (next, action) = match (self.phase, event) {
            (ApplyPhase::Start { msg }, ApplyEvent::Begin) => match msg {
                AlertMessage::Create { org_id, folder_id, alert } => {
                    let org = org_id.clone();
                    (ApplyPhase::AwaitStored { org_id: org }, ApplyAction::CreateAlert { org_id, folder_id, alert })
                },
                AlertMessage::Update { org_id, folder_id, alert } => {
                    let org = org_id.clone();
                    (ApplyPhase::AwaitStored { org_id: org }, ApplyAction::UpdateAlert { org_id, folder_id, alert })
                },
                AlertMessage::Delete { org_id, alert_id } => {
                    let org = org_id.clone();
                    (ApplyPhase::AwaitLookup { org_id: org, alert_id }, ApplyAction::GetAlert { org_id, alert_id })
                },
            },
            (ApplyPhase::AwaitStored { org_id }, ApplyEvent::Stored { alert }) => (
                ApplyPhase::AwaitEmitted,
                ApplyAction::EmitPut { org_id, alert },
            ),
            (ApplyPhase::AwaitLookup { org_id, alert_id }, ApplyEvent::Found { alert }) => match alert {
                None => (ApplyPhase::Finished, ApplyAction::Done),
                Some(a) => {
                    let org = org_id.clone();
                    (ApplyPhase::AwaitDeleted { org_id: org, alert: a }, ApplyAction::DeleteAlert { org_id, alert_id })
                },
            },
            (ApplyPhase::AwaitDeleted { org_id, alert }, ApplyEvent::Deleted) => (
                ApplyPhase::AwaitEmitted,
                ApplyAction::EmitDelete {
                    org_id,
                    stream_type: alert.stream_type,
                    stream_name: alert.stream_name,
                    alert_name: alert.name,
                },
            ),
            (ApplyPhase::AwaitEmitted, ApplyEvent::Emitted) => (ApplyPhase::Finished, ApplyAction::Done),
            (ApplyPhase::AwaitStored { .. }, ApplyEvent::Failed) => (ApplyPhase::Finished, ApplyAction::Fail),
            (ApplyPhase::AwaitLookup { .. }, ApplyEvent::Failed) => (ApplyPhase::Finished, ApplyAction::Fail),
            (ApplyPhase::AwaitDeleted { .. }, ApplyEvent::Failed) => (ApplyPhase::Finished, ApplyAction::Fail),
            (ApplyPhase::AwaitEmitted, ApplyEvent::Failed) => (ApplyPhase::Finished, ApplyAction::Fail),
            (p, _) => (p, ApplyAction::Ignore),
        };
        (Apply { phase: next }, action)
    }
}

/// A model of local alert storage: for each organization and alert identifier, the folder
/// that holds the alert and the alert itself.
pub type AlertStore = Map<(Seq<char>, AlertId), (Seq<char>, Alert)>;

/// The identifier that storage files an alert under.
pub open spec fn stored_id(alert: Alert) -> AlertId {
    alert.id->Some_0
}

/// How storage and the event sink answer an action when nothing fails: the store after it
/// and the event reported back. An update keeps the alert's folder when it names none; an
/// update of an unknown alert fails.
pub open spec fn store_answer(store: AlertStore, action: ApplyAction) -> (AlertStore, ApplyEvent) {
    match action {
        ApplyAction::CreateAlert { org_id, folder_id, alert } => (
            store.insert((org_id@, stored_id(alert)), (folder_id@, alert)),
            ApplyEvent::Stored { alert },
        ),
        ApplyAction::UpdateAlert { org_id, folder_id, alert } => {
            let key = (org_id@, stored_id(alert));
            if store.contains_key(key) {
                let folder = match folder_id {
                    Some(f) => f@,
                    None => store[key].0,
                };
                (store.insert(key, (folder, alert)), ApplyEvent::Stored { alert })
            } else {
                (store, ApplyEvent::Failed)
            }
        },
        ApplyAction::GetAlert { org_id, alert_id } => {
            let key = (org_id@, alert_id);
            (
                store,
                ApplyEvent::Found {
                    alert: if store.contains_key(key) {
                        Some(store[key].1)
                    } else {
                        None
                    },
                },
            )
        },
        ApplyAction::DeleteAlert { org_id, alert_id } => (
            store.remove((org_id@, alert_id)),
            ApplyEvent::Deleted,
        ),
        ApplyAction::EmitPut { .. } => (store, ApplyEvent::Emitted),
        ApplyAction::EmitDelete { .. } => (store, ApplyEvent::Emitted),
        _ => (store, ApplyEvent::Failed),
    }
}

/// Runs the application from `phase` on `event`, with storage answering as `store_answer`
/// says, for at most `fuel` actions: the final store and the actions taken.
pub open spec fn drive(store: AlertStore, phase: ApplyPhase, event: ApplyEvent, fuel: nat) -> (
    AlertStore,
    Seq<ApplyAction>,
)
    decreases fuel,
{
    if fuel == 0 {
        (store, Seq::empty())
    } else {
        let (p, a) = apply_next(phase, event);
        match a {
            ApplyAction::Done => (store, seq![a]),
            ApplyAction::Fail => (store, seq![a]),
            ApplyAction::Ignore => (store, seq![a]),
            _ => {
                let (s2, ev) = store_answer(store, a);
                let (s3, rest) = drive(s2, p, ev, (fuel - 1) as nat);
                (s3, seq![a] + rest)
            },
        }
    }
}

/// The application of one message to `store`: the final store and the actions taken.
pub open spec fn replicate(store: AlertStore, msg: AlertMessage) -> (AlertStore, Seq<ApplyAction>) {
    drive(store, ApplyPhase::Start { msg }, ApplyEvent::Begin, 4)
}

/// Deleting an alert twice: the first application deletes it, with one "delete" event if it
/// was there; the second succeeds, changes nothing and emits no event.
pub proof fn lemma_delete_idempotent(store: AlertStore, org_id: String, alert_id: AlertId)
    ensures
        ({
            let msg = AlertMessage::Delete { org_id, alert_id };
            let key = (org_id@, alert_id);
            let (s1, a1) = replicate(store, msg);
            let (s2, a2) = replicate(s1, msg);
            &&& s1 == store.remove(key)
            &&& store.contains_key(key) ==> a1 == seq![
                ApplyAction::GetAlert { org_id, alert_id },
                ApplyAction::DeleteAlert { org_id, alert_id },
                ApplyAction::EmitDelete {
                    org_id,
                    stream_type: store[key].1.stream_type,
                    stream_name: store[key].1.stream_name,
                    alert_name: store[key].1.name,
                },
                ApplyAction::Done,
            ]
            &&& !store.contains_key(key) ==> a1 == seq![
                ApplyAction::GetAlert { org_id, alert_id },
                ApplyAction::Done,
            ]
            &&& s2 == s1
            &&& a2 == seq![ApplyAction::GetAlert { org_id, alert_id }, ApplyAction::Done]
        }),
{
    reveal_with_fuel(drive, 5);
    let key = (org_id@, alert_id);
    if !store.contains_key(key) {
        assert(store.remove(key) =~= store);
    }
    let msg = AlertMessage::Delete { org_id, alert_id };
    let (s1, a1) = replicate(store, msg);
    assert(!s1.contains_key(key));
    let (s2, a2) = replicate(s1, msg);
    assert(a2 =~= seq![ApplyAction::GetAlert { org_id, alert_id }, ApplyAction::Done]);
    if store.contains_key(key) {
        assert(a1 =~= seq![
            ApplyAction::GetAlert { org_id, alert_id },
            ApplyAction::DeleteAlert { org_id, alert_id },
            ApplyAction::EmitDelete {
                org_id,
                stream_type: store[key].1.stream_type,
                stream_name: store[key].1.stream_name,
                alert_name: store[key].1.name,
            },
            ApplyAction::Done,
        ]);
    } else {
        assert(a1 =~= seq![ApplyAction::GetAlert { org_id, alert_id }, ApplyAction::Done]);
    }
}

/// Creating an alert in a folder and then updating it without naming a folder leaves the
/// updated alert in the original folder, with one "put" event for each message, in order.
pub proof fn lemma_create_then_update(
    store: AlertStore,
    org_id: String,
    folder_id: String,
    alert: Alert,
    updated: Alert,
)
    requires
        alert.id is Some,
        updated.id == alert.id,
    ensures
        ({
            let (s1, a1) = replicate(store, AlertMessage::Create { org_id, folder_id, alert });
            let (s2, a2) = replicate(
                s1,
                AlertMessage::Update { org_id, folder_id: None, alert: updated },
            );
            &&& s2 == store.insert((org_id@, stored_id(alert)), (folder_id@, updated))
            &&& a1 == seq![
                ApplyAction::CreateAlert { org_id, folder_id, alert },
                ApplyAction::EmitPut { org_id, alert },
                ApplyAction::Done,
            ]
            &&& a2 == seq![
                ApplyAction::UpdateAlert { org_id, folder_id: None, alert: updated },
                ApplyAction::EmitPut { org_id, alert: updated },
                ApplyAction::Done,
            ]
        }),
{
    reveal_with_fuel(drive, 5);
    let key = (org_id@, stored_id(alert));
    let (s1, a1) = replicate(store, AlertMessage::Create { org_id, folder_id, alert });
    assert(s1.contains_key(key));
    let (s2, a2) = replicate(s1, AlertMessage::Update { org_id, folder_id: None, alert: updated });
    assert(s2 =~= store.insert(key, (folder_id@, updated)));
    assert(a1 =~= seq![
        ApplyAction::CreateAlert { org_id, folder_id, alert },
        ApplyAction::EmitPut { org_id, alert },
        ApplyAction::Done,
    ]);
    assert(a2 =~= seq![
        ApplyAction::UpdateAlert { org_id, folder_id: None, alert: updated },
        ApplyAction::EmitPut { org_id, alert: updated },
        ApplyAction::Done,
    ]);
}

/// When storage fails, the application fails at once and emits no coordination event.
pub proof fn lemma_storage_failure_emits_nothing(phase: ApplyPhase)
    requires
        phase is AwaitStored || phase is AwaitLookup || phase is AwaitDeleted,
    ensures
        apply_next(phase, ApplyEvent::Failed) == (ApplyPhase::Finished, ApplyAction::Fail),
{
}

} // verus!
