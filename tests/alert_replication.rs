use alert_manager::replication::{
    route, Alert, AlertId, AlertMessage, Apply, ApplyAction, ApplyEvent, DecodeError, MessageType,
    RawQueueMessage, Route, StreamType,
};

struct Row {
    org_id: String,
    folder_id: String,
    alert: Alert,
}

/// Storage and event sink kept in memory; `fail` makes every storage call fail.
struct Local {
    rows: Vec<Row>,
    emitted: Vec<ApplyAction>,
    storage_calls: usize,
    fail: bool,
}

impl Local {
    fn new() -> Local {
        Local { rows: Vec::new(), emitted: Vec::new(), storage_calls: 0, fail: false }
    }

    fn find(&self, org_id: &str, id: AlertId) -> Option<usize> {
        self.rows.iter().position(|r| r.org_id == org_id && r.alert.id == Some(id))
    }

    fn answer(&mut self, action: &ApplyAction) -> ApplyEvent {
        match action {
            ApplyAction::EmitPut { .. } | ApplyAction::EmitDelete { .. } => {
                self.emitted.push(action.clone());
                return ApplyEvent::Emitted;
            }
            _ => {}
        }
        self.storage_calls += 1;
        if self.fail {
            return ApplyEvent::Failed;
        }
        match action {
            ApplyAction::CreateAlert { org_id, folder_id, alert } => {
                self.rows.push(Row {
                    org_id: org_id.clone(),
                    folder_id: folder_id.clone(),
                    alert: alert.clone(),
                });
                ApplyEvent::Stored { alert: alert.clone() }
            }
            ApplyAction::UpdateAlert { org_id, folder_id, alert } => {
                match self.find(org_id, alert.id.unwrap()) {
                    Some(i) => {
                        if let Some(f) = folder_id {
                            self.rows[i].folder_id = f.clone();
                        }
                        self.rows[i].alert = alert.clone();
                        ApplyEvent::Stored { alert: alert.clone() }
                    }
                    None => ApplyEvent::Failed,
                }
            }
            ApplyAction::GetAlert { org_id, alert_id } => ApplyEvent::Found {
                alert: self.find(org_id, *alert_id).map(|i| self.rows[i].alert.clone()),
            },
            ApplyAction::DeleteAlert { org_id, alert_id } => {
                if let Some(i) = self.find(org_id, *alert_id) {
                    self.rows.remove(i);
                }
                ApplyEvent::Deleted
            }
            _ => ApplyEvent::Failed,
        }
    }

    /// Applies one message; true when it succeeded.
    fn apply(&mut self, msg: AlertMessage) -> bool {
        let mut apply = Apply::new(msg);
        let mut event = ApplyEvent::Begin;
        for _ in 0..10 {
            let (next, action) = apply.step(event);
            apply = next;
            match action {
                ApplyAction::Done => return true,
                ApplyAction::Fail => return false,
                ApplyAction::Ignore => panic!("unexpected event"),
                a => event = self.answer(&a),
            }
        }
        panic!("application did not finish")
    }
}

fn id(n: u8) -> AlertId {
    let mut bytes = [0u8; 20];
    bytes[19] = n;
    AlertId { bytes }
}

fn alert(n: u8, name: &str) -> Alert {
    Alert {
        id: Some(id(n)),
        name: name.to_string(),
        stream_type: StreamType::Logs,
        stream_name: "default".to_string(),
        details: "{}".to_string(),
    }
}

#[test]
fn delete_twice_is_idempotent() {
    let mut local = Local::new();
    assert!(local.apply(AlertMessage::Create {
        org_id: "T1".to_string(),
        folder_id: "F1".to_string(),
        alert: alert(1, "cpu"),
    }));
    let delete = AlertMessage::Delete { org_id: "T1".to_string(), alert_id: id(1) };
    assert!(local.apply(delete.clone()));
    assert_eq!(local.emitted.len(), 2);
    assert_eq!(
        local.emitted[1],
        ApplyAction::EmitDelete {
            org_id: "T1".to_string(),
            stream_type: StreamType::Logs,
            stream_name: "default".to_string(),
            alert_name: "cpu".to_string(),
        }
    );
    assert!(local.rows.is_empty());
    assert!(local.apply(delete));
    assert_eq!(local.emitted.len(), 2);
}

#[test]
fn delete_of_absent_alert_is_a_no_op() {
    let mut local = Local::new();
    assert!(local.apply(AlertMessage::Delete { org_id: "T1".to_string(), alert_id: id(9) }));
    assert!(local.emitted.is_empty());
    assert_eq!(local.storage_calls, 1);
}

#[test]
fn create_then_update_keeps_folder() {
    let mut local = Local::new();
    let x = alert(1, "cpu");
    let x2 = alert(1, "cpu high");
    assert!(local.apply(AlertMessage::Create {
        org_id: "T1".to_string(),
        folder_id: "F1".to_string(),
        alert: x.clone(),
    }));
    assert!(local.apply(AlertMessage::Update {
        org_id: "T1".to_string(),
        folder_id: None,
        alert: x2.clone(),
    }));
    assert_eq!(local.rows.len(), 1);
    assert_eq!(local.rows[0].folder_id, "F1");
    assert_eq!(local.rows[0].alert, x2);
    assert_eq!(
        local.emitted,
        vec![
            ApplyAction::EmitPut { org_id: "T1".to_string(), alert: x },
            ApplyAction::EmitPut { org_id: "T1".to_string(), alert: x2 },
        ]
    );
}

#[test]
fn update_with_folder_moves_alert() {
    let mut local = Local::new();
    local.apply(AlertMessage::Create {
        org_id: "T1".to_string(),
        folder_id: "F1".to_string(),
        alert: alert(2, "mem"),
    });
    assert!(local.apply(AlertMessage::Update {
        org_id: "T1".to_string(),
        folder_id: Some("F2".to_string()),
        alert: alert(2, "mem"),
    }));
    assert_eq!(local.rows[0].folder_id, "F2");
}

#[test]
fn storage_failure_emits_nothing() {
    let mut local = Local::new();
    local.fail = true;
    assert!(!local.apply(AlertMessage::Create {
        org_id: "T1".to_string(),
        folder_id: "F1".to_string(),
        alert: alert(1, "cpu"),
    }));
    assert!(!local.apply(AlertMessage::Delete { org_id: "T1".to_string(), alert_id: id(1) }));
    assert!(local.emitted.is_empty());
}

#[test]
fn empty_payload_fails_to_decode() {
    let msg = RawQueueMessage { message_type: MessageType::AlertsTable, value: Some(vec![]) };
    assert_eq!(route(&msg), Err(DecodeError::Malformed));
    let msg = RawQueueMessage { message_type: MessageType::AlertsTable, value: None };
    assert_eq!(route(&msg), Err(DecodeError::MissingValue));
}

#[test]
fn current_channel_is_decoded() {
    let msg = RawQueueMessage {
        message_type: MessageType::AlertsTable,
        value: Some(b"{\"Delete\":{}}".to_vec()),
    };
    assert_eq!(route(&msg), Ok(Route::Decode));
}

#[test]
fn other_channels_go_to_legacy() {
    for value in [None, Some(vec![]), Some(b"not json".to_vec())] {
        let msg = RawQueueMessage {
            message_type: MessageType::Other { name: "Meta".to_string() },
            value,
        };
        assert_eq!(route(&msg), Ok(Route::Legacy));
    }
}

#[test]
fn events_out_of_order_are_ignored() {
    let apply = Apply::new(AlertMessage::Delete { org_id: "T1".to_string(), alert_id: id(1) });
    let (apply, action) = apply.step(ApplyEvent::Emitted);
    assert_eq!(action, ApplyAction::Ignore);
    let (_, action) = apply.step(ApplyEvent::Begin);
    assert_eq!(action, ApplyAction::GetAlert { org_id: "T1".to_string(), alert_id: id(1) });
}
