//! Tests of the dispatching client under both delivery strategies.

use std::cell::RefCell;
use std::rc::Rc;

use serde_json::Value;
use xi_client::client::{Client, Frontend, Peer, TransportError};
use xi_client::types::{
    ClientPluginInfo, Command, FindStatus, LanguageId, Replace, Style, Table, ThemeSettings,
    ViewId, WidthReq, WidthResponse,
};
use xi_client::update::{Update, UpdateOp};
use xi_client::wire::Json;

/// How the recording peer answers a request.
enum Reply {
    Value(Value),
    Disconnect,
    Io,
    Remote,
}

/// A peer that records every message and answers requests from a canned
/// reply.
struct RecordingPeer {
    sent: Rc<RefCell<Vec<(String, Json)>>>,
    reply: Reply,
}

impl Peer for RecordingPeer {
    fn send_rpc_notification(&self, method: &str, params: Json) {
        self.sent.borrow_mut().push((method.to_string(), params));
    }

    fn send_rpc_request(&self, method: &str, params: Json) -> Result<Value, TransportError> {
        self.sent.borrow_mut().push((method.to_string(), params));
        match &self.reply {
            Reply::Value(v) => Ok(v.clone()),
            Reply::Disconnect => Err(TransportError::PeerDisconnect),
            Reply::Io => Err(TransportError::IoError("broken pipe".to_string())),
            Reply::Remote => Err(TransportError::RemoteError(Value::String(
                "bad request".to_string(),
            ))),
        }
    }

    fn schedule_idle(&self, token: usize) {
        self.sent
            .borrow_mut()
            .push(("schedule_idle".to_string(), Json::UInt(token as u64)));
    }

    fn schedule_timer(&self, _timeout: std::time::Instant, token: usize) {
        self.sent
            .borrow_mut()
            .push(("schedule_timer".to_string(), Json::UInt(token as u64)));
    }
}

/// A front-end that records the name of every call it receives.
struct RecordingFrontend {
    calls: Rc<RefCell<Vec<String>>>,
}

impl RecordingFrontend {
    fn record(&self, name: &str) {
        self.calls.borrow_mut().push(name.to_string());
    }
}

impl Frontend for RecordingFrontend {
    fn update_view(&self, _view_id: ViewId, _update: &Update) {
        self.record("update_view");
    }
    fn scroll_to(&self, _view_id: ViewId, _line: usize, _col: usize) {
        self.record("scroll_to");
    }
    fn config_changed(&self, _view_id: ViewId, _changes: &Table) {
        self.record("config_changed");
    }
    fn available_themes(&self, _theme_names: Vec<String>) {
        self.record("available_themes");
    }
    fn available_languages(&self, _languages: Vec<LanguageId>) {
        self.record("available_languages");
    }
    fn theme_changed(&self, _name: &str, _theme: &ThemeSettings) {
        self.record("theme_changed");
    }
    fn language_changed(&self, _view_id: ViewId, _new_lang: &LanguageId) {
        self.record("language_changed");
    }
    fn plugin_started(&self, _view_id: ViewId, _plugin: &str) {
        self.record("plugin_started");
    }
    fn plugin_stopped(&self, _view_id: ViewId, _plugin: &str, _code: i32) {
        self.record("plugin_stopped");
    }
    fn available_plugins(&self, _view_id: ViewId, _plugins: &[ClientPluginInfo]) {
        self.record("available_plugins");
    }
    fn update_cmds(&self, _view_id: ViewId, _plugin: &str, _cmds: &[Command]) {
        self.record("update_cmds");
    }
    fn def_style(&self, _style: &Style) {
        self.record("def_style");
    }
    fn find_status(&self, _view_id: ViewId, _queries: &Vec<FindStatus>) {
        self.record("find_status");
    }
    fn replace_status(&self, _view_id: ViewId, _replace: &Replace) {
        self.record("replace_status");
    }
    fn measure_width(&self, _reqs: &[WidthReq]) -> WidthResponse {
        self.record("measure_width");
        WidthResponse(Value::String("measured".to_string()))
    }
    fn add_status_item(
        &self,
        _view_id: ViewId,
        _source: &str,
        _key: &str,
        _value: &str,
        _alignment: &str,
    ) {
        self.record("add_status_item");
    }
    fn update_status_item(&self, _view_id: ViewId, _key: &str, _value: &str) {
        self.record("update_status_item");
    }
    fn remove_status_item(&self, _view_id: ViewId, _key: &str) {
        self.record("remove_status_item");
    }
    fn show_hover(&self, _view_id: ViewId, _request_id: usize, _result: String) {
        self.record("show_hover");
    }
    fn schedule_idle(&self, _token: usize) {
        self.record("schedule_idle");
    }
    fn schedule_timer(&self, _timeout: std::time::Instant, _token: usize) {
        self.record("schedule_timer");
    }
}

fn remote_client(reply: Reply) -> (Client<RecordingPeer, RecordingFrontend>, Rc<RefCell<Vec<(String, Json)>>>) {
    let sent = Rc::new(RefCell::new(Vec::new()));
    let peer = RecordingPeer {
        sent: sent.clone(),
        reply,
    };
    (Client::new(peer), sent)
}

fn direct_client() -> (Client<RecordingPeer, RecordingFrontend>, Rc<RefCell<Vec<String>>>) {
    let calls = Rc::new(RefCell::new(Vec::new()));
    let frontend = RecordingFrontend {
        calls: calls.clone(),
    };
    (Client::new_direct(frontend), calls)
}

fn obj_get<'a>(j: &'a Json, key: &str) -> Option<&'a Json> {
    match j {
        Json::Object(fields) => fields.iter().find(|(k, _)| k == key).map(|(_, v)| v),
        _ => None,
    }
}

#[test]
fn remote_notifications_return_nothing_and_are_sent_in_order() {
    let (client, sent) = remote_client(Reply::Value(Value::Null));
    let view = ViewId(7);
    client.update_view(view, &Update::new(vec![UpdateOp::skip(1)], true, vec![]));
    client.scroll_to(view, 3, 9);
    client.plugin_started(view, "syntax");
    let log = sent.borrow();
    assert_eq!(log.len(), 3);
    assert_eq!(log[0].0, "update");
    assert_eq!(log[1].0, "scroll_to");
    assert_eq!(log[2].0, "plugin_started");
}

#[test]
fn remote_update_payload_carries_view_id_and_update() {
    let (client, sent) = remote_client(Reply::Value(Value::Null));
    let update = Update::new(vec![UpdateOp::invalidate(2)], false, vec![]);
    client.update_view(ViewId(4), &update);
    let log = sent.borrow();
    let params = &log[0].1;
    assert_eq!(obj_get(params, "view_id"), Some(&Json::UInt(4)));
    let encoded = obj_get(params, "update").expect("no update key");
    assert_eq!(obj_get(encoded, "pristine"), Some(&Json::Bool(false)));
}

#[test]
fn remote_scroll_to_payload_is_exact() {
    let (client, sent) = remote_client(Reply::Value(Value::Null));
    client.scroll_to(ViewId(7), 3, 9);
    let log = sent.borrow();
    assert_eq!(
        log[0].1,
        Json::Object(vec![
            ("view_id".to_string(), Json::UInt(7)),
            ("line".to_string(), Json::UInt(3)),
            ("col".to_string(), Json::UInt(9)),
        ])
    );
}

#[test]
fn remote_def_style_payload_is_the_style_itself() {
    let (client, sent) = remote_client(Reply::Value(Value::Null));
    let style = Style(Value::String("style-body".to_string()));
    client.def_style(&style);
    let log = sent.borrow();
    assert_eq!(log[0].0, "def_style");
    assert_eq!(log[0].1, Json::Payload(Value::String("style-body".to_string())));
}

#[test]
fn remote_alert_carries_the_message() {
    let (client, sent) = remote_client(Reply::Value(Value::Null));
    client.alert("saved");
    let log = sent.borrow();
    assert_eq!(log[0].0, "alert");
    assert_eq!(
        log[0].1,
        Json::Object(vec![("msg".to_string(), Json::Str("saved".to_string()))])
    );
}

#[test]
fn remote_measure_width_returns_reply_from_responsive_peer() {
    let reply = Value::Array(vec![Value::Array(vec![Value::from(12u64)])]);
    let (client, sent) = remote_client(Reply::Value(reply.clone()));
    let reqs = vec![WidthReq {
        id: 1,
        font: "mono".to_string(),
        strings: vec!["hello".to_string()],
    }];
    let got = client.measure_width(&reqs).expect("request failed");
    assert_eq!(got.0, reply);
    let log = sent.borrow();
    assert_eq!(log[0].0, "measure_width");
    // The request payload is the request list itself.
    match &log[0].1 {
        Json::Array(items) => {
            assert_eq!(items.len(), 1);
            assert_eq!(obj_get(&items[0], "id"), Some(&Json::UInt(1)));
            assert_eq!(obj_get(&items[0], "font"), Some(&Json::Str("mono".to_string())));
            assert_eq!(
                obj_get(&items[0], "strings"),
                Some(&Json::Array(vec![Json::Str("hello".to_string())]))
            );
        }
        other => panic!("request payload is not an array: {:?}", other),
    }
}

#[test]
fn remote_measure_width_surfaces_transport_failure() {
    let (client, _sent) = remote_client(Reply::Disconnect);
    let reqs = vec![WidthReq {
        id: 0,
        font: "mono".to_string(),
        strings: vec![],
    }];
    let got = client.measure_width(&reqs);
    assert!(matches!(got, Err(TransportError::PeerDisconnect)));
}

#[test]
fn remote_measure_width_surfaces_io_failure() {
    let (client, _sent) = remote_client(Reply::Io);
    let got = client.measure_width(&[]);
    match got {
        Err(TransportError::IoError(msg)) => assert_eq!(msg, "broken pipe"),
        other => panic!("unexpected result: {:?}", other),
    }
}

#[test]
fn remote_measure_width_surfaces_remote_error() {
    let (client, _sent) = remote_client(Reply::Remote);
    let got = client.measure_width(&[]);
    match got {
        Err(TransportError::RemoteError(v)) => {
            assert_eq!(v, Value::String("bad request".to_string()))
        }
        other => panic!("unexpected result: {:?}", other),
    }
}

#[test]
fn remote_language_changed_payload_is_exact() {
    let (client, sent) = remote_client(Reply::Value(Value::Null));
    client.language_changed(ViewId(2), &LanguageId("rust".to_string()));
    let log = sent.borrow();
    assert_eq!(log[0].0, "language_changed");
    assert_eq!(
        log[0].1,
        Json::Object(vec![
            ("view_id".to_string(), Json::UInt(2)),
            ("language_id".to_string(), Json::Str("rust".to_string())),
        ])
    );
}

#[test]
fn remote_plugin_stopped_payload_keeps_negative_code() {
    let (client, sent) = remote_client(Reply::Value(Value::Null));
    client.plugin_stopped(ViewId(3), "syntax", -9);
    let log = sent.borrow();
    assert_eq!(
        log[0].1,
        Json::Object(vec![
            ("view_id".to_string(), Json::UInt(3)),
            ("plugin".to_string(), Json::Str("syntax".to_string())),
            ("code".to_string(), Json::Int(-9)),
        ])
    );
}

#[test]
fn remote_available_themes_payload_lists_names() {
    let (client, sent) = remote_client(Reply::Value(Value::Null));
    client.available_themes(vec!["light".to_string(), "dark".to_string()]);
    let log = sent.borrow();
    assert_eq!(
        log[0].1,
        Json::Object(vec![(
            "themes".to_string(),
            Json::Array(vec![
                Json::Str("light".to_string()),
                Json::Str("dark".to_string())
            ])
        )])
    );
}

#[test]
fn remote_add_status_item_payload_has_all_five_keys() {
    let (client, sent) = remote_client(Reply::Value(Value::Null));
    client.add_status_item(ViewId(1), "lsp", "diag", "3 errors", "left");
    let log = sent.borrow();
    assert_eq!(
        log[0].1,
        Json::Object(vec![
            ("view_id".to_string(), Json::UInt(1)),
            ("source".to_string(), Json::Str("lsp".to_string())),
            ("key".to_string(), Json::Str("diag".to_string())),
            ("value".to_string(), Json::Str("3 errors".to_string())),
            ("alignment".to_string(), Json::Str("left".to_string())),
        ])
    );
}

#[test]
fn remote_config_changed_payload_carries_the_changes() {
    let (client, sent) = remote_client(Reply::Value(Value::Null));
    let changes = Table(Value::Bool(true));
    client.config_changed(ViewId(0), &changes);
    let log = sent.borrow();
    assert_eq!(
        log[0].1,
        Json::Object(vec![
            ("view_id".to_string(), Json::UInt(0)),
            ("changes".to_string(), Json::Payload(Value::Bool(true))),
        ])
    );
}

#[test]
fn remote_payloads_of_the_remaining_notifications() {
    let (client, sent) = remote_client(Reply::Value(Value::Null));
    let view = ViewId(5);
    let payload = Value::String("p".to_string());

    client.available_languages(vec![
        LanguageId("rust".to_string()),
        LanguageId("toml".to_string()),
    ]);
    client.theme_changed("dark", &ThemeSettings(payload.clone()));
    client.plugin_started(view, "lsp");
    client.available_plugins(view, &[ClientPluginInfo(payload.clone())]);
    client.update_cmds(view, "lsp", &[Command(payload.clone())]);
    client.find_status(view, &vec![FindStatus(payload.clone())]);
    client.replace_status(view, &Replace(payload.clone()));
    client.update_status_item(view, "k", "v");
    client.remove_status_item(view, "k");
    client.show_hover(view, 11, "doc text".to_string());

    let log = sent.borrow();
    assert_eq!(
        log[0],
        (
            "available_languages".to_string(),
            Json::Object(vec![(
                "languages".to_string(),
                Json::Array(vec![
                    Json::Str("rust".to_string()),
                    Json::Str("toml".to_string())
                ])
            )])
        )
    );
    assert_eq!(
        log[1],
        (
            "theme_changed".to_string(),
            Json::Object(vec![
                ("name".to_string(), Json::Str("dark".to_string())),
                ("theme".to_string(), Json::Payload(payload.clone())),
            ])
        )
    );
    assert_eq!(
        log[2],
        (
            "plugin_started".to_string(),
            Json::Object(vec![
                ("view_id".to_string(), Json::UInt(5)),
                ("plugin".to_string(), Json::Str("lsp".to_string())),
            ])
        )
    );
    assert_eq!(
        log[3],
        (
            "available_plugins".to_string(),
            Json::Object(vec![
                ("view_id".to_string(), Json::UInt(5)),
                (
                    "plugins".to_string(),
                    Json::Array(vec![Json::Payload(payload.clone())])
                ),
            ])
        )
    );
    assert_eq!(
        log[4],
        (
            "update_cmds".to_string(),
            Json::Object(vec![
                ("view_id".to_string(), Json::UInt(5)),
                ("plugin".to_string(), Json::Str("lsp".to_string())),
                (
                    "cmds".to_string(),
                    Json::Array(vec![Json::Payload(payload.clone())])
                ),
            ])
        )
    );
    assert_eq!(
        log[5],
        (
            "find_status".to_string(),
            Json::Object(vec![
                ("view_id".to_string(), Json::UInt(5)),
                (
                    "queries".to_string(),
                    Json::Array(vec![Json::Payload(payload.clone())])
                ),
            ])
        )
    );
    assert_eq!(
        log[6],
        (
            "replace_status".to_string(),
            Json::Object(vec![
                ("view_id".to_string(), Json::UInt(5)),
                ("status".to_string(), Json::Payload(payload)),
            ])
        )
    );
    assert_eq!(
        log[7],
        (
            "update_status_item".to_string(),
            Json::Object(vec![
                ("view_id".to_string(), Json::UInt(5)),
                ("key".to_string(), Json::Str("k".to_string())),
                ("value".to_string(), Json::Str("v".to_string())),
            ])
        )
    );
    assert_eq!(
        log[8],
        (
            "remove_status_item".to_string(),
            Json::Object(vec![
                ("view_id".to_string(), Json::UInt(5)),
                ("key".to_string(), Json::Str("k".to_string())),
            ])
        )
    );
    assert_eq!(
        log[9],
        (
            "show_hover".to_string(),
            Json::Object(vec![
                ("view_id".to_string(), Json::UInt(5)),
                ("request_id".to_string(), Json::UInt(11)),
                ("result".to_string(), Json::Str("doc text".to_string())),
            ])
        )
    );
}

#[test]
fn direct_strategy_forwards_every_operation() {
    let (client, calls) = direct_client();
    let view = ViewId(1);
    client.update_view(view, &Update::new(vec![], true, vec![]));
    client.scroll_to(view, 0, 0);
    client.config_changed(view, &Table(Value::Null));
    client.available_themes(vec!["light".to_string()]);
    client.available_languages(vec![LanguageId("rust".to_string())]);
    client.theme_changed("light", &ThemeSettings(Value::Null));
    client.language_changed(view, &LanguageId("rust".to_string()));
    client.plugin_started(view, "p");
    client.plugin_stopped(view, "p", 0);
    client.available_plugins(view, &[]);
    client.update_cmds(view, "p", &[]);
    client.def_style(&Style(Value::Null));
    client.find_status(view, &vec![]);
    client.replace_status(view, &Replace(Value::Null));
    let measured = client.measure_width(&[]).expect("direct width measurement failed");
    assert_eq!(measured.0, Value::String("measured".to_string()));
    client.add_status_item(view, "s", "k", "v", "left");
    client.update_status_item(view, "k", "v");
    client.remove_status_item(view, "k");
    client.show_hover(view, 9, "hover".to_string());
    client.schedule_idle(5);
    client.schedule_timer(std::time::Instant::now(), 6);
    let log = calls.borrow();
    assert_eq!(
        log.as_slice(),
        [
            "update_view",
            "scroll_to",
            "config_changed",
            "available_themes",
            "available_languages",
            "theme_changed",
            "language_changed",
            "plugin_started",
            "plugin_stopped",
            "available_plugins",
            "update_cmds",
            "def_style",
            "find_status",
            "replace_status",
            "measure_width",
            "add_status_item",
            "update_status_item",
            "remove_status_item",
            "show_hover",
            "schedule_idle",
            "schedule_timer",
        ]
    );
}

#[test]
fn direct_alert_is_a_no_op() {
    let (client, calls) = direct_client();
    client.alert("nothing to show");
    assert!(calls.borrow().is_empty());
}

#[test]
fn remote_schedule_calls_use_the_transport_scheduler() {
    let (client, sent) = remote_client(Reply::Value(Value::Null));
    client.schedule_idle(5);
    client.schedule_timer(std::time::Instant::now(), 6);
    let log = sent.borrow();
    assert_eq!(log[0], ("schedule_idle".to_string(), Json::UInt(5)));
    assert_eq!(log[1], ("schedule_timer".to_string(), Json::UInt(6)));
}
