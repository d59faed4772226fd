//! The dispatching client: the single entry point the editing core uses to
//! reach a front-end. Each call is routed through one of two delivery
//! strategies fixed at construction: serialized remote messaging through a
//! transport peer, or direct in-process invocation of an owned capability
//! implementation.
//!
//! Every operation except width measurement is a fire-and-forget
//! notification with no return value and no failure surfaced at this layer.
//! Width measurement is the one request: under the remote strategy it blocks
//! for a reply and can surface a transport failure; under the direct
//! strategy it is infallible.

use vstd::prelude::*;
use crate::types::{
    ClientPluginInfo, Command, FindStatus, LanguageId, Replace, Style, Table, ThemeSettings,
    ViewId, WidthReq, WidthResponse,
};
use crate::update::Update;
use crate::wire::{
    Json, obj_entries, entry_key, entry_val, is_str, is_payload_seq, is_str_seq, jstr, str_array,
    obj1, obj2, obj3, obj5,
};

verus! {

/// A transport-level failure of the remote strategy's messaging peer.
#[derive(Debug)]
pub enum TransportError {
    /// The peer is gone or the connection was lost.
    PeerDisconnect,
    /// The transport could not read or write a message.
    IoError(String),
    /// The peer answered the request with an error payload.
    RemoteError(serde_json::Value),
}

/// The capability interface: the closed set of operations the editing core
/// can invoke on a presentation front-end. Implementations are front-ends;
/// every operation except `measure_width` is a fire-and-forget notification,
/// and the implementation is responsible for its own error handling.
pub trait Frontend {
    fn update_view(&self, view_id: ViewId, update: &Update)
        requires
            update.wf(),
    ;

    fn scroll_to(&self, view_id: ViewId, line: usize, col: usize);

    fn config_changed(&self, view_id: ViewId, changes: &Table);

    fn available_themes(&self, theme_names: Vec<String>);

    fn available_languages(&self, languages: Vec<LanguageId>);

    fn theme_changed(&self, name: &str, theme: &ThemeSettings);

    fn language_changed(&self, view_id: ViewId, new_lang: &LanguageId);

    fn plugin_started(&self, view_id: ViewId, plugin: &str);

    /// `code` is not currently used; in the future it may carry an exit
    /// code.
    fn plugin_stopped(&self, view_id: ViewId, plugin: &str, code: i32);

    fn available_plugins(&self, view_id: ViewId, plugins: &[ClientPluginInfo]);

    fn update_cmds(&self, view_id: ViewId, plugin: &str, cmds: &[Command]);

    fn def_style(&self, style: &Style);

    fn find_status(&self, view_id: ViewId, queries: &Vec<FindStatus>);

    fn replace_status(&self, view_id: ViewId, replace: &Replace);

    /// The one query in the interface: measure string widths. Layout cannot
    /// proceed without font metrics that only the presentation layer has.
    fn measure_width(&self, reqs: &[WidthReq]) -> WidthResponse;

    fn add_status_item(
        &self,
        view_id: ViewId,
        source: &str,
        key: &str,
        value: &str,
        alignment: &str,
    );

    fn update_status_item(&self, view_id: ViewId, key: &str, value: &str);

    fn remove_status_item(&self, view_id: ViewId, key: &str);

    fn show_hover(&self, view_id: ViewId, request_id: usize, result: String);

    fn schedule_idle(&self, token: usize);

    fn schedule_timer(&self, timeout: std::time::Instant, token: usize);
}

/// The messaging transport of the remote strategy: ordered notification
/// send, blocking request/reply, and the transport's own scheduling
/// primitives. Implementations live outside the verified world; nothing is
/// assumed of them beyond their signatures.
pub trait Peer {
    /// Sends a named one-way message; no reply is expected and no failure is
    /// surfaced.
    fn send_rpc_notification(&self, method: &str, params: Json);

    /// Sends a named request and blocks the caller until the peer replies or
    /// the transport reports a failure.
    fn send_rpc_request(&self, method: &str, params: Json) -> Result<
        serde_json::Value,
        TransportError,
    >;

    fn schedule_idle(&self, token: usize);

    fn schedule_timer(&self, timeout: std::time::Instant, token: usize);
}

/// The two delivery strategies; exactly one is chosen at construction and
/// never changes afterwards.
pub enum ClientType<P: Peer, F: Frontend> {
    Rpc(P),
    Direct(F),
}

/// A single logical handle to a front-end, wrapping exactly one of the two
/// delivery strategies for its entire lifetime.
pub struct Client<P: Peer, F: Frontend>(pub(crate) ClientType<P, F>);

/// The wire form of a view identifier.
pub open spec fn view_id_wire(v: ViewId) -> Json {
    Json::UInt(v.0 as u64)
}

/// Wire payload of the `update` notification: `{view_id, update}`.
pub fn update_view_params(view_id: ViewId, update: &Update) -> (r: Json)
    requires
        update.wf(),
    ensures
        obj_entries(r).len() == 2,
        entry_key(r, 0) == "view_id"@ && entry_val(r, 0) == view_id_wire(view_id),
        entry_key(r, 1) == "update"@ && update.wire_matches(entry_val(r, 1)),
{
    obj2("view_id", Json::UInt(view_id.0 as u64), "update", update.to_wire())
}

/// Wire payload of the `scroll_to` notification: `{view_id, line, col}`.
pub fn scroll_to_params(view_id: ViewId, line: usize, col: usize) -> (r: Json)
    ensures
        obj_entries(r).len() == 3,
        entry_key(r, 0) == "view_id"@ && entry_val(r, 0) == view_id_wire(view_id),
        entry_key(r, 1) == "line"@ && entry_val(r, 1) == Json::UInt(line as u64),
        entry_key(r, 2) == "col"@ && entry_val(r, 2) == Json::UInt(col as u64),
{
    obj3(
        "view_id",
        Json::UInt(view_id.0 as u64),
        "line",
        Json::UInt(line as u64),
        "col",
        Json::UInt(col as u64),
    )
}

/// Wire payload of the `config_changed` notification: `{view_id, changes}`.
pub fn config_changed_params(view_id: ViewId, changes: &Table) -> (r: Json)
    ensures
        obj_entries(r).len() == 2,
        entry_key(r, 0) == "view_id"@ && entry_val(r, 0) == view_id_wire(view_id),
        entry_key(r, 1) == "changes"@ && entry_val(r, 1) == Json::Payload(changes.0),
{
    obj2("view_id", Json::UInt(view_id.0 as u64), "changes", Json::Payload(changes.0.clone()))
}

/// Wire payload of the `available_themes` notification: `{themes}`.
pub fn available_themes_params(theme_names: &Vec<String>) -> (r: Json)
    ensures
        obj_entries(r).len() == 1,
        entry_key(r, 0) == "themes"@,
        is_str_seq(entry_val(r, 0), theme_names@.map_values(|s: String| s@)),
{
    obj1("themes", str_array(theme_names))
}

/// An array of language identifiers on the wire, in order.
fn language_array(languages: &Vec<LanguageId>) -> (r: Json)
    ensures
        is_str_seq(r, languages@.map_values(|l: LanguageId| l.0@)),
{
    let mut items: Vec<Json> = Vec::new();
    let mut i: usize = 0;
    while i < languages.len()
        invariant
            i <= languages.len(),
            items@.len() == i,
            forall|k: int| 0 <= k < i ==> is_str(items@[k], languages@[k].0@),
        decreases languages.len() - i,
    {
        items.push(Json::Str(languages[i].0.clone()));
        i = i + 1;
    }
    Json::Array(items)
}

/// Wire payload of the `available_languages` notification: `{languages}`.
pub fn available_languages_params(languages: &Vec<LanguageId>) -> (r: Json)
    ensures
        obj_entries(r).len() == 1,
        entry_key(r, 0) == "languages"@,
        is_str_seq(entry_val(r, 0), languages@.map_values(|l: LanguageId| l.0@)),
{
    obj1("languages", language_array(languages))
}

/// Wire payload of the `theme_changed` notification: `{name, theme}`.
pub fn theme_changed_params(name: &str, theme: &ThemeSettings) -> (r: Json)
    ensures
        obj_entries(r).len() == 2,
        entry_key(r, 0) == "name"@ && is_str(entry_val(r, 0), name@),
        entry_key(r, 1) == "theme"@ && entry_val(r, 1) == Json::Payload(theme.0),
{
    obj2("name", jstr(name), "theme", Json::Payload(theme.0.clone()))
}

/// Wire payload of the `language_changed` notification:
/// `{view_id, language_id}`.
pub fn language_changed_params(view_id: ViewId, new_lang: &LanguageId) -> (r: Json)
    ensures
        obj_entries(r).len() == 2,
        entry_key(r, 0) == "view_id"@ && entry_val(r, 0) == view_id_wire(view_id),
        entry_key(r, 1) == "language_id"@ && is_str(entry_val(r, 1), new_lang.0@),
{
    obj2("view_id", Json::UInt(view_id.0 as u64), "language_id", Json::Str(new_lang.0.clone()))
}

/// Wire payload of the `plugin_started` notification: `{view_id, plugin}`.
pub fn plugin_started_params(view_id: ViewId, plugin: &str) -> (r: Json)
    ensures
        obj_entries(r).len() == 2,
        entry_key(r, 0) == "view_id"@ && entry_val(r, 0) == view_id_wire(view_id),
        entry_key(r, 1) == "plugin"@ && is_str(entry_val(r, 1), plugin@),
{
    obj2("view_id", Json::UInt(view_id.0 as u64), "plugin", jstr(plugin))
}

/// Wire payload of the `plugin_stopped` notification:
/// `{view_id, plugin, code}`.
pub fn plugin_stopped_params(view_id: ViewId, plugin: &str, code: i32) -> (r: Json)
    ensures
        obj_entries(r).len() == 3,
        entry_key(r, 0) == "view_id"@ && entry_val(r, 0) == view_id_wire(view_id),
        entry_key(r, 1) == "plugin"@ && is_str(entry_val(r, 1), plugin@),
        entry_key(r, 2) == "code"@ && entry_val(r, 2) == Json::Int(code as i64),
{
    obj3(
        "view_id",
        Json::UInt(view_id.0 as u64),
        "plugin",
        jstr(plugin),
        "code",
        Json::Int(code as i64),
    )
}

/// An array of plugin descriptions on the wire, in order.
fn plugin_info_array(plugins: &[ClientPluginInfo]) -> (r: Json)
    ensures
        is_payload_seq(r, plugins@.map_values(|p: ClientPluginInfo| p.0)),
{
    let mut items: Vec<Json> = Vec::new();
    let mut i: usize = 0;
    while i < plugins.len()
        invariant
            i <= plugins.len(),
            items@.len() == i,
            forall|k: int| 0 <= k < i ==> items@[k] == Json::Payload(plugins@[k].0),
        decreases plugins.len() - i,
    {
        items.push(Json::Payload(plugins[i].0.clone()));
        i = i + 1;
    }
    Json::Array(items)
}

/// Wire payload of the `available_plugins` notification:
/// `{view_id, plugins}`.
pub fn available_plugins_params(view_id: ViewId, plugins: &[ClientPluginInfo]) -> (r: Json)
    ensures
        obj_entries(r).len() == 2,
        entry_key(r, 0) == "view_id"@ && entry_val(r, 0) == view_id_wire(view_id),
        entry_key(r, 1) == "plugins"@,
        is_payload_seq(entry_val(r, 1), plugins@.map_values(|p: ClientPluginInfo| p.0)),
{
    obj2("view_id", Json::UInt(view_id.0 as u64), "plugins", plugin_info_array(plugins))
}

/// An array of plugin commands on the wire, in order.
fn command_array(cmds: &[Command]) -> (r: Json)
    ensures
        is_payload_seq(r, cmds@.map_values(|c: Command| c.0)),
{
    let mut items: Vec<Json> = Vec::new();
    let mut i: usize = 0;
    while i < cmds.len()
        invariant
            i <= cmds.len(),
            items@.len() == i,
            forall|k: int| 0 <= k < i ==> items@[k] == Json::Payload(cmds@[k].0),
        decreases cmds.len() - i,
    {
        items.push(Json::Payload(cmds[i].0.clone()));
        i = i + 1;
    }
    Json::Array(items)
}

/// Wire payload of the `update_cmds` notification:
/// `{view_id, plugin, cmds}`.
pub fn update_cmds_params(view_id: ViewId, plugin: &str, cmds: &[Command]) -> (r: Json)
    ensures
        obj_entries(r).len() == 3,
        entry_key(r, 0) == "view_id"@ && entry_val(r, 0) == view_id_wire(view_id),
        entry_key(r, 1) == "plugin"@ && is_str(entry_val(r, 1), plugin@),
        entry_key(r, 2) == "cmds"@,
        is_payload_seq(entry_val(r, 2), cmds@.map_values(|c: Command| c.0)),
{
    obj3(
        "view_id",
        Json::UInt(view_id.0 as u64),
        "plugin",
        jstr(plugin),
        "cmds",
        command_array(cmds),
    )
}

/// Wire payload of the `def_style` notification: the style object itself,
/// unwrapped.
pub fn def_style_params(style: &Style) -> (r: Json)
    ensures
        r == Json::Payload(style.0),
{
    Json::Payload(style.0.clone())
}

/// An array of find-status payloads on the wire, in order.
fn find_status_array(queries: &Vec<FindStatus>) -> (r: Json)
    ensures
        is_payload_seq(r, queries@.map_values(|q: FindStatus| q.0)),
{
    let mut items: Vec<Json> = Vec::new();
    let mut i: usize = 0;
    while i < queries.len()
        invariant
            i <= queries.len(),
            items@.len() == i,
            forall|k: int| 0 <= k < i ==> items@[k] == Json::Payload(queries@[k].0),
        decreases queries.len() - i,
    {
        items.push(Json::Payload(queries[i].0.clone()));
        i = i + 1;
    }
    Json::Array(items)
}

/// Wire payload of the `find_status` notification: `{view_id, queries}`.
pub fn find_status_params(view_id: ViewId, queries: &Vec<FindStatus>) -> (r: Json)
    ensures
        obj_entries(r).len() == 2,
        entry_key(r, 0) == "view_id"@ && entry_val(r, 0) == view_id_wire(view_id),
        entry_key(r, 1) == "queries"@,
        is_payload_seq(entry_val(r, 1), queries@.map_values(|q: FindStatus| q.0)),
{
    obj2("view_id", Json::UInt(view_id.0 as u64), "queries", find_status_array(queries))
}

/// Wire payload of the `replace_status` notification: `{view_id, status}`.
pub fn replace_status_params(view_id: ViewId, replace: &Replace) -> (r: Json)
    ensures
        obj_entries(r).len() == 2,
        entry_key(r, 0) == "view_id"@ && entry_val(r, 0) == view_id_wire(view_id),
        entry_key(r, 1) == "status"@ && entry_val(r, 1) == Json::Payload(replace.0),
{
    obj2("view_id", Json::UInt(view_id.0 as u64), "status", Json::Payload(replace.0.clone()))
}

/// The wire form of one width-measurement request:
/// `{id, font, strings}`.
pub open spec fn width_req_matches(req: WidthReq, j: Json) -> bool {
    &&& obj_entries(j).len() == 3
    &&& entry_key(j, 0) == "id"@ && entry_val(j, 0) == Json::UInt(req.id as u64)
    &&& entry_key(j, 1) == "font"@ && is_str(entry_val(j, 1), req.font@)
    &&& entry_key(j, 2) == "strings"@
    &&& is_str_seq(entry_val(j, 2), req.strings@.map_values(|s: String| s@))
}

/// The wire form of a whole request list: an array of encoded requests, in
/// order.
pub open spec fn width_reqs_wire_matches(reqs: Seq<WidthReq>, j: Json) -> bool {
    &&& j matches Json::Array(items)
    &&& items@.len() == reqs.len()
    &&& forall|i: int| 0 <= i < reqs.len() ==> width_req_matches(reqs[i], #[trigger] items@[i])
}

/// Wire payload of the `measure_width` request: the request list itself.
pub fn measure_width_params(reqs: &[WidthReq]) -> (r: Json)
    ensures
        width_reqs_wire_matches(reqs@, r),
{
    let mut items: Vec<Json> = Vec::new();
    let mut i: usize = 0;
    while i < reqs.len()
        invariant
            i <= reqs.len(),
            items@.len() == i,
            forall|k: int| 0 <= k < i ==> #[trigger] width_req_matches(reqs@[k], items@[k]),
        decreases reqs.len() - i,
    {
        let req = &reqs[i];
        items.push(
            obj3(
                "id",
                Json::UInt(req.id as u64),
                "font",
                Json::Str(req.font.clone()),
                "strings",
                str_array(&req.strings),
            ),
        );
        i = i + 1;
    }
    Json::Array(items)
}

/// Wire payload of the `alert` notification: `{msg}`.
pub fn alert_params(msg: &str) -> (r: Json)
    ensures
        obj_entries(r).len() == 1,
        entry_key(r, 0) == "msg"@ && is_str(entry_val(r, 0), msg@),
{
    obj1("msg", jstr(msg))
}

/// Wire payload of the `add_status_item` notification:
/// `{view_id, source, key, value, alignment}`.
pub fn add_status_item_params(
    view_id: ViewId,
    source: &str,
    key: &str,
    value: &str,
    alignment: &str,
) -> (r: Json)
    ensures
        obj_entries(r).len() == 5,
        entry_key(r, 0) == "view_id"@ && entry_val(r, 0) == view_id_wire(view_id),
        entry_key(r, 1) == "source"@ && is_str(entry_val(r, 1), source@),
        entry_key(r, 2) == "key"@ && is_str(entry_val(r, 2), key@),
        entry_key(r, 3) == "value"@ && is_str(entry_val(r, 3), value@),
        entry_key(r, 4) == "alignment"@ && is_str(entry_val(r, 4), alignment@),
{
    obj5(
        "view_id",
        Json::UInt(view_id.0 as u64),
        "source",
        jstr(source),
        "key",
        jstr(key),
        "value",
        jstr(value),
        "alignment",
        jstr(alignment),
    )
}

/// Wire payload of the `update_status_item` notification:
/// `{view_id, key, value}`.
pub fn update_status_item_params(view_id: ViewId, key: &str, value: &str) -> (r: Json)
    ensures
        obj_entries(r).len() == 3,
        entry_key(r, 0) == "view_id"@ && entry_val(r, 0) == view_id_wire(view_id),
        entry_key(r, 1) == "key"@ && is_str(entry_val(r, 1), key@),
        entry_key(r, 2) == "value"@ && is_str(entry_val(r, 2), value@),
{
    obj3("view_id", Json::UInt(view_id.0 as u64), "key", jstr(key), "value", jstr(value))
}

/// Wire payload of the `remove_status_item` notification: `{view_id, key}`.
pub fn remove_status_item_params(view_id: ViewId, key: &str) -> (r: Json)
    ensures
        obj_entries(r).len() == 2,
        entry_key(r, 0) == "view_id"@ && entry_val(r, 0) == view_id_wire(view_id),
        entry_key(r, 1) == "key"@ && is_str(entry_val(r, 1), key@),
{
    obj2("view_id", Json::UInt(view_id.0 as u64), "key", jstr(key))
}

/// Wire payload of the `show_hover` notification:
/// `{view_id, request_id, result}`.
pub fn show_hover_params(view_id: ViewId, request_id: usize, result: &str) -> (r: Json)
    ensures
        obj_entries(r).len() == 3,
        entry_key(r, 0) == "view_id"@ && entry_val(r, 0) == view_id_wire(view_id),
        entry_key(r, 1) == "request_id"@ && entry_val(r, 1) == Json::UInt(request_id as u64),
        entry_key(r, 2) == "result"@ && is_str(entry_val(r, 2), result@),
{
    obj3(
        "view_id",
        Json::UInt(view_id.0 as u64),
        "request_id",
        Json::UInt(request_id as u64),
        "result",
        jstr(result),
    )
}

/// What the remote strategy hands back for each transport outcome of the
/// width-measurement request: a reply value becomes the measured response,
/// and a transport failure is surfaced unchanged.
pub fn width_response_of(reply: Result<serde_json::Value, TransportError>) -> (r: Result<
    WidthResponse,
    TransportError,
>)
    ensures
        reply matches Result::Ok(v) ==> r matches Result::Ok(w) && w.0 == v,
        reply matches Result::Err(e) ==> r matches Result::Err(e2) && e2 == e,
{
    match reply {
        Result::Ok(v) => Result::Ok(WidthResponse(v)),
        Result::Err(e) => Result::Err(e),
    }
}

impl<P: Peer, F: Frontend> Client<P, F> {
    /// Whether the client delivers over the remote messaging transport.
    pub closed spec fn is_remote(&self) -> bool {
        self.0 matches ClientType::Rpc(_)
    }

    /// Whether the client delivers by direct in-process invocation.
    pub open spec fn is_direct(&self) -> bool {
        !self.is_remote()
    }

    /// A client delivering over the remote messaging transport.
    pub fn new(peer: P) -> (r: Self)
        ensures
            r.is_remote(),
    {
        Client(ClientType::Rpc(peer))
    }

    /// A client delivering directly to an owned capability implementation.
    pub fn new_direct(frontend: F) -> (r: Self)
        ensures
            r.is_direct(),
    {
        Client(ClientType::Direct(frontend))
    }

    /// Notifies the front-end that a view's visible rendering changed,
    /// carrying the encoded delta.
    pub fn update_view(&self, view_id: ViewId, update: &Update)
        requires
            update.wf(),
    {
        match &self.0 {
            ClientType::Rpc(r) => r.send_rpc_notification(
                "update",
                update_view_params(view_id, update),
            ),
            ClientType::Direct(fe) => fe.update_view(view_id, update),
        }
    }

    /// Asks the front-end to move the scroll position of a view.
    pub fn scroll_to(&self, view_id: ViewId, line: usize, col: usize) {
        match &self.0 {
            ClientType::Rpc(r) => r.send_rpc_notification(
                "scroll_to",
                scroll_to_params(view_id, line, col),
            ),
            ClientType::Direct(fe) => fe.scroll_to(view_id, line, col),
        }
    }

    /// Notifies the front-end of configuration changes for a view.
    pub fn config_changed(&self, view_id: ViewId, changes: &Table) {
        match &self.0 {
            ClientType::Rpc(r) => r.send_rpc_notification(
                "config_changed",
                config_changed_params(view_id, changes),
            ),
            ClientType::Direct(fe) => fe.config_changed(view_id, changes),
        }
    }

    /// Notifies the front-end of the available theme names.
    pub fn available_themes(&self, theme_names: Vec<String>) {
        match &self.0 {
            ClientType::Rpc(r) => r.send_rpc_notification(
                "available_themes",
                available_themes_params(&theme_names),
            ),
            ClientType::Direct(fe) => fe.available_themes(theme_names),
        }
    }

    /// Notifies the front-end of the available languages.
    pub fn available_languages(&self, languages: Vec<LanguageId>) {
        match &self.0 {
            ClientType::Rpc(r) => r.send_rpc_notification(
                "available_languages",
                available_languages_params(&languages),
            ),
            ClientType::Direct(fe) => fe.available_languages(languages),
        }
    }

    /// Notifies the front-end that the theme changed.
    pub fn theme_changed(&self, name: &str, theme: &ThemeSettings) {
        match &self.0 {
            ClientType::Rpc(r) => r.send_rpc_notification(
                "theme_changed",
                theme_changed_params(name, theme),
            ),
            ClientType::Direct(fe) => fe.theme_changed(name, theme),
        }
    }

    /// Notifies the front-end that a view's language changed.
    pub fn language_changed(&self, view_id: ViewId, new_lang: &LanguageId) {
        match &self.0 {
            ClientType::Rpc(r) => r.send_rpc_notification(
                "language_changed",
                language_changed_params(view_id, new_lang),
            ),
            ClientType::Direct(fe) => fe.language_changed(view_id, new_lang),
        }
    }

    /// Notifies the front-end that a plugin started.
    pub fn plugin_started(&self, view_id: ViewId, plugin: &str) {
        match &self.0 {
            ClientType::Rpc(r) => r.send_rpc_notification(
                "plugin_started",
                plugin_started_params(view_id, plugin),
            ),
            ClientType::Direct(fe) => fe.plugin_started(view_id, plugin),
        }
    }

    /// Notifies the front-end that a plugin has stopped.
    pub fn plugin_stopped(&self, view_id: ViewId, plugin: &str, code: i32) {
        match &self.0 {
            ClientType::Rpc(r) => r.send_rpc_notification(
                "plugin_stopped",
                plugin_stopped_params(view_id, plugin, code),
            ),
            ClientType::Direct(fe) => fe.plugin_stopped(view_id, plugin, code),
        }
    }

    /// Notifies the front-end of the plugins available to a view.
    pub fn available_plugins(&self, view_id: ViewId, plugins: &[ClientPluginInfo]) {
        match &self.0 {
            ClientType::Rpc(r) => r.send_rpc_notification(
                "available_plugins",
                available_plugins_params(view_id, plugins),
            ),
            ClientType::Direct(fe) => fe.available_plugins(view_id, plugins),
        }
    }

    /// Notifies the front-end of a plugin's exported commands.
    pub fn update_cmds(&self, view_id: ViewId, plugin: &str, cmds: &[Command]) {
        match &self.0 {
            ClientType::Rpc(r) => r.send_rpc_notification(
                "update_cmds",
                update_cmds_params(view_id, plugin, cmds),
            ),
            ClientType::Direct(fe) => fe.update_cmds(view_id, plugin, cmds),
        }
    }

    /// Notifies the front-end of a style definition; the payload is the
    /// style object itself, unwrapped.
    pub fn def_style(&self, style: &Style) {
        match &self.0 {
            ClientType::Rpc(r) => r.send_rpc_notification("def_style", def_style_params(style)),
            ClientType::Direct(fe) => fe.def_style(style),
        }
    }

    /// Notifies the front-end of the status of find queries.
    pub fn find_status(&self, view_id: ViewId, queries: &Vec<FindStatus>) {
        match &self.0 {
            ClientType::Rpc(r) => r.send_rpc_notification(
                "find_status",
                find_status_params(view_id, queries),
            ),
            ClientType::Direct(fe) => fe.find_status(view_id, queries),
        }
    }

    /// Notifies the front-end of the replacement status.
    pub fn replace_status(&self, view_id: ViewId, replace: &Replace) {
        match &self.0 {
            ClientType::Rpc(r) => r.send_rpc_notification(
                "replace_status",
                replace_status_params(view_id, replace),
            ),
            ClientType::Direct(fe) => fe.replace_status(view_id, replace),
        }
    }

    /// Asks the front-end to measure string widths: the one request in the
    /// interface. Under the remote strategy the call blocks for a reply and
    /// surfaces transport failure; under the direct strategy it cannot fail.
    pub fn measure_width(&self, reqs: &[WidthReq]) -> (r: Result<WidthResponse, TransportError>)
        ensures
            self.is_direct() ==> r is Ok,
    {
        match &self.0 {
            ClientType::Rpc(peer) => width_response_of(
                peer.send_rpc_request("measure_width", measure_width_params(reqs)),
            ),
            ClientType::Direct(fe) => Result::Ok(fe.measure_width(reqs)),
        }
    }

    /// Shows a user-facing message. Defined only for the remote strategy;
    /// under the direct strategy this is a documented no-op, since the
    /// capability interface has no operation for displaying an arbitrary
    /// message.
    pub fn alert(&self, msg: &str) {
        match &self.0 {
            ClientType::Rpc(r) => r.send_rpc_notification("alert", alert_params(msg)),
            ClientType::Direct(_) => (),
        }
    }

    /// Asks the front-end to add a status-bar item.
    pub fn add_status_item(
        &self,
        view_id: ViewId,
        source: &str,
        key: &str,
        value: &str,
        alignment: &str,
    ) {
        match &self.0 {
            ClientType::Rpc(r) => r.send_rpc_notification(
                "add_status_item",
                add_status_item_params(view_id, source, key, value, alignment),
            ),
            ClientType::Direct(fe) => fe.add_status_item(view_id, source, key, value, alignment),
        }
    }

    /// Asks the front-end to update a status-bar item.
    pub fn update_status_item(&self, view_id: ViewId, key: &str, value: &str) {
        match &self.0 {
            ClientType::Rpc(r) => r.send_rpc_notification(
                "update_status_item",
                update_status_item_params(view_id, key, value),
            ),
            ClientType::Direct(fe) => fe.update_status_item(view_id, key, value),
        }
    }

    /// Asks the front-end to remove a status-bar item.
    pub fn remove_status_item(&self, view_id: ViewId, key: &str) {
        match &self.0 {
            ClientType::Rpc(r) => r.send_rpc_notification(
                "remove_status_item",
                remove_status_item_params(view_id, key),
            ),
            ClientType::Direct(fe) => fe.remove_status_item(view_id, key),
        }
    }

    /// Asks the front-end to display a hover result.
    pub fn show_hover(&self, view_id: ViewId, request_id: usize, result: String) {
        match &self.0 {
            ClientType::Rpc(r) => r.send_rpc_notification(
                "show_hover",
                show_hover_params(view_id, request_id, result.as_str()),
            ),
            ClientType::Direct(fe) => fe.show_hover(view_id, request_id, result),
        }
    }

    /// Schedules an idle callback on whichever strategy's native scheduler
    /// is available; this layer implements no scheduler itself.
    pub fn schedule_idle(&self, token: usize) {
        match &self.0 {
            ClientType::Rpc(r) => r.schedule_idle(token),
            ClientType::Direct(fe) => fe.schedule_idle(token),
        }
    }

    /// Schedules a timer callback on whichever strategy's native scheduler
    /// is available.
    pub fn schedule_timer(&self, timeout: std::time::Instant, token: usize) {
        match &self.0 {
            ClientType::Rpc(r) => r.schedule_timer(timeout, token),
            ClientType::Direct(fe) => fe.schedule_timer(timeout, token),
        }
    }
}

} // verus!
