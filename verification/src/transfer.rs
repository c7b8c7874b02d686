//! The transfer protocol: copying one setting's value from a source
//! environment to a destination environment.
//!
//! A transfer is a short exchange with the remote API: fetch the setting from
//! the source, check whether the destination has it, create a bare
//! placeholder there if it does not, then overwrite the destination value
//! with an idempotent update. The exchange is modeled as a state machine:
//! [`transfer_start`] gives the first request, and [`transfer_step`] takes
//! the outcome of each request and decides the next state and action. The
//! surrounding binary sends the requests and feeds the responses back in.

use vstd::prelude::*;

use crate::schema::{Setting, SettingModel, Value, ValueModel};

verus! {

/// An HTTP method used by the protocol.
#[derive(Debug, Clone, Copy, PartialEq, Eq)]
pub enum Method {
    Get,
    Post,
    Put,
}

/// The body of a request the protocol issues: the bare placeholder sent to
/// create a missing setting, or the key/value pair sent by the final update.
#[derive(Debug, Clone, PartialEq)]
pub enum RequestBody {
    KeyOnly { key: String },
    KeyValue { key: String, value: Option<Vec<Vec<Value>>> },
}

/// The mathematical model of a [`RequestBody`].
pub enum RequestBodyModel {
    KeyOnly { key: Seq<char> },
    KeyValue { key: Seq<char>, value: Option<Seq<Seq<ValueModel>>> },
}

impl View for RequestBody {
    type V = RequestBodyModel;

    open spec fn view(&self) -> RequestBodyModel {
        match self {
            RequestBody::KeyOnly { key } => RequestBodyModel::KeyOnly { key: key@ },
            RequestBody::KeyValue { key, value } => RequestBodyModel::KeyValue {
                key: key@,
                value: value.deep_view(),
            },
        }
    }
}

/// One request for the surrounding binary to send, with the bearer token
/// attached.
#[derive(Debug, Clone, PartialEq)]
pub struct HttpRequest {
    pub method: Method,
    pub url: String,
    pub body: Option<RequestBody>,
}

/// The mathematical model of an [`HttpRequest`].
pub struct HttpRequestModel {
    pub method: Method,
    pub url: Seq<char>,
    pub body: Option<RequestBodyModel>,
}

impl View for HttpRequest {
    type V = HttpRequestModel;

    open spec fn view(&self) -> HttpRequestModel {
        HttpRequestModel { method: self.method, url: self.url@, body: self.body.deep_view() }
    }
}

impl DeepView for RequestBody {
    type V = RequestBodyModel;

    open spec fn deep_view(&self) -> RequestBodyModel {
        self.view()
    }
}

/// Where a transfer stands between two requests. The source setting's value
/// is carried along from the source fetch to the final update.
#[derive(Debug, Clone, PartialEq)]
pub enum TransferState {
    FetchingSource,
    CheckingDest { value: Option<Vec<Vec<Value>>> },
    CreatingDest { value: Option<Vec<Vec<Value>>> },
    Updating,
    Done,
}

/// The mathematical model of a [`TransferState`].
pub enum TransferStateModel {
    FetchingSource,
    CheckingDest { value: Option<Seq<Seq<ValueModel>>> },
    CreatingDest { value: Option<Seq<Seq<ValueModel>>> },
    Updating,
    Done,
}

impl View for TransferState {
    type V = TransferStateModel;

    open spec fn view(&self) -> TransferStateModel {
        match self {
            TransferState::FetchingSource => TransferStateModel::FetchingSource,
            TransferState::CheckingDest { value } => TransferStateModel::CheckingDest {
                value: value.deep_view(),
            },
            TransferState::CreatingDest { value } => TransferStateModel::CreatingDest {
                value: value.deep_view(),
            },
            TransferState::Updating => TransferStateModel::Updating,
            TransferState::Done => TransferStateModel::Done,
        }
    }
}

/// The outcome of the request the protocol last issued. A parse outcome of
/// `None` means the response could not be read as a setting (a transport
/// failure or invalid body); a status is the HTTP status code alone.
#[derive(Debug, PartialEq)]
pub enum TransferEvent {
    SourceFetched { setting: Option<Setting> },
    DestChecked { status: u16 },
    CreateDone { parsed: Option<Setting> },
    UpdateDone { status: u16 },
}

/// The mathematical model of a [`TransferEvent`].
pub enum TransferEventModel {
    SourceFetched { setting: Option<SettingModel> },
    DestChecked { status: u16 },
    CreateDone { parsed: Option<SettingModel> },
    UpdateDone { status: u16 },
}

impl View for TransferEvent {
    type V = TransferEventModel;

    open spec fn view(&self) -> TransferEventModel {
        match self {
            TransferEvent::SourceFetched { setting } => TransferEventModel::SourceFetched {
                setting: setting.deep_view(),
            },
            TransferEvent::DestChecked { status } => TransferEventModel::DestChecked {
                status: *status,
            },
            TransferEvent::CreateDone { parsed } => TransferEventModel::CreateDone {
                parsed: parsed.deep_view(),
            },
            TransferEvent::UpdateDone { status } => TransferEventModel::UpdateDone {
                status: *status,
            },
        }
    }
}

/// A condition that aborts the whole run: the source setting could not be
/// fetched, or the create response could not be parsed.
#[derive(Debug, Clone, Copy, PartialEq, Eq)]
pub enum TransferFatal {
    SourceFetchFailed,
    CreateFailed,
}

/// What the surrounding binary is to do next: send a request, abort the run,
/// or finish this transfer. `copied` tells whether the update succeeded; a
/// failed update is only reported, never fatal.
#[derive(Debug, PartialEq)]
pub enum TransferAction {
    Send(HttpRequest),
    Fatal(TransferFatal),
    Finish { copied: bool },
}

/// The mathematical model of a [`TransferAction`].
pub enum TransferActionModel {
    Send(HttpRequestModel),
    Fatal(TransferFatal),
    Finish { copied: bool },
}

impl View for TransferAction {
    type V = TransferActionModel;

    open spec fn view(&self) -> TransferActionModel {
        match self {
            TransferAction::Send(req) => TransferActionModel::Send(req@),
            TransferAction::Fatal(f) => TransferActionModel::Fatal(*f),
            TransferAction::Finish { copied } => TransferActionModel::Finish { copied: *copied },
        }
    }
}

/// The URL of the single-setting endpoint: `{base}/settings/global?key={key}`.
pub open spec fn single_setting_url_model(base: Seq<char>, key: Seq<char>) -> Seq<char> {
    base + "/settings/global?key="@ + key
}

/// The URL of the listing endpoint: `{base}/settings/global`.
pub open spec fn list_settings_url_model(base: Seq<char>) -> Seq<char> {
    base + "/settings/global"@
}

/// Builds the single-setting URL for a base URL and a key.
pub fn single_setting_url(base: &str, key: &str) -> (r: String)
    ensures
        r@ == single_setting_url_model(base@, key@),
{
    let mut u: String = base.to_owned();
    u.append("/settings/global?key=");
    u.append(key);
    u
}

/// Builds the listing URL for a base URL.
pub fn list_settings_url(base: &str) -> (r: String)
    ensures
        r@ == list_settings_url_model(base@),
{
    let mut u: String = base.to_owned();
    u.append("/settings/global");
    u
}

/// The HTTP status the destination check answers for a missing setting.
pub const NOT_FOUND: u16 = 404;

/// The HTTP status that signals a successful update.
pub const OK_STATUS: u16 = 200;

/// Whether an event is the outcome of the request that a state awaits.
pub open spec fn event_fits(state: TransferStateModel, event: TransferEventModel) -> bool {
    match (state, event) {
        (TransferStateModel::FetchingSource, TransferEventModel::SourceFetched { .. }) => true,
        (TransferStateModel::CheckingDest { .. }, TransferEventModel::DestChecked { .. }) => true,
        (TransferStateModel::CreatingDest { .. }, TransferEventModel::CreateDone { .. }) => true,
        (TransferStateModel::Updating, TransferEventModel::UpdateDone { .. }) => true,
        _ => false,
    }
}

/// The transition relation of the transfer protocol, over the mathematical
/// models: from the current state and the outcome of the last request to the
/// next state and the next action.
pub open spec fn transfer_next(
    key: Seq<char>,
    dest_base: Seq<char>,
    state: TransferStateModel,
    event: TransferEventModel,
) -> (TransferStateModel, TransferActionModel)
    recommends
        event_fits(state, event),
{
    match (state, event) {
        (
            TransferStateModel::FetchingSource,
            TransferEventModel::SourceFetched { setting },
        ) => match setting {
            None => (
                TransferStateModel::Done,
                TransferActionModel::Fatal(TransferFatal::SourceFetchFailed),
            ),
            Some(s) => (
                TransferStateModel::CheckingDest { value: s.value },
                TransferActionModel::Send(
                    HttpRequestModel {
                        method: Method::Get,
                        url: single_setting_url_model(dest_base, key),
                        body: None,
                    },
                ),
            ),
        },
        (
            TransferStateModel::CheckingDest { value },
            TransferEventModel::DestChecked { status },
        ) => if status == NOT_FOUND {
            (
                TransferStateModel::CreatingDest { value },
                TransferActionModel::Send(
                    HttpRequestModel {
                        method: Method::Post,
                        url: single_setting_url_model(dest_base, key),
                        body: Some(RequestBodyModel::KeyOnly { key }),
                    },
                ),
            )
        } else {
            (
                TransferStateModel::Updating,
                TransferActionModel::Send(
                    HttpRequestModel {
                        method: Method::Put,
                        url: single_setting_url_model(dest_base, key),
                        body: Some(RequestBodyModel::KeyValue { key, value }),
                    },
                ),
            )
        },
        (
            TransferStateModel::CreatingDest { value },
            TransferEventModel::CreateDone { parsed },
        ) => match parsed {
            None => (
                TransferStateModel::Done,
                TransferActionModel::Fatal(TransferFatal::CreateFailed),
            ),
            Some(_) => (
                TransferStateModel::Updating,
                TransferActionModel::Send(
                    HttpRequestModel {
                        method: Method::Put,
                        url: single_setting_url_model(dest_base, key),
                        body: Some(RequestBodyModel::KeyValue { key, value }),
                    },
                ),
            ),
        },
        (TransferStateModel::Updating, TransferEventModel::UpdateDone { status }) => (
            TransferStateModel::Done,
            TransferActionModel::Finish { copied: status == OK_STATUS },
        ),
        _ => (TransferStateModel::Done, TransferActionModel::Finish { copied: false }),
    }
}

/// The first request of a transfer: fetch the setting from the source.
pub fn transfer_start(key: &str, src_base: &str) -> (r: HttpRequest)
    ensures
        r@ == (HttpRequestModel {
            method: Method::Get,
            url: single_setting_url_model(src_base@, key@),
            body: None,
        }),
{
    HttpRequest { method: Method::Get, url: single_setting_url(src_base, key), body: None }
}

/// One step of the transfer protocol: takes the outcome of the last request
/// and returns the next state together with the action to perform, exactly as
/// the transition relation [`transfer_next`] prescribes.
pub fn transfer_step(
    key: &str,
    dest_base: &str,
    state: TransferState,
    event: TransferEvent,
) -> (r: (TransferState, TransferAction))
    requires
        event_fits(state@, event@),
    ensures
        (r.0@, r.1@) == transfer_next(key@, dest_base@, state@, event@),
{
    match (state, event) {
        (TransferState::FetchingSource, TransferEvent::SourceFetched { setting }) => match setting {
            None => (TransferState::Done, TransferAction::Fatal(TransferFatal::SourceFetchFailed)),
            Some(s) => (
                TransferState::CheckingDest { value: s.value },
                TransferAction::Send(
                    HttpRequest {
                        method: Method::Get,
                        url: single_setting_url(dest_base, key),
                        body: None,
                    },
                ),
            ),
        },
        (TransferState::CheckingDest { value }, TransferEvent::DestChecked { status }) => if status
            == NOT_FOUND {
            (
                TransferState::CreatingDest { value },
                TransferAction::Send(
                    HttpRequest {
                        method: Method::Post,
                        url: single_setting_url(dest_base, key),
                        body: Some(RequestBody::KeyOnly { key: key.to_owned() }),
                    },
                ),
            )
        } else {
            (
                TransferState::Updating,
                TransferAction::Send(
                    HttpRequest {
                        method: Method::Put,
                        url: single_setting_url(dest_base, key),
                        body: Some(RequestBody::KeyValue { key: key.to_owned(), value }),
                    },
                ),
            )
        },
        (TransferState::CreatingDest { value }, TransferEvent::CreateDone { parsed }) => match parsed {
            None => (TransferState::Done, TransferAction::Fatal(TransferFatal::CreateFailed)),
            Some(_) => (
                TransferState::Updating,
                TransferAction::Send(
                    HttpRequest {
                        method: Method::Put,
                        url: single_setting_url(dest_base, key),
                        body: Some(RequestBody::KeyValue { key: key.to_owned(), value }),
                    },
                ),
            ),
        },
        (TransferState::Updating, TransferEvent::UpdateDone { status }) => (
            TransferState::Done,
            TransferAction::Finish { copied: status == OK_STATUS },
        ),
        (_, _) => (TransferState::Done, TransferAction::Finish { copied: false }),
    }
}

/// Law: a create request is issued if and only if the destination check
/// answered "not found". From the state that awaits the destination check, a
/// status of 404 leads to exactly one POST of the bare placeholder before the
/// update, and any other status leads directly to the update; either way the
/// update carries the value the machine holds.
pub proof fn lemma_create_iff_not_found(
    key: Seq<char>,
    dest_base: Seq<char>,
    value: Option<Seq<Seq<ValueModel>>>,
    status: u16,
)
    ensures
        ({
            let (st, act) = transfer_next(
                key,
                dest_base,
                TransferStateModel::CheckingDest { value },
                TransferEventModel::DestChecked { status },
            );
            &&& (status == NOT_FOUND ==> st == (TransferStateModel::CreatingDest { value })
                && act == TransferActionModel::Send(
                HttpRequestModel {
                    method: Method::Post,
                    url: single_setting_url_model(dest_base, key),
                    body: Some(RequestBodyModel::KeyOnly { key }),
                },
            ))
            &&& (status != NOT_FOUND ==> st == TransferStateModel::Updating && act
                == TransferActionModel::Send(
                HttpRequestModel {
                    method: Method::Put,
                    url: single_setting_url_model(dest_base, key),
                    body: Some(RequestBodyModel::KeyValue { key, value }),
                },
            ))
        }),
{
}

/// Law: the update sends the source setting's value unchanged. Starting from
/// the source fetch, whichever path the destination check selects — create
/// first on 404 (with a create response that parsed), or straight to the
/// update on any other status — the machine reaches the updating state and
/// the PUT request's body carries the key and exactly the value of the
/// setting fetched from the source, `None` included.
pub proof fn lemma_update_carries_source_value(
    key: Seq<char>,
    dest_base: Seq<char>,
    source: SettingModel,
    status: u16,
    created: SettingModel,
)
    ensures
        ({
            let (st1, _) = transfer_next(
                key,
                dest_base,
                TransferStateModel::FetchingSource,
                TransferEventModel::SourceFetched { setting: Some(source) },
            );
            let (st2, act2) = transfer_next(
                key,
                dest_base,
                st1,
                TransferEventModel::DestChecked { status },
            );
            let put = TransferActionModel::Send(
                HttpRequestModel {
                    method: Method::Put,
                    url: single_setting_url_model(dest_base, key),
                    body: Some(RequestBodyModel::KeyValue { key, value: source.value }),
                },
            );
            if status == NOT_FOUND {
                let (st3, act3) = transfer_next(
                    key,
                    dest_base,
                    st2,
                    TransferEventModel::CreateDone { parsed: Some(created) },
                );
                st3 == TransferStateModel::Updating && act3 == put
            } else {
                st2 == TransferStateModel::Updating && act2 == put
            }
        }),
{
}

/// Law: a failed update is reported, never propagated. Whatever status the
/// final update answers, the transfer finishes — it never aborts the run —
/// and it counts as copied exactly when the status is 200.
pub proof fn lemma_update_failure_swallowed(key: Seq<char>, dest_base: Seq<char>, status: u16)
    ensures
        ({
            let (st, act) = transfer_next(
                key,
                dest_base,
                TransferStateModel::Updating,
                TransferEventModel::UpdateDone { status },
            );
            &&& st == TransferStateModel::Done
            &&& !(act is Fatal)
            &&& act == (TransferActionModel::Finish { copied: status == OK_STATUS })
            &&& (act matches TransferActionModel::Finish { copied } ==> (copied <==> status
                == OK_STATUS))
        }),
{
}

/// Law: the run aborts only on a response that could not be read. A
/// transition yields a fatal action exactly when the source fetch handed back
/// no setting or the create response did not parse.
pub proof fn lemma_fatal_only_on_failed_parse(
    key: Seq<char>,
    dest_base: Seq<char>,
    state: TransferStateModel,
    event: TransferEventModel,
)
    requires
        event_fits(state, event),
    ensures
        ({
            let (_, act) = transfer_next(key, dest_base, state, event);
            act is Fatal <==> (event == (TransferEventModel::SourceFetched { setting: None })
                || event == (TransferEventModel::CreateDone { parsed: None }))
        }),
{
}

} // verus!
