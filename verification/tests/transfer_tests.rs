use settings_copier::schema::{Setting, Value};
use settings_copier::transfer::{
    list_settings_url, single_setting_url, transfer_start, transfer_step, HttpRequest, Method,
    RequestBody, TransferAction, TransferEvent, TransferFatal, TransferState,
};

const DEST: &str = "https://apigw.edf-esap.com/esap-api/v1";
const SRC: &str = "https://stg-apigw.edf-esap.com/esap-api/v1";

fn setting_with_value(key: &str, value: Option<Vec<Vec<Value>>>) -> Setting {
    Setting {
        key: key.to_string(),
        created_by: None,
        public_id: "pid-1".to_string(),
        updated_on: "2021-01-02T00:00:00".to_string(),
        enabled: true,
        updated_by: None,
        created_user: None,
        is_editable: true,
        value,
        id: 7,
        old_id: None,
        created_on: "2021-01-01T00:00:00".to_string(),
        updated_user: None,
    }
}

fn sample_value() -> Vec<Vec<Value>> {
    vec![vec![Value::Double(1.0f64.to_bits()), Value::String("x".to_string())]]
}

#[test]
fn urls_are_built_exactly() {
    assert_eq!(
        single_setting_url(DEST, "k"),
        "https://apigw.edf-esap.com/esap-api/v1/settings/global?key=k"
    );
    assert_eq!(
        list_settings_url(SRC),
        "https://stg-apigw.edf-esap.com/esap-api/v1/settings/global"
    );
}

#[test]
fn transfer_starts_with_source_fetch() {
    let req = transfer_start("k", SRC);
    assert_eq!(
        req,
        HttpRequest {
            method: Method::Get,
            url: format!("{}/settings/global?key=k", SRC),
            body: None,
        }
    );
}

#[test]
fn missing_destination_creates_then_updates() {
    let source = setting_with_value("k", Some(sample_value()));

    let (st, act) = transfer_step(
        "k",
        DEST,
        TransferState::FetchingSource,
        TransferEvent::SourceFetched { setting: Some(source) },
    );
    assert_eq!(st, TransferState::CheckingDest { value: Some(sample_value()) });
    assert_eq!(
        act,
        TransferAction::Send(HttpRequest {
            method: Method::Get,
            url: format!("{}/settings/global?key=k", DEST),
            body: None,
        })
    );

    let (st, act) = transfer_step("k", DEST, st, TransferEvent::DestChecked { status: 404 });
    assert_eq!(st, TransferState::CreatingDest { value: Some(sample_value()) });
    assert_eq!(
        act,
        TransferAction::Send(HttpRequest {
            method: Method::Post,
            url: format!("{}/settings/global?key=k", DEST),
            body: Some(RequestBody::KeyOnly { key: "k".to_string() }),
        })
    );

    let created = setting_with_value("k", None);
    let (st, act) =
        transfer_step("k", DEST, st, TransferEvent::CreateDone { parsed: Some(created) });
    assert_eq!(st, TransferState::Updating);
    assert_eq!(
        act,
        TransferAction::Send(HttpRequest {
            method: Method::Put,
            url: format!("{}/settings/global?key=k", DEST),
            body: Some(RequestBody::KeyValue { key: "k".to_string(), value: Some(sample_value()) }),
        })
    );

    let (st, act) = transfer_step("k", DEST, st, TransferEvent::UpdateDone { status: 200 });
    assert_eq!(st, TransferState::Done);
    assert_eq!(act, TransferAction::Finish { copied: true });
}

#[test]
fn present_destination_updates_without_create() {
    let source = setting_with_value("k", Some(sample_value()));

    let (st, _) = transfer_step(
        "k",
        DEST,
        TransferState::FetchingSource,
        TransferEvent::SourceFetched { setting: Some(source) },
    );
    let (st, act) = transfer_step("k", DEST, st, TransferEvent::DestChecked { status: 200 });
    assert_eq!(st, TransferState::Updating);
    assert_eq!(
        act,
        TransferAction::Send(HttpRequest {
            method: Method::Put,
            url: format!("{}/settings/global?key=k", DEST),
            body: Some(RequestBody::KeyValue { key: "k".to_string(), value: Some(sample_value()) }),
        })
    );
}

#[test]
fn null_value_is_copied_verbatim() {
    let source = setting_with_value("k", None);

    let (st, _) = transfer_step(
        "k",
        DEST,
        TransferState::FetchingSource,
        TransferEvent::SourceFetched { setting: Some(source) },
    );
    let (_, act) = transfer_step("k", DEST, st, TransferEvent::DestChecked { status: 200 });
    assert_eq!(
        act,
        TransferAction::Send(HttpRequest {
            method: Method::Put,
            url: format!("{}/settings/global?key=k", DEST),
            body: Some(RequestBody::KeyValue { key: "k".to_string(), value: None }),
        })
    );
}

#[test]
fn failed_update_is_reported_not_fatal() {
    let (st, act) = transfer_step(
        "k",
        DEST,
        TransferState::Updating,
        TransferEvent::UpdateDone { status: 500 },
    );
    assert_eq!(st, TransferState::Done);
    assert_eq!(act, TransferAction::Finish { copied: false });
}

#[test]
fn failed_source_fetch_is_fatal() {
    let (st, act) = transfer_step(
        "k",
        DEST,
        TransferState::FetchingSource,
        TransferEvent::SourceFetched { setting: None },
    );
    assert_eq!(st, TransferState::Done);
    assert_eq!(act, TransferAction::Fatal(TransferFatal::SourceFetchFailed));
}

#[test]
fn failed_create_parse_is_fatal() {
    let (st, act) = transfer_step(
        "k",
        DEST,
        TransferState::CreatingDest { value: Some(sample_value()) },
        TransferEvent::CreateDone { parsed: None },
    );
    assert_eq!(st, TransferState::Done);
    assert_eq!(act, TransferAction::Fatal(TransferFatal::CreateFailed));
}
