//! Secrets in the keyring.

use calendar_settings::secrets::{
    attributes, delete_secrets, finish_load, load_secret, store_secret, DeleteAction, DeleteEvent,
    FoundItems, ItemRef, LoadAction, LoadEvent, SecretKind, StoreAction, StoreEvent,
};

const KINDS: [SecretKind; 5] = [
    SecretKind::Password,
    SecretKind::BearerToken,
    SecretKind::OidcAccessToken,
    SecretKind::OidcRefreshToken,
    SecretKind::OidcClientSecret,
];

fn store(event: StoreEvent) -> StoreAction {
    store_secret("id", SecretKind::Password, "pä", &event)
}

fn load(event: LoadEvent) -> LoadAction {
    load_secret("id", SecretKind::BearerToken, event)
}

fn delete(event: DeleteEvent) -> DeleteAction {
    delete_secrets("id", &event)
}

fn item() -> StoreAction {
    StoreAction::CreateItem {
        label: "COSMIC Calendar – id – password".to_string(),
        attributes: vec![
            ("application", "com.system76.CosmicAppletTime".to_string()),
            ("source_id", "id".to_string()),
            ("secret_kind", "password".to_string()),
        ],
        secret: "pä".as_bytes().to_vec(),
        replace: true,
        content_type: "text/plain",
    }
}

#[test]
fn kinds_have_names() {
    let names: Vec<&str> = KINDS.iter().map(|kind| kind.as_str()).collect();
    assert_eq!(
        names,
        vec![
            "password",
            "bearer_token",
            "oidc_access_token",
            "oidc_refresh_token",
            "oidc_client_secret"
        ]
    );
}

#[test]
fn attributes_differ_between_sources_and_kinds() {
    for a in ["x", "y"] {
        for k in KINDS {
            for b in ["x", "y"] {
                for l in KINDS {
                    assert_eq!(attributes(a, k) == attributes(b, l), a == b && k == l);
                }
            }
        }
    }
}

#[test]
fn storing_an_unlocked_keyring() {
    assert_eq!(store(StoreEvent::Started), StoreAction::Connect);
    assert_eq!(store(StoreEvent::Connected(Ok(()))), StoreAction::OpenDefaultCollection);
    assert_eq!(store(StoreEvent::Opened(Ok(()))), StoreAction::ReadLock);
    assert_eq!(store(StoreEvent::LockRead(Ok(false))), item());
    assert_eq!(store(StoreEvent::Created(Ok(()))), StoreAction::Done(Ok(())));
}

#[test]
fn storing_unlocks_what_may_be_locked() {
    assert_eq!(store(StoreEvent::LockRead(Ok(true))), StoreAction::Unlock);
    assert_eq!(store(StoreEvent::LockRead(Err("x".to_string()))), StoreAction::Unlock);
    assert_eq!(store(StoreEvent::Unlocked(Ok(()))), item());
}

#[test]
fn storing_reports_each_failure() {
    let why = || "why".to_string();
    let failed = |message: &str| StoreAction::Done(Err(message.to_string()));
    assert_eq!(
        store(StoreEvent::Connected(Err(why()))),
        failed("Failed to connect to Secret Service: why")
    );
    assert_eq!(store(StoreEvent::Opened(Err(why()))), failed("Failed to get default keyring: why"));
    assert_eq!(store(StoreEvent::Unlocked(Err(why()))), failed("Failed to unlock keyring: why"));
    assert_eq!(store(StoreEvent::Created(Err(why()))), failed("Failed to store secret: why"));
}

fn found(unlocked: usize, locked: usize) -> FoundItems {
    FoundItems { unlocked, locked }
}

#[test]
fn loading_prefers_what_is_unlocked() {
    assert_eq!(load(LoadEvent::Started), LoadAction::Connect);
    assert_eq!(
        load(LoadEvent::Connected(Ok(()))),
        LoadAction::Search { attributes: attributes("id", SecretKind::BearerToken) }
    );
    assert_eq!(
        load(LoadEvent::Searched(Ok(found(2, 3)))),
        LoadAction::Read(ItemRef::Unlocked(0))
    );
    assert_eq!(
        load(LoadEvent::Searched(Ok(found(0, 3)))),
        LoadAction::Unlock(ItemRef::Locked(0))
    );
    assert_eq!(load(LoadEvent::Unlocked(Ok(()))), LoadAction::Read(ItemRef::Locked(0)));
    assert_eq!(load(LoadEvent::Searched(Ok(found(0, 0)))), LoadAction::Done(Ok(None)));
}

#[test]
fn loading_gives_back_what_was_stored() {
    let bytes = match store(StoreEvent::LockRead(Ok(false))) {
        StoreAction::CreateItem { secret, .. } => secret,
        _ => panic!("nothing is stored"),
    };
    assert_eq!(load(LoadEvent::Read(Ok(bytes))), LoadAction::Done(Ok(Some("pä".to_string()))));
    assert_eq!(
        finish_load(Ok("x".to_string())),
        LoadAction::Done(Ok(Some("x".to_string())))
    );
}

#[test]
fn loading_reports_each_failure() {
    let why = || "why".to_string();
    let failed = |message: &str| LoadAction::Done(Err(message.to_string()));
    assert_eq!(
        load(LoadEvent::Connected(Err(why()))),
        failed("Failed to connect to Secret Service: why")
    );
    assert_eq!(load(LoadEvent::Searched(Err(why()))), failed("Failed to search keyring: why"));
    assert_eq!(load(LoadEvent::Unlocked(Err(why()))), failed("Failed to unlock item: why"));
    assert_eq!(load(LoadEvent::Read(Err(why()))), failed("Failed to read secret: why"));
    let bytes = vec![b'a', 0xff, b'b'];
    let expected = String::from_utf8(bytes.clone()).unwrap_err().to_string();
    assert_eq!(
        load(LoadEvent::Read(Ok(bytes))),
        failed(&format!("Secret is not valid UTF-8: {expected}"))
    );
    assert_eq!(finish_load(Err(why())), failed("Secret is not valid UTF-8: why"));
}

#[test]
fn deleting_covers_every_kind() {
    assert_eq!(delete(DeleteEvent::Started), DeleteAction::Connect);
    let mut action = delete(DeleteEvent::Connected(Ok(())));
    for (i, kind) in KINDS.iter().enumerate() {
        assert_eq!(
            action,
            DeleteAction::Search { kind: *kind, attributes: attributes("id", *kind) }
        );
        // A search that fails is passed over, one that finds something leads to a deletion.
        action = if i % 2 == 0 {
            delete(DeleteEvent::Searched(*kind, Err("x".to_string())))
        } else {
            let erase = delete(DeleteEvent::Searched(*kind, Ok(found(1, 2))));
            assert_eq!(
                erase,
                DeleteAction::Delete {
                    kind: *kind,
                    items: vec![ItemRef::Unlocked(0), ItemRef::Locked(0), ItemRef::Locked(1)],
                }
            );
            delete(DeleteEvent::Deleted(*kind))
        };
    }
    assert_eq!(action, DeleteAction::Done(Ok(())));
    assert_eq!(
        delete(DeleteEvent::Connected(Err("why".to_string()))),
        DeleteAction::Done(Err("Failed to connect to Secret Service: why".to_string()))
    );
}
