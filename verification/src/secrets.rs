//! Secrets in the desktop keyring.
//!
//! The caller reaches the keyring. Each operation here is a machine: it is told what just
//! happened and says what to do next.

use vstd::prelude::*;

verus! {

/// The application that the secrets belong to.
pub const APP_LABEL: &'static str = "com.system76.CosmicAppletTime";

/// The content type that secrets are stored with.
pub const CONTENT_TYPE: &'static str = "text/plain";

/// What a secret is for.
#[derive(Debug, Clone, Copy, PartialEq, Eq, Structural)]
pub enum SecretKind {
    Password,
    BearerToken,
    OidcAccessToken,
    OidcRefreshToken,
    OidcClientSecret,
}

/// The name of a kind of secret.
pub open spec fn kind_name(kind: SecretKind) -> Seq<char> {
    match kind {
        SecretKind::Password => "password"@,
        SecretKind::BearerToken => "bearer_token"@,
        SecretKind::OidcAccessToken => "oidc_access_token"@,
        SecretKind::OidcRefreshToken => "oidc_refresh_token"@,
        SecretKind::OidcClientSecret => "oidc_client_secret"@,
    }
}

impl SecretKind {
    /// The name of this kind of secret.
    pub fn as_str(self) -> (r: &'static str)
        ensures
            r@ == kind_name(self),
    {
        match self {
            SecretKind::Password => "password",
            SecretKind::BearerToken => "bearer_token",
            SecretKind::OidcAccessToken => "oidc_access_token",
            SecretKind::OidcRefreshToken => "oidc_refresh_token",
            SecretKind::OidcClientSecret => "oidc_client_secret",
        }
    }
}

/// The attributes, name and value, that a secret is filed and found under.
pub open spec fn attribute_pairs(source_id: Seq<char>, kind: SecretKind) -> Seq<
    (Seq<char>, Seq<char>),
> {
    seq![
        ("application"@, APP_LABEL@),
        ("source_id"@, source_id),
        ("secret_kind"@, kind_name(kind)),
    ]
}

/// The attributes, name and value, that a secret is filed and found under.
pub fn attributes(source_id: &str, kind: SecretKind) -> (r: Vec<(&'static str, String)>)
    ensures
        r.deep_view() == attribute_pairs(source_id@, kind),
{
    let mut r: Vec<(&'static str, String)> = Vec::new();
    r.push(("application", APP_LABEL.to_owned()));
    r.push(("source_id", source_id.to_owned()));
    r.push(("secret_kind", kind.as_str().to_owned()));
    assert(r.deep_view() =~= attribute_pairs(source_id@, kind));
    r
}

/// The label that a keyring shows for a secret.
pub open spec fn item_label(source_id: Seq<char>, kind: SecretKind) -> Seq<char> {
    "COSMIC Calendar – "@ + source_id + " – "@ + kind_name(kind)
}

/// `message`, a colon already in it, and the reason after it.
fn failure(message: &str, reason: &String) -> (r: String)
    ensures
        r@ == message@ + reason@,
{
    message.to_owned().concat(reason.as_str())
}

// ── Storing ──────────────────────────────────────────────────────────────

/// What just happened while a secret is being stored.
pub enum StoreEvent {
    Started,
    Connected(Result<(), String>),
    Opened(Result<(), String>),
    LockRead(Result<bool, String>),
    Unlocked(Result<(), String>),
    Created(Result<(), String>),
}

/// What to do next to store a secret.
#[derive(Debug, PartialEq, Eq)]
pub enum StoreAction {
    Connect,
    OpenDefaultCollection,
    ReadLock,
    Unlock,
    CreateItem {
        label: String,
        attributes: Vec<(&'static str, String)>,
        secret: Vec<u8>,
        replace: bool,
        content_type: &'static str,
    },
    Done(Result<(), String>),
}

/// The model of a [`StoreEvent`].
pub enum StoreEventView {
    Started,
    Connected(Result<(), Seq<char>>),
    Opened(Result<(), Seq<char>>),
    LockRead(Result<bool, Seq<char>>),
    Unlocked(Result<(), Seq<char>>),
    Created(Result<(), Seq<char>>),
}

/// The model of a [`StoreAction`].
pub enum StoreActionView {
    Connect,
    OpenDefaultCollection,
    ReadLock,
    Unlock,
    CreateItem {
        label: Seq<char>,
        attributes: Seq<(Seq<char>, Seq<char>)>,
        secret: Seq<u8>,
        replace: bool,
        content_type: Seq<char>,
    },
    Done(Result<(), Seq<char>>),
}

/// A result whose error is a text, with the text taken by its characters.
pub open spec fn text_result<T>(r: Result<T, String>) -> Result<T, Seq<char>> {
    match r {
        Ok(v) => Ok(v),
        Err(e) => Err(e@),
    }
}

impl DeepView for StoreEvent {
    type V = StoreEventView;

    open spec fn deep_view(&self) -> StoreEventView {
        match self {
            StoreEvent::Started => StoreEventView::Started,
            StoreEvent::Connected(r) => StoreEventView::Connected(text_result(*r)),
            StoreEvent::Opened(r) => StoreEventView::Opened(text_result(*r)),
            StoreEvent::LockRead(r) => StoreEventView::LockRead(text_result(*r)),
            StoreEvent::Unlocked(r) => StoreEventView::Unlocked(text_result(*r)),
            StoreEvent::Created(r) => StoreEventView::Created(text_result(*r)),
        }
    }
}

impl DeepView for StoreAction {
    type V = StoreActionView;

    open spec fn deep_view(&self) -> StoreActionView {
        match self {
            StoreAction::Connect => StoreActionView::Connect,
            StoreAction::OpenDefaultCollection => StoreActionView::OpenDefaultCollection,
            StoreAction::ReadLock => StoreActionView::ReadLock,
            StoreAction::Unlock => StoreActionView::Unlock,
            StoreAction::CreateItem { label, attributes, secret, replace, content_type } =>
                StoreActionView::CreateItem {
                label: label@,
                attributes: attributes.deep_view(),
                secret: secret@,
                replace: *replace,
                content_type: content_type@,
            },
            StoreAction::Done(r) => StoreActionView::Done(text_result(*r)),
        }
    }
}

/// The step that files the secret.
pub open spec fn create_step(source_id: Seq<char>, kind: SecretKind, secret: Seq<char>) ->
    StoreActionView {
    StoreActionView::CreateItem {
        label: item_label(source_id, kind),
        attributes: attribute_pairs(source_id, kind),
        secret: vstd::utf8::encode_utf8(secret),
        replace: true,
        content_type: CONTENT_TYPE@,
    }
}

/// The step that follows an event while a secret is being stored.
///
/// A collection whose lock cannot be read counts as locked.
pub open spec fn store_step(
    source_id: Seq<char>,
    kind: SecretKind,
    secret: Seq<char>,
    event: StoreEventView,
) -> StoreActionView {
    match event {
        StoreEventView::Started => StoreActionView::Connect,
        StoreEventView::Connected(Ok(_)) => StoreActionView::OpenDefaultCollection,
        StoreEventView::Connected(Err(e)) => StoreActionView::Done(
            Err("Failed to connect to Secret Service: "@ + e),
        ),
        StoreEventView::Opened(Ok(_)) => StoreActionView::ReadLock,
        StoreEventView::Opened(Err(e)) => StoreActionView::Done(
            Err("Failed to get default keyring: "@ + e),
        ),
        StoreEventView::LockRead(r) => if r == Ok::<bool, Seq<char>>(false) {
            create_step(source_id, kind, secret)
        } else {
            StoreActionView::Unlock
        },
        StoreEventView::Unlocked(Ok(_)) => create_step(source_id, kind, secret),
        StoreEventView::Unlocked(Err(e)) => StoreActionView::Done(
            Err("Failed to unlock keyring: "@ + e),
        ),
        StoreEventView::Created(Ok(_)) => StoreActionView::Done(Ok(())),
        StoreEventView::Created(Err(e)) => StoreActionView::Done(
            Err("Failed to store secret: "@ + e),
        ),
    }
}

/// The step that files the secret.
fn create_item(source_id: &str, kind: SecretKind, secret: &str) -> (r: StoreAction)
    ensures
        r.deep_view() == create_step(source_id@, kind, secret@),
{
    StoreAction::CreateItem {
        label: "COSMIC Calendar – ".to_owned().concat(source_id).concat(" – ").concat(
            kind.as_str(),
        ),
        attributes: attributes(source_id, kind),
        secret: vstd::slice::slice_to_vec(secret.as_bytes()),
        replace: true,
        content_type: CONTENT_TYPE,
    }
}

/// Says what to do next to store `secret` for a source, after `event`.
pub fn store_secret(source_id: &str, kind: SecretKind, secret: &str, event: &StoreEvent) -> (r:
    StoreAction)
    ensures
        r.deep_view() == store_step(source_id@, kind, secret@, event.deep_view()),
{
    match event {
        StoreEvent::Started => StoreAction::Connect,
        StoreEvent::Connected(Ok(_)) => StoreAction::OpenDefaultCollection,
        StoreEvent::Connected(Err(e)) => StoreAction::Done(
            Err(failure("Failed to connect to Secret Service: ", e)),
        ),
        StoreEvent::Opened(Ok(_)) => StoreAction::ReadLock,
        StoreEvent::Opened(Err(e)) => StoreAction::Done(
            Err(failure("Failed to get default keyring: ", e)),
        ),
        StoreEvent::LockRead(Ok(false)) => create_item(source_id, kind, secret),
        StoreEvent::LockRead(_) => StoreAction::Unlock,
        StoreEvent::Unlocked(Ok(_)) => create_item(source_id, kind, secret),
        StoreEvent::Unlocked(Err(e)) => StoreAction::Done(
            Err(failure("Failed to unlock keyring: ", e)),
        ),
        StoreEvent::Created(Ok(_)) => StoreAction::Done(Ok(())),
        StoreEvent::Created(Err(e)) => StoreAction::Done(
            Err(failure("Failed to store secret: ", e)),
        ),
    }
}

// ── Loading ──────────────────────────────────────────────────────────────

/// How many items a search found, by the state of their lock.
#[derive(Debug, Clone, Copy, PartialEq, Eq, Structural)]
pub struct FoundItems {
    pub unlocked: usize,
    pub locked: usize,
}

/// An item of a search result, by its list and its position in it.
#[derive(Debug, Clone, Copy, PartialEq, Eq, Structural)]
pub enum ItemRef {
    Unlocked(usize),
    Locked(usize),
}

/// What just happened while a secret is being loaded.
pub enum LoadEvent {
    Started,
    Connected(Result<(), String>),
    Searched(Result<FoundItems, String>),
    Unlocked(Result<(), String>),
    Read(Result<Vec<u8>, String>),
}

/// What to do next to load a secret.
#[derive(Debug, PartialEq, Eq)]
pub enum LoadAction {
    Connect,
    Search { attributes: Vec<(&'static str, String)> },
    Unlock(ItemRef),
    Read(ItemRef),
    Done(Result<Option<String>, String>),
}

/// The model of a [`LoadEvent`].
pub enum LoadEventView {
    Started,
    Connected(Result<(), Seq<char>>),
    Searched(Result<FoundItems, Seq<char>>),
    Unlocked(Result<(), Seq<char>>),
    Read(Result<Seq<u8>, Seq<char>>),
}

/// The model of a [`LoadAction`].
pub enum LoadActionView {
    Connect,
    Search { attributes: Seq<(Seq<char>, Seq<char>)> },
    Unlock(ItemRef),
    Read(ItemRef),
    Done(Result<Option<Seq<char>>, Seq<char>>),
}

/// The model of what loading a secret gave.
pub open spec fn loaded_view(r: Result<Option<String>, String>) -> Result<
    Option<Seq<char>>,
    Seq<char>,
> {
    match r {
        Ok(v) => Ok(v.deep_view()),
        Err(e) => Err(e@),
    }
}

impl DeepView for LoadEvent {
    type V = LoadEventView;

    open spec fn deep_view(&self) -> LoadEventView {
        match self {
            LoadEvent::Started => LoadEventView::Started,
            LoadEvent::Connected(r) => LoadEventView::Connected(text_result(*r)),
            LoadEvent::Searched(r) => LoadEventView::Searched(text_result(*r)),
            LoadEvent::Unlocked(r) => LoadEventView::Unlocked(text_result(*r)),
            LoadEvent::Read(Ok(bytes)) => LoadEventView::Read(Ok(bytes@)),
            LoadEvent::Read(Err(e)) => LoadEventView::Read(Err(e@)),
        }
    }
}

impl DeepView for LoadAction {
    type V = LoadActionView;

    open spec fn deep_view(&self) -> LoadActionView {
        match self {
            LoadAction::Connect => LoadActionView::Connect,
            LoadAction::Search { attributes } => LoadActionView::Search {
                attributes: attributes.deep_view(),
            },
            LoadAction::Unlock(item) => LoadActionView::Unlock(*item),
            LoadAction::Read(item) => LoadActionView::Read(*item),
            LoadAction::Done(r) => LoadActionView::Done(loaded_view(*r)),
        }
    }
}

/// The text in which the standard library reports that `bytes` is not UTF-8.
pub uninterp spec fn utf8_error(bytes: Seq<u8>) -> Seq<char>;

/// Calls `String::from_utf8`: the text that the bytes encode where they are UTF-8, and else the
/// error in words. The wording is the standard library's own and has only a name here.
#[verifier::external_body]
fn string_from_utf8(bytes: Vec<u8>) -> (r: Result<String, String>)
    ensures
        match r {
            Ok(s) => vstd::utf8::valid_utf8(bytes@) && s@ == vstd::utf8::decode_utf8(bytes@),
            Err(e) => !vstd::utf8::valid_utf8(bytes@) && e@ == utf8_error(bytes@),
        },
{
    String::from_utf8(bytes).map_err(|e| e.to_string())
}

/// What loading gives once the bytes of the secret are read.
pub open spec fn decoded_secret(bytes: Seq<u8>) -> Result<Option<Seq<char>>, Seq<char>> {
    if vstd::utf8::valid_utf8(bytes) {
        Ok(Some(vstd::utf8::decode_utf8(bytes)))
    } else {
        Err("Secret is not valid UTF-8: "@ + utf8_error(bytes))
    }
}

/// The step that follows an event while a secret is being loaded.
///
/// The first unlocked item is taken, or else the first locked one, once unlocked.
pub open spec fn load_step(source_id: Seq<char>, kind: SecretKind, event: LoadEventView) ->
    LoadActionView {
    match event {
        LoadEventView::Started => LoadActionView::Connect,
        LoadEventView::Connected(Ok(_)) => LoadActionView::Search {
            attributes: attribute_pairs(source_id, kind),
        },
        LoadEventView::Connected(Err(e)) => LoadActionView::Done(
            Err("Failed to connect to Secret Service: "@ + e),
        ),
        LoadEventView::Searched(Ok(found)) => if found.unlocked > 0 {
            LoadActionView::Read(ItemRef::Unlocked(0))
        } else if found.locked > 0 {
            LoadActionView::Unlock(ItemRef::Locked(0))
        } else {
            LoadActionView::Done(Ok(None))
        },
        LoadEventView::Searched(Err(e)) => LoadActionView::Done(
            Err("Failed to search keyring: "@ + e),
        ),
        LoadEventView::Unlocked(Ok(_)) => LoadActionView::Read(ItemRef::Locked(0)),
        LoadEventView::Unlocked(Err(e)) => LoadActionView::Done(
            Err("Failed to unlock item: "@ + e),
        ),
        LoadEventView::Read(Ok(bytes)) => LoadActionView::Done(decoded_secret(bytes)),
        LoadEventView::Read(Err(e)) => LoadActionView::Done(Err("Failed to read secret: "@ + e)),
    }
}

/// Ends a load with the decoded secret, or with the reason why it could not be decoded.
pub fn finish_load(decoded: Result<String, String>) -> (r: LoadAction)
    ensures
        r.deep_view() == LoadActionView::Done(
            match decoded {
                Ok(secret) => Ok(Some(secret@)),
                Err(e) => Err("Secret is not valid UTF-8: "@ + e@),
            },
        ),
{
    match decoded {
        Ok(secret) => LoadAction::Done(Ok(Some(secret))),
        Err(e) => LoadAction::Done(Err(failure("Secret is not valid UTF-8: ", &e))),
    }
}

/// Says what to do next to load the secret of a source, after `event`.
pub fn load_secret(source_id: &str, kind: SecretKind, event: LoadEvent) -> (r: LoadAction)
    ensures
        r.deep_view() == load_step(source_id@, kind, event.deep_view()),
{
    match event {
        LoadEvent::Started => LoadAction::Connect,
        LoadEvent::Connected(Ok(_)) => LoadAction::Search {
            attributes: attributes(source_id, kind),
        },
        LoadEvent::Connected(Err(e)) => LoadAction::Done(
            Err(failure("Failed to connect to Secret Service: ", &e)),
        ),
        LoadEvent::Searched(Ok(found)) => {
            if found.unlocked > 0 {
                LoadAction::Read(ItemRef::Unlocked(0))
            } else if found.locked > 0 {
                LoadAction::Unlock(ItemRef::Locked(0))
            } else {
                LoadAction::Done(Ok(None))
            }
        },
        LoadEvent::Searched(Err(e)) => LoadAction::Done(
            Err(failure("Failed to search keyring: ", &e)),
        ),
        LoadEvent::Unlocked(Ok(_)) => LoadAction::Read(ItemRef::Locked(0)),
        LoadEvent::Unlocked(Err(e)) => LoadAction::Done(
            Err(failure("Failed to unlock item: ", &e)),
        ),
        LoadEvent::Read(Ok(bytes)) => finish_load(string_from_utf8(bytes)),
        LoadEvent::Read(Err(e)) => LoadAction::Done(Err(failure("Failed to read secret: ", &e))),
    }
}

// ── Deleting ─────────────────────────────────────────────────────────────

/// What just happened while the secrets of a source are being deleted.
pub enum DeleteEvent {
    Started,
    Connected(Result<(), String>),
    Searched(SecretKind, Result<FoundItems, String>),
    Deleted(SecretKind),
}

/// What to do next to delete the secrets of a source.
///
/// A deletion that fails is passed over.
#[derive(Debug, PartialEq, Eq)]
pub enum DeleteAction {
    Connect,
    Search { kind: SecretKind, attributes: Vec<(&'static str, String)> },
    Delete { kind: SecretKind, items: Vec<ItemRef> },
    Done(Result<(), String>),
}

/// The model of a [`DeleteEvent`].
pub enum DeleteEventView {
    Started,
    Connected(Result<(), Seq<char>>),
    Searched(SecretKind, Result<FoundItems, Seq<char>>),
    Deleted(SecretKind),
}

/// The model of a [`DeleteAction`].
pub enum DeleteActionView {
    Connect,
    Search { kind: SecretKind, attributes: Seq<(Seq<char>, Seq<char>)> },
    Delete { kind: SecretKind, items: Seq<ItemRef> },
    Done(Result<(), Seq<char>>),
}

impl DeepView for DeleteEvent {
    type V = DeleteEventView;

    open spec fn deep_view(&self) -> DeleteEventView {
        match self {
            DeleteEvent::Started => DeleteEventView::Started,
            DeleteEvent::Connected(r) => DeleteEventView::Connected(text_result(*r)),
            DeleteEvent::Searched(kind, r) => DeleteEventView::Searched(*kind, text_result(*r)),
            DeleteEvent::Deleted(kind) => DeleteEventView::Deleted(*kind),
        }
    }
}

impl DeepView for DeleteAction {
    type V = DeleteActionView;

    open spec fn deep_view(&self) -> DeleteActionView {
        match self {
            DeleteAction::Connect => DeleteActionView::Connect,
            DeleteAction::Search { kind, attributes } => DeleteActionView::Search {
                kind: *kind,
                attributes: attributes.deep_view(),
            },
            DeleteAction::Delete { kind, items } => DeleteActionView::Delete {
                kind: *kind,
                items: items@,
            },
            DeleteAction::Done(r) => DeleteActionView::Done(text_result(*r)),
        }
    }
}

/// The kinds of secrets, in the order in which they are deleted.
pub open spec fn deletion_order() -> Seq<SecretKind> {
    seq![
        SecretKind::Password,
        SecretKind::BearerToken,
        SecretKind::OidcAccessToken,
        SecretKind::OidcRefreshToken,
        SecretKind::OidcClientSecret,
    ]
}

/// The place of a kind in [`deletion_order`].
pub open spec fn deletion_rank(kind: SecretKind) -> int {
    match kind {
        SecretKind::Password => 0,
        SecretKind::BearerToken => 1,
        SecretKind::OidcAccessToken => 2,
        SecretKind::OidcRefreshToken => 3,
        SecretKind::OidcClientSecret => 4,
    }
}

/// Every item of a search result: the unlocked ones, then the locked ones.
pub open spec fn all_items(found: FoundItems) -> Seq<ItemRef> {
    Seq::new(found.unlocked as nat, |i: int| ItemRef::Unlocked(i as usize)) + Seq::new(
        found.locked as nat,
        |i: int| ItemRef::Locked(i as usize),
    )
}

/// The step that looks for the kind of secret at place `rank`, or ends after the last.
pub open spec fn search_step(source_id: Seq<char>, rank: int) -> DeleteActionView {
    if rank < deletion_order().len() {
        DeleteActionView::Search {
            kind: deletion_order()[rank],
            attributes: attribute_pairs(source_id, deletion_order()[rank]),
        }
    } else {
        DeleteActionView::Done(Ok(()))
    }
}

/// The step that follows an event while the secrets of a source are being deleted.
///
/// A search that fails is passed over.
pub open spec fn delete_step(source_id: Seq<char>, event: DeleteEventView) -> DeleteActionView {
    match event {
        DeleteEventView::Started => DeleteActionView::Connect,
        DeleteEventView::Connected(Ok(_)) => search_step(source_id, 0),
        DeleteEventView::Connected(Err(e)) => DeleteActionView::Done(
            Err("Failed to connect to Secret Service: "@ + e),
        ),
        DeleteEventView::Searched(kind, Ok(found)) => DeleteActionView::Delete {
            kind,
            items: all_items(found),
        },
        DeleteEventView::Searched(kind, Err(_)) => search_step(source_id, deletion_rank(kind) + 1),
        DeleteEventView::Deleted(kind) => search_step(source_id, deletion_rank(kind) + 1),
    }
}

/// The step that looks for one kind of secret.
fn search_for(source_id: &str, kind: SecretKind) -> (r: DeleteAction)
    ensures
        r.deep_view() == search_step(source_id@, deletion_rank(kind)),
{
    DeleteAction::Search { kind, attributes: attributes(source_id, kind) }
}

/// The step that looks for the kind of secret after `kind`, or ends after the last.
fn search_after(source_id: &str, kind: SecretKind) -> (r: DeleteAction)
    ensures
        r.deep_view() == search_step(source_id@, deletion_rank(kind) + 1),
{
    match kind {
        SecretKind::Password => search_for(source_id, SecretKind::BearerToken),
        SecretKind::BearerToken => search_for(source_id, SecretKind::OidcAccessToken),
        SecretKind::OidcAccessToken => search_for(source_id, SecretKind::OidcRefreshToken),
        SecretKind::OidcRefreshToken => search_for(source_id, SecretKind::OidcClientSecret),
        SecretKind::OidcClientSecret => DeleteAction::Done(Ok(())),
    }
}

/// Every item of a search result: the unlocked ones, then the locked ones.
fn list_items(found: FoundItems) -> (r: Vec<ItemRef>)
    ensures
        r@ == all_items(found),
{
    let mut r: Vec<ItemRef> = Vec::new();
    let mut i: usize = 0;
    while i < found.unlocked
        invariant
            i <= found.unlocked,
            r@ == Seq::new(i as nat, |k: int| ItemRef::Unlocked(k as usize)),
        decreases found.unlocked - i,
    {
        r.push(ItemRef::Unlocked(i));
        i += 1;
        assert(r@ =~= Seq::new(i as nat, |k: int| ItemRef::Unlocked(k as usize)));
    }
    let mut j: usize = 0;
    while j < found.locked
        invariant
            j <= found.locked,
            r@ =~= Seq::new(found.unlocked as nat, |k: int| ItemRef::Unlocked(k as usize))
                + Seq::new(j as nat, |k: int| ItemRef::Locked(k as usize)),
        decreases found.locked - j,
    {
        r.push(ItemRef::Locked(j));
        j += 1;
    }
    r
}

/// Says what to do next to delete every secret of a source, after `event`.
pub fn delete_secrets(source_id: &str, event: &DeleteEvent) -> (r: DeleteAction)
    ensures
        r.deep_view() == delete_step(source_id@, event.deep_view()),
{
    match event {
        DeleteEvent::Started => DeleteAction::Connect,
        DeleteEvent::Connected(Ok(_)) => search_for(source_id, SecretKind::Password),
        DeleteEvent::Connected(Err(e)) => DeleteAction::Done(
            Err(failure("Failed to connect to Secret Service: ", e)),
        ),
        DeleteEvent::Searched(kind, Ok(found)) => DeleteAction::Delete {
            kind: *kind,
            items: list_items(*found),
        },
        DeleteEvent::Searched(kind, Err(_)) => search_after(source_id, *kind),
        DeleteEvent::Deleted(kind) => search_after(source_id, *kind),
    }
}

// ── Laws ─────────────────────────────────────────────────────────────────

/// What is stored is what is loaded: a secret is looked for under the attributes that it is filed
/// under, and its bytes are read back as the same text.
pub proof fn stored_secret_is_loaded(source_id: Seq<char>, kind: SecretKind, secret: Seq<char>)
    ensures
        create_step(source_id, kind, secret) matches StoreActionView::CreateItem {
            attributes,
            secret: bytes,
            ..
        } && load_step(source_id, kind, LoadEventView::Connected(Ok(())))
            == (LoadActionView::Search { attributes }) && load_step(
            source_id,
            kind,
            LoadEventView::Read(Ok(bytes)),
        ) == LoadActionView::Done(Ok(Some(secret))),
{
    vstd::utf8::encode_utf8_valid_utf8(secret);
    vstd::utf8::encode_utf8_decode_utf8(secret);
}

/// Secrets of different sources, or of different kinds, are filed under different attributes.
pub proof fn secrets_are_kept_apart(
    source_id: Seq<char>,
    kind: SecretKind,
    other_id: Seq<char>,
    other_kind: SecretKind,
)
    requires
        attribute_pairs(source_id, kind) == attribute_pairs(other_id, other_kind),
    ensures
        source_id == other_id,
        kind == other_kind,
{
    let pairs = attribute_pairs(source_id, kind);
    let other = attribute_pairs(other_id, other_kind);
    assert(pairs[1] == other[1]);
    assert(pairs[2] == other[2]);
    reveal_strlit("password");
    reveal_strlit("bearer_token");
    reveal_strlit("oidc_access_token");
    reveal_strlit("oidc_refresh_token");
    reveal_strlit("oidc_client_secret");
    let name = kind_name(kind);
    assert(name.len() == kind_name(other_kind).len());
    assert(name[5] == kind_name(other_kind)[5]);
}

/// What the keyring answers while a secret is being stored.
pub struct StoreWorldView {
    pub connected: Result<(), Seq<char>>,
    pub opened: Result<(), Seq<char>>,
    pub locked: Result<bool, Seq<char>>,
    pub unlocked: Result<(), Seq<char>>,
    pub created: Result<(), Seq<char>>,
}

impl StoreWorldView {
    /// What happens in answer to an action.
    pub open spec fn reply(self, action: StoreActionView) -> StoreEventView {
        match action {
            StoreActionView::Connect => StoreEventView::Connected(self.connected),
            StoreActionView::OpenDefaultCollection => StoreEventView::Opened(self.opened),
            StoreActionView::ReadLock => StoreEventView::LockRead(self.locked),
            StoreActionView::Unlock => StoreEventView::Unlocked(self.unlocked),
            StoreActionView::CreateItem { .. } => StoreEventView::Created(self.created),
            StoreActionView::Done(_) => StoreEventView::Started,
        }
    }
}

/// The actions with which a secret is stored, from an event on, `limit` of them at the most.
pub open spec fn storing(
    world: StoreWorldView,
    source_id: Seq<char>,
    kind: SecretKind,
    secret: Seq<char>,
    event: StoreEventView,
    limit: nat,
) -> Seq<StoreActionView>
    decreases limit,
{
    if limit == 0 {
        Seq::empty()
    } else {
        let action = store_step(source_id, kind, secret, event);
        if action is Done {
            seq![action]
        } else {
            seq![action] + storing(
                world,
                source_id,
                kind,
                secret,
                world.reply(action),
                (limit - 1) as nat,
            )
        }
    }
}

/// What storing a secret gives, by what the keyring answers: the first thing that fails is
/// reported. Unlocking is tried unless the keyring is known to be open.
pub open spec fn store_result(world: StoreWorldView) -> Result<(), Seq<char>> {
    match (world.connected, world.opened, world.unlocked, world.created) {
        (Err(e), _, _, _) => Err("Failed to connect to Secret Service: "@ + e),
        (_, Err(e), _, _) => Err("Failed to get default keyring: "@ + e),
        (_, _, Err(e), _) if world.locked != Ok::<bool, Seq<char>>(false) => Err(
            "Failed to unlock keyring: "@ + e,
        ),
        (_, _, _, Err(e)) => Err("Failed to store secret: "@ + e),
        _ => Ok(()),
    }
}

/// Storing ends after six steps at the most. It succeeds exactly if nothing fails, and then the
/// secret was filed.
pub proof fn storing_ends(
    world: StoreWorldView,
    source_id: Seq<char>,
    kind: SecretKind,
    secret: Seq<char>,
)
    ensures
        ({
            let actions = storing(world, source_id, kind, secret, StoreEventView::Started, 6);
            &&& actions.len() > 0
            &&& actions.last() == StoreActionView::Done(store_result(world))
            &&& store_result(world) is Ok ==> actions.contains(
                create_step(source_id, kind, secret),
            )
        }),
{
    reveal_with_fuel(storing, 7);
    let actions = storing(world, source_id, kind, secret, StoreEventView::Started, 6);
    if store_result(world) is Ok {
        assert(actions[3] == create_step(source_id, kind, secret) || actions[4] == create_step(
            source_id,
            kind,
            secret,
        ));
    }
}

/// What the keyring answers while a secret is being loaded.
pub struct LoadWorldView {
    pub connected: Result<(), Seq<char>>,
    pub found: Result<FoundItems, Seq<char>>,
    pub unlocked: Result<(), Seq<char>>,
    pub read: spec_fn(ItemRef) -> Result<Seq<u8>, Seq<char>>,
}

impl LoadWorldView {
    /// What happens in answer to an action.
    pub open spec fn reply(self, action: LoadActionView) -> LoadEventView {
        match action {
            LoadActionView::Connect => LoadEventView::Connected(self.connected),
            LoadActionView::Search { .. } => LoadEventView::Searched(self.found),
            LoadActionView::Unlock(_) => LoadEventView::Unlocked(self.unlocked),
            LoadActionView::Read(item) => LoadEventView::Read((self.read)(item)),
            LoadActionView::Done(_) => LoadEventView::Started,
        }
    }
}

/// What loading gives from an event on, or `None` where it has not ended after `limit` steps.
pub open spec fn loading(
    world: LoadWorldView,
    source_id: Seq<char>,
    kind: SecretKind,
    event: LoadEventView,
    limit: nat,
) -> Option<Result<Option<Seq<char>>, Seq<char>>>
    decreases limit,
{
    if limit == 0 {
        None
    } else {
        match load_step(source_id, kind, event) {
            LoadActionView::Done(r) => Some(r),
            action => loading(world, source_id, kind, world.reply(action), (limit - 1) as nat),
        }
    }
}

/// What reading an item gives.
pub open spec fn read_result(read: Result<Seq<u8>, Seq<char>>) -> Result<
    Option<Seq<char>>,
    Seq<char>,
> {
    match read {
        Ok(bytes) => decoded_secret(bytes),
        Err(e) => Err("Failed to read secret: "@ + e),
    }
}

/// What loading a secret gives, by what the keyring answers: the first unlocked item, or else the
/// first locked one once it is unlocked, or nothing where none is found; and else the first
/// thing that fails.
pub open spec fn load_result(world: LoadWorldView) -> Result<Option<Seq<char>>, Seq<char>> {
    match (world.connected, world.found) {
        (Err(e), _) => Err("Failed to connect to Secret Service: "@ + e),
        (_, Err(e)) => Err("Failed to search keyring: "@ + e),
        (Ok(_), Ok(found)) => if found.unlocked > 0 {
            read_result((world.read)(ItemRef::Unlocked(0)))
        } else if found.locked == 0 {
            Ok(None)
        } else {
            match world.unlocked {
                Ok(_) => read_result((world.read)(ItemRef::Locked(0))),
                Err(e) => Err("Failed to unlock item: "@ + e),
            }
        },
    }
}

/// Loading ends after five steps at the most, with what the keyring holds or with the first thing
/// that failed.
pub proof fn loading_ends(world: LoadWorldView, source_id: Seq<char>, kind: SecretKind)
    ensures
        loading(world, source_id, kind, LoadEventView::Started, 5) == Some(load_result(world)),
{
    reveal_with_fuel(loading, 6);
}

/// What the keyring answers to an action of a deletion, given what each search finds.
pub open spec fn keyring_reply(
    found: spec_fn(SecretKind) -> Result<FoundItems, Seq<char>>,
    action: DeleteActionView,
) -> DeleteEventView {
    match action {
        DeleteActionView::Connect => DeleteEventView::Connected(Ok(())),
        DeleteActionView::Search { kind, .. } => DeleteEventView::Searched(kind, found(kind)),
        DeleteActionView::Delete { kind, .. } => DeleteEventView::Deleted(kind),
        DeleteActionView::Done(_) => DeleteEventView::Started,
    }
}

/// The actions of a deletion from an event on, `limit` of them at the most.
pub open spec fn deletion(
    source_id: Seq<char>,
    found: spec_fn(SecretKind) -> Result<FoundItems, Seq<char>>,
    event: DeleteEventView,
    limit: nat,
) -> Seq<DeleteActionView>
    decreases limit,
{
    if limit == 0 {
        Seq::empty()
    } else {
        let action = delete_step(source_id, event);
        if action is Done {
            seq![action]
        } else {
            seq![action] + deletion(
                source_id,
                found,
                keyring_reply(found, action),
                (limit - 1) as nat,
            )
        }
    }
}

/// Whether a kind of secret is looked for, and what is found of it is deleted.
pub open spec fn covers(
    actions: Seq<DeleteActionView>,
    source_id: Seq<char>,
    found: spec_fn(SecretKind) -> Result<FoundItems, Seq<char>>,
    kind: SecretKind,
) -> bool {
    &&& actions.contains(
        DeleteActionView::Search { kind, attributes: attribute_pairs(source_id, kind) },
    )
    &&& found(kind) matches Ok(items) ==> actions.contains(
        DeleteActionView::Delete { kind, items: all_items(items) },
    )
}

/// What the end of a list of actions holds, the whole list holds.
proof fn lemma_tail_holds(front: Seq<DeleteActionView>, tail: Seq<DeleteActionView>)
    ensures
        forall|a: DeleteActionView| tail.contains(a) ==> #[trigger] (front + tail).contains(a),
{
    assert forall|a: DeleteActionView| tail.contains(a) implies #[trigger] (front + tail).contains(
        a,
    ) by {
        assert((front + tail)[front.len() + tail.index_of(a)] == a);
    }
}

/// The actions of a deletion from the search for the kind at place `rank` on.
proof fn lemma_deletion_from(
    source_id: Seq<char>,
    found: spec_fn(SecretKind) -> Result<FoundItems, Seq<char>>,
    event: DeleteEventView,
    rank: int,
    limit: nat,
    kind: SecretKind,
)
    requires
        0 <= rank <= 5,
        limit > 2 * (5 - rank),
        delete_step(source_id, event) == search_step(source_id, rank),
    ensures
        ({
            let actions = deletion(source_id, found, event, limit);
            &&& actions.len() > 0
            &&& actions.last() == DeleteActionView::Done(Ok(()))
            &&& deletion_rank(kind) >= rank ==> covers(actions, source_id, found, kind)
        }),
    decreases limit,
{
    let actions = deletion(source_id, found, event, limit);
    let action = delete_step(source_id, event);
    assert(deletion_order().len() == 5);
    if rank < 5 {
        let here = deletion_order()[rank];
        assert(deletion_rank(here) == rank);
        assert(deletion_rank(kind) == rank ==> kind == here);
        let searched = DeleteEventView::Searched(here, found(here));
        assert(keyring_reply(found, action) == searched);
        let rest = deletion(source_id, found, searched, (limit - 1) as nat);
        assert(actions == seq![action] + rest);
        assert(actions[0] == action);
        match found(here) {
            Ok(items) => {
                let erase = DeleteActionView::Delete { kind: here, items: all_items(items) };
                let deleted = DeleteEventView::Deleted(here);
                assert(delete_step(source_id, searched) == erase);
                assert(keyring_reply(found, erase) == deleted);
                let tail = deletion(source_id, found, deleted, (limit - 2) as nat);
                assert(rest == seq![erase] + tail);
                lemma_deletion_from(source_id, found, deleted, rank + 1, (limit - 2) as nat, kind);
                assert(actions =~= seq![action, erase] + tail);
                assert(actions[1] == erase);
                lemma_tail_holds(seq![action, erase], tail);
                assert(actions.last() == tail.last());
            },
            Err(_) => {
                lemma_deletion_from(source_id, found, searched, rank + 1, (limit - 1) as nat, kind);
                lemma_tail_holds(seq![action], rest);
                assert(actions.last() == rest.last());
            },
        }
    }
}

/// A deletion leaves nothing out: it looks for every kind of secret that can be stored, under the
/// attributes that it is stored under, and deletes everything that it finds. A search that fails
/// does not stop it.
pub proof fn deletion_covers_every_secret(
    source_id: Seq<char>,
    found: spec_fn(SecretKind) -> Result<FoundItems, Seq<char>>,
    kind: SecretKind,
)
    ensures
        ({
            let actions = deletion(source_id, found, DeleteEventView::Started, 12);
            &&& actions.len() > 0
            &&& actions.last() == DeleteActionView::Done(Ok(()))
            &&& covers(actions, source_id, found, kind)
        }),
{
    let connected = DeleteEventView::Connected(Ok(()));
    let actions = deletion(source_id, found, DeleteEventView::Started, 12);
    let rest = deletion(source_id, found, connected, 11);
    assert(actions == seq![DeleteActionView::Connect] + rest);
    lemma_deletion_from(source_id, found, connected, 0, 11, kind);
    lemma_tail_holds(seq![DeleteActionView::Connect], rest);
    assert(actions.last() == rest.last());
}

} // verus!
