//! The calendar configuration: sources, their calendars, and sync settings.

use vstd::prelude::*;

verus! {

/// How the cached events are kept on disk.
#[derive(Clone, Copy, Debug, PartialEq, Eq, Structural)]
pub enum EncryptionMode {
    Off,
    Auto,
    Manual,
}

/// How a source proves who it is to its server.
#[derive(Debug, PartialEq, Eq)]
pub enum AuthMethod {
    Anonymous,
    Basic { username: String },
    Bearer,
    Oidc {
        issuer_url: String,
        client_id: String,
        has_token: bool,
        has_client_secret: bool,
        scopes: Vec<String>,
    },
}

/// The model of an [`AuthMethod`].
pub enum AuthMethodView {
    Anonymous,
    Basic { username: Seq<char> },
    Bearer,
    Oidc {
        issuer_url: Seq<char>,
        client_id: Seq<char>,
        has_token: bool,
        has_client_secret: bool,
        scopes: Seq<Seq<char>>,
    },
}

/// One calendar of a CalDAV source.
#[derive(Debug, PartialEq, Eq)]
pub struct CalDavCalendar {
    pub href: String,
    pub display_name: String,
    pub color: String,
    pub enabled: bool,
}

/// The model of a [`CalDavCalendar`].
pub struct CalDavCalendarView {
    pub href: Seq<char>,
    pub display_name: Seq<char>,
    pub color: Seq<char>,
    pub enabled: bool,
}

/// Where the events of a source come from.
#[derive(Debug, PartialEq, Eq)]
pub enum SourceType {
    CalDav { url: String, auth: AuthMethod, calendars: Vec<CalDavCalendar> },
    IcsUrl { url: String, auth: AuthMethod },
    IcsFile { path: String },
}

/// The model of a [`SourceType`].
pub enum SourceTypeView {
    CalDav { url: Seq<char>, auth: AuthMethodView, calendars: Seq<CalDavCalendarView> },
    IcsUrl { url: Seq<char>, auth: AuthMethodView },
    IcsFile { path: Seq<char> },
}

/// A calendar source.
#[derive(Debug, PartialEq, Eq)]
pub struct SourceConfig {
    pub id: String,
    pub name: String,
    pub color: String,
    pub enabled: bool,
    pub ca_cert_path: Option<String>,
    pub source_type: SourceType,
}

/// The model of a [`SourceConfig`].
pub struct SourceConfigView {
    pub id: Seq<char>,
    pub name: Seq<char>,
    pub color: Seq<char>,
    pub enabled: bool,
    pub ca_cert_path: Option<Seq<char>>,
    pub source_type: SourceTypeView,
}

/// Everything that is kept in the settings store.
#[derive(Debug, PartialEq, Eq)]
pub struct CalendarConfig {
    pub sources: Vec<SourceConfig>,
    pub sync_interval_minutes: u64,
    pub upcoming_count: usize,
    pub encryption_mode: EncryptionMode,
}

/// The model of a [`CalendarConfig`].
pub struct CalendarConfigView {
    pub sources: Seq<SourceConfigView>,
    pub sync_interval_minutes: u64,
    pub upcoming_count: usize,
    pub encryption_mode: EncryptionMode,
}

impl DeepView for AuthMethod {
    type V = AuthMethodView;

    open spec fn deep_view(&self) -> AuthMethodView {
        match self {
            AuthMethod::Anonymous => AuthMethodView::Anonymous,
            AuthMethod::Basic { username } => AuthMethodView::Basic { username: username@ },
            AuthMethod::Bearer => AuthMethodView::Bearer,
            AuthMethod::Oidc { issuer_url, client_id, has_token, has_client_secret, scopes } =>
                AuthMethodView::Oidc {
                issuer_url: issuer_url@,
                client_id: client_id@,
                has_token: *has_token,
                has_client_secret: *has_client_secret,
                scopes: scopes.deep_view(),
            },
        }
    }
}

impl DeepView for CalDavCalendar {
    type V = CalDavCalendarView;

    open spec fn deep_view(&self) -> CalDavCalendarView {
        CalDavCalendarView {
            href: self.href@,
            display_name: self.display_name@,
            color: self.color@,
            enabled: self.enabled,
        }
    }
}

impl DeepView for SourceType {
    type V = SourceTypeView;

    open spec fn deep_view(&self) -> SourceTypeView {
        match self {
            SourceType::CalDav { url, auth, calendars } => SourceTypeView::CalDav {
                url: url@,
                auth: auth.deep_view(),
                calendars: calendars.deep_view(),
            },
            SourceType::IcsUrl { url, auth } => SourceTypeView::IcsUrl {
                url: url@,
                auth: auth.deep_view(),
            },
            SourceType::IcsFile { path } => SourceTypeView::IcsFile { path: path@ },
        }
    }
}

impl DeepView for SourceConfig {
    type V = SourceConfigView;

    open spec fn deep_view(&self) -> SourceConfigView {
        SourceConfigView {
            id: self.id@,
            name: self.name@,
            color: self.color@,
            enabled: self.enabled,
            ca_cert_path: self.ca_cert_path.deep_view(),
            source_type: self.source_type.deep_view(),
        }
    }
}

impl DeepView for CalendarConfig {
    type V = CalendarConfigView;

    open spec fn deep_view(&self) -> CalendarConfigView {
        CalendarConfigView {
            sources: self.sources.deep_view(),
            sync_interval_minutes: self.sync_interval_minutes,
            upcoming_count: self.upcoming_count,
            encryption_mode: self.encryption_mode,
        }
    }
}

impl Clone for AuthMethod {
    fn clone(&self) -> (r: Self)
        ensures
            r.deep_view() == self.deep_view(),
    {
        match self {
            AuthMethod::Anonymous => AuthMethod::Anonymous,
            AuthMethod::Basic { username } => AuthMethod::Basic { username: username.clone() },
            AuthMethod::Bearer => AuthMethod::Bearer,
            AuthMethod::Oidc { issuer_url, client_id, has_token, has_client_secret, scopes } => {
                AuthMethod::Oidc {
                    issuer_url: issuer_url.clone(),
                    client_id: client_id.clone(),
                    has_token: *has_token,
                    has_client_secret: *has_client_secret,
                    scopes: clone_texts(scopes),
                }
            },
        }
    }
}

impl Clone for CalDavCalendar {
    fn clone(&self) -> (r: Self)
        ensures
            r.deep_view() == self.deep_view(),
    {
        CalDavCalendar {
            href: self.href.clone(),
            display_name: self.display_name.clone(),
            color: self.color.clone(),
            enabled: self.enabled,
        }
    }
}

impl Clone for SourceType {
    fn clone(&self) -> (r: Self)
        ensures
            r.deep_view() == self.deep_view(),
    {
        match self {
            SourceType::CalDav { url, auth, calendars } => {
                SourceType::CalDav {
                    url: url.clone(),
                    auth: auth.clone(),
                    calendars: clone_calendars(calendars),
                }
            },
            SourceType::IcsUrl { url, auth } => SourceType::IcsUrl {
                url: url.clone(),
                auth: auth.clone(),
            },
            SourceType::IcsFile { path } => SourceType::IcsFile { path: path.clone() },
        }
    }
}

impl Clone for SourceConfig {
    fn clone(&self) -> (r: Self)
        ensures
            r.deep_view() == self.deep_view(),
    {
        SourceConfig {
            id: self.id.clone(),
            name: self.name.clone(),
            color: self.color.clone(),
            enabled: self.enabled,
            ca_cert_path: clone_text(&self.ca_cert_path),
            source_type: self.source_type.clone(),
        }
    }
}

impl Clone for CalendarConfig {
    fn clone(&self) -> (r: Self)
        ensures
            r.deep_view() == self.deep_view(),
    {
        let copied = self.sources.clone();
        assert(copied.deep_view() =~= self.sources.deep_view());
        CalendarConfig {
            sources: copied,
            sync_interval_minutes: self.sync_interval_minutes,
            upcoming_count: self.upcoming_count,
            encryption_mode: self.encryption_mode,
        }
    }
}

/// A copy of an optional text.
pub fn clone_text(t: &Option<String>) -> (r: Option<String>)
    ensures
        r.deep_view() == t.deep_view(),
{
    match t {
        Some(s) => Some(s.clone()),
        None => None,
    }
}

/// A copy of a list of texts.
pub fn clone_texts(t: &Vec<String>) -> (r: Vec<String>)
    ensures
        r.deep_view() == t.deep_view(),
{
    let r = t.clone();
    assert(r.deep_view() =~= t.deep_view());
    r
}

/// A copy of a list of calendars.
pub fn clone_calendars(t: &Vec<CalDavCalendar>) -> (r: Vec<CalDavCalendar>)
    ensures
        r.deep_view() == t.deep_view(),
{
    let r = t.clone();
    assert(r.deep_view() =~= t.deep_view());
    r
}

impl SourceTypeView {
    /// The authentication of the source, if its type has one.
    pub open spec fn auth(self) -> Option<AuthMethodView> {
        match self {
            SourceTypeView::CalDav { auth, .. } => Some(auth),
            SourceTypeView::IcsUrl { auth, .. } => Some(auth),
            SourceTypeView::IcsFile { .. } => None,
        }
    }

    /// Whether the source signs in through OIDC.
    pub open spec fn uses_oidc(self) -> bool {
        self.auth() matches Some(AuthMethodView::Oidc { .. })
    }
}

impl SourceType {
    /// The authentication of the source, if its type has one.
    pub fn auth(&self) -> (r: Option<&AuthMethod>)
        ensures
            r.deep_view() == self.deep_view().auth(),
    {
        match self {
            SourceType::CalDav { auth, .. } => Some(auth),
            SourceType::IcsUrl { auth, .. } => Some(auth),
            SourceType::IcsFile { .. } => None,
        }
    }

    /// Whether the source signs in through OIDC.
    pub fn uses_oidc(&self) -> (r: bool)
        ensures
            r == self.deep_view().uses_oidc(),
    {
        match self.auth() {
            Some(AuthMethod::Oidc { .. }) => true,
            _ => false,
        }
    }
}

/// Whether position `i` holds the first source with this id.
pub open spec fn is_first_source(sources: Seq<SourceConfigView>, id: Seq<char>, i: int) -> bool {
    &&& 0 <= i < sources.len()
    &&& sources[i].id == id
    &&& forall|j: int| 0 <= j < i ==> (#[trigger] sources[j]).id != id
}

/// Whether some source has this id.
pub open spec fn has_source(sources: Seq<SourceConfigView>, id: Seq<char>) -> bool {
    exists|i: int| is_first_source(sources, id, i)
}

/// The position of the first source with this id.
pub open spec fn source_index(sources: Seq<SourceConfigView>, id: Seq<char>) -> int {
    choose|i: int| is_first_source(sources, id, i)
}

/// The first source with this id.
pub open spec fn find_source(sources: Seq<SourceConfigView>, id: Seq<char>) -> Option<
    SourceConfigView,
> {
    if has_source(sources, id) {
        Some(sources[source_index(sources, id)])
    } else {
        None
    }
}

/// The sources, with `replacement` in the place of the first one that has this id.
pub open spec fn replace_source(
    sources: Seq<SourceConfigView>,
    id: Seq<char>,
    replacement: SourceConfigView,
) -> Seq<SourceConfigView> {
    if has_source(sources, id) {
        sources.update(source_index(sources, id), replacement)
    } else {
        sources
    }
}

/// A position that holds the first source with an id is the one that a search for it finds.
pub proof fn lemma_first_source(sources: Seq<SourceConfigView>, id: Seq<char>, i: int)
    requires
        is_first_source(sources, id, i),
    ensures
        has_source(sources, id),
        source_index(sources, id) == i,
{
    let k = source_index(sources, id);
    assert(is_first_source(sources, id, k));
    if k < i {
        assert(sources[k].id != id);
    }
    if i < k {
        assert(sources[i].id != id);
    }
}

/// The position of the first source with this id.
pub fn find_source_index(sources: &Vec<SourceConfig>, id: &String) -> (r: Option<usize>)
    ensures
        match r {
            Some(i) => has_source(sources.deep_view(), id@) && i == source_index(
                sources.deep_view(),
                id@,
            ) && i < sources.len(),
            None => !has_source(sources.deep_view(), id@),
        },
{
    let mut i: usize = 0;
    while i < sources.len()
        invariant
            i <= sources.len(),
            forall|j: int| 0 <= j < i ==> (#[trigger] sources.deep_view()[j]).id != id@,
        decreases sources.len() - i,
    {
        if sources[i].id == *id {
            assert(sources.deep_view()[i as int].id == id@);
            proof {
                lemma_first_source(sources.deep_view(), id@, i as int);
            }
            return Some(i);
        }
        assert(sources.deep_view()[i as int].id != id@);
        i += 1;
    }
    None
}

/// Whether position `i` holds the first calendar with this address.
pub open spec fn is_first_calendar(
    calendars: Seq<CalDavCalendarView>,
    href: Seq<char>,
    i: int,
) -> bool {
    &&& 0 <= i < calendars.len()
    &&& calendars[i].href == href
    &&& forall|j: int| 0 <= j < i ==> (#[trigger] calendars[j]).href != href
}

/// Whether some calendar has this address.
pub open spec fn has_calendar(calendars: Seq<CalDavCalendarView>, href: Seq<char>) -> bool {
    exists|i: int| is_first_calendar(calendars, href, i)
}

/// The position of the first calendar with this address.
pub open spec fn calendar_index(calendars: Seq<CalDavCalendarView>, href: Seq<char>) -> int {
    choose|i: int| is_first_calendar(calendars, href, i)
}

/// A position that holds the first calendar with an address is the one that a search finds.
pub proof fn lemma_first_calendar(calendars: Seq<CalDavCalendarView>, href: Seq<char>, i: int)
    requires
        is_first_calendar(calendars, href, i),
    ensures
        has_calendar(calendars, href),
        calendar_index(calendars, href) == i,
{
    let k = calendar_index(calendars, href);
    assert(is_first_calendar(calendars, href, k));
    if k < i {
        assert(calendars[k].href != href);
    }
    if i < k {
        assert(calendars[i].href != href);
    }
}

/// The position of the first calendar with this address.
pub fn find_calendar_index(calendars: &Vec<CalDavCalendar>, href: &String) -> (r: Option<usize>)
    ensures
        match r {
            Some(i) => has_calendar(calendars.deep_view(), href@) && i == calendar_index(
                calendars.deep_view(),
                href@,
            ) && i < calendars.len(),
            None => !has_calendar(calendars.deep_view(), href@),
        },
{
    let mut i: usize = 0;
    while i < calendars.len()
        invariant
            i <= calendars.len(),
            forall|j: int| 0 <= j < i ==> (#[trigger] calendars.deep_view()[j]).href != href@,
        decreases calendars.len() - i,
    {
        if calendars[i].href == *href {
            assert(calendars.deep_view()[i as int].href == href@);
            proof {
                lemma_first_calendar(calendars.deep_view(), href@, i as int);
            }
            return Some(i);
        }
        assert(calendars.deep_view()[i as int].href != href@);
        i += 1;
    }
    None
}

} // verus!
