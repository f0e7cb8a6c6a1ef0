//! The state of the page, and the form in which a source is added or edited.

use vstd::hash_set::StringHashSet;
use vstd::prelude::*;

use crate::config;
use crate::config::{AuthMethod, CalDavCalendar, CalendarConfig, SourceConfig, SourceType};
use crate::labels;
use crate::labels::Text;
use crate::text;

verus! {

/// The color that a source has before the user chooses one.
pub const DEFAULT_COLOR: &'static str = "#1a73e8";

/// The scopes that the form proposes.
pub const DEFAULT_SCOPES: &'static str = "openid, profile, email, offline_access";

/// The state of the page.
pub struct Page {
    pub calendar_config: CalendarConfig,
    // Form in which a source is added or edited
    pub editing: bool,
    pub editing_source_id: Option<String>,
    pub form_name: String,
    pub form_url: String,
    pub form_source_type: usize,
    pub form_auth_method: usize,
    pub form_username: String,
    pub form_password: String,
    pub form_token: String,
    pub form_color: String,
    pub form_oidc_issuer: String,
    pub form_oidc_client_id: String,
    pub form_oidc_client_secret: String,
    pub form_oidc_scopes: String,
    pub form_ca_cert_path: String,
    // Discovery while a source is being added
    pub form_discovered_calendars: Vec<CalDavCalendar>,
    pub form_discovering: bool,
    pub form_discovery_error: Option<Text>,
    pub form_source_id: String,
    pub form_oidc_logged_in: bool,
    pub form_editing_cal_color: Option<usize>,
    pub form_cal_color_input: String,
    // Discovery for saved sources
    pub discovering_source: Option<String>,
    pub discovery_error: Option<Text>,
    /// The sources for which a token refresh was already tried.
    pub refresh_attempted: StringHashSet,
    /// The source id and the address of the calendar whose color is being edited.
    pub editing_calendar_color: Option<(String, String)>,
    pub calendar_color_input: String,
}

/// The model of a [`Page`].
pub struct PageView {
    pub calendar_config: config::CalendarConfigView,
    pub editing: bool,
    pub editing_source_id: Option<Seq<char>>,
    pub form_name: Seq<char>,
    pub form_url: Seq<char>,
    pub form_source_type: usize,
    pub form_auth_method: usize,
    pub form_username: Seq<char>,
    pub form_password: Seq<char>,
    pub form_token: Seq<char>,
    pub form_color: Seq<char>,
    pub form_oidc_issuer: Seq<char>,
    pub form_oidc_client_id: Seq<char>,
    pub form_oidc_client_secret: Seq<char>,
    pub form_oidc_scopes: Seq<char>,
    pub form_ca_cert_path: Seq<char>,
    pub form_discovered_calendars: Seq<config::CalDavCalendarView>,
    pub form_discovering: bool,
    pub form_discovery_error: Option<labels::TextView>,
    pub form_source_id: Seq<char>,
    pub form_oidc_logged_in: bool,
    pub form_editing_cal_color: Option<usize>,
    pub form_cal_color_input: Seq<char>,
    pub discovering_source: Option<Seq<char>>,
    pub discovery_error: Option<labels::TextView>,
    pub refresh_attempted: Set<Seq<char>>,
    pub editing_calendar_color: Option<(Seq<char>, Seq<char>)>,
    pub calendar_color_input: Seq<char>,
}

impl View for Page {
    type V = PageView;

    open spec fn view(&self) -> PageView {
        PageView {
            calendar_config: self.calendar_config.deep_view(),
            editing: self.editing,
            editing_source_id: self.editing_source_id.deep_view(),
            form_name: self.form_name@,
            form_url: self.form_url@,
            form_source_type: self.form_source_type,
            form_auth_method: self.form_auth_method,
            form_username: self.form_username@,
            form_password: self.form_password@,
            form_token: self.form_token@,
            form_color: self.form_color@,
            form_oidc_issuer: self.form_oidc_issuer@,
            form_oidc_client_id: self.form_oidc_client_id@,
            form_oidc_client_secret: self.form_oidc_client_secret@,
            form_oidc_scopes: self.form_oidc_scopes@,
            form_ca_cert_path: self.form_ca_cert_path@,
            form_discovered_calendars: self.form_discovered_calendars.deep_view(),
            form_discovering: self.form_discovering,
            form_discovery_error: self.form_discovery_error.deep_view(),
            form_source_id: self.form_source_id@,
            form_oidc_logged_in: self.form_oidc_logged_in,
            form_editing_cal_color: self.form_editing_cal_color,
            form_cal_color_input: self.form_cal_color_input@,
            discovering_source: self.discovering_source.deep_view(),
            discovery_error: self.discovery_error.deep_view(),
            refresh_attempted: self.refresh_attempted@,
            editing_calendar_color: self.editing_calendar_color.deep_view(),
            calendar_color_input: self.calendar_color_input@,
        }
    }
}

/// The id under which secrets are stored while a source is being added.
pub open spec fn form_id(now_nanos: u128) -> Seq<char> {
    "form-"@ + text::decimal(now_nanos as nat)
}

/// The id under which secrets are stored while a source is being added, by the time at which the
/// form was opened.
fn new_form_id(now_nanos: u128) -> (r: String)
    ensures
        r@ == form_id(now_nanos),
{
    "form-".to_owned().concat(text::decimal_text(now_nanos).as_str())
}

/// The scopes that a list in one line names: what stands between the commas, trimmed, without
/// what is empty.
pub open spec fn scope_list(line: Seq<char>) -> Seq<Seq<char>> {
    text::split_on(line, ',').map_values(|s: Seq<char>| text::trimmed(s)).filter(
        |s: Seq<char>| s.len() > 0,
    )
}

/// The scopes that a list in one line names.
pub fn parse_scopes(line: &str) -> (r: Vec<String>)
    ensures
        r.deep_view() == scope_list(line@),
{
    let pieces = text::split(line, ',');
    let ghost all = text::split_on(line@, ',').map_values(|s: Seq<char>| text::trimmed(s));
    let ghost kept = |s: Seq<char>| s.len() > 0;
    let mut r: Vec<String> = Vec::new();
    let mut i: usize = 0;
    proof {
        reveal(Seq::filter);
        assert(all.take(0) =~= Seq::empty());
        assert(r.deep_view() =~= all.take(0).filter(kept));
    }
    while i < pieces.len()
        invariant
            i <= pieces.len(),
            pieces.deep_view() == text::split_on(line@, ','),
            all == text::split_on(line@, ',').map_values(|s: Seq<char>| text::trimmed(s)),
            kept == (|s: Seq<char>| s.len() > 0),
            r.deep_view() == all.take(i as int).filter(kept),
        decreases pieces.len() - i,
    {
        let scope = text::trim(pieces[i].as_str());
        let ghost before = r.deep_view();
        proof {
            reveal(Seq::filter);
            assert(pieces.deep_view()[i as int] == pieces@[i as int]@);
            assert(all[i as int] == scope@);
            assert(all.take(i + 1).drop_last() =~= all.take(i as int));
        }
        if !scope.is_empty() {
            r.push(scope.to_owned());
            assert(r.deep_view() =~= before.push(scope@));
        }
        i += 1;
    }
    assert(all.take(all.len() as int) =~= all);
    r
}

/// Whether a text is an address or a path that a source of this type can have.
pub open spec fn url_valid(source_type: usize, url: Seq<char>, path_exists: bool) -> bool {
    if source_type == 0 || source_type == 1 {
        "http://"@.is_prefix_of(text::trimmed(url)) || "https://"@.is_prefix_of(text::trimmed(url))
    } else if source_type == 2 {
        !text::is_blank(url) && path_exists
    } else {
        !text::is_blank(url)
    }
}

impl PageView {
    /// The page with an empty form that is closed.
    pub open spec fn reset(self, now_nanos: u128) -> PageView {
        PageView {
            editing: false,
            editing_source_id: None,
            form_name: Seq::empty(),
            form_url: Seq::empty(),
            form_source_type: 0,
            form_auth_method: 0,
            form_username: Seq::empty(),
            form_password: Seq::empty(),
            form_token: Seq::empty(),
            form_color: DEFAULT_COLOR@,
            form_oidc_issuer: Seq::empty(),
            form_oidc_client_id: Seq::empty(),
            form_oidc_client_secret: Seq::empty(),
            form_oidc_scopes: DEFAULT_SCOPES@,
            form_ca_cert_path: Seq::empty(),
            form_discovered_calendars: Seq::empty(),
            form_discovering: false,
            form_discovery_error: None,
            form_source_id: form_id(now_nanos),
            form_oidc_logged_in: false,
            form_editing_cal_color: None,
            form_cal_color_input: Seq::empty(),
            ..self
        }
    }

    /// The page with this authentication in its form.
    pub open spec fn auth_filled(self, auth: config::AuthMethodView) -> PageView {
        match auth {
            config::AuthMethodView::Anonymous => PageView { form_auth_method: 0, ..self },
            config::AuthMethodView::Basic { username } => PageView {
                form_auth_method: 1,
                form_username: username,
                form_password: Seq::empty(),
                ..self
            },
            config::AuthMethodView::Bearer => PageView {
                form_auth_method: 2,
                form_token: Seq::empty(),
                ..self
            },
            config::AuthMethodView::Oidc { issuer_url, client_id, scopes, .. } => PageView {
                form_auth_method: 3,
                form_oidc_issuer: issuer_url,
                form_oidc_client_id: client_id,
                form_oidc_client_secret: Seq::empty(),
                form_oidc_scopes: text::joined(scopes, ", "@),
                ..self
            },
        }
    }

    /// The page with this source in its form. Secrets are never filled in.
    pub open spec fn filled(self, source: config::SourceConfigView) -> PageView {
        let common = PageView {
            form_name: source.name,
            form_color: source.color,
            form_ca_cert_path: match source.ca_cert_path {
                Some(path) => path,
                None => Seq::empty(),
            },
            ..self
        };
        match source.source_type {
            config::SourceTypeView::CalDav { url, auth, .. } => PageView {
                form_source_type: 0,
                form_url: url,
                ..common
            }.auth_filled(auth),
            config::SourceTypeView::IcsUrl { url, auth } => PageView {
                form_source_type: 1,
                form_url: url,
                ..common
            }.auth_filled(auth),
            config::SourceTypeView::IcsFile { path } => PageView {
                form_source_type: 2,
                form_url: path,
                form_auth_method: 0,
                ..common
            },
        }
    }

    /// Whether the form can be saved, given whether the path in it names something that exists.
    pub open spec fn form_valid(self, path_exists: bool) -> bool {
        !text::is_blank(self.form_name) && url_valid(
            self.form_source_type,
            self.form_url,
            path_exists,
        )
    }

    /// The path in the form, for which the caller finds out whether it exists.
    pub open spec fn path_to_check(self) -> Seq<char> {
        text::trimmed(self.form_url)
    }

    /// The certificate path in the form, if there is one.
    pub open spec fn form_ca(self) -> Option<Seq<char>> {
        if text::is_blank(self.form_ca_cert_path) {
            None
        } else {
            Some(self.form_ca_cert_path)
        }
    }

    /// The OIDC settings in the form.
    pub open spec fn form_oidc(self, has_token: bool) -> config::AuthMethodView {
        config::AuthMethodView::Oidc {
            issuer_url: self.form_oidc_issuer,
            client_id: self.form_oidc_client_id,
            has_token,
            has_client_secret: self.form_oidc_client_secret.len() > 0,
            scopes: scope_list(self.form_oidc_scopes),
        }
    }

    /// The authentication in the form.
    pub open spec fn form_auth(self, has_token: bool) -> config::AuthMethodView {
        if self.form_auth_method == 1 {
            config::AuthMethodView::Basic { username: self.form_username }
        } else if self.form_auth_method == 2 {
            config::AuthMethodView::Bearer
        } else if self.form_auth_method == 3 {
            self.form_oidc(has_token)
        } else {
            config::AuthMethodView::Anonymous
        }
    }

    /// The page with the configuration from the settings store, if it could be read.
    pub open spec fn entered(self, stored_config: Option<config::CalendarConfigView>) -> PageView {
        PageView {
            calendar_config: match stored_config {
                Some(stored) => stored,
                None => self.calendar_config,
            },
            ..self
        }
    }

    /// The page with these sources.
    pub open spec fn with_sources(self, sources: Seq<config::SourceConfigView>) -> PageView {
        PageView {
            calendar_config: config::CalendarConfigView { sources, ..self.calendar_config },
            ..self
        }
    }
}

/// A page on this configuration, with an empty form that is closed.
pub open spec fn first_view(
    calendar_config: config::CalendarConfigView,
    now_nanos: u128,
) -> PageView {
    PageView {
        calendar_config,
        editing: false,
        editing_source_id: None,
        form_name: Seq::empty(),
        form_url: Seq::empty(),
        form_source_type: 0,
        form_auth_method: 0,
        form_username: Seq::empty(),
        form_password: Seq::empty(),
        form_token: Seq::empty(),
        form_color: DEFAULT_COLOR@,
        form_oidc_issuer: Seq::empty(),
        form_oidc_client_id: Seq::empty(),
        form_oidc_client_secret: Seq::empty(),
        form_oidc_scopes: DEFAULT_SCOPES@,
        form_ca_cert_path: Seq::empty(),
        form_discovered_calendars: Seq::empty(),
        form_discovering: false,
        form_discovery_error: None,
        form_source_id: form_id(now_nanos),
        form_oidc_logged_in: false,
        form_editing_cal_color: None,
        form_cal_color_input: Seq::empty(),
        discovering_source: None,
        discovery_error: None,
        refresh_attempted: Set::empty(),
        editing_calendar_color: None,
        calendar_color_input: Seq::empty(),
    }
}

impl Page {
    /// A page on this configuration, with an empty form that is closed.
    pub fn default(calendar_config: CalendarConfig, now_nanos: u128) -> (r: Page)
        ensures
            r@ == first_view(calendar_config.deep_view(), now_nanos),
    {
        let r = Page {
            calendar_config,
            editing: false,
            editing_source_id: None,
            form_name: String::new(),
            form_url: String::new(),
            form_source_type: 0,
            form_auth_method: 0,
            form_username: String::new(),
            form_password: String::new(),
            form_token: String::new(),
            form_color: DEFAULT_COLOR.to_owned(),
            form_oidc_issuer: String::new(),
            form_oidc_client_id: String::new(),
            form_oidc_client_secret: String::new(),
            form_oidc_scopes: DEFAULT_SCOPES.to_owned(),
            form_ca_cert_path: String::new(),
            form_discovered_calendars: Vec::new(),
            form_discovering: false,
            form_discovery_error: None,
            form_source_id: new_form_id(now_nanos),
            form_oidc_logged_in: false,
            form_editing_cal_color: None,
            form_cal_color_input: String::new(),
            discovering_source: None,
            discovery_error: None,
            refresh_attempted: StringHashSet::new(),
            editing_calendar_color: None,
            calendar_color_input: String::new(),
        };
        assert(r.form_discovered_calendars.deep_view() =~= Seq::empty());
        r
    }

    /// Takes the configuration from the settings store, if it could be read.
    pub fn on_enter(&mut self, stored_config: Option<CalendarConfig>)
        ensures
            final(self)@ == old(self)@.entered(stored_config.deep_view()),
            final(self)@ == (PageView {
                calendar_config: match stored_config.deep_view() {
                    Some(stored) => stored,
                    None => old(self)@.calendar_config,
                },
                ..old(self)@
            }),
    {
        if let Some(stored) = stored_config {
            self.calendar_config = stored;
        }
    }

    /// Closes the form and empties it.
    pub fn reset_form(&mut self, now_nanos: u128)
        ensures
            final(self)@ == old(self)@.reset(now_nanos),
    {
        self.editing = false;
        self.editing_source_id = None;
        self.form_name = String::new();
        self.form_url = String::new();
        self.form_source_type = 0;
        self.form_auth_method = 0;
        self.form_username = String::new();
        self.form_password = String::new();
        self.form_token = String::new();
        self.form_color = DEFAULT_COLOR.to_owned();
        self.form_oidc_issuer = String::new();
        self.form_oidc_client_id = String::new();
        self.form_oidc_client_secret = String::new();
        self.form_oidc_scopes = DEFAULT_SCOPES.to_owned();
        self.form_ca_cert_path = String::new();
        self.form_discovered_calendars = Vec::new();
        self.form_discovering = false;
        self.form_discovery_error = None;
        self.form_source_id = new_form_id(now_nanos);
        self.form_oidc_logged_in = false;
        self.form_editing_cal_color = None;
        self.form_cal_color_input = String::new();
        assert(self.form_discovered_calendars.deep_view() =~= Seq::empty());
    }

    /// Fills the form with an authentication, without its secrets.
    pub fn fill_auth_form(&mut self, auth: &AuthMethod)
        ensures
            final(self)@ == old(self)@.auth_filled(auth.deep_view()),
    {
        match auth {
            AuthMethod::Anonymous => {
                self.form_auth_method = 0;
            },
            AuthMethod::Basic { username } => {
                self.form_auth_method = 1;
                self.form_username = username.clone();
                self.form_password = String::new();
            },
            AuthMethod::Bearer => {
                self.form_auth_method = 2;
                self.form_token = String::new();
            },
            AuthMethod::Oidc { issuer_url, client_id, scopes, .. } => {
                self.form_auth_method = 3;
                self.form_oidc_issuer = issuer_url.clone();
                self.form_oidc_client_id = client_id.clone();
                self.form_oidc_client_secret = String::new();
                self.form_oidc_scopes = text::join(scopes, ", ");
            },
        }
    }

    /// Fills the form with a source, without its secrets.
    pub fn fill_form_from_source(&mut self, source: &SourceConfig)
        ensures
            final(self)@ == old(self)@.filled(source.deep_view()),
    {
        self.form_name = source.name.clone();
        self.form_color = source.color.clone();
        self.form_ca_cert_path = match &source.ca_cert_path {
            Some(path) => path.clone(),
            None => String::new(),
        };
        match &source.source_type {
            SourceType::CalDav { url, auth, .. } => {
                self.form_source_type = 0;
                self.form_url = url.clone();
                self.fill_auth_form(auth);
            },
            SourceType::IcsUrl { url, auth } => {
                self.form_source_type = 1;
                self.form_url = url.clone();
                self.fill_auth_form(auth);
            },
            SourceType::IcsFile { path } => {
                self.form_source_type = 2;
                self.form_url = path.clone();
                self.form_auth_method = 0;
            },
        }
    }

    /// The path in the form, for which the caller finds out whether it exists.
    pub fn form_path(&self) -> (r: &str)
        ensures
            r@ == text::trimmed(self@.form_url),
            r@ == self@.path_to_check(),
    {
        text::trim(self.form_url.as_str())
    }

    /// Whether the form can be saved, given whether the path in it names something that exists.
    pub fn form_valid(&self, path_exists: bool) -> (r: bool)
        ensures
            r == self@.form_valid(path_exists),
    {
        let name_valid = !text::blank(self.form_name.as_str());
        name_valid && form_url_valid(self.form_source_type, self.form_url.as_str(), path_exists)
    }

    /// The certificate path in the form, if there is one.
    pub fn form_ca(&self) -> (r: Option<String>)
        ensures
            r.deep_view() == self@.form_ca(),
    {
        if text::blank(self.form_ca_cert_path.as_str()) {
            None
        } else {
            Some(self.form_ca_cert_path.clone())
        }
    }

    /// The OIDC settings in the form.
    pub fn form_oidc(&self, has_token: bool) -> (r: AuthMethod)
        ensures
            r.deep_view() == self@.form_oidc(has_token),
    {
        AuthMethod::Oidc {
            issuer_url: self.form_oidc_issuer.clone(),
            client_id: self.form_oidc_client_id.clone(),
            has_token,
            has_client_secret: !self.form_oidc_client_secret.as_str().is_empty(),
            scopes: parse_scopes(self.form_oidc_scopes.as_str()),
        }
    }

    /// The authentication in the form.
    pub fn form_auth(&self, has_token: bool) -> (r: AuthMethod)
        ensures
            r.deep_view() == self@.form_auth(has_token),
    {
        match self.form_auth_method {
            1 => AuthMethod::Basic { username: self.form_username.clone() },
            2 => AuthMethod::Bearer,
            3 => self.form_oidc(has_token),
            _ => AuthMethod::Anonymous,
        }
    }
}

/// Whether a text is an address or a path that a source of this type can have.
pub fn form_url_valid(source_type: usize, url: &str, path_exists: bool) -> (r: bool)
    ensures
        r == url_valid(source_type, url@, path_exists),
{
    match source_type {
        0 | 1 => {
            let u = text::trim(url);
            text::starts_with(u, "http://") || text::starts_with(u, "https://")
        },
        2 => !text::blank(url) && path_exists,
        _ => !text::blank(url),
    }
}

} // verus!
