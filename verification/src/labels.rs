//! Texts that the page shows.

use vstd::prelude::*;

verus! {

/// A text that the page shows in the user's language.
#[derive(Debug, Clone, Copy, PartialEq, Eq, Structural)]
pub enum Label {
    Sources,
    NoSources,
    AddSource,
    EditSource,
    TypeCalDav,
    TypeIcsUrl,
    TypeIcsFile,
    SourceName,
    SourceType,
    SourceUrl,
    SourcePath,
    SourceColor,
    NameRequired,
    FileNotFound,
    UrlInvalid,
    Auth,
    AuthNone,
    AuthBasic,
    AuthBearer,
    AuthOidc,
    Username,
    Password,
    Token,
    OidcIssuer,
    OidcClientId,
    OidcClientSecret,
    OidcClientSecretHint,
    OidcScopes,
    OidcCallbackUrl,
    OidcCallbackPattern,
    OidcLogin,
    OidcLoginFirst,
    AuthExpiredReauth,
    CaCert,
    Browse,
    Save,
    Cancel,
    Discover,
    Discovering,
    DiscoverError,
    SyncSettings,
    SyncInterval,
    UpcomingCount,
    EncryptionMode,
    EncryptionNone,
    EncryptionAuto,
    EncryptionManual,
}

/// The message id under which a label is translated.
pub open spec fn label_key(label: Label) -> Seq<char> {
    match label {
        Label::Sources => "calendar-sources"@,
        Label::NoSources => "calendar-no-sources"@,
        Label::AddSource => "calendar-add-source"@,
        Label::EditSource => "calendar-edit-source"@,
        Label::TypeCalDav => "calendar-source-type-caldav"@,
        Label::TypeIcsUrl => "calendar-source-type-ics-url"@,
        Label::TypeIcsFile => "calendar-source-type-ics-file"@,
        Label::SourceName => "calendar-source-name"@,
        Label::SourceType => "calendar-source-type"@,
        Label::SourceUrl => "calendar-source-url"@,
        Label::SourcePath => "calendar-source-path"@,
        Label::SourceColor => "calendar-source-color"@,
        Label::NameRequired => "calendar-validation-name-required"@,
        Label::FileNotFound => "calendar-validation-file-not-found"@,
        Label::UrlInvalid => "calendar-validation-url-invalid"@,
        Label::Auth => "calendar-source-auth"@,
        Label::AuthNone => "calendar-source-auth-none"@,
        Label::AuthBasic => "calendar-source-auth-basic"@,
        Label::AuthBearer => "calendar-source-auth-bearer"@,
        Label::AuthOidc => "calendar-source-auth-oidc"@,
        Label::Username => "calendar-source-username"@,
        Label::Password => "calendar-source-password"@,
        Label::Token => "calendar-source-token"@,
        Label::OidcIssuer => "calendar-source-oidc-issuer"@,
        Label::OidcClientId => "calendar-source-oidc-client-id"@,
        Label::OidcClientSecret => "calendar-source-oidc-client-secret"@,
        Label::OidcClientSecretHint => "calendar-source-oidc-client-secret-hint"@,
        Label::OidcScopes => "calendar-source-oidc-scopes"@,
        Label::OidcCallbackUrl => "calendar-source-oidc-callback-url"@,
        Label::OidcCallbackPattern => "calendar-source-oidc-callback-pattern"@,
        Label::OidcLogin => "calendar-source-oidc-login"@,
        Label::OidcLoginFirst => "calendar-form-oidc-login-first"@,
        Label::AuthExpiredReauth => "calendar-auth-expired-reauth"@,
        Label::CaCert => "calendar-source-ca-cert"@,
        Label::Browse => "calendar-browse"@,
        Label::Save => "calendar-save"@,
        Label::Cancel => "calendar-cancel"@,
        Label::Discover => "calendar-discover"@,
        Label::Discovering => "calendar-discovering"@,
        Label::DiscoverError => "calendar-discover-error"@,
        Label::SyncSettings => "calendar-sync-settings"@,
        Label::SyncInterval => "calendar-sync-interval"@,
        Label::UpcomingCount => "calendar-upcoming-count"@,
        Label::EncryptionMode => "calendar-encryption-mode"@,
        Label::EncryptionNone => "calendar-encryption-none"@,
        Label::EncryptionAuto => "calendar-encryption-auto"@,
        Label::EncryptionManual => "calendar-encryption-manual"@,
    }
}

impl Label {
    /// The message id under which the label is translated.
    pub fn key(self) -> (r: &'static str)
        ensures
            r@ == label_key(self),
    {
        match self {
            Label::Sources => "calendar-sources",
            Label::NoSources => "calendar-no-sources",
            Label::AddSource => "calendar-add-source",
            Label::EditSource => "calendar-edit-source",
            Label::TypeCalDav => "calendar-source-type-caldav",
            Label::TypeIcsUrl => "calendar-source-type-ics-url",
            Label::TypeIcsFile => "calendar-source-type-ics-file",
            Label::SourceName => "calendar-source-name",
            Label::SourceType => "calendar-source-type",
            Label::SourceUrl => "calendar-source-url",
            Label::SourcePath => "calendar-source-path",
            Label::SourceColor => "calendar-source-color",
            Label::NameRequired => "calendar-validation-name-required",
            Label::FileNotFound => "calendar-validation-file-not-found",
            Label::UrlInvalid => "calendar-validation-url-invalid",
            Label::Auth => "calendar-source-auth",
            Label::AuthNone => "calendar-source-auth-none",
            Label::AuthBasic => "calendar-source-auth-basic",
            Label::AuthBearer => "calendar-source-auth-bearer",
            Label::AuthOidc => "calendar-source-auth-oidc",
            Label::Username => "calendar-source-username",
            Label::Password => "calendar-source-password",
            Label::Token => "calendar-source-token",
            Label::OidcIssuer => "calendar-source-oidc-issuer",
            Label::OidcClientId => "calendar-source-oidc-client-id",
            Label::OidcClientSecret => "calendar-source-oidc-client-secret",
            Label::OidcClientSecretHint => "calendar-source-oidc-client-secret-hint",
            Label::OidcScopes => "calendar-source-oidc-scopes",
            Label::OidcCallbackUrl => "calendar-source-oidc-callback-url",
            Label::OidcCallbackPattern => "calendar-source-oidc-callback-pattern",
            Label::OidcLogin => "calendar-source-oidc-login",
            Label::OidcLoginFirst => "calendar-form-oidc-login-first",
            Label::AuthExpiredReauth => "calendar-auth-expired-reauth",
            Label::CaCert => "calendar-source-ca-cert",
            Label::Browse => "calendar-browse",
            Label::Save => "calendar-save",
            Label::Cancel => "calendar-cancel",
            Label::Discover => "calendar-discover",
            Label::Discovering => "calendar-discovering",
            Label::DiscoverError => "calendar-discover-error",
            Label::SyncSettings => "calendar-sync-settings",
            Label::SyncInterval => "calendar-sync-interval",
            Label::UpcomingCount => "calendar-upcoming-count",
            Label::EncryptionMode => "calendar-encryption-mode",
            Label::EncryptionNone => "calendar-encryption-none",
            Label::EncryptionAuto => "calendar-encryption-auto",
            Label::EncryptionManual => "calendar-encryption-manual",
        }
    }
}

/// A text that the page shows: one of its own, or one from elsewhere.
#[derive(Debug, PartialEq, Eq)]
pub enum Text {
    Label(Label),
    Plain(String),
}

/// The model of a [`Text`].
pub enum TextView {
    Label(Label),
    Plain(Seq<char>),
}

impl DeepView for Text {
    type V = TextView;

    open spec fn deep_view(&self) -> TextView {
        match self {
            Text::Label(label) => TextView::Label(*label),
            Text::Plain(s) => TextView::Plain(s@),
        }
    }
}

impl Clone for Text {
    fn clone(&self) -> (r: Self)
        ensures
            r.deep_view() == self.deep_view(),
    {
        match self {
            Text::Label(label) => Text::Label(*label),
            Text::Plain(s) => Text::Plain(s.clone()),
        }
    }
}

} // verus!
