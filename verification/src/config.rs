//! Endpoint configuration and the URLs derived from it.

use vstd::prelude::*;
use vstd::string::*;

verus! {

/// The four endpoint and credential strings that every component needs.
#[derive(Clone, Debug, PartialEq, Eq)]
pub struct ExportConfig {
    pub oauth_handler_base: String,
    pub app_function_base: String,
    pub client_id: String,
    pub redirect_uri: String,
}

/// Mathematical value of an [`ExportConfig`].
pub struct ExportConfigView {
    pub oauth_handler_base: Seq<char>,
    pub app_function_base: Seq<char>,
    pub client_id: Seq<char>,
    pub redirect_uri: Seq<char>,
}

impl View for ExportConfig {
    type V = ExportConfigView;

    open spec fn view(&self) -> ExportConfigView {
        ExportConfigView {
            oauth_handler_base: self.oauth_handler_base@,
            app_function_base: self.app_function_base@,
            client_id: self.client_id@,
            redirect_uri: self.redirect_uri@,
        }
    }
}

/// Address the browser is sent to in order to obtain an authorization code.
pub open spec fn authorize_url_of(c: ExportConfigView) -> Seq<char> {
    "https://api.getjobber.com/api/oauth/authorize?response_type=code&client_id="@
        + c.client_id + "&redirect_uri="@ + c.redirect_uri + "&state="@
}

/// Address of the call that redeems the authorization code.
pub open spec fn token_exchange_url_of(c: ExportConfigView, code: Seq<char>) -> Seq<char> {
    c.oauth_handler_base + "/?code="@ + code + "&client_id="@ + c.client_id
        + "&redirect_uri="@ + c.redirect_uri + "&state="@
}

/// Address of the call that fetches the report for a date range.
pub open spec fn report_url_of(
    c: ExportConfigView,
    code: Seq<char>,
    before: Seq<char>,
    after: Seq<char>,
) -> Seq<char> {
    c.app_function_base + "?code="@ + code + "&before="@ + before + "&after="@ + after
}

impl ExportConfig {
    /// Builds a configuration from its four parts.
    pub fn new(
        oauth_handler_base: String,
        app_function_base: String,
        client_id: String,
        redirect_uri: String,
    ) -> (c: ExportConfig)
        ensures
            c@.oauth_handler_base == oauth_handler_base@,
            c@.app_function_base == app_function_base@,
            c@.client_id == client_id@,
            c@.redirect_uri == redirect_uri@,
    {
        ExportConfig { oauth_handler_base, app_function_base, client_id, redirect_uri }
    }

    /// Builds a configuration from parts that may be absent. All four are
    /// required: the result is `None` as soon as one is missing.
    pub fn from_parts(
        oauth_handler_base: Option<String>,
        app_function_base: Option<String>,
        client_id: Option<String>,
        redirect_uri: Option<String>,
    ) -> (r: Option<ExportConfig>)
        ensures
            r is Some <==> (oauth_handler_base is Some && app_function_base is Some
                && client_id is Some && redirect_uri is Some),
            r matches Some(c) ==> {
                &&& c@.oauth_handler_base == oauth_handler_base->0@
                &&& c@.app_function_base == app_function_base->0@
                &&& c@.client_id == client_id->0@
                &&& c@.redirect_uri == redirect_uri->0@
            },
    {
        match (oauth_handler_base, app_function_base, client_id, redirect_uri) {
            (Some(a), Some(b), Some(c), Some(d)) => Some(ExportConfig::new(a, b, c, d)),
            _ => None,
        }
    }

    /// The authorization address for this configuration.
    pub fn authorize_url(&self) -> (url: String)
        ensures
            url@ == authorize_url_of(self@),
    {
        let mut url = String::from_str(
            "https://api.getjobber.com/api/oauth/authorize?response_type=code&client_id=",
        );
        url.append(self.client_id.as_str());
        url.append("&redirect_uri=");
        url.append(self.redirect_uri.as_str());
        url.append("&state=");
        url
    }

    /// The token exchange address for `code`.
    pub fn token_exchange_url(&self, code: &str) -> (url: String)
        ensures
            url@ == token_exchange_url_of(self@, code@),
    {
        let mut url = self.oauth_handler_base.clone();
        url.append("/?code=");
        url.append(code);
        url.append("&client_id=");
        url.append(self.client_id.as_str());
        url.append("&redirect_uri=");
        url.append(self.redirect_uri.as_str());
        url.append("&state=");
        url
    }

    /// The report address for `code` and the two dates.
    pub fn report_url(&self, code: &str, before: &str, after: &str) -> (url: String)
        ensures
            url@ == report_url_of(self@, code@, before@, after@),
    {
        let mut url = self.app_function_base.clone();
        url.append("?code=");
        url.append(code);
        url.append("&before=");
        url.append(before);
        url.append("&after=");
        url.append(after);
        url
    }
}

} // verus!
