//! Authorising the Google Sheets integration.
use vstd::prelude::*;
use vstd::string::StringExecFns;

verus! {

/// Where to send a user to authorise access to their sheets.
pub struct GoogleSheetsRedirectURI {
    pub redirect_uri: String,
}

/// The code Google returns once a user has authorised access.
pub struct GoogleSheetsAuthorization {
    pub code: String,
}

/// The OAuth settings the authorisation URL is built from.
pub struct OAuthConfig {
    pub auth_url: String,
    pub client_id: String,
    pub auth_redirect_url: String,
    pub sheets_scope: String,
    pub drive_scope: String,
}

/// The authorisation URL: the OAuth endpoint with the client, the redirect
/// address, a code response, both scopes, forced consent, offline access and
/// the caller's state.
pub open spec fn redirect_uri_text(oauth: OAuthConfig, state: Seq<char>) -> Seq<char> {
    oauth.auth_url@ + "?client_id="@ + oauth.client_id@ + "&redirect_uri="@ + oauth.auth_redirect_url@
        + "&response_type=code&scope="@ + oauth.sheets_scope@ + "+"@ + oauth.drive_scope@
        + "&prompt=consent&access_type=offline&state="@ + state
}

/// Builds the URL that starts the authorisation of a Google Sheets integration.
pub fn google_sheets_redirect_uri(oauth: &OAuthConfig, state: &str) -> (r: GoogleSheetsRedirectURI)
    ensures
        r.redirect_uri@ == redirect_uri_text(*oauth, state@),
{
    let mut uri = oauth.auth_url.clone();
    uri.append("?client_id=");
    uri.append(oauth.client_id.as_str());
    uri.append("&redirect_uri=");
    uri.append(oauth.auth_redirect_url.as_str());
    uri.append("&response_type=code&scope=");
    uri.append(oauth.sheets_scope.as_str());
    uri.append("+");
    uri.append(oauth.drive_scope.as_str());
    uri.append("&prompt=consent&access_type=offline&state=");
    uri.append(state);
    GoogleSheetsRedirectURI { redirect_uri: uri }
}

} // verus!
