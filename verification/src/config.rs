use vstd::prelude::*;

use crate::error::RunError;

verus! {

/// The configuration a run needs, read once at startup: the base endpoint
/// URL of the survey platform, the API bearer token, and the platform user
/// id that will own every duplicated survey.
#[derive(Debug, PartialEq, Eq)]
pub struct Config {
    pub endpoint: String,
    pub token: String,
    pub user: String,
}

/// Builds the configuration from the three required environment values,
/// each `None` where the variable is unset. All three are required: the
/// first absent one, checked in the order endpoint, token, user, fails the
/// run with a `Configuration` error naming the variable, before any other
/// work is done.
pub fn config_from_env(
    endpoint: Option<String>,
    token: Option<String>,
    user: Option<String>,
) -> (r: Result<Config, RunError>)
    ensures
        r is Ok <==> (endpoint is Some && token is Some && user is Some),
        r is Ok ==> {
            &&& r->Ok_0.endpoint@ == endpoint->0@
            &&& r->Ok_0.token@ == token->0@
            &&& r->Ok_0.user@ == user->0@
        },
        endpoint is None ==> (r->Err_0 is Configuration && r->Err_0->Configuration_0@
            == "QUALTRICS_ENDPOINT"@),
        endpoint is Some && token is None ==> (r->Err_0 is Configuration
            && r->Err_0->Configuration_0@ == "QUALTRICS_TOKEN"@),
        endpoint is Some && token is Some && user is None ==> (r->Err_0 is Configuration
            && r->Err_0->Configuration_0@ == "QUALTRICS_USER_ID"@),
{
    let endpoint = match endpoint {
        Some(endpoint) => endpoint,
        None => {
            return Err(RunError::Configuration("QUALTRICS_ENDPOINT".to_owned()));
        },
    };
    let token = match token {
        Some(token) => token,
        None => {
            return Err(RunError::Configuration("QUALTRICS_TOKEN".to_owned()));
        },
    };
    let user = match user {
        Some(user) => user,
        None => {
            return Err(RunError::Configuration("QUALTRICS_USER_ID".to_owned()));
        },
    };
    Ok(Config { endpoint, token, user })
}

} // verus!
