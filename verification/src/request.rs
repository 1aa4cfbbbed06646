use vstd::prelude::*;

use crate::config::Config;

verus! {

/// One outbound copy call, laid out field by field: an HTTP POST to `url`
/// with headers `X-API-TOKEN: token`, `X-COPY-SOURCE: source`,
/// `X-COPY-DESTINATION-OWNER: owner`, `Content-Type: application/json`,
/// and `body` as the request body. The sender performs it verbatim.
pub struct CopyRequest {
    pub url: String,
    pub token: String,
    pub source: String,
    pub owner: String,
    pub body: String,
}

/// The JSON body of a copy call asking for a new survey named `name`.
pub open spec fn copy_body_spec(name: Seq<char>) -> Seq<char> {
    "{\"projectName\": \""@ + name + "\"}"@
}

/// Builds the copy-call body `{"projectName": "<name>"}`.
pub fn copy_body(name: &str) -> (body: String)
    ensures
        body@ == copy_body_spec(name@),
{
    let mut body = "{\"projectName\": \"".to_owned();
    body.append(name);
    body.append("\"}");
    body
}

/// What a well-formed copy request looks like: aimed at the configured
/// endpoint, authenticated with the configured token, copying `source`
/// into the ownership of `owner`, naming the copy `name`.
pub open spec fn is_copy_request(
    r: CopyRequest,
    c: Config,
    source: Seq<char>,
    owner: Seq<char>,
    name: Seq<char>,
) -> bool {
    &&& r.url@ == c.endpoint@
    &&& r.token@ == c.token@
    &&& r.source@ == source
    &&& r.owner@ == owner
    &&& r.body@ == copy_body_spec(name)
}

/// Lays out one copy call: duplicate survey `survey_id` into the ownership
/// of `dest_owner`, naming the copy `copy_name`.
pub fn copy_request(c: &Config, survey_id: &str, dest_owner: &str, copy_name: &str) -> (r:
    CopyRequest)
    ensures
        is_copy_request(r, *c, survey_id@, dest_owner@, copy_name@),
{
    CopyRequest {
        url: c.endpoint.clone(),
        token: c.token.clone(),
        source: survey_id.to_owned(),
        owner: dest_owner.to_owned(),
        body: copy_body(copy_name),
    }
}

/// Lays out one duplicate call: a copy call whose destination owner is the
/// configured operator user.
pub fn duplicate_request(c: &Config, survey_id: &str, copy_name: &str) -> (r: CopyRequest)
    ensures
        is_copy_request(r, *c, survey_id@, c.user@, copy_name@),
{
    let owner = c.user.clone();
    copy_request(c, survey_id, owner.as_str(), copy_name)
}

/// Plans the whole batch: one duplicate call per course, in course-list
/// order, each naming its copy after the course verbatim.
pub fn plan_batch(c: &Config, template: &str, courses: &Vec<String>) -> (r: Vec<CopyRequest>)
    ensures
        r@.len() == courses@.len(),
        forall|i: int|
            0 <= i < courses@.len() ==> is_copy_request(
                #[trigger] r@[i],
                *c,
                template@,
                c.user@,
                courses@[i]@,
            ),
{
    let mut requests: Vec<CopyRequest> = Vec::new();
    let mut k: usize = 0;
    while k < courses.len()
        invariant
            k <= courses@.len(),
            requests@.len() == k,
            forall|i: int|
                0 <= i < k ==> is_copy_request(
                    #[trigger] requests@[i],
                    *c,
                    template@,
                    c.user@,
                    courses@[i]@,
                ),
        decreases courses@.len() - k,
    {
        let request = duplicate_request(c, template, courses[k].as_str());
        requests.push(request);
        k = k + 1;
    }
    requests
}

} // verus!
