use vstd::prelude::*;

use crate::config::Config;
use crate::error::RunError;
use crate::request::CopyRequest;
use crate::request::is_copy_request;
use crate::request::plan_batch;
use crate::response::copy_id_of;
use crate::response::parse_copy_response;

verus! {

/// What the sender reports for one copy call: the response body text, or
/// the transport failure's description. Whether the body then has the
/// expected shape is decided here, not by the sender.
pub open spec fn outcome_ok(o: Result<String, String>) -> bool {
    o is Ok && copy_id_of(o->Ok_0@) is Some
}

/// A batch succeeds exactly when every single call came back and every
/// body held the expected shape; one failure anywhere fails the whole
/// batch.
pub open spec fn batch_ok(outcomes: Seq<Result<String, String>>) -> bool {
    forall|i: int| 0 <= i < outcomes.len() ==> outcome_ok(#[trigger] outcomes[i])
}

/// A batch with no outcomes, from an empty course list, succeeds
/// trivially: nothing was asked, nothing could fail, and nothing is
/// printed.
pub proof fn lemma_empty_batch_ok(outcomes: Seq<Result<String, String>>)
    requires
        outcomes.len() == 0,
    ensures
        batch_ok(outcomes),
{
}

/// One failed call — a transport failure or a malformed body — fails the
/// whole batch, wherever in the batch it stands: there is no
/// partial-success mode.
pub proof fn lemma_one_failure_fails_batch(outcomes: Seq<Result<String, String>>, j: int)
    requires
        0 <= j < outcomes.len(),
        !outcome_ok(outcomes[j]),
    ensures
        !batch_ok(outcomes),
{
}

/// The output line for one course and the id of the survey made for it.
pub open spec fn pair_line(course: Seq<char>, id: Seq<char>) -> Seq<char> {
    course + ","@ + id
}

/// Builds one `<course>,<survey id>` output line.
pub fn output_line(course: &str, id: &str) -> (line: String)
    ensures
        line@ == pair_line(course@, id@),
{
    let mut line = course.to_owned();
    line.append(",");
    line.append(id);
    line
}

/// The planned batch: the courses in file order, and one copy request per
/// course, in the same order.
pub struct BatchPlan {
    pub courses: Vec<String>,
    pub requests: Vec<CopyRequest>,
}

/// Turns the course-file read into the batch plan. A read failure fails
/// the run with a `File` error before anything else happens: no request is
/// planned, so no network call can be made. On success there is one
/// duplicate request per course line, in file order.
pub fn plan_run(c: &Config, template: &str, read: Result<Vec<String>, String>) -> (r: Result<
    BatchPlan,
    RunError,
>)
    ensures
        r is Ok <==> read is Ok,
        read is Err ==> r->Err_0 is File && r->Err_0->File_0@ == read->Err_0@,
        r is Ok ==> {
            &&& r->Ok_0.courses == read->Ok_0
            &&& r->Ok_0.requests@.len() == r->Ok_0.courses@.len()
            &&& forall|i: int|
                0 <= i < r->Ok_0.courses@.len() ==> is_copy_request(
                    #[trigger] r->Ok_0.requests@[i],
                    *c,
                    template@,
                    c.user@,
                    r->Ok_0.courses@[i]@,
                )
        },
{
    match read {
        Ok(courses) => {
            let requests = plan_batch(c, template, &courses);
            Ok(BatchPlan { courses, requests })
        },
        Err(reason) => Err(RunError::File(reason)),
    }
}

/// Zips the collected outcomes back against the courses, in input order.
/// Succeeds exactly when the whole batch succeeded, and then yields one
/// `<course>,<survey id>` line per course, in course order. On the first
/// failed outcome — scanning in batch order — the run fails with a
/// `Request` error carrying the transport reason, or a `Decode` error
/// naming the position, and yields no lines at all.
pub fn assemble_output(courses: &Vec<String>, outcomes: &Vec<Result<String, String>>) -> (r:
    Result<Vec<String>, RunError>)
    requires
        outcomes@.len() == courses@.len(),
    ensures
        r is Ok <==> batch_ok(outcomes@),
        r is Ok ==> {
            &&& r->Ok_0@.len() == courses@.len()
            &&& forall|i: int|
                0 <= i < courses@.len() ==> (#[trigger] r->Ok_0@[i])@ == pair_line(
                    courses@[i]@,
                    copy_id_of(outcomes@[i]->Ok_0@)->0,
                )
        },
        r is Err ==> exists|j: int|
            {
                &&& 0 <= j < outcomes@.len()
                &&& !outcome_ok(#[trigger] outcomes@[j])
                &&& (forall|i: int| 0 <= i < j ==> outcome_ok(#[trigger] outcomes@[i]))
                &&& (outcomes@[j] is Err ==> r->Err_0 is Request && r->Err_0->Request_0@
                    == outcomes@[j]->Err_0@)
                &&& (outcomes@[j] is Ok ==> r->Err_0 == RunError::Decode(j as usize))
            },
{
    let mut lines: Vec<String> = Vec::new();
    let mut k: usize = 0;
    while k < outcomes.len()
        invariant
            outcomes@.len() == courses@.len(),
            k <= outcomes@.len(),
            lines@.len() == k,
            forall|i: int| 0 <= i < k ==> outcome_ok(#[trigger] outcomes@[i]),
            forall|i: int|
                0 <= i < k ==> (#[trigger] lines@[i])@ == pair_line(
                    courses@[i]@,
                    copy_id_of(outcomes@[i]->Ok_0@)->0,
                ),
        decreases outcomes@.len() - k,
    {
        match &outcomes[k] {
            Ok(body) => {
                match parse_copy_response(body.as_str(), k) {
                    Ok(id) => {
                        let line = output_line(courses[k].as_str(), id.as_str());
                        lines.push(line);
                    },
                    Err(e) => {
                        assert(!outcome_ok(outcomes@[k as int]));
                        return Err(e);
                    },
                }
            },
            Err(reason) => {
                assert(!outcome_ok(outcomes@[k as int]));
                return Err(RunError::Request(reason.clone()));
            },
        }
        k = k + 1;
    }
    Ok(lines)
}

} // verus!
