use survey_dup::batch::assemble_output;
use survey_dup::batch::output_line;
use survey_dup::batch::plan_run;
use survey_dup::cli::parse_args;
use survey_dup::cli::usage_message;
use survey_dup::cli::Invocation;
use survey_dup::config::config_from_env;
use survey_dup::config::Config;
use survey_dup::error::decimal_string;
use survey_dup::error::RunError;
use survey_dup::request::copy_body;
use survey_dup::request::copy_request;
use survey_dup::request::duplicate_request;
use survey_dup::request::plan_batch;
use survey_dup::response::parse_copy_response;

fn cfg() -> Config {
    Config {
        endpoint: String::from("http://localhost:8080/surveys"),
        token: String::from("SECRET-REDACTED"),
        user: String::from("UR_123"),
    }
}

fn ok_body(id: &str) -> Result<String, String> {
    Ok(format!("{{\"result\":{{\"id\":\"{}\"}}}}", id))
}

#[test]
fn usage_on_wrong_argument_count() {
    let zero = vec![String::from("survey_dup")];
    assert!(matches!(parse_args(zero), Invocation::Usage));

    let one = vec![String::from("survey_dup"), String::from("SV_ABC")];
    assert!(matches!(parse_args(one), Invocation::Usage));

    let three = vec![
        String::from("survey_dup"),
        String::from("SV_ABC"),
        String::from("courses.txt"),
        String::from("extra"),
    ];
    assert!(matches!(parse_args(three), Invocation::Usage));
}

#[test]
fn run_on_two_positional_arguments() {
    let args = vec![
        String::from("survey_dup"),
        String::from("SV_ABC"),
        String::from("courses.txt"),
    ];
    match parse_args(args) {
        Invocation::Run { template, course_file } => {
            assert_eq!(template, "SV_ABC");
            assert_eq!(course_file, "courses.txt");
        },
        Invocation::Usage => panic!("two positional arguments must start a run"),
    }
}

#[test]
fn usage_line_text() {
    assert_eq!(
        usage_message("survey_dup"),
        "usage: survey_dup <template survey id> <course csv>"
    );
}

#[test]
fn missing_token_is_configuration_error() {
    let r = config_from_env(
        Some(String::from("http://localhost:8080/surveys")),
        None,
        Some(String::from("UR_123")),
    );
    assert_eq!(
        r,
        Err(RunError::Configuration(String::from("QUALTRICS_TOKEN")))
    );
}

#[test]
fn missing_endpoint_and_missing_user() {
    let r = config_from_env(None, None, None);
    assert_eq!(
        r,
        Err(RunError::Configuration(String::from("QUALTRICS_ENDPOINT")))
    );

    let r = config_from_env(
        Some(String::from("http://localhost:8080/surveys")),
        Some(String::from("SECRET-REDACTED")),
        None,
    );
    assert_eq!(
        r,
        Err(RunError::Configuration(String::from("QUALTRICS_USER_ID")))
    );
}

#[test]
fn full_environment_builds_config() {
    let r = config_from_env(
        Some(String::from("http://localhost:8080/surveys")),
        Some(String::from("SECRET-REDACTED")),
        Some(String::from("UR_123")),
    );
    let c = r.expect("all three variables are present");
    assert_eq!(c.endpoint, "http://localhost:8080/surveys");
    assert_eq!(c.token, "SECRET-REDACTED");
    assert_eq!(c.user, "UR_123");
}

#[test]
fn copy_body_exact() {
    assert_eq!(copy_body("CS101"), "{\"projectName\": \"CS101\"}");
    assert_eq!(copy_body(""), "{\"projectName\": \"\"}");
}

#[test]
fn duplicate_request_fields() {
    let c = cfg();
    let r = duplicate_request(&c, "SV_ABC", "CS101");
    assert_eq!(r.url, "http://localhost:8080/surveys");
    assert_eq!(r.token, "SECRET-REDACTED");
    assert_eq!(r.source, "SV_ABC");
    assert_eq!(r.owner, "UR_123");
    assert_eq!(r.body, "{\"projectName\": \"CS101\"}");
}

#[test]
fn copy_request_takes_explicit_owner() {
    let c = cfg();
    let r = copy_request(&c, "SV_ABC", "UR_OTHER", "CS101");
    assert_eq!(r.owner, "UR_OTHER");
    assert_eq!(r.source, "SV_ABC");
}

#[test]
fn plan_batch_one_request_per_course_in_order() {
    let c = cfg();
    let courses = vec![String::from("CS101"), String::from("CS102")];
    let requests = plan_batch(&c, "SV_ABC", &courses);
    assert_eq!(requests.len(), 2);
    assert_eq!(requests[0].body, "{\"projectName\": \"CS101\"}");
    assert_eq!(requests[1].body, "{\"projectName\": \"CS102\"}");
    assert_eq!(requests[0].source, "SV_ABC");
    assert_eq!(requests[1].source, "SV_ABC");
    assert_eq!(requests[0].owner, "UR_123");
}

#[test]
fn parse_copy_response_extracts_id() {
    let r = parse_copy_response("{\"result\":{\"id\":\"SV_1\"}}", 0);
    assert_eq!(r, Ok(String::from("SV_1")));

    let padded = parse_copy_response(
        " { \"meta\": {\"httpStatus\": \"200 - OK\"}, \"result\": { \"id\": \"SV_2\" } } ",
        5,
    );
    assert_eq!(padded, Ok(String::from("SV_2")));
}

#[test]
fn parse_copy_response_rejects_malformed() {
    let missing_id = parse_copy_response("{\"result\":{\"name\":\"x\"}}", 3);
    assert_eq!(missing_id, Err(RunError::Decode(3)));

    let not_json = parse_copy_response("no json here", 0);
    assert_eq!(not_json, Err(RunError::Decode(0)));

    let id_not_string = parse_copy_response("{\"result\":{\"id\":7}}", 1);
    assert_eq!(id_not_string, Err(RunError::Decode(1)));

    let no_result = parse_copy_response("{\"id\":\"SV_1\"}", 2);
    assert_eq!(no_result, Err(RunError::Decode(2)));
}

#[test]
fn output_line_exact() {
    assert_eq!(output_line("CS101", "SV_1"), "CS101,SV_1");
}

#[test]
fn assemble_output_success_in_input_order() {
    let courses = vec![String::from("CS101"), String::from("CS102")];
    let outcomes = vec![ok_body("SV_1"), ok_body("SV_2")];
    let lines = assemble_output(&courses, &outcomes).expect("every response is well-formed");
    assert_eq!(lines, vec![String::from("CS101,SV_1"), String::from("CS102,SV_2")]);
}

#[test]
fn empty_course_list_succeeds_and_prints_nothing() {
    let c = cfg();
    let plan = plan_run(&c, "SV_ABC", Ok(Vec::new())).expect("an empty read is a success");
    assert_eq!(plan.courses.len(), 0);
    assert_eq!(plan.requests.len(), 0);

    let lines = assemble_output(&plan.courses, &Vec::new()).expect("an empty batch succeeds");
    assert_eq!(lines.len(), 0);
}

#[test]
fn single_malformed_response_fails_whole_batch() {
    let courses = vec![String::from("CS101"), String::from("CS102"), String::from("CS103")];
    let outcomes = vec![ok_body("SV_1"), Ok(String::from("{\"result\":{}}")), ok_body("SV_3")];
    let r = assemble_output(&courses, &outcomes);
    assert_eq!(r, Err(RunError::Decode(1)));
}

#[test]
fn transport_failure_fails_whole_batch() {
    let courses = vec![String::from("CS101"), String::from("CS102")];
    let outcomes = vec![ok_body("SV_1"), Err(String::from("connection refused"))];
    let r = assemble_output(&courses, &outcomes);
    assert_eq!(r, Err(RunError::Request(String::from("connection refused"))));
}

#[test]
fn file_error_fails_before_any_request_is_planned() {
    let c = cfg();
    let r = plan_run(&c, "SV_ABC", Err(String::from("no such file")));
    match r {
        Err(RunError::File(reason)) => assert_eq!(reason, "no such file"),
        _ => panic!("an unreadable course file must fail the run with a file error"),
    }
}

#[test]
fn error_descriptions_name_the_step() {
    assert_eq!(
        RunError::Configuration(String::from("QUALTRICS_TOKEN")).describe(),
        "configuration error: missing environment variable QUALTRICS_TOKEN"
    );
    assert_eq!(
        RunError::File(String::from("no such file")).describe(),
        "file error: no such file"
    );
    assert_eq!(
        RunError::Request(String::from("connection refused")).describe(),
        "request error: connection refused"
    );
    assert_eq!(
        RunError::Decode(12).describe(),
        "decode error: malformed response for request 12"
    );
}

#[test]
fn decimal_string_exact() {
    assert_eq!(decimal_string(0), "0");
    assert_eq!(decimal_string(7), "7");
    assert_eq!(decimal_string(10), "10");
    assert_eq!(decimal_string(409), "409");
    assert_eq!(decimal_string(18446744073709551615), "18446744073709551615");
}

#[test]
fn stub_scenario_two_courses() {
    let args = vec![
        String::from("survey_dup"),
        String::from("SV_ABC"),
        String::from("courses.txt"),
    ];
    let (template, _course_file) = match parse_args(args) {
        Invocation::Run { template, course_file } => (template, course_file),
        Invocation::Usage => panic!("two positional arguments must start a run"),
    };

    let c = config_from_env(
        Some(String::from("http://localhost:8080/surveys")),
        Some(String::from("SECRET-REDACTED")),
        Some(String::from("UR_123")),
    )
    .expect("the stub environment is complete");

    let read = Ok(vec![String::from("CS101"), String::from("CS102")]);
    let plan = plan_run(&c, template.as_str(), read).expect("the course file is readable");
    assert_eq!(plan.requests.len(), 2);
    assert_eq!(plan.requests[0].body, "{\"projectName\": \"CS101\"}");

    // The stub server answers each copy request with an id derived from the
    // requested project name.
    let outcomes = vec![ok_body("SV_6f2c"), ok_body("SV_9a1d")];
    let lines = assemble_output(&plan.courses, &outcomes).expect("the stub answers are well-formed");
    assert_eq!(lines, vec![String::from("CS101,SV_6f2c"), String::from("CS102,SV_9a1d")]);
}
