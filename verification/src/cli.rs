use vstd::prelude::*;

verus! {

/// What the command line asks for. The program takes exactly two positional
/// arguments, the template survey id and the course file path; any other
/// count is answered with the usage line and a clean exit, whatever the
/// state of the environment.
pub enum Invocation {
    Run { template: String, course_file: String },
    Usage,
}

/// Reads the argument vector as handed to the process: `args[0]` is the
/// program name, so a run needs exactly three entries.
pub fn parse_args(args: Vec<String>) -> (r: Invocation)
    ensures
        r is Run <==> args@.len() == 3,
        r is Run ==> r->Run_template@ == args@[1]@ && r->Run_course_file@ == args@[2]@,
{
    if args.len() == 3 {
        let mut args = args;
        let course_file = args.pop().unwrap();
        let template = args.pop().unwrap();
        Invocation::Run { template, course_file }
    } else {
        Invocation::Usage
    }
}

/// The usage line printed for a wrong argument count, with the program's
/// own name filled in.
pub open spec fn usage_spec(program: Seq<char>) -> Seq<char> {
    "usage: "@ + program + " <template survey id> <course csv>"@
}

/// The usage line for a program invoked as `program`.
pub fn usage_message(program: &str) -> (msg: String)
    ensures
        msg@ == usage_spec(program@),
{
    let mut msg = "usage: ".to_owned();
    msg.append(program);
    msg.append(" <template survey id> <course csv>");
    msg
}

} // verus!
