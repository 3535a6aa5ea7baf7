//! Tool arguments, their validation against a tool's declared fields, and the
//! one example tool.
use vstd::prelude::*;

verus! {

/// An untyped argument value, as it arrives in a `tools/call` request.
pub enum ArgValue {
    Null,
    Bool(bool),
    Int(i64),
    Str(String),
}

/// One named argument of a `tools/call` request.
pub struct Argument {
    pub key: String,
    pub value: ArgValue,
}

/// Why an argument list does not conform to a tool's declared fields; each
/// variant names the field concerned.
pub enum ParamError {
    Missing(String),
    Duplicate(String),
    NotAString(String),
}

impl ParamError {
    pub open spec fn field(&self) -> Seq<char> {
        match self {
            ParamError::Missing(f) => f@,
            ParamError::Duplicate(f) => f@,
            ParamError::NotAString(f) => f@,
        }
    }
}

/// Number of arguments among the first `n` whose key is `k`.
pub open spec fn count_key(args: Seq<Argument>, k: Seq<char>, n: int) -> nat
    decreases n,
{
    if n <= 0 {
        0
    } else {
        count_key(args, k, n - 1) + if args[n - 1].key@ == k { 1nat } else { 0nat }
    }
}

/// Value of the last argument among the first `n` whose key is `k`.
pub open spec fn last_value(args: Seq<Argument>, k: Seq<char>, n: int) -> Option<ArgValue>
    decreases n,
{
    if n <= 0 {
        None
    } else if args[n - 1].key@ == k {
        Some(args[n - 1].value)
    } else {
        last_value(args, k, n - 1)
    }
}

/// The string given for field `k`: present when exactly one argument has key
/// `k` and its value is a string.
pub open spec fn field_str(args: Seq<Argument>, k: Seq<char>) -> Option<Seq<char>> {
    if count_key(args, k, args.len() as int) == 1 {
        match last_value(args, k, args.len() as int) {
            Some(ArgValue::Str(s)) => Some(s@),
            _ => None,
        }
    } else {
        None
    }
}

/// Reads the string field `name` out of `args`. Fails with `Missing` when no
/// argument has that key, `Duplicate` when several have it, and `NotAString`
/// when the one argument with that key is not a string.
pub fn string_field(args: &Vec<Argument>, name: &String) -> (r: Result<String, ParamError>)
    ensures
        r is Ok <==> field_str(args@, name@) is Some,
        r matches Ok(s) ==> field_str(args@, name@) == Some(s@),
        r matches Err(e) ==> e.field() == name@,
        r matches Err(ParamError::Missing(_)) <==> count_key(args@, name@, args@.len() as int) == 0,
        r matches Err(ParamError::Duplicate(_)) <==> count_key(args@, name@, args@.len() as int) > 1,
{
    let mut count: usize = 0;
    let mut found: usize = 0;
    let mut i: usize = 0;
    while i < args.len()
        invariant
            0 <= i <= args.len(),
            count <= i,
            count == count_key(args@, name@, i as int),
            count > 0 ==> found < i && args@[found as int].key@ == name@
                && last_value(args@, name@, i as int) == Some(args@[found as int].value),
        decreases args.len() - i,
    {
        if args[i].key == *name {
            count = count + 1;
            found = i;
        }
        i = i + 1;
    }
    if count == 0 {
        Err(ParamError::Missing(name.clone()))
    } else if count > 1 {
        Err(ParamError::Duplicate(name.clone()))
    } else {
        match &args[found].value {
            ArgValue::Str(s) => Ok(s.clone()),
            _ => Err(ParamError::NotAString(name.clone())),
        }
    }
}

/// Name of the one field of `get_test_message`.
pub open spec fn test_param_field() -> Seq<char> {
    "test_param"@
}

/// Parameters of the `get_test_message` tool.
pub struct TestMessageParams {
    pub test_param: String,
}

impl TestMessageParams {
    /// Typed parameters from untyped arguments: exactly one `test_param`,
    /// holding a string.
    pub fn from_arguments(args: &Vec<Argument>) -> (r: Result<TestMessageParams, ParamError>)
        ensures
            r is Ok <==> field_str(args@, test_param_field()) is Some,
            r matches Ok(p) ==> field_str(args@, test_param_field()) == Some(p.test_param@),
            r matches Err(e) ==> e.field() == test_param_field(),
            r matches Err(ParamError::Missing(_)) <==> count_key(
                args@,
                test_param_field(),
                args@.len() as int,
            ) == 0,
            r matches Err(ParamError::Duplicate(_)) <==> count_key(
                args@,
                test_param_field(),
                args@.len() as int,
            ) > 1,
    {
        let name = String::from_str("test_param");
        match string_field(args, &name) {
            Ok(s) => Ok(TestMessageParams { test_param: s }),
            Err(e) => Err(e),
        }
    }
}

/// One item of a tool's result; only text content is produced.
pub struct Content {
    pub text: String,
}

/// What a tool returns, sent back verbatim in the success envelope.
pub struct CallToolResult {
    pub content: Vec<Content>,
    pub is_error: bool,
}

/// The text that `get_test_message` returns for `param`.
pub open spec fn test_message_text(param: Seq<char>) -> Seq<char> {
    "Hello World! Value of test_param is: "@ + param
}

/// The `get_test_message` tool: one text item greeting with the parameter.
pub fn get_test_message(params: &TestMessageParams) -> (r: CallToolResult)
    ensures
        !r.is_error,
        r.content@.len() == 1,
        r.content@[0].text@ == test_message_text(params.test_param@),
{
    let mut text = String::from_str("Hello World! Value of test_param is: ");
    text.append(params.test_param.as_str());
    let mut content: Vec<Content> = Vec::new();
    content.push(Content { text });
    CallToolResult { content, is_error: false }
}

} // verus!
