use vstd::prelude::*;

use crate::errors::RunError;

verus! {

/// How many command-line tokens a correct invocation carries: the program
/// name followed by the key reference and the bucket reference.
pub const EXPECTED_ARGC: usize = 3;

/// The two caller-supplied references a run works on.
#[derive(Clone, Debug, PartialEq, Eq)]
pub struct RunConfig {
    /// Identifies the remote key resource; this program never creates or
    /// owns the key itself.
    pub key_name: String,
    /// Identifies the remote storage container.
    pub bucket_name: String,
}

impl RunConfig {
    /// Builds a configuration directly from the two references.
    pub fn new(key_name: String, bucket_name: String) -> (c: RunConfig)
        ensures
            c.key_name@ == key_name@,
            c.bucket_name@ == bucket_name@,
    {
        RunConfig { key_name, bucket_name }
    }
}

/// Accepts the full argument vector of an invocation and decides whether it
/// is a correct one: exactly two positional arguments after the program
/// name. Any other count is a usage error and no work may start.
pub fn parse_args(args: Vec<String>) -> (r: Result<RunConfig, RunError>)
    ensures
        args@.len() == EXPECTED_ARGC ==> (r matches Ok(c) && c.key_name@ == args@[1]@
            && c.bucket_name@ == args@[2]@),
        args@.len() != EXPECTED_ARGC ==> r == Err::<RunConfig, RunError>(RunError::Usage),
{
    let mut args = args;
    if args.len() != EXPECTED_ARGC {
        return Err(RunError::Usage);
    }
    let bucket_name = args.pop().unwrap();
    let key_name = args.pop().unwrap();
    Ok(RunConfig { key_name, bucket_name })
}

} // verus!
