use vstd::prelude::*;

verus! {

/// The exit code that a finished command reports: its own code where the
/// platform gives one, else 0 for success and 1 for failure.
pub open spec fn exit_code_spec(code: Option<i32>, success: bool) -> i32 {
    match code {
        Some(c) => c,
        None => if success {
            0
        } else {
            1
        },
    }
}

/// The exit code of a finished command, from the code the platform gave, if
/// any, and whether it succeeded.
pub fn exit_code_of(code: Option<i32>, success: bool) -> (r: i32)
    ensures
        r == exit_code_spec(code, success),
{
    match code {
        Some(c) => c,
        None => if success {
            0
        } else {
            1
        },
    }
}

/// The exit code of a stage of commands from the codes of those that ran:
/// 1 if the last one failed, 0 otherwise. A stage stops at its first failure.
pub fn stage_exit_code(codes: &Vec<i32>) -> (r: i32)
    ensures
        r == (if codes@.len() > 0 && codes@.last() != 0 {
            1i32
        } else {
            0i32
        }),
{
    if codes.len() > 0 && codes[codes.len() - 1] != 0 {
        1
    } else {
        0
    }
}

} // verus!
