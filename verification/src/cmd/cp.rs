//! Copying a spec under a new name.

use vstd::prelude::*;
use crate::cli::CpArgs;

verus! {

/// What to do first when a spec is copied.
#[derive(Debug, PartialEq)]
pub enum Step {
    /// Put this question, and copy only on a yes.
    Ask { question: String },
    /// Copy.
    Copy,
}

/// The question before a spec is overwritten.
pub open spec fn overwrite_question(dest: Seq<char>) -> Seq<char> {
    dest + " exists, do you want to overwrite it?"@
}

/// The first step of a copy: the copy itself replaces the destination
/// without asking, so the question whether to overwrite is put here, where
/// the destination exists and the user has not answered it beforehand.
pub fn cp(args: &CpArgs, dest_exists: bool) -> (step: Step)
    ensures
        dest_exists && !args.skip_prompt ==> (step matches Step::Ask { question } && question@ == overwrite_question(
            args.dest@,
        )),
        !(dest_exists && !args.skip_prompt) ==> step == Step::Copy,
{
    if dest_exists && !args.skip_prompt {
        let mut question = args.dest.clone();
        question.append(" exists, do you want to overwrite it?");
        Step::Ask { question }
    } else {
        Step::Copy
    }
}

} // verus!
