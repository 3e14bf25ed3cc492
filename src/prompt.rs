//! The one question asked of the operator: the arguments of the engine build
//! that produces a repository's own image.
use vstd::prelude::*;
use crate::text::{trim, trim_spec};

verus! {

/// The build arguments used when the operator gives none.
pub const DEFAULT_BUILD_ARGS: &'static str = "-f ./Dockerfile ./";

pub const PROMPT_INTRO: &'static str =
    "Fill in the rest of the docker build command to build the image from your repo.\nFor example: `docker build -f ./Dockerfile ./`\n(Or just hit `enter` but make sure to edit `.devcontainer/";

pub const PROMPT_REMINDER: &'static str = "/prebuild` script later)\n\nrepos/";

pub const PROMPT_INVITE: &'static str = "$> docker build ";

/// The question shown before the answer for container `name` over
/// repository `repo` is read; the answer follows on the same line.
pub open spec fn prompt_spec(name: Seq<char>, repo: Seq<char>) -> Seq<char> {
    PROMPT_INTRO@ + name + PROMPT_REMINDER@ + repo + PROMPT_INVITE@
}

/// Renders the question.
pub fn prompt_message(name: &str, repo: &str) -> (r: String)
    ensures
        r@ == prompt_spec(name@, repo@),
{
    let mut s = String::from_str(PROMPT_INTRO);
    s.append(name);
    s.append(PROMPT_REMINDER);
    s.append(repo);
    s.append(PROMPT_INVITE);
    s
}

/// The build arguments an answer stands for: the answer without surrounding
/// white space, or the default when nothing is left.
pub open spec fn build_args_spec(answer: Seq<char>) -> Seq<char> {
    if trim_spec(answer).len() == 0 {
        DEFAULT_BUILD_ARGS@
    } else {
        trim_spec(answer)
    }
}

/// Turns the operator's answer (a line, with or without its line break) into
/// build arguments.
pub fn build_args(answer: &str) -> (r: String)
    ensures
        r@ == build_args_spec(answer@),
{
    let t = trim(answer);
    if t.as_str().unicode_len() == 0 {
        String::from_str(DEFAULT_BUILD_ARGS)
    } else {
        t
    }
}

} // verus!
