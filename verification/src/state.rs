//! Permission states, prompt responses, and the prompt coordination step.

use vstd::prelude::*;

use crate::errors::{custom_error, yield_error, PermError};

verus! {

/// The state of a permission for one query: granted, granted except for a
/// narrower denial inside its scope, to be asked for, denied, or — on
/// hosts whose prompter cannot block — suspended to be redriven later.
#[derive(Clone, Copy, PartialEq, Eq, Structural, Debug)]
pub enum PermissionState {
    Granted,
    GrantedPartial,
    Prompt,
    Denied,
    Yield,
}

/// What the user answered to a permission prompt. `AllowAll` grants the
/// whole capability kind, not just the asked-for descriptor. `Yield` means
/// the host must suspend the call and redrive the identical query later.
#[derive(Clone, Copy, PartialEq, Eq, Structural, Debug)]
pub enum PromptResponse {
    Allow,
    Deny,
    AllowAll,
    Yield,
}

/// The marker prompter implementations prefix interactive questions with.
pub const PERMISSION_EMOJI: &'static str = "\u{26a0}\u{fe0f}";

/// A prompt message longer than this is suspect (an oversized prompt can
/// push the real request out of the reader's view) and should be denied
/// by prompter implementations.
pub const MAX_PERMISSION_PROMPT_LENGTH: usize = 10 * 1024;

/// The interactive collaborator that answers permission prompts. The
/// engine calls it synchronously and trusts nothing about the answer: each
/// caller's contract covers every possible response.
pub trait PermissionPrompter {
    fn prompt(
        &mut self,
        message: &str,
        name: &str,
        api_name: Option<&str>,
        is_unary: bool,
    ) -> PromptResponse;
}

/// How a grant that partially overlaps a flag-denial is reported:
/// ignored (`TreatAsGranted`, for checks of one concrete leaf descriptor),
/// turned into a denial (`TreatAsDenied`, the conservative reading for
/// whole-kind checks), or surfaced as `GrantedPartial` (for queries, so a
/// caller or UI sees the nuance).
#[derive(Clone, Copy, PartialEq, Eq, Structural, Debug)]
pub enum AllowPartial {
    TreatAsGranted,
    TreatAsDenied,
    TreatAsPartialGranted,
}

impl AllowPartial {
    /// The mode a check uses: partial overlaps are ignored for plain
    /// checks and turned into denials for strict ones.
    pub fn from_flag(value: bool) -> (r: AllowPartial)
        ensures
            r == (if value {
                AllowPartial::TreatAsGranted
            } else {
                AllowPartial::TreatAsDenied
            }),
    {
        if value {
            AllowPartial::TreatAsGranted
        } else {
            AllowPartial::TreatAsDenied
        }
    }
}

/// The view of an optional string slice.
pub open spec fn opt_str_view(o: Option<&str>) -> Option<Seq<char>> {
    match o {
        Some(s) => Some(s@),
        None => None,
    }
}

/// The description of an access, as prompts and errors word it:
/// `{name} access` or `{name} access to {info}`.
pub open spec fn access_text(name: Seq<char>, info: Option<Seq<char>>) -> Seq<char> {
    name + " access"@ + (match info {
        Some(t) => " to "@ + t,
        None => Seq::<char>::empty(),
    })
}

/// The message of a denial: it names the capability and the flag that
/// would grant it, and shows only the access description it was given —
/// never anything else about the request.
pub open spec fn denial_message(name: Seq<char>, info: Option<Seq<char>>) -> Seq<char> {
    "Requires "@ + access_text(name, info) + ", run again with the --allow-"@ + name + " flag"@
}

/// What one state-check step may produce, given the state it started
/// from, the capability name and access description the messages show,
/// and the response an interactive prompt gave (`resp` is `None` exactly
/// when no prompt was put to the user). The three result parts are the
/// outcome, whether a prompt occurred, and whether the answer granted the
/// whole kind. Every denial error carries exactly `denial_message`.
pub open spec fn state_check_outcome(
    state: PermissionState,
    prompt: bool,
    name: Seq<char>,
    info: Option<Seq<char>>,
    r: (Result<(), PermError>, bool, bool),
    resp: Option<PromptResponse>,
) -> bool {
    match state {
        PermissionState::Granted => r.0 is Ok && r.1 == false && r.2 == false && resp is None,
        PermissionState::Prompt => if prompt {
            match resp {
                Some(PromptResponse::Allow) => r.0 is Ok && r.1 == true && r.2 == false,
                Some(PromptResponse::AllowAll) => r.0 is Ok && r.1 == true && r.2 == true,
                Some(PromptResponse::Deny) => (r.0 matches Err(e) && e.class@
                    == "PermissionDenied"@ && e.message@ == denial_message(name, info)) && r.1
                    == true && r.2 == false,
                Some(PromptResponse::Yield) => (r.0 matches Err(e) && e.class@ == "Yield"@
                    && e.message@ == "yield."@) && r.1 == false && r.2 == false,
                None => false,
            }
        } else {
            (r.0 matches Err(e) && e.class@ == "PermissionDenied"@ && e.message@
                == denial_message(name, info)) && r.1 == false && r.2 == false && resp is None
        },
        _ => (r.0 matches Err(e) && e.class@ == "PermissionDenied"@ && e.message@
            == denial_message(name, info)) && r.1 == false && r.2 == false && resp is None,
    }
}

/// The description of an access, as prompts and errors word it:
/// `{name} access` or `{name} access to {info}`.
fn fmt_access(name: &str, info: Option<&str>) -> (r: String)
    ensures
        r@ == access_text(name@, opt_str_view(info)),
{
    let mut out = String::new();
    out.append(name);
    out.append(" access");
    match info {
        Some(text) => {
            out.append(" to ");
            out.append(text);
        },
        None => {},
    }
    out
}

/// The error for a denied or deniable access, naming the capability and
/// the flag that would grant it.
fn state_error(name: &str, info: Option<&str>) -> (r: PermError)
    ensures
        r.class@ == "PermissionDenied"@,
        r.message@ == denial_message(name@, opt_str_view(info)),
{
    let mut msg = String::new();
    msg.append("Requires ");
    let access = fmt_access(name, info);
    msg.append(access.as_str());
    msg.append(", run again with the --allow-");
    msg.append(name);
    msg.append(" flag");
    custom_error("PermissionDenied", msg)
}

impl PermissionState {
    /// Checks this state, prompting through `prompter` if the state asks
    /// for it and prompting is enabled. Returns the outcome, whether a
    /// prompt was put to the user, and whether the answer granted the
    /// whole kind.
    pub fn check<TPrompter: PermissionPrompter>(
        self,
        name: &str,
        api_name: Option<&str>,
        info: Option<&str>,
        prompt: bool,
        prompter: &mut TPrompter,
    ) -> (r: (Result<(), PermError>, bool, bool))
        ensures
            exists|resp: Option<PromptResponse>|
                state_check_outcome(self, prompt, name@, opt_str_view(info), r, resp),
    {
        self.check2(name, api_name, info, prompt, prompter)
    }

    /// The checking step itself; `check` is its public face, kept as a
    /// separate name so embedders can wrap either.
    pub fn check2<TPrompter: PermissionPrompter>(
        self,
        name: &str,
        api_name: Option<&str>,
        info: Option<&str>,
        prompt: bool,
        prompter: &mut TPrompter,
    ) -> (r: (Result<(), PermError>, bool, bool))
        ensures
            exists|resp: Option<PromptResponse>|
                state_check_outcome(self, prompt, name@, opt_str_view(info), r, resp),
    {
        match self {
            PermissionState::Granted => {
                let r = (Ok(()), false, false);
                proof {
                    assert(state_check_outcome(
                        self,
                        prompt,
                        name@,
                        opt_str_view(info),
                        r,
                        None::<PromptResponse>,
                    ));
                }
                r
            },
            PermissionState::Prompt if prompt => {
                let msg = fmt_access(name, info);
                let resp = prompter.prompt(msg.as_str(), name, api_name, true);
                let r: (Result<(), PermError>, bool, bool) = match resp {
                    PromptResponse::Allow => (Ok(()), true, false),
                    PromptResponse::AllowAll => (Ok(()), true, true),
                    PromptResponse::Deny => (Err(state_error(name, info)), true, false),
                    PromptResponse::Yield => (
                        Err(yield_error(crate::strings::str_copy("yield."))),
                        false,
                        false,
                    ),
                };
                proof {
                    assert(state_check_outcome(
                        self,
                        prompt,
                        name@,
                        opt_str_view(info),
                        r,
                        Some(resp),
                    ));
                }
                r
            },
            _ => {
                let r = (Err(state_error(name, info)), false, false);
                proof {
                    assert(state_check_outcome(
                        self,
                        prompt,
                        name@,
                        opt_str_view(info),
                        r,
                        None::<PromptResponse>,
                    ));
                }
                r
            },
        }
    }
}

} // verus!
