//! The all-or-nothing permission: a single four-state machine used for
//! umbrella capabilities such as "all permissions". Denial is sticky:
//! `revoke` only downgrades a grant back to promptable, never un-denies.

use vstd::prelude::*;

use crate::errors::{escalation_error, PermError};
use crate::state::{
    state_check_outcome, PermissionPrompter, PermissionState, PromptResponse,
};

verus! {

/// A single boolean-ish capability: its name and description (for
/// prompts), its state, and whether prompting is permitted.
#[derive(Debug, PartialEq, Eq)]
pub struct UnitPermission {
    pub name: &'static str,
    pub description: &'static str,
    pub state: PermissionState,
    pub prompt: bool,
}

/// What a child scope may be given of a unit permission.
#[derive(Debug, PartialEq, Eq, Clone, Copy)]
pub enum ChildUnitPermissionArg {
    Inherit,
    Granted,
    NotGranted,
}

/// Everything but the state is unchanged.
pub open spec fn unit_frame(pre: UnitPermission, post: UnitPermission) -> bool {
    &&& post.name == pre.name
    &&& post.description == pre.description
    &&& post.prompt == pre.prompt
}

/// The transition of one unit request: only a promptable state asks the
/// user; `Allow` grants, `Yield` suspends, and any other answer denies.
pub open spec fn unit_request_post(
    pre: UnitPermission,
    post: UnitPermission,
    r: PermissionState,
    resp: Option<PromptResponse>,
) -> bool {
    &&& unit_frame(pre, post)
    &&& if pre.state == PermissionState::Prompt {
        match resp {
            Some(PromptResponse::Allow) => post.state == PermissionState::Granted,
            Some(PromptResponse::Yield) => post.state == PermissionState::Yield,
            Some(_) => post.state == PermissionState::Denied,
            None => false,
        }
    } else {
        post.state == pre.state && resp is None
    }
    &&& r == post.state
}

/// The transition of one unit check: the outcome follows the state and
/// the prompt response (if any), and a prompted answer is memoized.
pub open spec fn unit_check_post(
    pre: UnitPermission,
    post: UnitPermission,
    r: Result<(), PermError>,
    resp: Option<PromptResponse>,
    prompted: bool,
) -> bool {
    &&& unit_frame(pre, post)
    &&& exists|allow_all: bool|
        state_check_outcome(pre.state, pre.prompt, pre.name@, None, (r, prompted, allow_all), resp)
    &&& if prompted {
        if r is Ok {
            post.state == PermissionState::Granted
        } else {
            post.state == PermissionState::Denied
        }
    } else {
        post == pre
    }
}

impl UnitPermission {
    /// The current state.
    pub fn query(&self) -> (r: PermissionState)
        ensures
            r == self.state,
    {
        self.state
    }

    /// Asks for the permission now, if the state is promptable, and
    /// records the answer.
    pub fn request<TPrompter: PermissionPrompter>(&mut self, prompter: &mut TPrompter) -> (r:
        PermissionState)
        ensures
            exists|resp: Option<PromptResponse>|
                #[trigger] unit_request_post(*old(self), *final(self), r, resp),
    {
        if self.state == PermissionState::Prompt {
            let mut msg = String::new();
            msg.append("access to ");
            msg.append(self.description);
            let resp = prompter.prompt(msg.as_str(), self.name, Some("Deno.permissions.query()"), false);
            match resp {
                PromptResponse::Allow => {
                    self.state = PermissionState::Granted;
                },
                PromptResponse::Yield => {
                    self.state = PermissionState::Yield;
                },
                _ => {
                    self.state = PermissionState::Denied;
                },
            }
            proof {
                assert(unit_request_post(*old(self), *final(self), final(self).state, Some(resp)));
            }
        } else {
            proof {
                assert(unit_request_post(
                    *old(self),
                    *final(self),
                    final(self).state,
                    None::<PromptResponse>,
                ));
            }
        }
        self.state
    }

    /// Downgrades a grant back to promptable; a denial stays.
    pub fn revoke(&mut self) -> (r: PermissionState)
        ensures
            unit_frame(*old(self), *final(self)),
            final(self).state == (if old(self).state == PermissionState::Granted {
                PermissionState::Prompt
            } else {
                old(self).state
            }),
            r == final(self).state,
    {
        if self.state == PermissionState::Granted {
            self.state = PermissionState::Prompt;
        }
        self.state
    }

    /// Checks the permission, prompting if the state asks for it and
    /// prompting is enabled, and records a prompted answer.
    pub fn check<TPrompter: PermissionPrompter>(&mut self, prompter: &mut TPrompter) -> (r: Result<
        (),
        PermError,
    >)
        ensures
            exists|resp: Option<PromptResponse>, prompted: bool|
                #[trigger] unit_check_post(*old(self), *final(self), r, resp, prompted),
    {
        let (result, prompted, allow_all) = self.state.check(
            self.name,
            None,
            None,
            self.prompt,
            prompter,
        );
        let ghost resp = choose|resp: Option<PromptResponse>|
            state_check_outcome(
                old(self).state,
                old(self).prompt,
                old(self).name@,
                None,
                (result, prompted, allow_all),
                resp,
            );
        if prompted {
            if result.is_ok() {
                self.state = PermissionState::Granted;
            } else {
                self.state = PermissionState::Denied;
            }
        }
        proof {
            assert(unit_check_post(*old(self), *final(self), result, resp, prompted));
        }
        result
    }

    /// Derives the permission for a narrower scope: inherit copies the
    /// state; a granted child needs this (parent) permission to pass a
    /// check, else the derivation fails with an escalation error; and a
    /// parent already denied forces the child to denied whatever was
    /// asked.
    pub fn create_child_permissions<TPrompter: PermissionPrompter>(
        &mut self,
        flag: ChildUnitPermissionArg,
        prompter: &mut TPrompter,
    ) -> (r: Result<UnitPermission, PermError>)
        ensures
            flag is Inherit || flag is NotGranted ==> *final(self) == *old(self),
            !old(self).prompt && old(self).state != PermissionState::Prompt ==> *final(self)
                == *old(self),
            match r {
                Ok(child) => unit_frame(*final(self), child) && child.state == (
                if final(self).state == PermissionState::Denied {
                    PermissionState::Denied
                } else {
                    match flag {
                        ChildUnitPermissionArg::Inherit => final(self).state,
                        ChildUnitPermissionArg::Granted => PermissionState::Granted,
                        ChildUnitPermissionArg::NotGranted => PermissionState::Prompt,
                    }
                }),
                Err(e) => e.class@ == "PermissionDenied"@ && e.message@
                    == "Can't escalate parent thread permissions"@ && flag is Granted,
            },
            !old(self).prompt ==> match flag {
                ChildUnitPermissionArg::Granted => (r is Ok <==> old(self).state
                    == PermissionState::Granted),
                _ => r is Ok,
            },
    {
        let state: PermissionState;
        match flag {
            ChildUnitPermissionArg::Inherit => {
                state = self.state;
            },
            ChildUnitPermissionArg::Granted => {
                let res = self.check(prompter);
                proof {
                    let (resp, prompted) = choose|resp: Option<PromptResponse>, prompted: bool|
                        unit_check_post(*old(self), *self, res, resp, prompted);
                    if !old(self).prompt {
                        assert(!prompted);
                    }
                }
                if res.is_err() {
                    return Err(escalation_error());
                }
                state = PermissionState::Granted;
            },
            ChildUnitPermissionArg::NotGranted => {
                state = PermissionState::Prompt;
            },
        }
        let final_state: PermissionState = if self.state == PermissionState::Denied {
            PermissionState::Denied
        } else {
            state
        };
        Ok(
            UnitPermission {
                name: self.name,
                description: self.description,
                state: final_state,
                prompt: self.prompt,
            },
        )
    }
}

/// A unit permission from its startup flags: denied wins, then granted,
/// else promptable.
pub fn unit_permission_from_flag_bools(
    allow_flag: bool,
    deny_flag: bool,
    name: &'static str,
    description: &'static str,
    prompt: bool,
) -> (r: UnitPermission)
    ensures
        r.name@ == name@,
        r.description@ == description@,
        r.prompt == prompt,
        r.state == (if deny_flag {
            PermissionState::Denied
        } else if allow_flag {
            PermissionState::Granted
        } else {
            PermissionState::Prompt
        }),
{
    UnitPermission {
        name,
        description,
        state: if deny_flag {
            PermissionState::Denied
        } else if allow_flag {
            PermissionState::Granted
        } else {
            PermissionState::Prompt
        },
        prompt,
    }
}

} // verus!
