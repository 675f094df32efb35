//! The session: the checkpointed state stack and the one-slot build
//! pipeline.
//!
//! The stack holds one `State` per committed instruction (plus the
//! initial `FROM` entry); its top is the state presented to the user.
//! The pipeline register holds at most one in-flight build — by its type —
//! and `apply` insists that it is resolved before the next outcome is
//! applied, so resolution of build N always happens before execution of
//! command N+1.

use vstd::prelude::*;

use crate::instructions::dockerfile_text;
use crate::state::{State, StateV};
use crate::step::{pending_name, LineResult};
use crate::strutil::{dec_str, lemma_dec_str_injective, u64_to_string};

verus! {

/// The record of an in-flight build: the build-file text it was
/// submitted with.
pub struct PendingBuild {
    pub dockerfile: String,
}

/// One session: the state stack and the pipeline register.
pub struct Session {
    pub stack: Vec<State>,
    pub pending: Option<PendingBuild>,
}

/// The mathematical model of a session.
#[verifier::ext_equal]
pub ghost struct SessionV {
    pub stack: Seq<StateV>,
    pub pending: Option<Seq<char>>,
}

impl SessionV {
    /// The state presented to the user.
    pub open spec fn top(self) -> StateV {
        self.stack.last()
    }

    /// Session invariants: the stack is never empty and holds only
    /// well-formed states; while a build is in flight the stack has the
    /// speculative entry that scheduled it on top, that entry carries the
    /// placeholder image, and the submitted build-file text is exactly
    /// the serialization of its instruction log.
    pub open spec fn wf(self) -> bool {
        &&& self.stack.len() >= 1
        &&& forall|i: int| 0 <= i < self.stack.len() ==> self.stack[i].wf()
        &&& match self.pending {
            Some(df) => {
                &&& self.stack.len() >= 2
                &&& df == dockerfile_text(self.top().lines)
                &&& self.top().image_name == pending_name()
            },
            None => true,
        }
    }
}

impl View for Session {
    type V = SessionV;

    open spec fn view(&self) -> SessionV {
        SessionV {
            stack: self.stack.deep_view(),
            pending: match self.pending {
                Some(p) => Some(p.dockerfile@),
                None => None,
            },
        }
    }
}

impl Session {
    /// Open a session from its starting state.
    pub fn new(initial: State) -> (r: Session)
        requires
            initial@.wf(),
        ensures
            r@.stack == seq![initial@],
            r@.pending is None,
            r@.wf(),
    {
        let mut stack: Vec<State> = Vec::new();
        stack.push(initial);
        let r = Session { stack, pending: None };
        proof {
            assert(r@.stack =~= seq![r.stack@[0]@]);
        }
        r
    }

    /// The current state: the top of the stack.
    pub fn current(&self) -> (r: &State)
        requires
            self@.wf(),
        ensures
            r@ == self@.top(),
    {
        &self.stack[self.stack.len() - 1]
    }

    /// Apply the outcome of a processed line. A `Transition` outcome is
    /// pushed; with `schedule` set, the new state's instruction log is
    /// serialized, recorded in the pipeline register, and returned so the
    /// caller can submit the build. A `NoOp` or `Exit` outcome leaves the
    /// session untouched. The register must be empty: an earlier build is
    /// always resolved before the next outcome is applied.
    pub fn apply(&mut self, outcome: LineResult, schedule: bool) -> (df: Option<String>)
        requires
            old(self)@.wf(),
            old(self)@.pending is None,
            (match outcome {
                LineResult::State(ns, _) => {
                    &&& ns@.wf()
                    &&& (schedule ==> ns@.image_name == pending_name())
                },
                _ => !schedule,
            }),
        ensures
            final(self)@.wf(),
            (match outcome {
                LineResult::State(ns, _) => {
                    &&& final(self)@.stack == old(self)@.stack.push(ns@)
                    &&& (if schedule {
                        &&& final(self)@.pending == Some(dockerfile_text(ns@.lines))
                        &&& (match df {
                            Some(text) => text@ == dockerfile_text(ns@.lines),
                            None => false,
                        })
                    } else {
                        final(self)@.pending is None && df is None
                    })
                },
                _ => final(self)@ == old(self)@ && df is None,
            }),
    {
        match outcome {
            LineResult::State(ns, _out) => {
                if schedule {
                    let text = crate::instructions::serialize_dockerfile(&ns.lines);
                    let ghost prev = self.stack.deep_view();
                    self.stack.push(ns);
                    self.pending = Some(PendingBuild { dockerfile: text.clone() });
                    proof {
                        assert(self@.stack =~= prev.push(self.stack@.last()@));
                    }
                    Some(text)
                } else {
                    let ghost prev = self.stack.deep_view();
                    self.stack.push(ns);
                    proof {
                        assert(self@.stack =~= prev.push(self.stack@.last()@));
                    }
                    None
                }
            },
            LineResult::NoOp(_out) => {
                proof {
                    assert(self@ =~= old(self)@);
                }
                None
            },
            LineResult::Exit => {
                proof {
                    assert(self@ =~= old(self)@);
                }
                None
            },
        }
    }

    /// Resolve the in-flight build. With `valid` set, the resolved image
    /// identifier replaces the placeholder in the top state. Otherwise
    /// the speculative transition that scheduled the build is rolled
    /// back: the top state is popped — restoring the stack exactly as it
    /// was before that transition — and the instruction that could not be
    /// replayed is returned for reporting.
    pub fn resolve_build(&mut self, tag: String, valid: bool) -> (rolled_back: Option<Vec<String>>)
        requires
            old(self)@.wf(),
            old(self)@.pending is Some,
        ensures
            final(self)@.wf(),
            final(self)@.pending is None,
            (if valid {
                &&& final(self)@.stack == old(self)@.stack.drop_last().push(
                    (StateV { image_name: tag@, ..old(self)@.top() }),
                )
                &&& rolled_back is None
            } else {
                &&& final(self)@.stack == old(self)@.stack.drop_last()
                &&& (match rolled_back {
                    Some(instr) => instr.deep_view() == old(self)@.top().lines.last(),
                    None => false,
                })
            }),
    {
        self.pending = None;
        if valid {
            let mut top = self.stack.pop().unwrap();
            top.image_name = tag;
            let ghost rest = self.stack.deep_view();
            self.stack.push(top);
            proof {
                assert(rest =~= old(self)@.stack.drop_last());
                assert(self@.stack =~= rest.push(self.stack@.last()@));
                assert(self.stack@.last()@ =~~= (StateV {
                    image_name: tag@,
                    ..old(self)@.top()
                }));
            }
            None
        } else {
            let mut bad = self.stack.pop().unwrap();
            let instr = bad.lines.pop().unwrap();
            proof {
                assert(self@.stack =~= old(self)@.stack.drop_last());
                assert(instr.deep_view() == old(self)@.top().lines.last());
            }
            Some(instr)
        }
    }
}

/// The state a session opens with, built from a configured starting
/// state: the instruction log is cut back to its `FROM` line and the
/// current image is the base image that line names. Returns `None` when
/// the starting state's `FROM` line names no image.
pub fn session_base(initial: &State) -> (r: Option<State>)
    requires
        initial@.wf(),
    ensures
        (match r {
            Some(b) => {
                &&& initial@.lines[0].len() >= 2
                &&& b@ == (StateV {
                    lines: seq![initial@.lines[0]],
                    image_name: initial@.lines[0][1],
                    ..initial@
                })
                &&& b@.wf()
            },
            None => initial@.lines[0].len() < 2,
        }),
{
    if initial.lines[0].len() < 2 {
        return None;
    }
    let mut b = initial.clone();
    let first = crate::state::clone_string_vec(&b.lines[0]);
    let image = first[1].clone();
    b.lines.clear();
    b.lines.push(first);
    b.image_name = image;
    proof {
        assert(b@.lines =~= seq![initial@.lines[0]]);
        assert(b@ =~~= (StateV {
            lines: seq![initial@.lines[0]],
            image_name: initial@.lines[0][1],
            ..initial@
        }));
    }
    Some(b)
}

/// The probe run once at session start to learn the working directory: a
/// copy of the state with `RUN pwd` appended, to hand to the gateway.
pub fn pwd_probe(state: &State) -> (r: State)
    requires
        state@.wf(),
    ensures
        r@ == (StateV { lines: state@.lines.push(seq!["RUN"@, "pwd"@]), ..state@ }),
        r@.wf(),
{
    let mut r = state.clone();
    let mut instr: Vec<String> = Vec::new();
    instr.push(String::from_str("RUN"));
    instr.push(String::from_str("pwd"));
    r.lines.push(instr);
    proof {
        assert(instr.deep_view() =~= seq!["RUN"@, "pwd"@]);
        assert(r@.lines =~= state@.lines.push(seq!["RUN"@, "pwd"@]));
        assert(r@ =~~= (StateV { lines: state@.lines.push(seq!["RUN"@, "pwd"@]), ..state@ }));
    }
    r
}

/// Record the working directory a probe's output reports: the output,
/// trimmed.
pub fn set_pwd(state: &mut State, output: &str)
    ensures
        final(state)@ == (StateV { pwd: crate::strutil::trim_spec(output@), ..old(state)@ }),
{
    state.pwd = crate::strutil::trim(output);
    proof {
        assert(state@ =~~= (StateV { pwd: crate::strutil::trim_spec(output@), ..old(state)@ }));
    }
}

/// The collision-free generator for container and image names: a
/// monotonic counter, rendered in decimal.
pub struct NameGen {
    pub next: u64,
}

impl NameGen {
    pub fn new() -> (r: NameGen)
        ensures
            r.next == 0,
    {
        NameGen { next: 0 }
    }

    /// The next name. Every call returns the rendering of a counter value
    /// no earlier call used, so (by `lemma_fresh_names_distinct`) no two
    /// names of one generator ever collide.
    pub fn fresh(&mut self) -> (r: String)
        requires
            old(self).next < u64::MAX,
        ensures
            final(self).next == old(self).next + 1,
            r@ == dec_str(old(self).next as nat),
    {
        let r = u64_to_string(self.next);
        self.next = self.next + 1;
        r
    }
}

/// Names handed out for distinct counter values are distinct: the
/// generator is collision-free.
pub proof fn lemma_fresh_names_distinct(a: u64, b: u64)
    requires
        a != b,
    ensures
        dec_str(a as nat) != dec_str(b as nat),
{
    lemma_dec_str_injective(a as nat, b as nat);
}

/// While a build is in flight, the build-file text it was submitted with
/// is exactly the serialization of the instruction log of the state that
/// scheduled it — the top of the stack. When the build resolves
/// successfully, the image identifier therefore corresponds to a build
/// whose content equals the serialization of that state's instructions.
pub proof fn lemma_pending_build_matches_log(s: SessionV)
    requires
        s.wf(),
        s.pending is Some,
    ensures
        s.pending == Some(dockerfile_text(s.top().lines)),
{
}

/// How many builds are unresolved in a session.
pub open spec fn unresolved_builds(s: SessionV) -> nat {
    match s.pending {
        Some(_) => 1,
        None => 0,
    }
}

/// The pipeline is at most one deep: the register is a single slot, so at
/// no point is more than one build handle unresolved — and `apply`
/// requires the slot to be empty, so a new build is never scheduled while
/// an earlier one is unresolved.
pub proof fn lemma_pipeline_depth_at_most_one(s: SessionV)
    ensures
        unresolved_builds(s) <= 1,
{
}

/// Rolling back a speculative transition restores the stack exactly:
/// pushing a state and then popping it leaves every entry — instructions,
/// working directory, image — as it was before the push.
pub proof fn lemma_rollback_restores(stack: Seq<StateV>, pushed: StateV)
    ensures
        stack.push(pushed).drop_last() == stack,
{
    assert(stack.push(pushed).drop_last() =~= stack);
}

} // verus!
