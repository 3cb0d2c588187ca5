//! Finding the action table to play. The decisions are taken here; looking
//! at the disk and writing to it is left to the caller, who is asked one
//! thing at a time and answers.

use crate::record::text_view;
use vstd::prelude::*;
use vstd::string::StringExecFns;

verus! {

/// The name of the default table, in the working directory.
pub const DEFAULT_PATH: &'static str = "mouse_actions.csv";

/// The table that is written where no default table exists: one row for
/// each kind of action.
pub const SAMPLE_TABLE: &'static str =
    "action,x_position,y_position,delay_ms,button,modifiers,repeat_count\nmove,100,200,500,,,\nclick,150,300,200,left,,1\ndouble_click,150,300,150,left,,2\nright_click,400,500,300,right,,1\ndrag,200,300,100,left,,\nrelease,400,500,50,,,\nmove,500,600,300,,,\nscroll,500,600,200,,down,5\nwait,,,2000,,,\nmove_relative,50,-30,300,,,";

/// The number of places at which the default table is looked for.
pub const CANDIDATES: usize = 4;

/// Where the resolution stands.
#[derive(Clone, Copy, Debug, PartialEq, Eq)]
pub enum Stage {
    /// Asking whether the path given as argument exists.
    CheckArgument,
    /// Asking whether the default table exists.
    CheckDefault,
    /// Asking for the default table to be written.
    WriteDefault,
    /// Asking whether the candidate with this number exists.
    Probe(usize),
    /// Resolved: the path given as argument.
    UseArgument,
    /// Resolved: the candidate with this number.
    Found(usize),
    /// Resolved: no candidate was seen, so the default name is returned.
    Fallback,
    /// The default table could not be written: there is no table to play.
    Failed,
}

/// What the caller found out or did.
#[derive(Clone, Copy, Debug, PartialEq, Eq)]
pub enum Reply {
    /// Whether the path that was asked about exists.
    Exists(bool),
    /// The file that was asked for has been written.
    Written,
    /// The file that was asked for could not be written.
    WriteFailed,
}

/// What the caller is asked to do next.
#[derive(Clone, Debug, PartialEq, Eq)]
pub enum Request {
    /// Say whether this path exists.
    Exists(String),
    /// Write this content to this path, and say whether that worked.
    Write { path: String, content: String },
    /// The resolution is over: this is the path of the table.
    Use(String),
    /// The resolution is over, and there is no table.
    GiveUp,
}

/// A request as plain values.
pub ghost enum RequestView {
    Exists(Seq<char>),
    Write { path: Seq<char>, content: Seq<char> },
    Use(Seq<char>),
    GiveUp,
}

impl View for Request {
    type V = RequestView;

    open spec fn view(&self) -> RequestView {
        match *self {
            Request::Exists(p) => RequestView::Exists(p@),
            Request::Write { path, content } => RequestView::Write {
                path: path@,
                content: content@,
            },
            Request::Use(p) => RequestView::Use(p@),
            Request::GiveUp => RequestView::GiveUp,
        }
    }
}

/// The places at which the default table is looked for, in order: the
/// working directory under two spellings, its parent, and a `data`
/// directory. A number past the last stands for the last.
pub open spec fn candidate_spec(i: int) -> Seq<char> {
    if i <= 0 {
        "mouse_actions.csv"@
    } else if i == 1 {
        "./mouse_actions.csv"@
    } else if i == 2 {
        "../mouse_actions.csv"@
    } else {
        "data/mouse_actions.csv"@
    }
}

/// The stage at which a resolution begins: with the argument where one was
/// given, else with the default table.
pub open spec fn initial_stage(has_argument: bool) -> Stage {
    if has_argument {
        Stage::CheckArgument
    } else {
        Stage::CheckDefault
    }
}

/// The resolution has chosen a path at this stage.
pub open spec fn is_resolved(stage: Stage) -> bool {
    stage is UseArgument || stage is Found || stage is Fallback
}

/// The resolution is over at this stage: a path was chosen, or it failed.
pub open spec fn is_over(stage: Stage) -> bool {
    is_resolved(stage) || stage is Failed
}

/// The reply answers what is asked at this stage.
pub open spec fn fits(stage: Stage, reply: Reply) -> bool {
    match stage {
        Stage::CheckArgument | Stage::CheckDefault | Stage::Probe(_) => reply is Exists,
        Stage::WriteDefault => reply is Written || reply is WriteFailed,
        _ => false,
    }
}

/// The stage that follows `stage` on `reply`. An argument that exists is
/// used; one that is missing leads on to the default table. A default table
/// that is missing is written first, and only where that fails does the
/// resolution fail. Then the candidates are tried in order, and the first
/// that exists is the result. A reply that does not answer what was asked
/// changes nothing.
pub open spec fn next_stage(stage: Stage, reply: Reply) -> Stage {
    if !fits(stage, reply) {
        stage
    } else {
        match stage {
            Stage::CheckArgument => if reply == Reply::Exists(true) {
                Stage::UseArgument
            } else {
                Stage::CheckDefault
            },
            Stage::CheckDefault => if reply == Reply::Exists(true) {
                Stage::Probe(0)
            } else {
                Stage::WriteDefault
            },
            Stage::WriteDefault => if reply == Reply::Written {
                Stage::Probe(0)
            } else {
                Stage::Failed
            },
            Stage::Probe(i) => if reply == Reply::Exists(true) {
                Stage::Found(i)
            } else if i + 1 < CANDIDATES {
                Stage::Probe((i + 1) as usize)
            } else {
                Stage::Fallback
            },
            _ => stage,
        }
    }
}

/// What is asked of the caller at `stage`, the argument being `argument`.
pub open spec fn request_spec(stage: Stage, argument: Option<Seq<char>>) -> RequestView {
    match stage {
        Stage::CheckArgument => RequestView::Exists(
            match argument {
                Some(p) => p,
                None => DEFAULT_PATH@,
            },
        ),
        Stage::CheckDefault => RequestView::Exists(DEFAULT_PATH@),
        Stage::WriteDefault => RequestView::Write { path: DEFAULT_PATH@, content: SAMPLE_TABLE@ },
        Stage::Probe(i) => RequestView::Exists(candidate_spec(i as int)),
        Stage::UseArgument => RequestView::Use(
            match argument {
                Some(p) => p,
                None => DEFAULT_PATH@,
            },
        ),
        Stage::Found(i) => RequestView::Use(candidate_spec(i as int)),
        Stage::Fallback => RequestView::Use(DEFAULT_PATH@),
        Stage::Failed => RequestView::GiveUp,
    }
}

/// The stage reached from `stage` after the replies `replies`, in order.
pub open spec fn run(stage: Stage, replies: Seq<Reply>) -> Stage
    decreases replies.len(),
{
    if replies.len() == 0 {
        stage
    } else {
        run(next_stage(stage, replies[0]), replies.drop_first())
    }
}

/// The place with number `i` at which the default table is looked for.
pub fn candidate_path(i: usize) -> (path: &'static str)
    ensures
        path@ == candidate_spec(i as int),
{
    if i == 0 {
        "mouse_actions.csv"
    } else if i == 1 {
        "./mouse_actions.csv"
    } else if i == 2 {
        "../mouse_actions.csv"
    } else {
        "data/mouse_actions.csv"
    }
}

/// A resolution in progress.
#[derive(Clone, Debug, PartialEq, Eq)]
pub struct Resolver {
    pub stage: Stage,
    pub argument: Option<String>,
}

impl Resolver {
    /// Begins a resolution with the path given as argument, if any.
    pub fn new(argument: Option<String>) -> (resolver: Resolver)
        ensures
            resolver.stage == initial_stage(argument is Some),
            resolver.argument == argument,
    {
        let stage = if argument.is_some() {
            Stage::CheckArgument
        } else {
            Stage::CheckDefault
        };
        Resolver { stage, argument }
    }

    /// The path given as argument, or the default name where none was given.
    fn argument_path(&self) -> (path: String)
        ensures
            path@ == match text_view(self.argument) {
                Some(p) => p,
                None => DEFAULT_PATH@,
            },
    {
        match &self.argument {
            Some(p) => p.clone(),
            None => String::from_str(DEFAULT_PATH),
        }
    }

    /// What the caller is asked to do at this stage.
    pub fn request(&self) -> (request: Request)
        ensures
            request@ == request_spec(self.stage, text_view(self.argument)),
    {
        match self.stage {
            Stage::CheckArgument => Request::Exists(self.argument_path()),
            Stage::CheckDefault => Request::Exists(String::from_str(DEFAULT_PATH)),
            Stage::WriteDefault => Request::Write {
                path: String::from_str(DEFAULT_PATH),
                content: String::from_str(SAMPLE_TABLE),
            },
            Stage::Probe(i) => Request::Exists(String::from_str(candidate_path(i))),
            Stage::UseArgument => Request::Use(self.argument_path()),
            Stage::Found(i) => Request::Use(String::from_str(candidate_path(i))),
            Stage::Fallback => Request::Use(String::from_str(DEFAULT_PATH)),
            Stage::Failed => Request::GiveUp,
        }
    }

    /// Takes the caller's reply and moves on to the stage that follows.
    pub fn reply(&mut self, reply: Reply)
        ensures
            final(self).stage == next_stage(old(self).stage, reply),
            final(self).argument == old(self).argument,
    {
        let next = match (self.stage, reply) {
            (Stage::CheckArgument, Reply::Exists(true)) => Stage::UseArgument,
            (Stage::CheckArgument, Reply::Exists(false)) => Stage::CheckDefault,
            (Stage::CheckDefault, Reply::Exists(true)) => Stage::Probe(0),
            (Stage::CheckDefault, Reply::Exists(false)) => Stage::WriteDefault,
            (Stage::WriteDefault, Reply::Written) => Stage::Probe(0),
            (Stage::WriteDefault, Reply::WriteFailed) => Stage::Failed,
            (Stage::Probe(i), Reply::Exists(true)) => Stage::Found(i),
            (Stage::Probe(i), Reply::Exists(false)) => if i < CANDIDATES - 1 {
                Stage::Probe(i + 1)
            } else {
                Stage::Fallback
            },
            (stage, _) => stage,
        };
        self.stage = next;
    }
}

/// The stage is one at which the default table is known to be there: it
/// was seen or written, and what is left is to try the candidates or to
/// return one.
pub open spec fn past_default(stage: Stage) -> bool {
    stage is Probe || stage is Found || stage is Fallback
}

/// Once the default table is known to be there, it stays so whatever the
/// replies.
pub proof fn lemma_past_default_stays(stage: Stage, replies: Seq<Reply>)
    requires
        past_default(stage),
    ensures
        past_default(run(stage, replies)),
    decreases replies.len(),
{
    if replies.len() > 0 {
        lemma_past_default_stays(next_stage(stage, replies[0]), replies.drop_first());
    }
}

/// An argument that names no existing file does not end the resolution and
/// is never the result: the resolution goes on as if no argument had been
/// given, whatever the replies that follow.
pub proof fn lemma_missing_argument_falls_back(replies: Seq<Reply>)
    ensures
        next_stage(initial_stage(true), Reply::Exists(false)) == initial_stage(false),
        run(initial_stage(true), seq![Reply::Exists(false)] + replies) == run(
            initial_stage(false),
            replies,
        ),
        !(run(initial_stage(true), seq![Reply::Exists(false)] + replies) is UseArgument),
{
    let all = seq![Reply::Exists(false)] + replies;
    assert(all.drop_first() =~= replies);
    lemma_default_resolution_skips_argument(initial_stage(false), replies);
}

/// From the default table on, the argument is never the result.
proof fn lemma_default_resolution_skips_argument(stage: Stage, replies: Seq<Reply>)
    requires
        stage is CheckDefault || stage is WriteDefault || stage is Failed || past_default(stage),
    ensures
        !(run(stage, replies) is UseArgument),
    decreases replies.len(),
{
    if replies.len() > 0 {
        lemma_default_resolution_skips_argument(
            next_stage(stage, replies[0]),
            replies.drop_first(),
        );
    }
}

/// With no argument and the default table in place, nothing is ever
/// written: after the reply that the table exists, no stage that follows
/// asks for a write, whatever the later replies.
pub proof fn lemma_existing_default_is_kept(replies: Seq<Reply>, argument: Option<Seq<char>>)
    ensures
        past_default(run(initial_stage(false), seq![Reply::Exists(true)] + replies)),
        !(request_spec(
            run(initial_stage(false), seq![Reply::Exists(true)] + replies),
            argument,
        ) is Write),
{
    let all = seq![Reply::Exists(true)] + replies;
    assert(all.drop_first() =~= replies);
    lemma_past_default_stays(Stage::Probe(0), replies);
}

/// Every reply answers what was asked when it was given.
pub open spec fn all_fit(stage: Stage, replies: Seq<Reply>) -> bool
    decreases replies.len(),
{
    replies.len() == 0 || ((is_over(stage) || fits(stage, replies[0])) && all_fit(
        next_stage(stage, replies[0]),
        replies.drop_first(),
    ))
}

/// The most replies that a resolution at `stage` still needs.
pub open spec fn steps_left(stage: Stage) -> nat {
    match stage {
        Stage::CheckArgument => 7,
        Stage::CheckDefault => 6,
        Stage::WriteDefault => 5,
        Stage::Probe(i) => if i < CANDIDATES {
            (CANDIDATES - i) as nat
        } else {
            1
        },
        _ => 0,
    }
}

/// A resolution always ends: once as many fitting replies have come as the
/// stage still needs, seven at most, it is over.
pub proof fn lemma_resolution_ends(stage: Stage, replies: Seq<Reply>)
    requires
        all_fit(stage, replies),
        replies.len() >= steps_left(stage),
    ensures
        is_over(run(stage, replies)),
    decreases replies.len(),
{
    if replies.len() > 0 {
        lemma_resolution_ends(next_stage(stage, replies[0]), replies.drop_first());
    }
}

/// A resolution fails only where the default table could not be written:
/// as long as no reply reports a failed write, a resolution that has not
/// failed never does.
pub proof fn lemma_fails_only_when_write_fails(stage: Stage, replies: Seq<Reply>)
    requires
        !(stage is Failed),
        forall|i: int| 0 <= i < replies.len() ==> !(#[trigger] replies[i] is WriteFailed),
    ensures
        !(run(stage, replies) is Failed),
    decreases replies.len(),
{
    if replies.len() > 0 {
        let rest = replies.drop_first();
        assert forall|i: int| 0 <= i < rest.len() implies !(#[trigger] rest[i] is WriteFailed) by {
            assert(rest[i] == replies[i + 1]);
        }
        lemma_fails_only_when_write_fails(next_stage(stage, replies[0]), rest);
    }
}

} // verus!
