//! The steps that turn a drawing into machine instructions, and what to do
//! after each of them.
//!
//! The library performs none of the steps. It says what the next one is, and
//! the caller writes the file, runs the tool or reads the file and reports how
//! that went.

use vstd::prelude::*;
use vstd::string::StringExecFns;
use crate::options::{SlicerOptions, MODEL_PATH};
use crate::text::{join, views};

verus! {

/// The file that the drawing is written to, where the conversion script
/// looks for it.
pub const DRAWING_PATH: &'static str = "drawing.svg";

/// The file that the slicing tool leaves the machine instructions in.
pub const GCODE_PATH: &'static str = "superslicer/OpenSCAD Model.gcode";

/// The program that makes a model of the drawing.
pub const MODEL_GENERATOR: &'static str = "/Applications/OpenSCAD.app/Contents/MacOS/OpenSCAD";

/// The script that the model generator runs.
pub const CONVERSION_SCRIPT: &'static str = "convert.scad";

/// The script that runs the slicing tool.
pub const SLICING_SCRIPT: &'static str = "./superslice.sh";

/// The environment variable in which the slicing script finds its arguments.
pub const ARGS_VARIABLE: &'static str = "SARGS";

/// A step of the conversion.
#[derive(Clone, Copy, Debug, PartialEq, Eq, Structural)]
pub enum Stage {
    WriteDrawing,
    GenerateModel,
    Slice,
    ReadOutput,
}

/// What a step asks of the caller.
#[derive(Clone, Debug, PartialEq, Eq)]
pub enum Action {
    /// Write `contents` to the file at `path`, replacing what is there.
    WriteFile { path: String, contents: String },
    /// Run `program` with `args`, and with each pair of `env` set as an
    /// environment variable, until it ends.
    Run { program: String, args: Vec<String>, env: Vec<(String, String)> },
    /// Read the whole file at `path` as text.
    ReadFile { path: String },
}

/// An `Action` with its strings as sequences of characters.
pub enum ActionView {
    WriteFile { path: Seq<char>, contents: Seq<char> },
    Run { program: Seq<char>, args: Seq<Seq<char>>, env: Seq<(Seq<char>, Seq<char>)> },
    ReadFile { path: Seq<char> },
}

impl View for Action {
    type V = ActionView;

    open spec fn view(&self) -> ActionView {
        match *self {
            Action::WriteFile { path, contents } => ActionView::WriteFile {
                path: path@,
                contents: contents@,
            },
            Action::Run { program, args, env } => ActionView::Run {
                program: program@,
                args: views(args@),
                env: env@.map_values(|pair: (String, String)| (pair.0@, pair.1@)),
            },
            Action::ReadFile { path } => ActionView::ReadFile { path: path@ },
        }
    }
}

/// How a step went.
#[derive(Clone, Debug, PartialEq, Eq)]
pub enum Outcome {
    /// The step was carried out. The text is what it read, for a step that
    /// reads; other steps may report anything.
    Completed(String),
    /// The file could not be written or read, or the program not be started.
    Failed,
}

/// What follows a step.
#[derive(Clone, Debug, PartialEq, Eq)]
pub enum Progress {
    /// Carry out this step next.
    Next(Stage),
    /// The conversion is done; these are the machine instructions.
    Finished(String),
    /// The conversion has ended without a result, at this step.
    Aborted(Stage),
}

impl Stage {
    /// The place of the step in the conversion, counted from zero.
    pub open spec fn position(self) -> nat {
        match self {
            Stage::WriteDrawing => 0,
            Stage::GenerateModel => 1,
            Stage::Slice => 2,
            Stage::ReadOutput => 3,
        }
    }

    /// The step that follows this one, if any does.
    pub open spec fn successor(self) -> Option<Stage> {
        match self {
            Stage::WriteDrawing => Some(Stage::GenerateModel),
            Stage::GenerateModel => Some(Stage::Slice),
            Stage::Slice => Some(Stage::ReadOutput),
            Stage::ReadOutput => None,
        }
    }

    /// The step that a conversion begins with.
    pub fn first() -> (stage: Stage)
        ensures
            stage == Stage::WriteDrawing,
    {
        Stage::WriteDrawing
    }
}

/// What `stage` asks of the caller, given the settings.
pub open spec fn planned(stage: Stage, options: &SlicerOptions) -> ActionView {
    match stage {
        Stage::WriteDrawing => ActionView::WriteFile {
            path: DRAWING_PATH@,
            contents: options.svg@,
        },
        Stage::GenerateModel => ActionView::Run {
            program: MODEL_GENERATOR@,
            args: seq!["-o"@ + MODEL_PATH@, CONVERSION_SCRIPT@],
            env: seq![],
        },
        Stage::Slice => ActionView::Run {
            program: SLICING_SCRIPT@,
            args: seq![],
            env: seq![(ARGS_VARIABLE@, options.arg_line())],
        },
        Stage::ReadOutput => ActionView::ReadFile { path: GCODE_PATH@ },
    }
}

/// What follows `stage` once it went as `outcome` says: a failure ends the
/// conversion there, the last step's text is the result, and any other step
/// is followed by its successor.
pub open spec fn next_progress(stage: Stage, outcome: Outcome) -> Progress {
    match outcome {
        Outcome::Failed => Progress::Aborted(stage),
        Outcome::Completed(output) => match stage.successor() {
            Some(next) => Progress::Next(next),
            None => Progress::Finished(output),
        },
    }
}

/// Says what the caller is to do for `stage`.
pub fn plan(stage: Stage, options: &SlicerOptions) -> (action: Action)
    ensures
        action@ == planned(stage, options),
{
    match stage {
        Stage::WriteDrawing => Action::WriteFile {
            path: String::from_str(DRAWING_PATH),
            contents: options.svg.clone(),
        },
        Stage::GenerateModel => {
            let mut args: Vec<String> = Vec::new();
            args.push(String::from_str("-o").concat(MODEL_PATH));
            args.push(String::from_str(CONVERSION_SCRIPT));
            let env: Vec<(String, String)> = Vec::new();
            let action = Action::Run { program: String::from_str(MODEL_GENERATOR), args, env };
            assert(action@ =~= planned(stage, options)) by {
                assert(action@->Run_args =~= planned(stage, options)->Run_args);
                assert(action@->Run_env =~= planned(stage, options)->Run_env);
            }
            action
        },
        Stage::Slice => {
            let args: Vec<String> = Vec::new();
            let mut env: Vec<(String, String)> = Vec::new();
            env.push((String::from_str(ARGS_VARIABLE), join(&options.arg_list())));
            let action = Action::Run { program: String::from_str(SLICING_SCRIPT), args, env };
            assert(action@ =~= planned(stage, options)) by {
                assert(action@->Run_args =~= planned(stage, options)->Run_args);
                assert(action@->Run_env =~= planned(stage, options)->Run_env);
            }
            action
        },
        Stage::ReadOutput => Action::ReadFile { path: String::from_str(GCODE_PATH) },
    }
}

/// Decides what follows `stage` once the caller has carried it out.
pub fn advance(stage: Stage, outcome: Outcome) -> (progress: Progress)
    ensures
        progress == next_progress(stage, outcome),
{
    match outcome {
        Outcome::Failed => Progress::Aborted(stage),
        Outcome::Completed(output) => match stage {
            Stage::WriteDrawing => Progress::Next(Stage::GenerateModel),
            Stage::GenerateModel => Progress::Next(Stage::Slice),
            Stage::Slice => Progress::Next(Stage::ReadOutput),
            Stage::ReadOutput => Progress::Finished(output),
        },
    }
}

/// Where a conversion stands once the steps from `stage` on went as
/// `outcomes` say, one after the other. Outcomes that come after the
/// conversion has ended count for nothing.
pub open spec fn run_from(stage: Stage, outcomes: Seq<Outcome>) -> Progress
    decreases outcomes.len(),
{
    if outcomes.len() == 0 {
        Progress::Next(stage)
    } else {
        match next_progress(stage, outcomes[0]) {
            Progress::Next(next) => run_from(next, outcomes.drop_first()),
            ended => ended,
        }
    }
}

/// Where a conversion stands once its steps went as `outcomes` say.
pub open spec fn run(outcomes: Seq<Outcome>) -> Progress {
    run_from(Stage::WriteDrawing, outcomes)
}

/// Whether the first `n` of `outcomes` all say that a step was carried out.
pub open spec fn completed_up_to(outcomes: Seq<Outcome>, n: int) -> bool {
    n <= outcomes.len() && forall|j: int| 0 <= j < n ==> #[trigger] outcomes[j] is Completed
}

/// Whether the step at place `k` is the first that failed.
pub open spec fn fails_first_at(outcomes: Seq<Outcome>, k: int) -> bool {
    0 <= k < outcomes.len() && completed_up_to(outcomes, k) && outcomes[k] is Failed
}

proof fn lemma_run_from(stage: Stage, outcomes: Seq<Outcome>)
    ensures
        match run_from(stage, outcomes) {
            Progress::Next(next) => {
                &&& completed_up_to(outcomes, outcomes.len() as int)
                &&& next.position() == stage.position() + outcomes.len()
            },
            Progress::Finished(text) => {
                let last = 3 - stage.position();
                &&& completed_up_to(outcomes, last + 1)
                &&& outcomes[last] == Outcome::Completed(text)
            },
            Progress::Aborted(at) => exists|k: int|
                #[trigger] fails_first_at(outcomes, k) && at.position() == stage.position() + k,
        },
    decreases outcomes.len(),
{
    if outcomes.len() > 0 {
        let rest = outcomes.drop_first();
        assert forall|j: int| 0 <= j < rest.len() implies rest[j] == outcomes[j + 1] by {}
        match next_progress(stage, outcomes[0]) {
            Progress::Next(next) => {
                lemma_run_from(next, rest);
                match run_from(next, rest) {
                    Progress::Next(_) => {
                        assert forall|j: int| 0 <= j < outcomes.len() implies #[trigger] outcomes[j]
                            is Completed by {
                            if j > 0 {
                                assert(rest[j - 1] is Completed);
                            }
                        }
                    },
                    Progress::Finished(text) => {
                        let last = 3 - stage.position();
                        assert forall|j: int| 0 <= j < last + 1 implies #[trigger] outcomes[j]
                            is Completed by {
                            if j > 0 {
                                assert(rest[j - 1] is Completed);
                            }
                        }
                        assert(outcomes[last] == rest[last - 1]);
                    },
                    Progress::Aborted(at) => {
                        let k = choose|k: int|
                            #[trigger] fails_first_at(rest, k) && at.position() == next.position()
                                + k;
                        assert forall|j: int| 0 <= j < k + 1 implies #[trigger] outcomes[j]
                            is Completed by {
                            if j > 0 {
                                assert(rest[j - 1] is Completed);
                            }
                        }
                        assert(outcomes[k + 1] == rest[k]);
                        assert(fails_first_at(outcomes, k + 1));
                    },
                }
            },
            Progress::Finished(text) => {},
            Progress::Aborted(at) => {
                assert(fails_first_at(outcomes, 0));
            },
        }
    }
}

/// A conversion yields machine instructions exactly when all four steps were
/// carried out, and what it yields is the text that the last step read.
pub proof fn lemma_finishes_iff_all_completed(outcomes: Seq<Outcome>, text: String)
    ensures
        run(outcomes) == Progress::Finished(text) <==> completed_up_to(outcomes, 4) && outcomes[3]
            == Outcome::Completed(text),
{
    lemma_run_from(Stage::WriteDrawing, outcomes);
    if completed_up_to(outcomes, 4) && outcomes[3] == Outcome::Completed(text) {
        match run(outcomes) {
            Progress::Next(next) => {},
            Progress::Finished(other) => {},
            Progress::Aborted(at) => {
                let k = choose|k: int|
                    #[trigger] fails_first_at(outcomes, k) && at.position() == k;
                assert(outcomes[k] is Completed);
            },
        }
    }
}

/// The first step that fails ends the conversion at that step, whatever is
/// said of the steps behind it: none of them is asked for.
pub proof fn lemma_first_failure_aborts(outcomes: Seq<Outcome>, stage: Stage)
    requires
        fails_first_at(outcomes, stage.position() as int),
    ensures
        run(outcomes) == Progress::Aborted(stage),
{
    lemma_run_from(Stage::WriteDrawing, outcomes);
    let at = stage.position() as int;
    match run(outcomes) {
        Progress::Next(next) => {
            assert(outcomes[at] is Completed);
        },
        Progress::Finished(text) => {
            assert(outcomes[at] is Completed);
        },
        Progress::Aborted(other) => {
            let k = choose|k: int|
                #[trigger] fails_first_at(outcomes, k) && other.position() == k;
            if k < at {
                assert(outcomes[k] is Completed);
            } else if k > at {
                assert(outcomes[at] is Completed);
            }
        },
    }
}

/// The steps are asked for strictly in order: once the steps ahead of
/// `stage` were carried out, and nothing more is known, `stage` is next.
pub proof fn lemma_steps_in_order(outcomes: Seq<Outcome>, stage: Stage)
    requires
        outcomes.len() == stage.position(),
        completed_up_to(outcomes, outcomes.len() as int),
    ensures
        run(outcomes) == Progress::Next(stage),
{
    lemma_run_from(Stage::WriteDrawing, outcomes);
    match run(outcomes) {
        Progress::Next(next) => {},
        Progress::Finished(text) => {},
        Progress::Aborted(other) => {
            let k = choose|k: int|
                #[trigger] fails_first_at(outcomes, k) && other.position() == k;
            assert(outcomes[k] is Completed);
        },
    }
}

} // verus!
