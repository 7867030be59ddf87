//! Print settings and the command line that they make for the slicing tool.

use vstd::prelude::*;
use vstd::string::StringExecFns;
use crate::fills::Fills;
use crate::percent::{lemma_number_text_alphabet, is_number_char, Percent};
use crate::text::{int_text, join, joined, render_int, views};

verus! {

/// Where the model generator leaves the model and the slicing tool finds it.
pub const MODEL_PATH: &'static str = "superslicer/model.3mf";

/// How a drawing is to be sliced.
#[derive(Clone, Debug, PartialEq, Eq)]
pub struct SlicerOptions {
    /// The drawing, as SVG text.
    pub svg: String,
    /// How much of the inside is filled.
    pub fill_density: Percent,
    pub fill_pattern: Fills,
    /// Whether the lines of the infill are joined to one another.
    pub fill_connected: bool,
    /// How far the infill reaches into the perimeters.
    pub fill_overlap: Percent,
    /// In degrees.
    pub fill_angle: i32,
    pub fill_speed: i32,
    pub perimeters: i32,
    pub perimeter_speed: i32,
}

/// The value that tells the slicing tool whether to join the infill's lines.
pub open spec fn connection_name(connected: bool) -> Seq<char> {
    if connected {
        "connected"@
    } else {
        "notconnected"@
    }
}

impl SlicerOptions {
    /// Whether both percentages hold the text of a number.
    pub open spec fn wf(&self) -> bool {
        self.fill_density.wf() && self.fill_overlap.wf()
    }

    /// The arguments for the slicing tool: ten options in a fixed order, then
    /// the path of the model.
    pub open spec fn arg_tokens(&self) -> Seq<Seq<char>> {
        seq![
            "-g"@,
            "--load slicer-config.ini"@,
            "--fill-density "@ + self.fill_density@ + "%"@,
            "--fill-pattern "@ + self.fill_pattern.name(),
            "--infill-connection "@ + connection_name(self.fill_connected),
            "--infill-overlap "@ + self.fill_overlap@ + "%"@,
            "--fill-angle "@ + int_text(self.fill_angle as int),
            "--infill-speed "@ + int_text(self.fill_speed as int),
            "--perimeters "@ + int_text(self.perimeters as int),
            "--perimeter-speed "@ + int_text(self.perimeter_speed as int),
            MODEL_PATH@,
        ]
    }

    /// The arguments as one line, a space between neighbours.
    pub open spec fn arg_line(&self) -> Seq<char> {
        joined(self.arg_tokens())
    }

    /// Builds the arguments for the slicing tool, one string for each.
    pub fn arg_list(&self) -> (tokens: Vec<String>)
        ensures
            views(tokens@) == self.arg_tokens(),
    {
        let connection: &str = if self.fill_connected {
            "connected"
        } else {
            "notconnected"
        };
        let mut tokens: Vec<String> = Vec::new();
        tokens.push(String::from_str("-g"));
        tokens.push(String::from_str("--load slicer-config.ini"));
        tokens.push(
            String::from_str("--fill-density ").concat(self.fill_density.as_str()).concat("%"),
        );
        tokens.push(
            String::from_str("--fill-pattern ").concat(self.fill_pattern.to_string().as_str()),
        );
        tokens.push(String::from_str("--infill-connection ").concat(connection));
        tokens.push(
            String::from_str("--infill-overlap ").concat(self.fill_overlap.as_str()).concat("%"),
        );
        tokens.push(String::from_str("--fill-angle ").concat(render_int(self.fill_angle).as_str()));
        tokens.push(
            String::from_str("--infill-speed ").concat(render_int(self.fill_speed).as_str()),
        );
        tokens.push(
            String::from_str("--perimeters ").concat(render_int(self.perimeters).as_str()),
        );
        tokens.push(
            String::from_str("--perimeter-speed ").concat(
                render_int(self.perimeter_speed).as_str(),
            ),
        );
        tokens.push(String::from_str(MODEL_PATH));
        assert(views(tokens@) =~= self.arg_tokens());
        tokens
    }

    /// Builds the command line for the slicing tool.
    pub fn args(self) -> (line: String)
        ensures
            line@ == self.arg_line(),
    {
        join(&self.arg_list())
    }
}

/// The names of the ten options, in the order in which they are given.
pub open spec fn option_flags() -> Seq<Seq<char>> {
    seq![
        "-g"@,
        "--load"@,
        "--fill-density"@,
        "--fill-pattern"@,
        "--infill-connection"@,
        "--infill-overlap"@,
        "--fill-angle"@,
        "--infill-speed"@,
        "--perimeters"@,
        "--perimeter-speed"@,
    ]
}

/// The arguments are always the ten options, each under its own name and in
/// the same order, with the path of the model after them.
pub proof fn lemma_arg_tokens_order(options: SlicerOptions)
    ensures
        options.arg_tokens().len() == option_flags().len() + 1,
        option_flags().len() == 10,
        forall|i: int|
            0 <= i < 10 ==> (#[trigger] option_flags()[i]).is_prefix_of(options.arg_tokens()[i]),
        options.arg_tokens().last() == MODEL_PATH@,
{
    reveal_strlit("-g");
    reveal_strlit("--load");
    reveal_strlit("--load slicer-config.ini");
    reveal_strlit("--fill-density");
    reveal_strlit("--fill-density ");
    reveal_strlit("--fill-pattern");
    reveal_strlit("--fill-pattern ");
    reveal_strlit("--infill-connection");
    reveal_strlit("--infill-connection ");
    reveal_strlit("--infill-overlap");
    reveal_strlit("--infill-overlap ");
    reveal_strlit("--fill-angle");
    reveal_strlit("--fill-angle ");
    reveal_strlit("--infill-speed");
    reveal_strlit("--infill-speed ");
    reveal_strlit("--perimeters");
    reveal_strlit("--perimeters ");
    reveal_strlit("--perimeter-speed");
    reveal_strlit("--perimeter-speed ");
    let tokens = options.arg_tokens();
    let flags = option_flags();
    assert forall|i: int| 0 <= i < 10 implies (#[trigger] flags[i]).is_prefix_of(tokens[i]) by {
        assert(flags[i] =~= tokens[i].subrange(0, flags[i].len() as int));
    }
}

/// In both percentage arguments the percent sign stands directly behind the
/// number: the argument ends in `%`, and what stands before the sign is a
/// character of the number, never a blank.
pub proof fn lemma_percent_sign_follows_number(options: SlicerOptions)
    requires
        options.wf(),
    ensures
        options.arg_tokens()[2] == "--fill-density "@ + options.fill_density@ + seq!['%'],
        options.arg_tokens()[5] == "--infill-overlap "@ + options.fill_overlap@ + seq!['%'],
        options.arg_tokens()[2].last() == '%',
        options.arg_tokens()[5].last() == '%',
        is_number_char(options.arg_tokens()[2][options.arg_tokens()[2].len() - 2]),
        is_number_char(options.arg_tokens()[5][options.arg_tokens()[5].len() - 2]),
{
    reveal_strlit("%");
    assert("%"@ =~= seq!['%']);
    lemma_number_text_alphabet(options.fill_density@);
    lemma_number_text_alphabet(options.fill_overlap@);
    let density = options.fill_density@;
    let overlap = options.fill_overlap@;
    assert(options.arg_tokens()[2][options.arg_tokens()[2].len() - 2] == density[density.len() - 1]);
    assert(options.arg_tokens()[5][options.arg_tokens()[5].len() - 2] == overlap[overlap.len() - 1]);
}

/// The connection argument reads `connected` when the infill's lines are to
/// be joined, and `notconnected` when they are not.
pub proof fn lemma_connection_token(options: SlicerOptions)
    ensures
        options.fill_connected ==> options.arg_tokens()[4] == "--infill-connection connected"@,
        !options.fill_connected ==> options.arg_tokens()[4]
            == "--infill-connection notconnected"@,
{
    reveal_strlit("--infill-connection ");
    reveal_strlit("connected");
    reveal_strlit("notconnected");
    reveal_strlit("--infill-connection connected");
    reveal_strlit("--infill-connection notconnected");
    if options.fill_connected {
        assert(options.arg_tokens()[4] =~= "--infill-connection connected"@);
    } else {
        assert(options.arg_tokens()[4] =~= "--infill-connection notconnected"@);
    }
}

} // verus!
