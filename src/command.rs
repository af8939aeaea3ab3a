//! Descriptions of external commands: a single program with its arguments,
//! and a pipeline of two programs.
use vstd::prelude::*;
use vstd::string::*;

verus! {

/// A program and its argument list, as plain text.
pub struct Invocation {
    pub program: String,
    pub args: Vec<String>,
}

/// What an [`Invocation`] describes.
pub struct InvocationSpec {
    pub program: Seq<char>,
    pub args: Seq<Seq<char>>,
}

impl View for Invocation {
    type V = InvocationSpec;

    open spec fn view(&self) -> InvocationSpec {
        InvocationSpec { program: self.program@, args: self.args.deep_view() }
    }
}

/// Two programs, the standard output of `source` feeding the standard input
/// of `sink`; the output of the pipeline is that of `sink`.
pub struct Pipeline {
    pub source: Invocation,
    pub sink: Invocation,
}

/// What a [`Pipeline`] describes.
pub struct PipelineSpec {
    pub source: InvocationSpec,
    pub sink: InvocationSpec,
}

impl View for Pipeline {
    type V = PipelineSpec;

    open spec fn view(&self) -> PipelineSpec {
        PipelineSpec { source: self.source@, sink: self.sink@ }
    }
}

/// Why running a command failed.
#[derive(Clone, Copy, Debug, PartialEq, Eq, Structural)]
pub enum RunError {
    /// The program could not be started.
    Spawn,
    /// The output was not valid UTF-8.
    Encoding,
    /// The stream between the two stages of a pipeline could not be attached.
    Pipe,
}

/// The views of a list of string slices.
pub open spec fn views_of(args: Seq<&str>) -> Seq<Seq<char>> {
    args.map_values(|a: &str| a@)
}

/// Describes `program` run with `args`.
pub fn invocation(program: &str, args: &[&str]) -> (r: Invocation)
    ensures
        r@.program == program@,
        r@.args == views_of(args@),
{
    let mut owned: Vec<String> = Vec::new();
    let mut i: usize = 0;
    while i < args.len()
        invariant
            i <= args@.len(),
            owned.deep_view() == views_of(args@.subrange(0, i as int)),
        decreases args@.len() - i,
    {
        let arg: &str = args[i];
        let ghost before = owned.deep_view();
        owned.push(String::from_str(arg));
        assert(owned.deep_view() =~= before.push(arg@));
        i = i + 1;
        assert(views_of(args@.subrange(0, i as int)) =~= before.push(arg@));
    }
    assert(args@.subrange(0, args@.len() as int) =~= args@);
    Invocation { program: String::from_str(program), args: owned }
}

/// Describes the pipeline `source | sink`.
pub fn pipeline(source: Invocation, sink: Invocation) -> (r: Pipeline)
    ensures
        r@ == (PipelineSpec { source: source@, sink: sink@ }),
{
    Pipeline { source, sink }
}

} // verus!
