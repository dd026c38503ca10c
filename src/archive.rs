//! Gathering the engine's objects and sub-libraries into one static archive.

use vstd::prelude::*;
use vstd::string::StringExecFns;
use crate::build_error::BuildError;
use crate::platform::PlatformConfig;
use crate::text::same_text;

verus! {

/// The candidates whose flag in `present` is set, in their order.
pub open spec fn kept(c: Seq<Seq<char>>, present: Seq<bool>) -> Seq<Seq<char>>
    decreases c.len(),
{
    if c.len() == 0 || present.len() == 0 {
        seq![]
    } else {
        let k = kept(c.drop_last(), present.drop_last());
        if present.last() {
            k.push(c.last())
        } else {
            k
        }
    }
}

/// The views of a list of strings.
pub open spec fn texts(v: Seq<String>) -> Seq<Seq<char>> {
    v.map_values(|s: String| s@)
}

/// The archive manifest: the candidate paths that exist on disk, in their
/// order. An empty manifest is an error, never an empty archive.
pub fn archive_inputs(candidates: &Vec<String>, present: &Vec<bool>) -> (r: Result<
    Vec<String>,
    BuildError,
>)
    requires
        candidates@.len() == present@.len(),
    ensures
        r is Ok <==> kept(texts(candidates@), present@).len() > 0,
        r matches Ok(v) ==> texts(v@) == kept(texts(candidates@), present@),
        r matches Err(e) ==> e is EmptyArchive,
{
    let mut v: Vec<String> = Vec::new();
    let mut i: usize = 0;
    while i < candidates.len()
        invariant
            candidates@.len() == present@.len(),
            0 <= i <= candidates@.len(),
            texts(v@) == kept(
                texts(candidates@).subrange(0, i as int),
                present@.subrange(0, i as int),
            ),
        decreases candidates@.len() - i,
    {
        let ghost c = texts(candidates@);
        assert(c.subrange(0, i + 1).drop_last() =~= c.subrange(0, i as int));
        assert(present@.subrange(0, i + 1).drop_last() =~= present@.subrange(0, i as int));
        if present[i] {
            let s = candidates[i].clone();
            v.push(s);
            assert(texts(v@) =~= texts(v@).drop_last().push(s@));
            assert(texts(v@).drop_last() =~= kept(c.subrange(0, i as int), present@.subrange(0, i as int)));
        }
        i = i + 1;
    }
    assert(texts(candidates@).subrange(0, i as int) =~= texts(candidates@));
    assert(present@.subrange(0, i as int) =~= present@);
    if v.len() == 0 {
        Err(BuildError::EmptyArchive)
    } else {
        Ok(v)
    }
}

/// When none of the candidates exists on disk the manifest is empty, so
/// `archive_inputs` fails rather than yield an empty archive.
pub proof fn lemma_nothing_present_nothing_kept(c: Seq<Seq<char>>, present: Seq<bool>)
    requires
        c.len() == present.len(),
        forall|i: int| 0 <= i < present.len() ==> !present[i],
    ensures
        kept(c, present).len() == 0,
    decreases c.len(),
{
    if c.len() > 0 {
        lemma_nothing_present_nothing_kept(c.drop_last(), present.drop_last());
    }
}

/// An archiving tool and its arguments.
#[derive(Clone, Debug)]
pub struct ArchiveCommand {
    pub tool: String,
    pub args: Vec<String>,
}

/// `cmd` archives `inputs` into `output`: with `libtool -static -o` on
/// Apple desktop builds, with `ar rcs` elsewhere.
pub open spec fn archive_command_for(
    cmd: ArchiveCommand,
    apple: bool,
    output: Seq<char>,
    inputs: Seq<Seq<char>>,
) -> bool {
    if apple {
        &&& cmd.tool@ == "libtool"@
        &&& texts(cmd.args@) == seq!["-static"@, "-o"@, output] + inputs
    } else {
        &&& cmd.tool@ == "ar"@
        &&& texts(cmd.args@) == seq!["rcs"@, output] + inputs
    }
}

/// The command that writes the static archive `output` from `inputs`.
pub fn archive_command(config: &PlatformConfig, output: &str, inputs: &Vec<String>) -> (r:
    ArchiveCommand)
    ensures
        archive_command_for(r, config.make_target@ == "osx-lib"@, output@, texts(inputs@)),
{
    let apple = same_text(config.make_target.as_str(), "osx-lib");
    let mut args: Vec<String> = Vec::new();
    let tool = if apple {
        args.push(String::from_str("-static"));
        args.push(String::from_str("-o"));
        String::from_str("libtool")
    } else {
        args.push(String::from_str("rcs"));
        String::from_str("ar")
    };
    args.push(String::from_str(output));
    let ghost head = texts(args@);
    let mut i: usize = 0;
    while i < inputs.len()
        invariant
            0 <= i <= inputs@.len(),
            texts(args@) == head + texts(inputs@).subrange(0, i as int),
        decreases inputs@.len() - i,
    {
        let s = inputs[i].clone();
        let ghost prev = args@;
        args.push(s);
        assert(texts(args@) =~= texts(prev).push(s@));
        assert(texts(inputs@).subrange(0, i + 1) =~= texts(inputs@).subrange(0, i as int).push(
            inputs@[i as int]@,
        ));
        assert(texts(args@) =~= head + texts(inputs@).subrange(0, i + 1));
        i = i + 1;
    }
    assert(texts(inputs@).subrange(0, i as int) =~= texts(inputs@));
    let r = ArchiveCommand { tool, args };
    if apple {
        assert(head =~= seq!["-static"@, "-o"@, output@]);
    } else {
        assert(head =~= seq!["rcs"@, output@]);
    }
    r
}

/// The dynamic library that would shadow a freshly built static archive:
/// linkers prefer it when both exist, so it has to go.
pub fn shadowing_dynamic_library(config: &PlatformConfig) -> (r: String)
    ensures
        r@ == (if config.make_target@ == "osx-lib"@ {
            "libzenroom.dylib"@
        } else {
            "libzenroom.so"@
        }),
{
    if same_text(config.make_target.as_str(), "osx-lib") {
        String::from_str("libzenroom.dylib")
    } else {
        String::from_str("libzenroom.so")
    }
}

} // verus!
