//! What the core knows about the external compiler invocation.
//!
//! The compiler itself is an external collaborator: it is handed the source
//! path and a passthrough option list, and writes the build artifact. The
//! core's own obligation is to know where that artifact lands — by reading
//! an `--output=` style flag out of the option list, with a fixed default —
//! and what script reference is injected into the artifact so the browser
//! opens the reload channel.

use vstd::prelude::*;

verus! {

/// The option prefix that selects the artifact location.
pub open spec fn output_flag() -> Seq<char> {
    "--output="@
}

/// The artifact filename used when no output option is given.
pub open spec fn default_artifact() -> Seq<char> {
    "index.html"@
}

/// Whether one option selects the artifact location.
pub open spec fn has_output_flag(opt: Seq<char>) -> bool {
    opt.len() >= output_flag().len() && opt.subrange(0, output_flag().len() as int)
        == output_flag()
}

/// The artifact path an output option selects.
pub open spec fn output_value(opt: Seq<char>) -> Seq<char> {
    opt.subrange(output_flag().len() as int, opt.len() as int)
}

/// The artifact path resulting from a whole option list: the value of the
/// last output option, or the default when there is none.
pub open spec fn artifact_of(opts: Seq<Seq<char>>) -> Seq<char>
    decreases opts.len(),
{
    if opts.len() == 0 {
        default_artifact()
    } else if has_output_flag(opts.last()) {
        output_value(opts.last())
    } else {
        artifact_of(opts.drop_last())
    }
}

/// Decide whether one passthrough option selects the artifact location.
fn is_output_option(opt: &str) -> (has: bool)
    ensures
        has == has_output_flag(opt@),
{
    proof {
        reveal_strlit("--output=");
    }
    let n = opt.unicode_len();
    if n < 9 {
        return false;
    }
    let mut i: usize = 0;
    while i < 9
        invariant
            i <= 9,
            n == opt@.len(),
            n >= 9,
            output_flag().len() == 9,
            forall|j: int| 0 <= j < i ==> opt@[j] == output_flag()[j],
        decreases 9 - i,
    {
        proof {
            reveal_strlit("--output=");
        }
        if opt.get_char(i) != "--output=".get_char(i) {
            proof {
                if has_output_flag(opt@) {
                    let k = i as int;
                    assert(opt@.subrange(0, output_flag().len() as int)[k] == opt@[k]);
                }
            }
            return false;
        }
        i += 1;
    }
    proof {
        assert(opt@.subrange(0, 9) =~= output_flag());
    }
    true
}

/// The settings read out of the passthrough compiler options.
#[derive(Debug)]
pub struct ElmArgs {
    /// output of the compilation.
    pub output: String,
}

impl ElmArgs {
    /// Read the artifact location out of a passthrough option list: the
    /// value of the last `--output=` option wins, and without one the
    /// default filename is used.
    pub fn from_options(options: &Vec<String>) -> (args: ElmArgs)
        ensures
            args.output@ == artifact_of(options.deep_view()),
    {
        let ghost opts = options.deep_view();
        let mut output: String = "index.html".to_owned();
        let mut i: usize = 0;
        while i < options.len()
            invariant
                i <= options.len(),
                opts == options.deep_view(),
                opts.len() == options.len(),
                output@ == artifact_of(opts.take(i as int)),
            decreases options.len() - i,
        {
            proof {
                assert(opts[i as int] == options@[i as int]@);
            }
            let opt = &options[i];
            if is_output_option(opt.as_str()) {
                let n = opt.as_str().unicode_len();
                proof {
                    reveal_strlit("--output=");
                }
                output = opt.as_str().substring_char(9, n).to_owned();
            }
            proof {
                assert(opts.take(i as int + 1).drop_last() =~= opts.take(i as int));
                assert(opts.take(i as int + 1).last() == opts[i as int]);
            }
            i += 1;
        }
        proof {
            assert(opts.take(options.len() as int) =~= opts);
        }
        ElmArgs { output }
    }
}

/// The script reference appended to the build artifact so the served page
/// loads the client that opens the reload channel.
pub open spec fn reload_script_tag_spec() -> Seq<char> {
    "\n\n<script src=\"/ws_client.js\"></script>"@
}

/// The exact bytes to append to the artifact after every build.
pub fn reload_script_tag() -> (tag: String)
    ensures
        tag@ == reload_script_tag_spec(),
{
    "\n\n<script src=\"/ws_client.js\"></script>".to_owned()
}

} // verus!
