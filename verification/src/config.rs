//! Command-line settings the server runs with, and the computation of the
//! watch root from the source path.

use vstd::prelude::*;

verus! {

/// The server's settings: the source file to watch, the address to serve
/// on, the passthrough compiler options, and an optional custom container
/// page.
pub struct Args {
    /// elm source file to watch
    pub source: String,
    /// Address to bind to.
    pub address: String,
    /// options to put after the `elm make` command
    pub elm_args: Option<Vec<String>>,
    /// Custom HTML file to serve
    pub container: Option<String>,
}

impl Default for Args {
    /// The conventional entry point, a loopback bind address, no
    /// passthrough options and no custom container.
    fn default() -> (args: Args)
        ensures
            args.source@ == "src/Main.elm"@,
            args.address@ == "localhost:9000"@,
            args.elm_args is None,
            args.container is None,
    {
        Args {
            source: "src/Main.elm".to_owned(),
            address: "localhost:9000".to_owned(),
            elm_args: None,
            container: None,
        }
    }
}

impl Args {
    /// The passthrough option list for the compiler: the given one, or
    /// empty when none was given.
    pub fn into_elm_options(self) -> (options: Vec<String>)
        ensures
            match self.elm_args {
                Some(given) => options == given,
                None => options@ =~= Seq::<String>::empty(),
            },
    {
        match self.elm_args {
            Some(given) => given,
            None => Vec::new(),
        }
    }
}

/// The directory part of a path: everything before the last separator.
pub open spec fn dir_prefix(path: Seq<char>) -> Seq<char>
    decreases path.len(),
{
    if path.len() == 0 {
        Seq::empty()
    } else if path.last() == '/' {
        path.drop_last()
    } else {
        dir_prefix(path.drop_last())
    }
}

/// The directory to watch for a given source path: its directory part, or
/// the current directory when the path has none.
pub open spec fn watch_root_of(path: Seq<char>) -> Seq<char> {
    if dir_prefix(path).len() == 0 {
        "."@
    } else {
        dir_prefix(path)
    }
}

/// Compute the directory to watch for a given source path.
pub fn watch_root(source: &str) -> (root: String)
    ensures
        root@ == watch_root_of(source@),
{
    let n = source.unicode_len();
    proof {
        assert(source@.take(n as int) =~= source@);
    }
    let mut i: usize = n;
    while i > 0
        invariant
            i <= n,
            n == source@.len(),
            dir_prefix(source@) == dir_prefix(source@.take(i as int)),
        decreases i,
    {
        proof {
            assert(source@.take(i as int).drop_last() =~= source@.take(i as int - 1));
        }
        if source.get_char(i - 1) == '/' {
            proof {
                assert(source@.take(i as int).last() == source@[i as int - 1]);
            }
            if i == 1 {
                return ".".to_owned();
            }
            let prefix = source.substring_char(0, i - 1);
            return prefix.to_owned();
        }
        i -= 1;
    }
    proof {
        assert(source@.take(0) =~= Seq::<char>::empty());
    }
    ".".to_owned()
}

} // verus!
