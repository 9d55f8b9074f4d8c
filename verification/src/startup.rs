//! What has to hold before the tailer starts.

use vstd::prelude::*;

verus! {

/// Why the tailer cannot start.
#[derive(Clone, Copy, Debug, PartialEq, Eq)]
pub enum StartupError {
    /// No path to watch was given.
    NoPaths,
}

/// The paths to watch: the arguments after the program's name. It is an
/// error to give none.
pub fn paths_to_watch(args: &Vec<String>) -> (paths: Result<Vec<String>, StartupError>)
    ensures
        match paths {
            Ok(roots) => args@.len() > 1 && roots.deep_view() == args.deep_view().skip(1),
            Err(error) => args@.len() <= 1 && error == StartupError::NoPaths,
        },
{
    if args.len() <= 1 {
        return Err(StartupError::NoPaths);
    }
    let mut roots: Vec<String> = Vec::new();
    let mut i: usize = 1;
    while i < args.len()
        invariant
            1 <= i <= args@.len(),
            roots.deep_view() == args.deep_view().subrange(1, i as int),
        decreases args@.len() - i,
    {
        let ghost before = roots.deep_view();
        let root = args[i].clone();
        roots.push(root);
        assert(roots.deep_view() =~= before.push(args@[i as int]@));
        i += 1;
        assert(roots.deep_view() =~= args.deep_view().subrange(1, i as int));
    }
    assert(args.deep_view().subrange(1, i as int) =~= args.deep_view().skip(1));
    Ok(roots)
}

} // verus!
