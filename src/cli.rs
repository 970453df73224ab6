use vstd::prelude::*;

verus! {

/// Splits the program's arguments (its own name first) into the command to
/// run and that command's arguments; `None` when no command is given.
pub fn command_line(args: Vec<String>) -> (r: Option<(String, Vec<String>)>)
    ensures
        r is None <==> args@.len() < 2,
        r matches Some((command, rest)) ==> command == args@[1] && rest@ == args@.subrange(
            2,
            args@.len() as int,
        ),
{
    if args.len() < 2 {
        None
    } else {
        let mut rest = args;
        let _program = rest.remove(0);
        let command = rest.remove(0);
        assert(rest@ =~= args@.subrange(2, args@.len() as int));
        Some((command, rest))
    }
}

} // verus!
