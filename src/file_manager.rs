use vstd::prelude::*;

verus! {

/// A request to the file manager to show a saved file: the program to start
/// and its arguments.
#[derive(Debug)]
pub struct RevealCommand {
    /// The program to start.
    pub program: String,
    /// Its arguments, in order.
    pub args: Vec<String>,
}

/// The arguments of a command as character sequences.
pub open spec fn args_view(args: Seq<String>) -> Seq<Seq<char>> {
    args.map_values(|a: String| a@)
}

/// The request that reveals `file_path` in the file manager, on a platform
/// that offers one (`can_reveal`); elsewhere there is nothing to do.
pub fn open_in_finder(file_path: &str, can_reveal: bool) -> (r: Option<RevealCommand>)
    ensures
        r is Some <==> can_reveal,
        r is Some ==> r->Some_0.program@ == "open"@ && args_view(r->Some_0.args@) == seq![
            "-R"@,
            file_path@,
        ],
{
    if can_reveal {
        let mut args: Vec<String> = Vec::new();
        args.push(String::from_str("-R"));
        args.push(String::from_str(file_path));
        assert(args_view(args@) =~= seq!["-R"@, file_path@]);
        Some(RevealCommand { program: String::from_str("open"), args })
    } else {
        None
    }
}

/// The warning text when the file manager could not be asked.
pub fn reveal_failure(detail: &str) -> (r: String)
    ensures
        r@ == "Failed to open Finder: "@ + detail@,
{
    String::from_str("Failed to open Finder: ").concat(detail)
}

} // verus!
