//! How a fatal failure of the application's run reaches the user.
use vstd::prelude::*;

verus! {

/// A blocking message dialog shown to the user.
#[derive(Debug)]
pub struct Dialog {
    pub title: String,
    pub body: String,
}

/// The title of the dialog that reports a fatal failure.
pub open spec fn error_title() -> Seq<char> {
    seq!['E', 'r', 'r', 'o', 'r']
}

/// The dialogs to show once the run has ended with `outcome`, where an error
/// is given by its text: none after a success, and after a failure exactly
/// one, titled "Error", whose body is the error's text unchanged.
pub fn dialogs_for(outcome: &Result<(), String>) -> (r: Vec<Dialog>)
    ensures
        match outcome {
            Ok(()) => r@.len() == 0,
            Err(e) => r@.len() == 1 && r@[0].title@ == error_title() && r@[0].body@ == e@,
        },
{
    let mut r: Vec<Dialog> = Vec::new();
    match outcome {
        Ok(()) => {},
        Err(e) => {
            let title = String::from_str("Error");
            proof {
                reveal_strlit("Error");
                assert(title@ =~= error_title());
            }
            r.push(Dialog { title, body: e.clone() });
        },
    }
    r
}

} // verus!
