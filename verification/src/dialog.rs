//! Outcome of the native folder dialog.

use vstd::prelude::*;

verus! {

/// Result code of the native file dialog.
#[allow(non_camel_case_types)]
#[derive(Debug, Clone, Copy, PartialEq, Eq, Hash, Structural)]
pub enum nfdresult_t {
    /// The dialog failed.
    NFD_ERROR,
    /// The operator chose a path.
    NFD_OKAY,
    /// The operator dismissed the dialog.
    NFD_CANCEL,
}

impl nfdresult_t {
    /// The code's number: 0 for an error, 1 for a choice, 2 for a
    /// dismissal.
    pub open spec fn spec_code(self) -> u32 {
        match self {
            nfdresult_t::NFD_ERROR => 0,
            nfdresult_t::NFD_OKAY => 1,
            nfdresult_t::NFD_CANCEL => 2,
        }
    }

    /// The code's number.
    pub fn code(self) -> (n: u32)
        ensures
            n == self.spec_code(),
    {
        match self {
            nfdresult_t::NFD_ERROR => 0,
            nfdresult_t::NFD_OKAY => 1,
            nfdresult_t::NFD_CANCEL => 2,
        }
    }

    /// The code with the given number, if there is one.
    pub fn from_code(n: u32) -> (result: Option<Self>)
        ensures
            match result {
                Some(r) => r.spec_code() == n,
                None => n > 2,
            },
    {
        if n == 0 {
            Some(nfdresult_t::NFD_ERROR)
        } else if n == 1 {
            Some(nfdresult_t::NFD_OKAY)
        } else if n == 2 {
            Some(nfdresult_t::NFD_CANCEL)
        } else {
            None
        }
    }
}

/// The folder to write under once the dialog has closed: the chosen path
/// after a choice, the folder as it was after anything else.
pub open spec fn folder_after(current: Seq<char>, result: nfdresult_t, chosen: Seq<char>) -> Seq<
    char,
> {
    if result == nfdresult_t::NFD_OKAY {
        chosen
    } else {
        current
    }
}

/// Decides `folder_after`.
pub fn choose_dir(current: String, result: nfdresult_t, chosen: String) -> (folder: String)
    ensures
        folder@ == folder_after(current@, result, chosen@),
{
    match result {
        nfdresult_t::NFD_OKAY => chosen,
        _ => current,
    }
}

} // verus!
