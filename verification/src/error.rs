//! The error taxonomy shared by every component of the memory subsystem.

use vstd::prelude::*;
use vstd::string::*;

verus! {

/// The four failure classes of the core: malformed configuration or
/// arguments, a missing external resource, a filesystem failure, and an
/// address or offset outside a device's bounds.  Each carries a
/// human-readable detail string.
#[derive(Debug)]
pub enum CoreError {
    InvalidInput(String),
    ResourceNotFound(String),
    IOError(String),
    MemoryError(String),
}

/// The description of one error class: the introduction alone when there is
/// no detail, otherwise the introduction, a colon, and the detail, always
/// closed by a period.
pub open spec fn spec_described(intro: Seq<char>, detail: Seq<char>) -> Seq<char> {
    if detail.len() == 0 {
        intro + "."@
    } else {
        intro + ": "@ + detail + "."@
    }
}

/// The full descriptive text of an error, one fixed introduction per class.
pub open spec fn spec_describe(e: CoreError) -> Seq<char> {
    match e {
        CoreError::InvalidInput(d) => spec_described("The provided input was invalid"@, d@),
        CoreError::ResourceNotFound(d) => spec_described(
            "The required resource was not found"@,
            d@,
        ),
        CoreError::IOError(d) => spec_described("An IO error occurred"@, d@),
        CoreError::MemoryError(d) => spec_described("A memory error occurred"@, d@),
    }
}

fn described(intro: &str, detail: &String) -> (s: String)
    ensures
        s@ == spec_described(intro@, detail@),
{
    let mut s = String::new();
    s.append(intro);
    if detail.as_str().is_empty() {
        s.append(".");
    } else {
        s.append(": ");
        s.append(detail.as_str());
        s.append(".");
    }
    proof {
        assert(s@ =~= spec_described(intro@, detail@));
    }
    s
}

impl CoreError {
    /// The descriptive text of this error, suitable for showing to a user.
    pub fn describe(&self) -> (s: String)
        ensures
            s@ == spec_describe(*self),
    {
        match self {
            CoreError::InvalidInput(d) => described("The provided input was invalid", d),
            CoreError::ResourceNotFound(d) => described("The required resource was not found", d),
            CoreError::IOError(d) => described("An IO error occurred", d),
            CoreError::MemoryError(d) => described("A memory error occurred", d),
        }
    }
}

} // verus!
