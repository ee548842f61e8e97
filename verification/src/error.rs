//! Errors that are worth telling apart.
use vstd::prelude::*;

verus! {

/// An error of the recorder's own.
#[derive(Debug, Clone, Copy)]
pub enum RecorderError {
    /// A flag that is there for later.
    NotYetImplemented { flag: &'static str },
}

impl RecorderError {
    /// What to tell the user.
    pub open spec fn text(self) -> Seq<char> {
        match self {
            RecorderError::NotYetImplemented { flag } => "--"@ + flag@
                + " is not implemented yet; it's reserved for a later milestone"@,
        }
    }

    /// What to tell the user.
    pub fn message(&self) -> (message: String)
        ensures
            message@ == self.text(),
    {
        let mut message = String::new();
        match self {
            RecorderError::NotYetImplemented { flag } => {
                message.append("--");
                message.append(flag);
                message.append(" is not implemented yet; it's reserved for a later milestone");
            },
        }
        assert(message@ =~= self.text());
        message
    }
}

/// A flag that is there for later is named as it is written on the command
/// line.
pub proof fn law_unimplemented_flags_are_named(flag: &'static str)
    ensures
        ({
            let text = RecorderError::NotYetImplemented { flag }.text();
            &&& text.take(2int + flag@.len()) == "--"@ + flag@
            &&& text.skip(2int + flag@.len())
                == " is not implemented yet; it's reserved for a later milestone"@
        }),
{
    reveal_strlit("--");
    let text = RecorderError::NotYetImplemented { flag }.text();
    assert(text.take(2int + flag@.len()) =~= "--"@ + flag@);
    assert(text.skip(2int + flag@.len())
        =~= " is not implemented yet; it's reserved for a later milestone"@);
}

} // verus!
