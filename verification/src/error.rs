//! The errors of the library.

use vstd::prelude::*;

verus! {

/// Why a note could not be made or an update could not be planned.
#[derive(Debug)]
pub enum NoteError {
    /// The template engine refused the template or failed to render it; the
    /// text is the engine's own.
    Template(String),
    /// The outer template does not hold the placeholder for the note's body.
    MissingPlaceholder,
    /// The repository has no milestone with this title.
    MilestoneNotFound(String),
    /// A command that talks to the tracker was called without the owner,
    /// the repository or the token.
    MissingGithubArgs,
}

/// The message of an error, as a sequence of characters.
pub open spec fn message_of(error: NoteError) -> Seq<char> {
    match error {
        NoteError::Template(text) => "failed to render the note: "@ + text@,
        NoteError::MissingPlaceholder => "the note template lacks {content}"@,
        NoteError::MilestoneNotFound(title) => "milestone "@ + title@ + " not found"@,
        NoteError::MissingGithubArgs => "GitHub owner, repo, and token are mandatory"@,
    }
}

impl NoteError {
    /// The message to show for this error.
    pub fn message(&self) -> (text: String)
        ensures
            text@ == message_of(*self),
    {
        match self {
            NoteError::Template(engine_text) => {
                let mut text = String::from_str("failed to render the note: ");
                text.append(engine_text.as_str());
                text
            },
            NoteError::MissingPlaceholder => String::from_str("the note template lacks {content}"),
            NoteError::MilestoneNotFound(title) => {
                let mut text = String::from_str("milestone ");
                text.append(title.as_str());
                text.append(" not found");
                text
            },
            NoteError::MissingGithubArgs => String::from_str(
                "GitHub owner, repo, and token are mandatory",
            ),
        }
    }
}

} // verus!
