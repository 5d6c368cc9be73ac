//! Writing the configuration file from what the user answered.

use vstd::prelude::*;
use vstd::string::StringExecFns;
use crate::error::{ErrorView, LinearError};
use crate::text::{chars_of, same_text, trim_text, trimmed};

verus! {

/// Whether an answer agrees to overwrite: it is `y` or `Y`, whitespace at
/// its ends aside.
pub open spec fn agrees(answer: Seq<char>) -> bool {
    trimmed(answer) == "y"@ || trimmed(answer) == "Y"@
}

/// The text of a configuration file: the credential, and the default team
/// where one was given; none without a credential. Both answers count
/// without the whitespace at their ends.
pub open spec fn config_text(api_key: Seq<char>, default_team: Seq<char>) -> Option<Seq<char>> {
    if trimmed(api_key).len() == 0 {
        None
    } else {
        Some(
            "api_key = \""@ + trimmed(api_key) + "\"\n"@ + (if trimmed(default_team).len() == 0 {
                Seq::empty()
            } else {
                "default_team = \""@ + trimmed(default_team) + "\"\n"@
            }),
        )
    }
}

/// Whether an answer agrees to overwrite an existing configuration file.
pub fn confirms(answer: &str) -> (r: bool)
    ensures
        r == agrees(answer@),
{
    let a = trim_text(answer);
    same_text(a.as_str(), "y") || same_text(a.as_str(), "Y")
}

/// The text of the configuration file for the two answers.
pub fn render_config(api_key: &str, default_team: &str) -> (r: Result<String, LinearError>)
    ensures
        match config_text(api_key@, default_team@) {
            Some(text) => r matches Ok(t) && t@ == text,
            None => r matches Err(e) && e@ == ErrorView::MissingApiKey,
        },
{
    let key = trim_text(api_key);
    if chars_of(key.as_str()).len() == 0 {
        return Err(LinearError::MissingApiKey);
    }
    let mut t = String::from_str("api_key = \"");
    t.append(key.as_str());
    t.append("\"\n");
    let team = trim_text(default_team);
    if chars_of(team.as_str()).len() != 0 {
        t.append("default_team = \"");
        t.append(team.as_str());
        t.append("\"\n");
    }
    Ok(t)
}

} // verus!
