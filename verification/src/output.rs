//! The output policy: exactly one of three formats, never silently
//! defaulted on an unknown token.

use vstd::prelude::*;

use crate::text::str_eq;

verus! {

/// The format the result renderer is asked for.
#[derive(Clone, Copy, Debug, PartialEq, Eq, Structural)]
pub enum OutputFormat {
    Plain,
    Json,
    Yaml,
}

/// The format a token names: `json`, `yaml`, `plain`, with `text` an
/// alias for `Plain`; anything else names nothing.
pub open spec fn output_of_token(s: Seq<char>) -> Option<OutputFormat> {
    if s == "json"@ {
        Some(OutputFormat::Json)
    } else if s == "yaml"@ {
        Some(OutputFormat::Yaml)
    } else if s == "plain"@ || s == "text"@ {
        Some(OutputFormat::Plain)
    } else {
        None
    }
}

/// The format an optional token resolves to: an absent token resolves
/// to `Plain`, an unknown token to nothing.
pub open spec fn spec_output(tok: Option<Seq<char>>) -> Option<OutputFormat> {
    match tok {
        Some(s) => output_of_token(s),
        None => Some(OutputFormat::Plain),
    }
}

/// Resolve the optional output format token.
pub fn resolve_output(tok: &Option<String>) -> (r: Option<OutputFormat>)
    ensures
        r == spec_output(tok.deep_view()),
{
    match tok {
        Some(t) => {
            let s = t.as_str();
            if str_eq(s, "json") {
                Some(OutputFormat::Json)
            } else if str_eq(s, "yaml") {
                Some(OutputFormat::Yaml)
            } else if str_eq(s, "plain") || str_eq(s, "text") {
                Some(OutputFormat::Plain)
            } else {
                None
            }
        },
        None => Some(OutputFormat::Plain),
    }
}

/// Alias law: the tokens `text` and `plain` resolve to the same format,
/// and both to `Plain`.
pub proof fn lemma_text_plain_alias()
    ensures
        output_of_token("text"@) == output_of_token("plain"@),
        output_of_token("plain"@) == Some(OutputFormat::Plain),
{
    reveal_strlit("text");
    reveal_strlit("plain");
    reveal_strlit("json");
    reveal_strlit("yaml");
    assert("text"@.len() == 4);
    assert("json"@.len() == 4);
    assert("yaml"@.len() == 4);
    assert("plain"@.len() == 5);
    assert("text"@[0] == 't' && "json"@[0] == 'j' && "yaml"@[0] == 'y');
    assert("text"@ != "json"@);
    assert("text"@ != "yaml"@);
    assert("plain"@ != "json"@);
    assert("plain"@ != "yaml"@);
}

} // verus!
