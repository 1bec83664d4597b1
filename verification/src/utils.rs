use vstd::prelude::*;

verus! {

/// Whether `serde_json` reads `text` as one JSON value and nothing after it.
pub uninterp spec fn json_parses(text: Seq<char>) -> bool;

/// `serde_json::from_str` into `serde::de::IgnoredAny`: whether `text` is one
/// JSON value, whatever the value is.
#[verifier::external_body]
fn text_is_json(text: &str) -> (r: bool)
    ensures
        r == json_parses(text@),
{
    serde_json::from_str::<serde::de::IgnoredAny>(text).is_ok()
}

/// Texts that can tell whether they are JSON.
pub trait IsJson {
    /// Whether the text is JSON.
    spec fn holds_json(&self) -> bool;

    /// Whether the text is JSON.
    fn is_json(&self) -> (r: bool)
        ensures
            r == self.holds_json(),
    ;
}

impl IsJson for String {
    open spec fn holds_json(&self) -> bool {
        json_parses(self@)
    }

    fn is_json(&self) -> (r: bool) {
        text_is_json(self.as_str())
    }
}

} // verus!
