//! A value shown as the text of its JSON rendering.
use vstd::prelude::*;

use super::json::{json_str, quote, JsonBody};

verus! {

/// Wraps a value so that it is carried as a JSON string holding the
/// value's own JSON text.
#[derive(Clone, Debug, PartialEq)]
pub struct JsonDisplay<T>(pub T);

impl<T: JsonBody> JsonDisplay<T> {
    /// The displayed text: the JSON text of the wrapped value.
    pub fn display_text(&self) -> (r: Result<String, serde_json::Error>)
        ensures
            r matches Ok(t) && t@ == self.0.json(),
    {
        self.0.to_json()
    }
}

impl<T: JsonBody> JsonBody for JsonDisplay<T> {
    /// As a value, the displayed text is written as a JSON string.
    open spec fn json(&self) -> Seq<char> {
        json_str(self.0.json())
    }

    fn to_json(&self) -> (r: Result<String, serde_json::Error>) {
        let inner = self.0.to_json()?;
        quote(inner.as_str())
    }
}

} // verus!
