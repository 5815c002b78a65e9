//! The state behind the calculator's input form.
//!
//! The form itself — widgets, key handling, the render loop — is a plain
//! consumer that lives outside this library.  What is kept here is the
//! form's state and the one decision it makes: how an evaluation outcome
//! is recorded on the result and error lines.

use vstd::prelude::*;
use vstd::string::StringExecFns;

verus! {

/// The calculator form's state: the text being edited, the result line,
/// and the error line.
pub struct CalculatorApp {
    pub input: String,
    pub result: String,
    pub error: String,
}

impl Default for CalculatorApp {
    /// A fresh form: all three fields empty.
    fn default() -> (r: Self)
        ensures
            r.input@ == Seq::<char>::empty(),
            r.result@ == Seq::<char>::empty(),
            r.error@ == Seq::<char>::empty(),
    {
        CalculatorApp { input: String::new(), result: String::new(), error: String::new() }
    }
}

impl CalculatorApp {
    /// Records an evaluation outcome on the form.  A value is shown on the
    /// result line under the `Result: ` prefix and the error line is
    /// cleared; an error is shown on the error line under the `Error: `
    /// prefix and the result line is cleared.  The caller evaluates
    /// `self.input` and hands in the outcome, the value already rendered
    /// as text; the input line is left as it is.
    pub fn calculate(&mut self, outcome: Result<String, String>)
        ensures
            final(self).input@ == old(self).input@,
            outcome matches Ok(v) ==> final(self).result@ == "Result: "@ + v@
                && final(self).error@ == Seq::<char>::empty(),
            outcome matches Err(e) ==> final(self).error@ == "Error: "@ + e@
                && final(self).result@ == Seq::<char>::empty(),
    {
        match outcome {
            Ok(v) => {
                let mut shown = String::from_str("Result: ");
                shown.append(v.as_str());
                self.result = shown;
                self.error = String::new();
            },
            Err(e) => {
                let mut shown = String::from_str("Error: ");
                shown.append(e.as_str());
                self.error = shown;
                self.result = String::new();
            },
        }
    }
}

} // verus!
