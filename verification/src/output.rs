//! The data side of the terminal output layer: where a message goes,
//! the prompt styles, the yes/no confirmation state, and the wording of
//! the retry notice. Rendering and key handling live with the
//! surrounding process.

use vstd::prelude::*;
use vstd::string::StringExecFns;

verus! {

/// Where a message is written.
#[derive(Clone, Debug, Copy, PartialEq, Eq, Structural)]
pub enum Output {
    Stdout,
    Stderr,
    Tty,
}

/// How the password prompt is drawn.
#[derive(Debug, Clone, Copy, PartialEq, Eq, Structural)]
pub enum PromptStyle {
    Minimal,
    Block,
    Shell,
}

impl Default for PromptStyle {
    fn default() -> (r: Self)
        ensures
            r is Block,
    {
        PromptStyle::Block
    }
}

/// A yes/no confirmation: the current selection and the prompt text.
#[derive(Debug, Clone)]
pub struct Confirmation {
    pub selected: bool,
    pub prompt: String,
}

impl Default for Confirmation {
    fn default() -> (r: Self)
        ensures
            !r.selected,
            r.prompt@.len() == 0,
    {
        Confirmation { selected: false, prompt: String::new() }
    }
}

impl Confirmation {
    /// The same confirmation with its prompt text set.
    pub fn with_prompt(self, prompt: &str) -> (r: Self)
        ensures
            r.selected == self.selected,
            r.prompt@ == prompt@,
    {
        Confirmation { selected: self.selected, prompt: String::from_str(prompt) }
    }

    /// Toggles the selection (the left/right keys of the prompt).
    pub fn change_select(&mut self)
        ensures
            final(self).selected == !old(self).selected,
            final(self).prompt == old(self).prompt,
    {
        self.selected = !self.selected;
    }
}

/// The wording of the retry notice: "try" for one remaining try,
/// "tries" otherwise.
pub fn try_word(tries: usize) -> (r: &'static str)
    ensures
        tries > 1 ==> r@ == "tries"@,
        tries <= 1 ==> r@ == "try"@,
{
    if tries > 1 {
        "tries"
    } else {
        "try"
    }
}

} // verus!
