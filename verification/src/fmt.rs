use crate::args::ColorChoice;
use crate::color::{Style, StyledStr};
use vstd::prelude::*;

verus! {

/// A message on its way to the standard output, with the color choice that
/// it is printed under.
#[derive(Clone, Debug, PartialEq, Eq)]
pub struct Printed {
    pub content: StyledStr,
    pub mode: ColorChoice,
}

impl View for Printed {
    type V = (Seq<(Option<Style>, Seq<char>)>, ColorChoice);

    open spec fn view(&self) -> (Message, ColorChoice) {
        (self.content@, self.mode)
    }
}

/// A message as contracts see it.
pub type Message = Seq<(Option<Style>, Seq<char>)>;

/// What printing leaves on the standard output, as contracts see it.
pub type Output = Seq<(Message, ColorChoice)>;
/// The messages of `printed` as contracts see them.
pub open spec fn messages(printed: Seq<Printed>) -> Output {
    printed.map_values(|message: Printed| message@)
}

/// Whether output is colored under `mode`, given whether it goes to a
/// terminal.
pub open spec fn colored_under(mode: ColorChoice, terminal: bool) -> bool {
    mode == ColorChoice::Always || (mode == ColorChoice::Auto && terminal)
}

/// `is` of atty, asked of the standard output: whether it is a terminal.
/// Nothing is claimed of the answer, which is the machine's.
#[verifier::external_body]
pub(crate) fn stdout_is_terminal() -> (terminal: bool) {
    atty::is(atty::Stream::Stdout)
}

/// Decides whether to color output that is printed under `mode`.
pub fn use_color(mode: ColorChoice, terminal: bool) -> (colored: bool)
    ensures
        colored == colored_under(mode, terminal),
{
    mode == ColorChoice::Always || (mode == ColorChoice::Auto && terminal)
}

} // verus!
