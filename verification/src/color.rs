use vstd::prelude::*;

verus! {

/// What a piece of a message stands for; the terminal picks the colors.
#[derive(Clone, Copy, Debug, PartialEq, Eq, Structural)]
pub enum Style {
    /// A value taken over as it is: a name, a number.
    Literal,
    /// Something that went well.
    Good,
    /// Something that needs attention.
    Warning,
    /// Something that went wrong.
    Error,
    /// A remark beside the message.
    Hint,
}

/// A run of characters under one style, or under none.
#[derive(Clone, Debug, PartialEq, Eq)]
pub struct Piece {
    pub style: Option<Style>,
    pub text: String,
}

/// A message made of styled pieces, in the order in which they are printed.
#[derive(Clone, Debug, PartialEq, Eq)]
pub struct StyledStr {
    pub pieces: Vec<Piece>,
}

impl View for Piece {
    type V = (Option<Style>, Seq<char>);

    open spec fn view(&self) -> (Option<Style>, Seq<char>) {
        (self.style, self.text@)
    }
}

impl View for StyledStr {
    type V = Seq<(Option<Style>, Seq<char>)>;

    open spec fn view(&self) -> Seq<(Option<Style>, Seq<char>)> {
        self.pieces@.map_values(|piece: Piece| piece@)
    }
}

impl StyledStr {
    /// The empty message.
    pub fn new() -> (msg: StyledStr)
        ensures
            msg@ == Seq::<(Option<Style>, Seq<char>)>::empty(),
    {
        StyledStr { pieces: Vec::new() }
    }

    /// Adds `text` under `style` at the end of the message.
    pub fn stylize(&mut self, style: Option<Style>, text: &str)
        ensures
            final(self)@ == old(self)@.push((style, text@)),
    {
        self.pieces.push(Piece { style, text: text.to_owned() });
    }

    /// Adds `text` without a style.
    pub fn none(&mut self, text: &str)
        ensures
            final(self)@ == old(self)@.push((None, text@)),
    {
        self.stylize(None, text);
    }

    /// Adds `text` as a literal value.
    pub fn literal(&mut self, text: &str)
        ensures
            final(self)@ == old(self)@.push((Some(Style::Literal), text@)),
    {
        self.stylize(Some(Style::Literal), text);
    }

    /// Adds `text` as a warning.
    pub fn warning(&mut self, text: &str)
        ensures
            final(self)@ == old(self)@.push((Some(Style::Warning), text@)),
    {
        self.stylize(Some(Style::Warning), text);
    }

    /// Adds `text` as a hint.
    pub fn hint(&mut self, text: &str)
        ensures
            final(self)@ == old(self)@.push((Some(Style::Hint), text@)),
    {
        self.stylize(Some(Style::Hint), text);
    }
}

} // verus!
