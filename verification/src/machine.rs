use crate::ansi::sgr_texts;
use crate::args::{ColorChoice, PipelineLog, PipelineLogView};
use crate::color::{Style, StyledStr};
use crate::fmt::{messages, Message, Output, Printed};
use crate::section::{marker, Section, SectionType, SectionView};
use crate::utils::{print_msg, print_section};
use vstd::prelude::*;

verus! {

/// Type of current line in the parser
#[derive(Debug, PartialEq, Eq)]
pub enum State {
    Text,
    Section(Section),
}

/// Structure to drive the sections parsing
#[derive(Debug, PartialEq, Eq)]
pub struct StateMachine {
    pub state: State,
    pub sections: Vec<Section>,
}

/// A `StateMachine` as contracts see it: the marker that was read last and
/// has not taken effect yet, and the open sections, the innermost last.
pub struct StateMachineView {
    pub state: Option<SectionView>,
    pub sections: Seq<SectionView>,
}

impl View for State {
    type V = Option<SectionView>;

    open spec fn view(&self) -> Option<SectionView> {
        match self {
            State::Text => None,
            State::Section(section) => Some(section@),
        }
    }
}

impl View for StateMachine {
    type V = StateMachineView;

    open spec fn view(&self) -> StateMachineView {
        StateMachineView {
            state: self.state@,
            sections: self.sections@.map_values(|section: Section| section@),
        }
    }
}

/// The machine before the first line: no marker read, no section open.
pub open spec fn initial() -> StateMachineView {
    StateMachineView { state: None, sections: Seq::empty() }
}

/// Whether a line is shown while `sections` are open: always where the
/// filter asks for all lines or no section is open; else where no open
/// section is collapsed and one of them has the name that the filter asks
/// for.
pub open spec fn shown(sections: Seq<SectionView>, filter: PipelineLogView) -> bool {
    ||| filter.all
    ||| sections.len() == 0
    ||| {
        &&& forall|i: int| 0 <= i < sections.len() ==> !(#[trigger] sections[i]).collapsed
        &&& exists|i: int| 0 <= i < sections.len() && (#[trigger] sections[i]).name == filter.step
    }
}

/// The banner of a section: its title and name, a mark where the lines of
/// the section are not shown, and the line's end.
pub open spec fn banner(title: Seq<char>, section: SectionView, show_line: bool, colored: bool)
    -> Message {
    let head = seq![
        (Some(Style::Warning), "\n> "@ + title + " ["@),
        (Some(Style::Literal), section.name),
        (Some(Style::Warning), "]"@),
    ];
    let mark = if show_line {
        Seq::empty()
    } else if section.collapsed && colored {
        seq![(Some(Style::Warning), " <"@), (None, "\n"@)]
    } else {
        seq![(Some(Style::Warning), " <"@)]
    };
    head + mark + seq![(None::<Style>, "\n"@)]
}

/// A message of one piece without style.
pub open spec fn plain(text: Seq<char>) -> Message {
    seq![(None::<Style>, text)]
}

/// The color choice that banners are printed under.
pub open spec fn banner_mode(colored: bool) -> ColorChoice {
    if colored {
        ColorChoice::Always
    } else {
        ColorChoice::Never
    }
}

/// The open sections once the innermost is closed.
pub open spec fn closed(sections: Seq<SectionView>) -> Seq<SectionView> {
    if sections.len() > 0 {
        sections.drop_last()
    } else {
        sections
    }
}

/// The machine, the visibility of the line and what is printed once the
/// segment `text` of a line is read.
///
/// A segment that follows a marker gives the marker its effect. Behind a
/// start marker the segment is the title of the section: the section is
/// opened and its banner printed. Behind an end marker the innermost section
/// is closed, and the segment is read as a marker of its own. On colored
/// output either hides the rest of the line. Any other segment is read as a
/// marker, and where it is none it is printed at once on uncolored output,
/// if the line is shown.
pub open spec fn after_segment(
    machine: StateMachineView,
    show_line: bool,
    text: Seq<char>,
    filter: PipelineLogView,
    colored: bool,
    mode: ColorChoice,
) -> (StateMachineView, bool, Output) {
    match machine.state {
        None => match marker(text) {
            Some(section) => (
                StateMachineView { state: Some(section), sections: machine.sections },
                show_line,
                Seq::empty(),
            ),
            None => (
                machine,
                show_line,
                if show_line && !colored {
                    seq![(plain(text), mode)]
                } else {
                    Seq::empty()
                },
            ),
        },
        Some(section) => match section.type_ {
            SectionType::Start => {
                let sections = machine.sections.push(section);
                let show = shown(sections, filter);
                (
                    StateMachineView { state: None, sections },
                    show && !colored,
                    if colored && show {
                        seq![
                            (banner(text, section, show, colored), banner_mode(colored)),
                            (plain("\n"@), mode),
                        ]
                    } else {
                        seq![(banner(text, section, show, colored), banner_mode(colored))]
                    },
                )
            },
            SectionType::End => {
                let sections = closed(machine.sections);
                (
                    StateMachineView { state: marker(text), sections },
                    shown(sections, filter) && !colored,
                    Seq::empty(),
                )
            },
        },
    }
}

/// The machine, the visibility of the line and what is printed once the
/// segments `texts` are read one after the other.
pub open spec fn after_segments(
    machine: StateMachineView,
    show_line: bool,
    texts: Seq<Seq<char>>,
    filter: PipelineLogView,
    colored: bool,
    mode: ColorChoice,
) -> (StateMachineView, bool, Output)
    decreases texts.len(),
{
    if texts.len() == 0 {
        (machine, show_line, Seq::empty())
    } else {
        let before = after_segments(machine, show_line, texts.drop_last(), filter, colored, mode);
        let last = after_segment(before.0, before.1, texts.last(), filter, colored, mode);
        (last.0, last.1, before.2 + last.2)
    }
}

/// What ends a line that is still shown behind its last segment: the line
/// feed, on colored output behind the whole line as it was read.
pub open spec fn line_end(line: Seq<char>, colored: bool) -> Message {
    if colored {
        seq![(None::<Style>, line), (None::<Style>, "\n"@)]
    } else {
        seq![(None::<Style>, "\n"@)]
    }
}

/// The machine and what is printed once `line` is read, which the decoder
/// of escape sequences has cut into `texts`. Whether the line is shown is
/// first decided by the sections that are open before it.
pub open spec fn after_line(
    machine: StateMachineView,
    line: Seq<char>,
    texts: Seq<Seq<char>>,
    filter: PipelineLogView,
    colored: bool,
    mode: ColorChoice,
) -> (StateMachineView, Output) {
    let read = after_segments(
        machine,
        shown(machine.sections, filter),
        texts,
        filter,
        colored,
        mode,
    );
    (
        read.0,
        if read.1 {
            read.2.push((line_end(line, colored), mode))
        } else {
            read.2
        },
    )
}

/// The machine and what is printed once `lines` are read one after the
/// other, each cut into segments by the decoder of escape sequences.
pub open spec fn after_lines(
    machine: StateMachineView,
    lines: Seq<Seq<char>>,
    filter: PipelineLogView,
    colored: bool,
    mode: ColorChoice,
) -> (StateMachineView, Output)
    decreases lines.len(),
{
    if lines.len() == 0 {
        (machine, Seq::empty())
    } else {
        let before = after_lines(machine, lines.drop_last(), filter, colored, mode);
        let last = after_line(
            before.0,
            lines.last(),
            sgr_texts(lines.last()),
            filter,
            colored,
            mode,
        );
        (last.0, before.1 + last.1)
    }
}

/// Under a filter that asks for all lines, a line is shown whatever
/// sections are open, collapsed or not.
pub proof fn lemma_all_shown(sections: Seq<SectionView>, filter: PipelineLogView)
    requires
        filter.all,
    ensures
        shown(sections, filter),
{
}

/// Under a filter that asks for all lines, a line of uncolored output that
/// is shown at its beginning is still shown behind its segments.
pub proof fn lemma_all_segments_shown(
    machine: StateMachineView,
    texts: Seq<Seq<char>>,
    filter: PipelineLogView,
    mode: ColorChoice,
)
    requires
        filter.all,
    ensures
        after_segments(machine, true, texts, filter, false, mode).1,
    decreases texts.len(),
{
    if texts.len() > 0 {
        lemma_all_segments_shown(machine, texts.drop_last(), filter, mode);
    }
}

/// Under a filter that asks for all lines, every line of uncolored output
/// is printed to its end, whatever sections are open and whatever markers
/// the line holds.
pub proof fn lemma_all_lines_printed(
    machine: StateMachineView,
    line: Seq<char>,
    texts: Seq<Seq<char>>,
    filter: PipelineLogView,
    mode: ColorChoice,
)
    requires
        filter.all,
    ensures
        after_line(machine, line, texts, filter, false, mode).1.len() > 0,
        after_line(machine, line, texts, filter, false, mode).1.last() == (
            line_end(line, false),
            mode,
        ),
{
    lemma_all_segments_shown(machine, texts, filter, mode);
}

/// While no open section is collapsed and one of them has the name that the
/// filter asks for, a line is shown.
pub proof fn lemma_shown_in_named_section(sections: Seq<SectionView>, filter: PipelineLogView)
    requires
        forall|i: int| 0 <= i < sections.len() ==> !(#[trigger] sections[i]).collapsed,
        exists|i: int| 0 <= i < sections.len() && (#[trigger] sections[i]).name == filter.step,
    ensures
        shown(sections, filter),
{
}

/// While sections are open and none of them has the name that the filter
/// asks for, a line is hidden, unless the filter asks for all lines.
pub proof fn lemma_hidden_without_named_section(
    sections: Seq<SectionView>,
    filter: PipelineLogView,
)
    requires
        !filter.all,
        sections.len() > 0,
        forall|i: int| 0 <= i < sections.len() ==> (#[trigger] sections[i]).name != filter.step,
    ensures
        !shown(sections, filter),
{
}

/// While a collapsed section is open, a line is hidden whatever the names
/// of the open sections are, unless the filter asks for all lines.
pub proof fn lemma_hidden_in_collapsed_section(
    sections: Seq<SectionView>,
    filter: PipelineLogView,
    at: int,
)
    requires
        !filter.all,
        0 <= at < sections.len(),
        sections[at].collapsed,
    ensures
        !shown(sections, filter),
{
}

/// The segment behind a start marker opens the section and prints its
/// banner first, whether or not the lines of the section are shown.
pub proof fn lemma_banner_printed(
    machine: StateMachineView,
    show_line: bool,
    title: Seq<char>,
    filter: PipelineLogView,
    colored: bool,
    mode: ColorChoice,
)
    requires
        machine.state is Some,
        machine.state->0.type_ == SectionType::Start,
    ensures
        ({
            let section = machine.state->0;
            let next = after_segment(machine, show_line, title, filter, colored, mode);
            &&& next.0.sections == machine.sections.push(section)
            &&& next.2.len() > 0
            &&& next.2[0] == (
                banner(title, section, shown(next.0.sections, filter), colored),
                banner_mode(colored),
            )
        }),
{
}

/// Closing the innermost section undoes opening it.
pub proof fn lemma_closing_undoes_opening(sections: Seq<SectionView>, section: SectionView)
    ensures
        closed(sections.push(section)) == sections,
{
}

/// Two nested sections that are closed leave the open sections as they
/// were before the outer one opened.
pub proof fn lemma_nested_sections_close(
    sections: Seq<SectionView>,
    outer: SectionView,
    inner: SectionView,
)
    ensures
        closed(closed(sections.push(outer).push(inner))) == sections,
{
    lemma_closing_undoes_opening(sections.push(outer), inner);
    lemma_closing_undoes_opening(sections, outer);
}

/// A start marker, the title behind it, an end marker and one more segment
/// leave the open sections as they were: the section opens at the title and
/// closes at the segment behind the end marker.
pub proof fn lemma_section_opens_and_closes(
    machine: StateMachineView,
    show_line: bool,
    title: Seq<char>,
    end: Seq<char>,
    next: Seq<char>,
    filter: PipelineLogView,
    colored: bool,
    mode: ColorChoice,
)
    requires
        machine.state is Some,
        machine.state->0.type_ == SectionType::Start,
        marker(end) is Some,
        marker(end)->0.type_ == SectionType::End,
    ensures
        after_segments(machine, show_line, seq![title], filter, colored, mode).0.sections
            == machine.sections.push(machine.state->0),
        after_segments(machine, show_line, seq![title, end, next], filter, colored, mode).0.sections
            == machine.sections,
{
    reveal_with_fuel(after_segments, 4);
    lemma_closing_undoes_opening(machine.sections, machine.state->0);
}

/// Two sections, one inside the other, leave the open sections as they
/// were: the outer one opens at its title, the inner one at its own, and
/// each end marker closes one of them at the segment behind it, the inner
/// section first.
pub proof fn lemma_nested_sections_open_and_close(
    machine: StateMachineView,
    show_line: bool,
    texts: Seq<Seq<char>>,
    filter: PipelineLogView,
    colored: bool,
    mode: ColorChoice,
)
    requires
        machine.state is Some,
        machine.state->0.type_ == SectionType::Start,
        texts.len() == 6,
        marker(texts[1]) is Some,
        marker(texts[1])->0.type_ == SectionType::Start,
        marker(texts[3]) is Some,
        marker(texts[3])->0.type_ == SectionType::End,
        marker(texts[4]) is Some,
        marker(texts[4])->0.type_ == SectionType::End,
    ensures
        after_segments(machine, show_line, texts.take(3), filter, colored, mode).0.sections
            == machine.sections.push(machine.state->0).push(marker(texts[1])->0),
        after_segments(machine, show_line, texts.take(5), filter, colored, mode).0.sections
            == machine.sections.push(machine.state->0),
        after_segments(machine, show_line, texts, filter, colored, mode).0.sections
            == machine.sections,
{
    let outer = machine.state->0;
    let inner = marker(texts[1])->0;
    reveal_with_fuel(after_segments, 7);
    lemma_nested_sections_close(machine.sections, outer, inner);
    lemma_closing_undoes_opening(machine.sections.push(outer), inner);
}

impl Default for StateMachine {
    fn default() -> (machine: StateMachine)
        ensures
            machine@ == initial(),
    {
        let machine = StateMachine { state: State::Text, sections: Vec::new() };
        assert(machine@.sections =~= Seq::empty());
        machine
    }
}

impl StateMachine {
    /// Decides whether a line is shown while the sections of the machine
    /// are open.
    pub fn show_line(&self, args: &PipelineLog) -> (show: bool)
        ensures
            show == shown(self@.sections, args@),
    {
        if args.all || self.sections.len() == 0 {
            return true;
        }
        let mut expanded = true;
        let mut found = false;
        let mut i: usize = 0;
        while i < self.sections.len()
            invariant
                i <= self.sections.len(),
                expanded == forall|j: int| 0 <= j < i ==> !(#[trigger] self@.sections[j]).collapsed,
                found == exists|j: int|
                    0 <= j < i && (#[trigger] self@.sections[j]).name == args@.step,
            decreases self.sections.len() - i,
        {
            let section = &self.sections[i];
            assert(section@ == self@.sections[i as int]);
            if section.collapsed {
                expanded = false;
            }
            if section.name == args.step {
                found = true;
            }
            i += 1;
        }
        expanded && found
    }

    /// Reads the segment `text` of a line: gives a marker read before it
    /// its effect, or reads `text` as a marker, or prints it. Returns
    /// whether the line is still shown.
    pub fn read_segment(
        &mut self,
        text: &str,
        show_line: bool,
        args: &PipelineLog,
        colored: bool,
        mode: ColorChoice,
        out: &mut Vec<Printed>,
    ) -> (show: bool)
        ensures
            final(self)@ == after_segment(old(self)@, show_line, text@, args@, colored, mode).0,
            show == after_segment(old(self)@, show_line, text@, args@, colored, mode).1,
            messages(final(out)@) == messages(old(out)@) + after_segment(
                old(self)@,
                show_line,
                text@,
                args@,
                colored,
                mode,
            ).2,
    {
        let mut state = State::Text;
        std::mem::swap(&mut self.state, &mut state);
        match state {
            State::Text => {
                match Section::from_str(text) {
                    Ok(section) => {
                        self.state = State::Section(section);
                        show_line
                    },
                    Err(_) => {
                        if show_line && !colored {
                            let mut msg = StyledStr::new();
                            msg.none(text);
                            print_msg(msg, mode, out);
                        }
                        show_line
                    },
                }
            },
            State::Section(section) => {
                match section.type_ {
                    SectionType::Start => {
                        let ghost opened = self@.sections.push(section@);
                        self.sections.push(section);
                        assert(self@.sections =~= opened);
                        let show = self.show_line(args);
                        let last = self.sections.len() - 1;
                        print_section(text, &self.sections[last], show, colored, out);
                        if colored && show {
                            let mut msg = StyledStr::new();
                            msg.none("\n");
                            print_msg(msg, mode, out);
                        }
                        show && !colored
                    },
                    SectionType::End => {
                        let ghost left = closed(self@.sections);
                        self.sections.pop();
                        assert(self@.sections =~= left);
                        let show = self.show_line(args);
                        if let Ok(next) = Section::from_str(text) {
                            self.state = State::Section(next);
                        }
                        show && !colored
                    },
                }
            },
        }
    }

    /// Reads `line`, which the decoder of escape sequences has cut into
    /// `texts`, and prints what is shown of it.
    pub fn read_line(
        &mut self,
        line: &str,
        texts: &Vec<String>,
        args: &PipelineLog,
        colored: bool,
        mode: ColorChoice,
        out: &mut Vec<Printed>,
    )
        ensures
            final(self)@ == after_line(
                old(self)@,
                line@,
                texts.deep_view(),
                args@,
                colored,
                mode,
            ).0,
            messages(final(out)@) == messages(old(out)@) + after_line(
                old(self)@,
                line@,
                texts.deep_view(),
                args@,
                colored,
                mode,
            ).1,
    {
        let ghost before = messages(out@);
        let ghost start = self@;
        let ghost first = shown(self@.sections, args@);
        let ghost all = texts.deep_view();
        let mut show_line = self.show_line(args);
        let mut i: usize = 0;
        while i < texts.len()
            invariant
                i <= texts.len(),
                all == texts.deep_view(),
                self@ == after_segments(start, first, all.take(i as int), args@, colored, mode).0,
                show_line == after_segments(
                    start,
                    first,
                    all.take(i as int),
                    args@,
                    colored,
                    mode,
                ).1,
                messages(out@) == before + after_segments(
                    start,
                    first,
                    all.take(i as int),
                    args@,
                    colored,
                    mode,
                ).2,
            decreases texts.len() - i,
        {
            assert(all.take(i + 1).drop_last() =~= all.take(i as int));
            show_line = self.read_segment(texts[i].as_str(), show_line, args, colored, mode, out);
            i += 1;
        }
        assert(all.take(i as int) =~= all);
        if show_line {
            let mut msg = StyledStr::new();
            if colored {
                msg.none(line);
            }
            msg.none("\n");
            assert(msg@ =~= line_end(line@, colored));
            print_msg(msg, mode, out);
        }
    }
}

} // verus!
