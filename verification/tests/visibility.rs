use joblog::args::{ColorChoice, PipelineLog};
use joblog::color::{Piece, Style, StyledStr};
use joblog::fmt::Printed;
use joblog::machine::{State, StateMachine};
use joblog::section::{Section, SectionType};

fn filter(all: bool, step: &str) -> PipelineLog {
    PipelineLog { all, step: step.to_string() }
}

fn start(name: &str, collapsed: bool) -> Section {
    Section { type_: SectionType::Start, name: name.to_string(), collapsed }
}

fn end(name: &str) -> Section {
    Section { type_: SectionType::End, name: name.to_string(), collapsed: false }
}

fn inside(sections: Vec<Section>) -> StateMachine {
    StateMachine { state: State::Text, sections }
}

fn plain(text: &str, mode: ColorChoice) -> Printed {
    Printed {
        content: StyledStr { pieces: vec![Piece { style: None, text: text.to_string() }] },
        mode,
    }
}

fn banner(title: &str, name: &str, tail: &[(Option<Style>, &str)], mode: ColorChoice) -> Printed {
    let mut pieces = vec![
        Piece { style: Some(Style::Warning), text: format!("\n> {} [", title) },
        Piece { style: Some(Style::Literal), text: name.to_string() },
        Piece { style: Some(Style::Warning), text: "]".to_string() },
    ];
    for (style, text) in tail {
        pieces.push(Piece { style: *style, text: text.to_string() });
    }
    Printed { content: StyledStr { pieces }, mode }
}

#[test]
fn machine_starts_outside_any_section() {
    let machine = StateMachine::default();
    assert_eq!(machine.state, State::Text);
    assert!(machine.sections.is_empty());
}

#[test]
fn every_line_is_shown_when_all_are_asked_for() {
    let all = filter(true, "build");
    assert!(inside(vec![]).show_line(&all));
    assert!(inside(vec![start("other", false)]).show_line(&all));
    assert!(inside(vec![start("other", true)]).show_line(&all));
    assert!(inside(vec![start("a", true), start("b", true), start("c", false)]).show_line(&all));
}

#[test]
fn lines_outside_any_section_are_shown() {
    assert!(inside(vec![]).show_line(&filter(false, "build")));
    assert!(inside(vec![]).show_line(&filter(false, "")));
}

#[test]
fn lines_of_the_named_section_are_shown() {
    assert!(inside(vec![start("build", false)]).show_line(&filter(false, "build")));
}

#[test]
fn lines_of_another_section_are_hidden() {
    assert!(!inside(vec![start("other", false)]).show_line(&filter(false, "build")));
    assert!(!inside(vec![start("Build", false)]).show_line(&filter(false, "build")));
    assert!(!inside(vec![start("build", false)]).show_line(&filter(false, "")));
}

#[test]
fn lines_of_a_collapsed_section_are_hidden() {
    assert!(!inside(vec![start("build", true)]).show_line(&filter(false, "build")));
}

#[test]
fn lines_inside_a_collapsed_outer_section_are_hidden() {
    assert!(
        !inside(vec![start("outer", true), start("build", false)])
            .show_line(&filter(false, "build"))
    );
    assert!(
        !inside(vec![start("build", false), start("inner", true)])
            .show_line(&filter(false, "build"))
    );
}

#[test]
fn lines_of_sections_inside_the_named_one_are_shown() {
    assert!(
        inside(vec![start("build", false), start("inner", false)])
            .show_line(&filter(false, "build"))
    );
    assert!(
        inside(vec![start("outer", false), start("build", false)])
            .show_line(&filter(false, "build"))
    );
}

#[test]
fn plain_segment_is_printed_at_once_without_color() {
    let mut machine = StateMachine::default();
    let mut out = Vec::new();
    let show = machine.read_segment(
        "some text",
        true,
        &filter(false, "build"),
        false,
        ColorChoice::Auto,
        &mut out,
    );
    assert!(show);
    assert_eq!(machine, StateMachine::default());
    assert_eq!(out, vec![plain("some text", ColorChoice::Auto)]);
}

#[test]
fn plain_segment_waits_for_the_line_end_with_color() {
    let mut machine = StateMachine::default();
    let mut out = Vec::new();
    let show = machine.read_segment(
        "some text",
        true,
        &filter(false, "build"),
        true,
        ColorChoice::Always,
        &mut out,
    );
    assert!(show);
    assert_eq!(machine, StateMachine::default());
    assert_eq!(out, vec![]);
}

#[test]
fn plain_segment_of_a_hidden_line_is_not_printed() {
    let mut machine = inside(vec![start("other", false)]);
    let mut out = Vec::new();
    let show = machine.read_segment(
        "some text",
        false,
        &filter(false, "build"),
        false,
        ColorChoice::Never,
        &mut out,
    );
    assert!(!show);
    assert_eq!(machine, inside(vec![start("other", false)]));
    assert_eq!(out, vec![]);
}

#[test]
fn marker_waits_for_the_next_segment() {
    let mut machine = StateMachine::default();
    let mut out = Vec::new();
    let show = machine.read_segment(
        "section_start:0:build[collapsed=true]\r",
        true,
        &filter(false, "build"),
        false,
        ColorChoice::Never,
        &mut out,
    );
    assert!(show);
    assert_eq!(
        machine,
        StateMachine { state: State::Section(start("build", true)), sections: vec![] }
    );
    assert_eq!(out, vec![]);
}

#[test]
fn segment_behind_a_start_marker_opens_the_section() {
    let mut machine =
        StateMachine { state: State::Section(start("build", false)), sections: vec![] };
    let mut out = Vec::new();
    let show = machine.read_segment(
        "Building",
        false,
        &filter(false, "build"),
        false,
        ColorChoice::Auto,
        &mut out,
    );
    assert!(show);
    assert_eq!(machine, inside(vec![start("build", false)]));
    assert_eq!(out, vec![banner("Building", "build", &[(None, "\n")], ColorChoice::Never)]);
}

#[test]
fn banner_of_a_hidden_section_is_printed_and_marked() {
    let mut machine =
        StateMachine { state: State::Section(start("test", false)), sections: vec![] };
    let mut out = Vec::new();
    let show = machine.read_segment(
        "Testing",
        true,
        &filter(false, "build"),
        false,
        ColorChoice::Never,
        &mut out,
    );
    assert!(!show);
    assert_eq!(machine, inside(vec![start("test", false)]));
    assert_eq!(
        out,
        vec![banner(
            "Testing",
            "test",
            &[(Some(Style::Warning), " <"), (None, "\n")],
            ColorChoice::Never
        )]
    );
}

#[test]
fn banner_of_a_collapsed_section_is_printed_with_color() {
    let mut machine =
        StateMachine { state: State::Section(start("build", true)), sections: vec![] };
    let mut out = Vec::new();
    let show = machine.read_segment(
        "Building",
        true,
        &filter(false, "build"),
        true,
        ColorChoice::Auto,
        &mut out,
    );
    assert!(!show);
    assert_eq!(machine, inside(vec![start("build", true)]));
    assert_eq!(
        out,
        vec![banner(
            "Building",
            "build",
            &[(Some(Style::Warning), " <"), (None, "\n"), (None, "\n")],
            ColorChoice::Always
        )]
    );
}

#[test]
fn shown_section_gets_an_empty_line_with_color() {
    let mut machine =
        StateMachine { state: State::Section(start("build", false)), sections: vec![] };
    let mut out = Vec::new();
    let show = machine.read_segment(
        "Building",
        true,
        &filter(false, "build"),
        true,
        ColorChoice::Auto,
        &mut out,
    );
    assert!(!show);
    assert_eq!(machine, inside(vec![start("build", false)]));
    assert_eq!(
        out,
        vec![
            banner("Building", "build", &[(None, "\n")], ColorChoice::Always),
            plain("\n", ColorChoice::Auto),
        ]
    );
}

#[test]
fn title_that_looks_like_a_marker_is_still_a_title() {
    let mut machine = StateMachine { state: State::Section(start("A", false)), sections: vec![] };
    let mut out = Vec::new();
    machine.read_segment(
        "section_start:t:B",
        true,
        &filter(true, ""),
        false,
        ColorChoice::Never,
        &mut out,
    );
    assert_eq!(machine, inside(vec![start("A", false)]));
    assert_eq!(
        out,
        vec![banner("section_start:t:B", "A", &[(None, "\n")], ColorChoice::Never)]
    );
}

#[test]
fn segment_behind_an_end_marker_closes_the_section() {
    let mut machine = StateMachine {
        state: State::Section(end("build")),
        sections: vec![start("outer", false), start("build", false)],
    };
    let mut out = Vec::new();
    let show = machine.read_segment(
        "after",
        true,
        &filter(false, "build"),
        false,
        ColorChoice::Never,
        &mut out,
    );
    assert!(!show);
    assert_eq!(machine, inside(vec![start("outer", false)]));
    assert_eq!(out, vec![]);
}

#[test]
fn end_marker_closes_the_innermost_section_whatever_its_name() {
    let mut machine = StateMachine {
        state: State::Section(end("outer")),
        sections: vec![start("outer", false), start("build", false)],
    };
    let mut out = Vec::new();
    machine.read_segment("x", true, &filter(false, "outer"), false, ColorChoice::Never, &mut out);
    assert_eq!(machine, inside(vec![start("outer", false)]));
}

#[test]
fn end_marker_outside_any_section_closes_nothing() {
    let mut machine = StateMachine { state: State::Section(end("build")), sections: vec![] };
    let mut out = Vec::new();
    let show =
        machine.read_segment("x", false, &filter(false, "a"), false, ColorChoice::Never, &mut out);
    assert!(show);
    assert_eq!(machine, StateMachine::default());
    assert_eq!(out, vec![]);
}

#[test]
fn line_behind_an_end_marker_is_hidden_with_color() {
    let mut machine =
        StateMachine { state: State::Section(end("build")), sections: vec![start("build", true)] };
    let mut out = Vec::new();
    let show =
        machine.read_segment("x", false, &filter(false, "a"), true, ColorChoice::Always, &mut out);
    assert!(!show);
    assert_eq!(machine, StateMachine::default());
    assert_eq!(out, vec![]);
}

#[test]
fn marker_behind_an_end_marker_is_read_at_once() {
    let mut machine =
        StateMachine { state: State::Section(end("build")), sections: vec![start("build", false)] };
    let mut out = Vec::new();
    machine.read_segment(
        "section_start:3:test[collapsed=true]\r",
        true,
        &filter(false, "build"),
        false,
        ColorChoice::Never,
        &mut out,
    );
    assert_eq!(
        machine,
        StateMachine { state: State::Section(start("test", true)), sections: vec![] }
    );
    assert_eq!(out, vec![]);
}

#[test]
fn nested_sections_open_and_close_in_turn() {
    let shown = filter(false, "A");
    let mut machine = StateMachine::default();
    let mut out = Vec::new();
    let mut show = machine.show_line(&shown);
    assert!(show);
    for (text, open, visible) in [
        ("section_start:t:A", vec![], true),
        ("title of A", vec![start("A", false)], true),
        ("section_start:t:B", vec![start("A", false)], true),
        ("title of B", vec![start("A", false), start("B", false)], true),
        ("section_end:t:B", vec![start("A", false), start("B", false)], true),
        ("section_end:t:A", vec![start("A", false)], true),
        ("behind", vec![], true),
    ] {
        show = machine.read_segment(text, show, &shown, false, ColorChoice::Never, &mut out);
        assert_eq!(machine.sections, open);
        assert_eq!(show, visible);
        assert_eq!(machine.show_line(&shown), visible);
    }
    assert_eq!(machine, StateMachine::default());
    assert_eq!(
        out,
        vec![
            banner("title of A", "A", &[(None, "\n")], ColorChoice::Never),
            banner("title of B", "B", &[(None, "\n")], ColorChoice::Never),
        ]
    );
}

#[test]
fn collapsed_inner_section_hides_the_named_outer_one() {
    let shown = filter(false, "A");
    let mut machine = StateMachine::default();
    let mut out = Vec::new();
    let mut show = true;
    for (text, visible) in [
        ("section_start:t:A", true),
        ("title of A", true),
        ("section_start:t:B[collapsed=true]", true),
        ("title of B", false),
        ("inside B", false),
        ("section_end:t:B", false),
        ("inside A again", true),
        ("section_end:t:A", true),
        ("behind", true),
    ] {
        show = machine.read_segment(text, show, &shown, false, ColorChoice::Never, &mut out);
        assert_eq!(show, visible);
    }
    assert_eq!(machine, StateMachine::default());
}

#[test]
fn line_is_read_segment_by_segment() {
    let mut machine = StateMachine::default();
    let mut out = Vec::new();
    machine.read_line(
        "whatever the line was",
        &vec!["section_start:1:build\r".to_string(), "Building".to_string(), "now".to_string()],
        &filter(false, "build"),
        false,
        ColorChoice::Never,
        &mut out,
    );
    assert_eq!(machine, inside(vec![start("build", false)]));
    assert_eq!(
        out,
        vec![
            banner("Building", "build", &[(None, "\n")], ColorChoice::Never),
            plain("now", ColorChoice::Never),
            plain("\n", ColorChoice::Never),
        ]
    );
}

#[test]
fn line_without_segments_is_an_empty_line() {
    let mut machine = StateMachine::default();
    let mut out = Vec::new();
    machine.read_line("", &vec![], &filter(false, "build"), false, ColorChoice::Never, &mut out);
    assert_eq!(machine, StateMachine::default());
    assert_eq!(out, vec![plain("\n", ColorChoice::Never)]);
}

#[test]
fn shown_line_is_printed_whole_with_color() {
    let mut machine = inside(vec![start("build", false)]);
    let mut out = Vec::new();
    machine.read_line(
        "\u{1b}[32mgreen\u{1b}[0m text",
        &vec!["green".to_string(), " text".to_string()],
        &filter(false, "build"),
        true,
        ColorChoice::Always,
        &mut out,
    );
    assert_eq!(
        out,
        vec![Printed {
            content: StyledStr {
                pieces: vec![
                    Piece { style: None, text: "\u{1b}[32mgreen\u{1b}[0m text".to_string() },
                    Piece { style: None, text: "\n".to_string() },
                ],
            },
            mode: ColorChoice::Always,
        }]
    );
}

#[test]
fn hidden_line_prints_nothing() {
    let mut machine = inside(vec![start("other", false)]);
    let mut out = Vec::new();
    machine.read_line(
        "hidden",
        &vec!["hidden".to_string()],
        &filter(false, "build"),
        false,
        ColorChoice::Never,
        &mut out,
    );
    assert_eq!(out, vec![]);
    machine.read_line(
        "hidden",
        &vec!["hidden".to_string()],
        &filter(false, "build"),
        true,
        ColorChoice::Always,
        &mut out,
    );
    assert_eq!(out, vec![]);
}
