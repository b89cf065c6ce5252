use crate::text::{
    begins_with, equals, find, first_index, is_space, lemma_first_index, lemma_first_index_is,
    lemma_split_first, lemma_split_whole, lemma_trim_end_fixed, lemma_trim_end_prefix, skip_cr,
    split, to_chars, trim_end, trim_range,
};
use vstd::prelude::*;
use vstd::string::StrSliceExecFns;

verus! {

/// Marker for section start and end
#[derive(Debug, PartialEq, Eq, Clone, Copy, Structural)]
pub enum SectionType {
    Start,
    End,
}

/// What a text that is no section marker parses to.
#[derive(Clone, Copy, Debug, PartialEq, Eq)]
pub struct SectionError;

/// Parsing result of a log section
#[derive(Debug, PartialEq, Eq)]
pub struct Section {
    pub type_: SectionType,
    pub name: String,
    pub collapsed: bool,
}

/// A section marker as contracts see it.
pub struct SectionView {
    pub type_: SectionType,
    pub name: Seq<char>,
    pub collapsed: bool,
}

impl View for Section {
    type V = SectionView;

    open spec fn view(&self) -> SectionView {
        SectionView { type_: self.type_, name: self.name@, collapsed: self.collapsed }
    }
}

impl Clone for Section {
    fn clone(&self) -> (copy: Section)
        ensures
            copy == *self,
    {
        Section { type_: self.type_, name: self.name.clone(), collapsed: self.collapsed }
    }
}

/// The marker type that the keyword `word` stands for.
pub open spec fn keyword(word: Seq<char>) -> Option<SectionType> {
    if word == "section_start"@ {
        Some(SectionType::Start)
    } else if word == "section_end"@ {
        Some(SectionType::End)
    } else {
        None
    }
}

/// The name and the flags in the last field of a marker: the field is cut
/// at its first `[` and at the first `]` behind that one; where either is
/// missing the whole field is the name.
pub open spec fn name_and_flags(field: Seq<char>) -> (Seq<char>, Option<Seq<char>>) {
    let open = first_index(field, '[');
    let rest = field.skip((open + 1) as int);
    let close = first_index(rest, ']');
    if open < field.len() && close < rest.len() {
        (field.take(open as int), Some(rest.take(close as int)))
    } else {
        (field, None)
    }
}

/// The marker that `text` is, if it is one: without the carriage returns
/// before it and the white space behind it, `text` has three fields between
/// colons, a keyword, a timestamp, and a name with optional flags. A section
/// is collapsed where the flags are `collapsed=true`.
pub open spec fn marker(text: Seq<char>) -> Option<SectionView> {
    let fields = split(trim_end(skip_cr(text)), ':');
    if fields.len() == 3 && keyword(fields[0]) is Some {
        let (name, flags) = name_and_flags(fields[2]);
        Some(
            SectionView {
                type_: keyword(fields[0])->0,
                name,
                collapsed: flags == Some("collapsed=true"@),
            },
        )
    } else {
        None
    }
}

impl SectionType {
    /// Reads a marker's keyword.
    pub fn from_str(s: &str) -> (parsed: Result<SectionType, SectionError>)
        ensures
            match keyword(s@) {
                Some(type_) => parsed == Ok::<SectionType, SectionError>(type_),
                None => parsed is Err,
            },
    {
        let chars = to_chars(s);
        assert(chars@.subrange(0, chars.len() as int) =~= s@);
        if equals(&chars, 0, chars.len(), "section_start") {
            Ok(SectionType::Start)
        } else if equals(&chars, 0, chars.len(), "section_end") {
            Ok(SectionType::End)
        } else {
            Err(SectionError)
        }
    }
}

impl Section {
    /// Reads a section marker: `section_start:<timestamp>:<name>`, or
    /// `section_end` in its place, the name optionally followed by flags in
    /// square brackets.
    pub fn from_str(s: &str) -> (parsed: Result<Section, SectionError>)
        ensures
            match marker(s@) {
                Some(section) => parsed is Ok && parsed->Ok_0@ == section,
                None => parsed is Err,
            },
    {
        let chars = to_chars(s);
        let (from, to) = trim_range(&chars);
        let ghost text = chars@.subrange(from as int, to as int);
        let first = find(&chars, from, to, ':');
        proof {
            reveal_with_fuel(split, 4);
            lemma_first_index(text, ':');
        }
        if first >= to {
            return Err(SectionError);
        }
        let ghost tail = text.skip(first - from + 1);
        assert(tail =~= chars@.subrange(first + 1, to as int));
        let second = find(&chars, first + 1, to, ':');
        proof {
            lemma_first_index(tail, ':');
        }
        if second >= to {
            return Err(SectionError);
        }
        let ghost field = tail.skip(second - first);
        assert(field =~= chars@.subrange(second + 1, to as int));
        let third = find(&chars, second + 1, to, ':');
        if third < to {
            return Err(SectionError);
        }
        assert(text.take(first - from) =~= chars@.subrange(from as int, first as int));
        let type_ = if equals(&chars, from, first, "section_start") {
            SectionType::Start
        } else if equals(&chars, from, first, "section_end") {
            SectionType::End
        } else {
            return Err(SectionError);
        };
        let open = find(&chars, second + 1, to, '[');
        let close = if open < to {
            find(&chars, open + 1, to, ']')
        } else {
            to
        };
        proof {
            lemma_first_index(field, '[');
            if open < to {
                assert(field.skip(open - second) =~= chars@.subrange(open + 1, to as int));
            }
        }
        if open < to && close < to {
            assert(field.take(open - second - 1) =~= chars@.subrange(second + 1, open as int));
            assert(field.skip(open - second).take(close - open - 1) =~= chars@.subrange(
                open + 1,
                close as int,
            ));
            let collapsed = equals(&chars, open + 1, close, "collapsed=true");
            let name = s.substring_char(second + 1, open).to_owned();
            Ok(Section { type_, name, collapsed })
        } else {
            let name = s.substring_char(second + 1, to).to_owned();
            Ok(Section { type_, name, collapsed: false })
        }
    }
}

/// The keyword that a marker of `type_` begins with.
pub open spec fn keyword_of(type_: SectionType) -> Seq<char> {
    match type_ {
        SectionType::Start => "section_start"@,
        SectionType::End => "section_end"@,
    }
}

/// The text of a marker, put together from its three fields.
pub open spec fn marker_text(type_: SectionType, timestamp: Seq<char>, field: Seq<char>) -> Seq<
    char,
> {
    keyword_of(type_) + seq![':'] + timestamp + seq![':'] + field
}

/// The keywords hold neither a colon nor a carriage return, and each is
/// read back as its own type.
pub proof fn lemma_keywords(type_: SectionType)
    ensures
        keyword_of(type_).len() > 0,
        keyword_of(type_)[0] == 's',
        !keyword_of(type_).contains(':'),
        keyword(keyword_of(type_)) == Some(type_),
{
    reveal_strlit("section_start");
    reveal_strlit("section_end");
}

/// The fields of a marker's text are the three it was put together from,
/// and neither carriage returns nor white space are cut off it.
proof fn lemma_marker_fields(type_: SectionType, timestamp: Seq<char>, field: Seq<char>)
    requires
        !timestamp.contains(':'),
        !field.contains(':'),
        field.len() > 0 ==> !is_space(field.last()),
    ensures
        split(trim_end(skip_cr(marker_text(type_, timestamp, field))), ':') == seq![
            keyword_of(type_),
            timestamp,
            field,
        ],
{
    let word = keyword_of(type_);
    let text = marker_text(type_, timestamp, field);
    lemma_keywords(type_);
    lemma_trim_end_fixed(text);
    assert(text =~= word + seq![':'] + (timestamp + seq![':'] + field));
    lemma_split_first(word, timestamp + seq![':'] + field, ':');
    lemma_split_first(timestamp, field, ':');
    lemma_split_whole(field, ':');
}

/// A marker without flags names its section and does not collapse it: this
/// holds of every timestamp and name without a colon, the name without `[`
/// and not ending in white space.
pub proof fn lemma_marker_without_flags(type_: SectionType, timestamp: Seq<char>, name: Seq<char>)
    requires
        !timestamp.contains(':'),
        !name.contains(':'),
        !name.contains('['),
        name.len() > 0 ==> !is_space(name.last()),
    ensures
        marker(marker_text(type_, timestamp, name)) == Some(
            SectionView { type_, name, collapsed: false },
        ),
{
    lemma_marker_fields(type_, timestamp, name);
    lemma_keywords(type_);
    lemma_first_index(name, '[');
}

/// A marker with flags in square brackets names its section by what stands
/// before the brackets, and collapses it exactly where the flags are
/// `collapsed=true`: this holds of every timestamp, name and flags without a
/// colon, the name without `[` and the flags without `]`.
pub proof fn lemma_marker_with_flags(
    type_: SectionType,
    timestamp: Seq<char>,
    name: Seq<char>,
    flags: Seq<char>,
)
    requires
        !timestamp.contains(':'),
        !name.contains(':'),
        !name.contains('['),
        !flags.contains(':'),
        !flags.contains(']'),
    ensures
        marker(marker_text(type_, timestamp, name + seq!['['] + flags + seq![']'])) == Some(
            SectionView { type_, name, collapsed: flags == "collapsed=true"@ },
        ),
{
    let field = name + seq!['['] + flags + seq![']'];
    lemma_marker_fields(type_, timestamp, field);
    lemma_keywords(type_);
    lemma_first_index_is(field, '[', name.len());
    let rest = field.skip((name.len() + 1) as int);
    lemma_first_index_is(rest, ']', flags.len());
    assert(field.take(name.len() as int) =~= name);
    assert(rest.take(flags.len() as int) =~= flags);
}

/// A carriage return before a text changes nothing of the marker it is.
pub proof fn lemma_marker_skips_carriage_return(text: Seq<char>)
    ensures
        marker(seq!['\r'] + text) == marker(text),
{
    assert((seq!['\r'] + text).drop_first() =~= text);
}

/// Only a text that begins with `section_start:` or `section_end:`, once
/// the carriage returns before it are dropped, is a marker.
pub proof fn lemma_marker_needs_keyword(text: Seq<char>)
    requires
        !begins_with(skip_cr(text), "section_start:"@),
        !begins_with(skip_cr(text), "section_end:"@),
    ensures
        marker(text) is None,
{
    let whole = skip_cr(text);
    let trimmed = trim_end(whole);
    let fields = split(trimmed, ':');
    if fields.len() == 3 && keyword(fields[0]) is Some {
        let at = first_index(trimmed, ':');
        lemma_first_index(trimmed, ':');
        lemma_trim_end_prefix(whole);
        let word = trimmed.take(at as int);
        reveal_strlit("section_start");
        reveal_strlit("section_end");
        reveal_strlit("section_start:");
        reveal_strlit("section_end:");
        assert(word.len() == at);
        assert forall|j: int| 0 <= j <= at implies whole[j] == trimmed[j] by {
            assert(trimmed[j] == whole.take(trimmed.len() as int)[j]);
        }
        assert forall|j: int| 0 <= j < at implies whole[j] == word[j] by {
            assert(word[j] == trimmed[j]);
        }
        if word == "section_start"@ {
            assert(whole.take(14) =~= "section_start:"@);
        } else {
            assert(whole.take(12) =~= "section_end:"@);
        }
    }
}

} // verus!
