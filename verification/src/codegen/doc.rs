//! Reading the documentation comment of a tool.
//!
//! The comment describes the tool in its first lines and, under the heading
//! `# Arguments`, each parameter in a line of the form `* name: meaning`.

use vstd::prelude::*;
use crate::text::{
    join, lines, spec_join, spec_lines, spec_split_once, spec_strip_prefix, spec_strip_repeated,
    spec_trim, spec_trim_char, split_once, string_views, strip_prefix, strip_repeated, trim,
    trim_char, str_eq, chars_of, slice,
};

verus! {

/// A line as it is read: without the slashes at its start and without the
/// white space around what is left.
pub open spec fn spec_clean(line: Seq<char>) -> Seq<char> {
    spec_trim(spec_strip_repeated(line, "///"@))
}

/// The heading that a line holds: what stands behind `# `, without the
/// white space around it.
pub open spec fn spec_heading(line: Seq<char>) -> Option<Seq<char>> {
    match spec_strip_prefix(line, "# "@) {
        Some(rest) => Some(spec_trim(rest)),
        None => None,
    }
}

/// The lines under one heading, or before the first one.
#[derive(Debug, PartialEq, Eq)]
pub struct Section {
    pub heading: Option<String>,
    pub lines: Vec<String>,
}

/// The model of a [`Section`].
pub struct SectionView {
    pub heading: Option<Seq<char>>,
    pub lines: Seq<Seq<char>>,
}

impl View for Section {
    type V = SectionView;

    open spec fn view(&self) -> SectionView {
        SectionView {
            heading: match self.heading {
                Some(h) => Some(h@),
                None => None,
            },
            lines: string_views(self.lines@),
        }
    }
}

/// The models of a list of sections.
pub open spec fn sections_view(sections: Seq<Section>) -> Seq<SectionView> {
    Seq::new(sections.len(), |i: int| sections[i]@)
}

/// Where the reading of a comment stands: the sections that are complete,
/// and the heading and the lines of the one that is open.
pub struct Reading {
    pub sections: Seq<SectionView>,
    pub heading: Option<Seq<char>>,
    pub current: Seq<Seq<char>>,
}

/// The reading after one more line. A heading closes the open section,
/// unless that has neither a heading nor a line, and opens its own; any
/// other line joins the open section.
pub open spec fn spec_read_line(reading: Reading, line: Seq<char>) -> Reading {
    match spec_heading(line) {
        Some(h) => Reading {
            sections: if reading.current.len() > 0 || reading.heading is Some {
                reading.sections.push(
                    SectionView { heading: reading.heading, lines: reading.current },
                )
            } else {
                reading.sections
            },
            heading: Some(h),
            current: Seq::empty(),
        },
        None => Reading {
            sections: reading.sections,
            heading: reading.heading,
            current: reading.current.push(line),
        },
    }
}

/// The reading after all lines.
pub open spec fn spec_read(lines: Seq<Seq<char>>) -> Reading
    decreases lines.len(),
{
    if lines.len() == 0 {
        Reading { sections: Seq::empty(), heading: None, current: Seq::empty() }
    } else {
        spec_read_line(spec_read(lines.drop_last()), lines.last())
    }
}

/// The sections of a comment: those that the reading has completed, and
/// the one that is open at the end.
pub open spec fn spec_sections(lines: Seq<Seq<char>>) -> Seq<SectionView> {
    let reading = spec_read(lines);
    reading.sections.push(SectionView { heading: reading.heading, lines: reading.current })
}

/// The first section under the given heading.
pub open spec fn spec_section(sections: Seq<SectionView>, heading: Option<Seq<char>>) -> Option<
    SectionView,
>
    decreases sections.len(),
{
    if sections.len() == 0 {
        None
    } else if sections[0].heading == heading {
        Some(sections[0])
    } else {
        spec_section(sections.drop_first(), heading)
    }
}

/// The parameter that a line describes: a line `* name: meaning` describes
/// `name`, written with or without backticks around it, as `meaning`.
pub open spec fn spec_argument(line: Seq<char>) -> Option<(Seq<char>, Seq<char>)> {
    if line.len() > 0 && line[0] == '*' {
        match spec_split_once(spec_trim(line.subrange(1, line.len() as int)), ':') {
            Some((name, meaning)) => Some(
                (spec_trim_char(spec_trim(name), '`'), spec_trim(meaning)),
            ),
            None => None,
        }
    } else {
        None
    }
}

/// The parameters that the lines describe, in the order of the lines.
pub open spec fn spec_arguments(lines: Seq<Seq<char>>) -> Seq<(Seq<char>, Seq<char>)>
    decreases lines.len(),
{
    if lines.len() == 0 {
        Seq::empty()
    } else {
        let before = spec_arguments(lines.drop_last());
        match spec_argument(lines.last()) {
            Some(argument) => before.push(argument),
            None => before,
        }
    }
}

/// The lines of a comment as they are read.
pub open spec fn spec_clean_lines(doc: Seq<char>) -> Seq<Seq<char>> {
    Seq::new(spec_lines(doc).len(), |i: int| spec_clean(spec_lines(doc)[i]))
}

/// What a comment says: the description of the tool, which is the text
/// before the first heading, and the parameters described under the
/// heading `Arguments`.
pub open spec fn spec_parse_doc_comment(doc: Seq<char>) -> (
    Option<Seq<char>>,
    Seq<(Seq<char>, Seq<char>)>,
) {
    let sections = spec_sections(spec_clean_lines(doc));
    (
        match spec_section(sections, None) {
            Some(section) => Some(spec_trim(spec_join(section.lines, "\n"@))),
            None => None,
        },
        match spec_section(sections, Some("Arguments"@)) {
            Some(section) => spec_arguments(section.lines),
            None => Seq::empty(),
        },
    )
}

/// The models of a list of described parameters.
pub open spec fn pairs_view(pairs: Seq<(String, String)>) -> Seq<(Seq<char>, Seq<char>)> {
    Seq::new(pairs.len(), |i: int| (pairs[i].0@, pairs[i].1@))
}

/// A line as it is read.
pub fn clean(line: &str) -> (r: String)
    ensures
        r@ == spec_clean(line@),
{
    trim(strip_repeated(line, "///").as_str())
}

/// The heading that a line holds.
pub fn heading(line: &str) -> (r: Option<String>)
    ensures
        match r {
            Some(h) => spec_heading(line@) == Some(h@),
            None => spec_heading(line@) is None,
        },
{
    match strip_prefix(line, "# ") {
        Some(rest) => Some(trim(rest.as_str())),
        None => None,
    }
}

/// The parameter that a line describes.
pub fn argument(line: &str) -> (r: Option<(String, String)>)
    ensures
        match r {
            Some((name, meaning)) => spec_argument(line@) == Some((name@, meaning@)),
            None => spec_argument(line@) is None,
        },
{
    let chars = chars_of(line);
    let n = chars.len();
    if n == 0 || chars[0] != '*' {
        return None;
    }
    let content = trim(slice(line, 1, n).as_str());
    match split_once(content.as_str(), ':') {
        Some((name, meaning)) => Some(
            (trim_char(trim(name.as_str()).as_str(), '`'), trim(meaning.as_str())),
        ),
        None => None,
    }
}

/// The sections of a comment, from its lines as they are read.
pub fn sections_of(cleaned: Vec<String>) -> (r: Vec<Section>)
    ensures
        sections_view(r@) == spec_sections(string_views(cleaned@)),
{
    let ghost all = string_views(cleaned@);
    let mut sections: Vec<Section> = Vec::new();
    let mut current: Vec<String> = Vec::new();
    let mut open: Option<String> = None;
    let mut i: usize = 0;
    proof {
        assert(all.take(0) =~= Seq::<Seq<char>>::empty());
        assert(sections_view(sections@) =~= Seq::<SectionView>::empty());
        assert(string_views(current@) =~= Seq::<Seq<char>>::empty());
    }
    while i < cleaned.len()
        invariant
            i <= cleaned@.len(),
            all == string_views(cleaned@),
            spec_read(all.take(i as int)) == (Reading {
                sections: sections_view(sections@),
                heading: match open {
                    Some(h) => Some(h@),
                    None => None,
                },
                current: string_views(current@),
            }),
        decreases cleaned@.len() - i,
    {
        proof {
            assert(all.take(i + 1).drop_last() =~= all.take(i as int));
            assert(all.take(i + 1).last() == cleaned@[i as int]@);
        }
        let ghost done = sections_view(sections@);
        let ghost gathered = string_views(current@);
        match heading(cleaned[i].as_str()) {
            Some(h) => {
                if current.len() > 0 || open.is_some() {
                    let closed = Section { heading: open, lines: current };
                    sections.push(closed);
                    assert(sections_view(sections@) =~= done.push(closed@));
                    current = Vec::new();
                }
                assert(string_views(current@) =~= Seq::<Seq<char>>::empty());
                open = Some(h);
            },
            None => {
                current.push(cleaned[i].clone());
                assert(string_views(current@) =~= gathered.push(cleaned@[i as int]@));
            },
        }
        i += 1;
    }
    proof {
        assert(all.take(cleaned@.len() as int) =~= all);
    }
    let ghost done = sections_view(sections@);
    let last = Section { heading: open, lines: current };
    sections.push(last);
    assert(sections_view(sections@) =~= done.push(last@));
    sections
}

/// The model of an optional text.
pub open spec fn heading_view(heading: Option<&str>) -> Option<Seq<char>> {
    match heading {
        Some(h) => Some(h@),
        None => None,
    }
}

/// The position of the first section under the given heading.
pub fn find_section(sections: &Vec<Section>, heading: Option<&str>) -> (r: Option<usize>)
    ensures
        match r {
            Some(i) => i < sections@.len() && spec_section(
                sections_view(sections@),
                heading_view(heading),
            ) == Some(sections@[i as int]@),
            None => spec_section(sections_view(sections@), heading_view(heading)) is None,
        },
{
    let ghost all = sections_view(sections@);
    let ghost wanted = heading_view(heading);
    let mut i: usize = 0;
    proof {
        assert(all.skip(0) =~= all);
    }
    while i < sections.len()
        invariant
            i <= sections@.len(),
            all == sections_view(sections@),
            wanted == heading_view(heading),
            spec_section(all.skip(i as int), wanted) == spec_section(all, wanted),
        decreases sections@.len() - i,
    {
        let same = match (&sections[i].heading, heading) {
            (Some(own), Some(h)) => str_eq(own.as_str(), h),
            (None, None) => true,
            _ => false,
        };
        proof {
            assert(all.skip(i as int)[0] == sections@[i as int]@);
            assert(all.skip(i as int).drop_first() =~= all.skip(i + 1));
        }
        if same {
            return Some(i);
        }
        i += 1;
    }
    None
}

/// The parameters that the lines describe.
pub fn arguments_of(section: &Vec<String>) -> (r: Vec<(String, String)>)
    ensures
        pairs_view(r@) == spec_arguments(string_views(section@)),
{
    let ghost all = string_views(section@);
    let mut out: Vec<(String, String)> = Vec::new();
    let mut i: usize = 0;
    proof {
        assert(all.take(0) =~= Seq::<Seq<char>>::empty());
        assert(pairs_view(out@) =~= Seq::<(Seq<char>, Seq<char>)>::empty());
    }
    while i < section.len()
        invariant
            i <= section@.len(),
            all == string_views(section@),
            pairs_view(out@) == spec_arguments(all.take(i as int)),
        decreases section@.len() - i,
    {
        proof {
            assert(all.take(i + 1).drop_last() =~= all.take(i as int));
            assert(all.take(i + 1).last() == section@[i as int]@);
        }
        let ghost before = pairs_view(out@);
        match argument(section[i].as_str()) {
            Some((name, meaning)) => {
                out.push((name, meaning));
                assert(pairs_view(out@) =~= before.push((name@, meaning@)));
            },
            None => {},
        }
        i += 1;
    }
    proof {
        assert(all.take(section@.len() as int) =~= all);
    }
    out
}

/// The model of what a comment says.
pub open spec fn parsed_view(parsed: (Option<String>, Vec<(String, String)>)) -> (
    Option<Seq<char>>,
    Seq<(Seq<char>, Seq<char>)>,
) {
    (
        match parsed.0 {
            Some(d) => Some(d@),
            None => None,
        },
        pairs_view(parsed.1@),
    )
}

/// Reads the documentation comment of a tool.
pub fn parse_doc_comment(doc: &str) -> (r: (Option<String>, Vec<(String, String)>))
    ensures
        parsed_view(r) == spec_parse_doc_comment(doc@),
{
    let raw = lines(doc);
    let mut cleaned: Vec<String> = Vec::new();
    let mut i: usize = 0;
    while i < raw.len()
        invariant
            i <= raw@.len(),
            cleaned@.len() == i,
            forall|j: int| 0 <= j < i ==> (#[trigger] cleaned@[j])@ == spec_clean(raw@[j]@),
        decreases raw@.len() - i,
    {
        cleaned.push(clean(raw[i].as_str()));
        i += 1;
    }
    proof {
        assert(string_views(cleaned@) =~= spec_clean_lines(doc@));
    }
    let sections = sections_of(cleaned);
    let description = match find_section(&sections, None) {
        Some(at) => Some(trim(join(&sections[at].lines, "\n").as_str())),
        None => None,
    };
    let arguments = match find_section(&sections, Some("Arguments")) {
        Some(at) => arguments_of(&sections[at].lines),
        None => {
            let none: Vec<(String, String)> = Vec::new();
            assert(pairs_view(none@) =~= Seq::<(Seq<char>, Seq<char>)>::empty());
            none
        },
    };
    (description, arguments)
}

} // verus!
