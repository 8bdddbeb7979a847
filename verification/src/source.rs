//! The source text set, and how a reference into it becomes literal context.
//!
//! While a build runs, an error points into the sources by a [`Location`]: a
//! source unit and a byte range in it. Only when the error leaves the pipeline
//! is that reference turned into a [`SourceContext`]: the file, the line and
//! the column at which the range begins, and the bytes it covers.

use std::collections::HashMap;
use vstd::prelude::*;
use vstd::slice::*;
use vstd::string::*;

verus! {

broadcast use vstd::std_specs::hash::group_hash_axioms;

/// The byte that ends a line.
pub const NEWLINE: u8 = 10;

/// A reference into the source text set: the bytes from `start` up to, but not
/// including, `end` of the source unit with the key `source`.
#[derive(Clone, Copy, Debug, PartialEq, Eq, Hash, Structural)]
pub struct Location {
    pub source: u64,
    pub start: usize,
    pub end: usize,
}

/// One source unit: a file's name and its text, as bytes.
#[derive(Clone, Debug, PartialEq, Eq)]
pub struct SourceUnit {
    pub name: String,
    pub text: Vec<u8>,
}

/// The mathematical value of a [`SourceUnit`].
pub struct SourceUnitView {
    pub name: Seq<char>,
    pub text: Seq<u8>,
}

impl View for SourceUnit {
    type V = SourceUnitView;

    open spec fn view(&self) -> SourceUnitView {
        SourceUnitView { name: self.name@, text: self.text@ }
    }
}

/// What a [`Location`] refers to, spelled out.
#[derive(Clone, Debug, PartialEq, Eq)]
pub struct SourceContext {
    /// The name of the file that holds the range.
    pub file: String,
    /// The line on which the range begins; the first line is line 0.
    pub line: usize,
    /// How many bytes precede the range on its line.
    pub column: usize,
    /// The bytes in the range.
    pub text: Vec<u8>,
}

/// The mathematical value of a [`SourceContext`].
pub struct SourceContextView {
    pub file: Seq<char>,
    pub line: nat,
    pub column: nat,
    pub text: Seq<u8>,
}

impl View for SourceContext {
    type V = SourceContextView;

    open spec fn view(&self) -> SourceContextView {
        SourceContextView {
            file: self.file@,
            line: self.line as nat,
            column: self.column as nat,
            text: self.text@,
        }
    }
}

/// The mathematical value of an optional context.
pub open spec fn context_view(context: Option<SourceContext>) -> Option<SourceContextView> {
    match context {
        Some(c) => Some(c@),
        None => None,
    }
}

/// How many lines end before `offset`: the number of newlines among the first
/// `offset` bytes of `text`.
pub open spec fn newlines_before(text: Seq<u8>, offset: int) -> nat
    decreases offset,
{
    if offset <= 0 {
        0
    } else if text[offset - 1] == NEWLINE {
        newlines_before(text, offset - 1) + 1
    } else {
        newlines_before(text, offset - 1)
    }
}

/// Where the line that holds `offset` begins: just behind the last newline
/// before `offset`, or at 0 when there is none.
pub open spec fn line_start(text: Seq<u8>, offset: int) -> int
    decreases offset,
{
    if offset <= 0 {
        0
    } else if text[offset - 1] == NEWLINE {
        offset
    } else {
        line_start(text, offset - 1)
    }
}

/// The context of the range from `start` to `end` in the text of `unit`.
pub open spec fn context_of(unit: SourceUnitView, start: int, end: int) -> SourceContextView {
    SourceContextView {
        file: unit.name,
        line: newlines_before(unit.text, start),
        column: (start - line_start(unit.text, start)) as nat,
        text: unit.text.subrange(start, end),
    }
}

impl Location {
    /// The range lies inside `text`.
    pub open spec fn within(self, text: Seq<u8>) -> bool {
        self.start <= self.end <= text.len()
    }

    /// The source unit is known and the range lies inside its text.
    pub open spec fn resolvable_in(self, sources: Map<u64, SourceUnitView>) -> bool {
        sources.contains_key(self.source) && self.within(sources[self.source].text)
    }

    /// The context that the location stands for, where it stands for one.
    pub open spec fn resolution(self, sources: Map<u64, SourceUnitView>) -> Option<
        SourceContextView,
    > {
        if self.resolvable_in(sources) {
            Some(context_of(sources[self.source], self.start as int, self.end as int))
        } else {
            None
        }
    }

    /// Looks the location up in `sources`. The result is `None` exactly when
    /// the source unit is unknown or the range reaches outside its text.
    pub fn resolve(&self, sources: &Sources) -> (context: Option<SourceContext>)
        ensures
            context_view(context) == self.resolution(sources@),
    {
        match sources.unit(self.source) {
            None => None,
            Some(unit) => {
                if self.start <= self.end && self.end <= unit.text.len() {
                    let bytes = unit.text.as_slice();
                    let (line, column) = line_and_column(bytes, self.start);
                    let text = slice_to_vec(slice_subrange(bytes, self.start, self.end));
                    Some(SourceContext { file: unit.name.clone(), line, column, text })
                } else {
                    None
                }
            },
        }
    }
}

/// The line and the column of `offset` in `text`, both counted from zero.
fn line_and_column(text: &[u8], offset: usize) -> (place: (usize, usize))
    requires
        offset <= text@.len(),
    ensures
        place.0 == newlines_before(text@, offset as int),
        place.1 == offset - line_start(text@, offset as int),
{
    let mut line: usize = 0;
    let mut begin: usize = 0;
    let mut i: usize = 0;
    while i < offset
        invariant
            i <= offset <= text@.len(),
            line <= i,
            begin <= i,
            line == newlines_before(text@, i as int),
            begin == line_start(text@, i as int),
        decreases offset - i,
    {
        if text[i] == NEWLINE {
            line = line + 1;
            begin = i + 1;
        }
        i = i + 1;
    }
    (line, offset - begin)
}

/// The source text set of a build: its source units, each under its key. A
/// build only ever reads it.
pub struct Sources {
    units: HashMap<u64, SourceUnit>,
}

impl View for Sources {
    type V = Map<u64, SourceUnitView>;

    closed spec fn view(&self) -> Map<u64, SourceUnitView> {
        Map::new(|key: u64| self.units@.contains_key(key), |key: u64| self.units@[key]@)
    }
}

impl Sources {
    /// A source text set without any source unit.
    pub fn new() -> (sources: Sources)
        ensures
            sources@ == Map::<u64, SourceUnitView>::empty(),
    {
        let sources = Sources { units: HashMap::new() };
        assert(sources@ =~= Map::<u64, SourceUnitView>::empty());
        sources
    }

    /// Records the file `name` with the text `text`, as its UTF-8 bytes, as
    /// the source unit with the key `source`, in place of any unit recorded
    /// under that key before.
    pub fn insert(&mut self, source: u64, name: &str, text: &str)
        ensures
            final(self)@ == old(self)@.insert(
                source,
                SourceUnitView { name: name@, text: text.spec_bytes() },
            ),
    {
        self.insert_bytes(source, name, text.as_bytes_vec());
    }

    /// Records the file `name` with the bytes `text` as the source unit with
    /// the key `source`, in place of any unit recorded under that key before.
    pub fn insert_bytes(&mut self, source: u64, name: &str, text: Vec<u8>)
        ensures
            final(self)@ == old(self)@.insert(source, SourceUnitView { name: name@, text: text@ }),
    {
        let unit = SourceUnit { name: String::from_str(name), text };
        self.units.insert(source, unit);
        assert(self@ =~= old(self)@.insert(source, SourceUnitView { name: name@, text: text@ }));
    }

    /// The source unit with the key `source`, if the set has one.
    pub fn unit(&self, source: u64) -> (unit: Option<&SourceUnit>)
        ensures
            match unit {
                Some(found) => self@.contains_key(source) && found@ == self@[source],
                None => !self@.contains_key(source),
            },
    {
        self.units.get(&source)
    }
}

/// The line that holds `offset` begins at or before `offset`, either at the
/// start of the text or just behind a newline, and no newline lies between its
/// beginning and `offset`.
pub proof fn law_line_start_begins_line(text: Seq<u8>, offset: int)
    requires
        0 <= offset <= text.len(),
    ensures
        0 <= line_start(text, offset) <= offset,
        line_start(text, offset) == 0 || text[line_start(text, offset) - 1] == NEWLINE,
        forall|i: int| line_start(text, offset) <= i < offset ==> text[i] != NEWLINE,
    decreases offset,
{
    if offset > 0 && text[offset - 1] != NEWLINE {
        law_line_start_begins_line(text, offset - 1);
    }
}

/// No line begins between `line_start(text, offset)` and `offset`: a place
/// at or before `offset` that is the start of the text or follows a newline
/// is at or before `line_start(text, offset)`.
pub proof fn law_line_start_is_latest(text: Seq<u8>, offset: int, place: int)
    requires
        0 <= place <= offset <= text.len(),
        place == 0 || text[place - 1] == NEWLINE,
    ensures
        place <= line_start(text, offset),
{
    law_line_start_begins_line(text, offset);
}

/// Every place on one line has the same line number: the newlines before
/// `offset` are those before the beginning of its line.
pub proof fn law_line_is_constant_on_line(text: Seq<u8>, offset: int)
    requires
        0 <= offset <= text.len(),
    ensures
        newlines_before(text, offset) == newlines_before(text, line_start(text, offset)),
    decreases offset,
{
    if offset > 0 && text[offset - 1] != NEWLINE {
        law_line_is_constant_on_line(text, offset - 1);
    }
}

/// The line number does not go down along the text, and it goes up across a
/// newline.
pub proof fn law_newlines_before_grows(text: Seq<u8>, earlier: int, later: int)
    requires
        0 <= earlier <= later <= text.len(),
    ensures
        newlines_before(text, earlier) <= newlines_before(text, later),
        newlines_before(text, later) - newlines_before(text, earlier) <= later - earlier,
        (exists|i: int| earlier <= i < later && text[i] == NEWLINE) ==> newlines_before(
            text,
            earlier,
        ) < newlines_before(text, later),
    decreases later - earlier,
{
    if earlier < later {
        law_newlines_before_grows(text, earlier, later - 1);
        if text[later - 1] != NEWLINE {
            if exists|i: int| earlier <= i < later && text[i] == NEWLINE {
                let i = choose|i: int| earlier <= i < later && text[i] == NEWLINE;
                assert(earlier <= i < later - 1 && text[i] == NEWLINE);
            }
        }
    }
}

} // verus!
