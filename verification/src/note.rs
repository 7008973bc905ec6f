//! Notes, and the reading of one from a text.
//!
//! A note is written as a block of `key: value` lines between two lines that
//! are exactly `---`, followed by the note's text. Each of the six parts is
//! looked for on its own, with a pattern of its own, in the whole text.

use crate::decimal::{decimal_i64, decimal_value};
use crate::instant::{
    lemma_common_era_text, lemma_whole_seconds, time_from_string, whole_seconds, Timestamp,
    LAST_COMMON_SECOND,
};
use crate::search::{accepted, captured, search, searched, Search, SearchView};
use vstd::prelude::*;

verus! {

/// The six parts of a note.
#[derive(Clone, Copy, Debug, PartialEq, Eq, Hash, Structural)]
pub enum Field {
    Id,
    Title,
    Desc,
    Created,
    Updated,
    Text,
}

/// Why a text is no note.
#[derive(Clone, Copy, Debug, PartialEq, Eq, Hash, Structural)]
pub enum ParseError {
    /// The text has no line for this part.
    MissingField(Field),
    /// The text has no line for this instant, or what the line holds is no
    /// count of milliseconds that stands for an instant.
    InvalidTimestamp(Field),
    /// The text does not begin with a line that is exactly `---`, or no later
    /// line is exactly `---`.
    MissingFrontmatterDelimiters,
    /// The engine refused the pattern of a search. The patterns are fixed, so
    /// this tells of the engine and not of the text.
    Pattern,
}

impl Field {
    /// The pattern that finds this part.
    ///
    /// A part of the header is looked for at its key and a colon, wherever
    /// they first stand: the blanks that follow on the same line are passed
    /// over, and the part is the rest of that line. The text is looked for
    /// behind two lines that are exactly `---`: the first line of all, and the
    /// first such line after it. It is all that follows the three hyphens of
    /// the second, the end of that line included.
    pub open spec fn pattern(self) -> Seq<char> {
        match self {
            Field::Id => r"id:[^\S\n]*(?<id>.*)"@,
            Field::Title => r"title:[^\S\n]*(?<title>.*)"@,
            Field::Desc => r"desc:[^\S\n]*(?<desc>.*)"@,
            Field::Created => r"created:[^\S\n]*(?<created>.*)"@,
            Field::Updated => r"updated:[^\S\n]*(?<updated>.*)"@,
            Field::Text => r"^---[\r\n](?<frontmatter>[\S\s]*?)(?mR:^---$)(?<text>[\S\s]*)$"@,
        }
    }

    /// The group of the pattern that holds this part.
    pub open spec fn group(self) -> Seq<char> {
        match self {
            Field::Id => "id"@,
            Field::Title => "title"@,
            Field::Desc => "desc"@,
            Field::Created => "created"@,
            Field::Updated => "updated"@,
            Field::Text => "text"@,
        }
    }

    /// The name by which an error speaks of this part.
    pub open spec fn name(self) -> Seq<char> {
        match self {
            Field::Id => "id"@,
            Field::Title => "title"@,
            Field::Desc => "description"@,
            Field::Created => "created"@,
            Field::Updated => "updated"@,
            Field::Text => "text"@,
        }
    }

    /// The error for a text in which this part is not found.
    pub open spec fn absent(self) -> ParseError {
        match self {
            Field::Id | Field::Title | Field::Desc => ParseError::MissingField(self),
            Field::Created | Field::Updated => ParseError::InvalidTimestamp(self),
            Field::Text => ParseError::MissingFrontmatterDelimiters,
        }
    }

    /// What the search for this part comes to in `text`.
    pub open spec fn sought(self, text: Seq<char>) -> SearchView {
        searched(self.pattern(), text, self.group())
    }

    /// The pattern that finds this part.
    pub fn pattern_str(self) -> (r: &'static str)
        ensures
            r@ == self.pattern(),
    {
        match self {
            Field::Id => r"id:[^\S\n]*(?<id>.*)",
            Field::Title => r"title:[^\S\n]*(?<title>.*)",
            Field::Desc => r"desc:[^\S\n]*(?<desc>.*)",
            Field::Created => r"created:[^\S\n]*(?<created>.*)",
            Field::Updated => r"updated:[^\S\n]*(?<updated>.*)",
            Field::Text => r"^---[\r\n](?<frontmatter>[\S\s]*?)(?mR:^---$)(?<text>[\S\s]*)$",
        }
    }

    /// The group of the pattern that holds this part.
    pub fn group_str(self) -> (r: &'static str)
        ensures
            r@ == self.group(),
    {
        match self {
            Field::Id => "id",
            Field::Title => "title",
            Field::Desc => "desc",
            Field::Created => "created",
            Field::Updated => "updated",
            Field::Text => "text",
        }
    }

    /// The name by which an error speaks of this part.
    pub fn name_str(self) -> (r: &'static str)
        ensures
            r@ == self.name(),
    {
        match self {
            Field::Id => "id",
            Field::Title => "title",
            Field::Desc => "description",
            Field::Created => "created",
            Field::Updated => "updated",
            Field::Text => "text",
        }
    }

    /// Searches `text` for this part.
    pub fn seek(self, text: &str) -> (r: Search)
        ensures
            r@ == self.sought(text@),
    {
        search(self.pattern_str(), text, self.group_str())
    }
}

impl ParseError {
    /// The sentence that tells a reader of this error.
    pub open spec fn sentence(self) -> Seq<char> {
        match self {
            ParseError::MissingField(Field::Id) => "invalid id"@,
            ParseError::MissingField(Field::Title) => "invalid title"@,
            ParseError::MissingField(Field::Desc) => "invalid description"@,
            ParseError::MissingField(_) => "invalid field"@,
            ParseError::InvalidTimestamp(Field::Updated) => "invalid updated date"@,
            ParseError::InvalidTimestamp(_) => "invalid creation date"@,
            ParseError::MissingFrontmatterDelimiters => "invalid frontmatter"@,
            ParseError::Pattern => "invalid pattern"@,
        }
    }

    /// The sentence that tells a reader of this error.
    pub fn message(self) -> (r: &'static str)
        ensures
            r@ == self.sentence(),
    {
        match self {
            ParseError::MissingField(Field::Id) => "invalid id",
            ParseError::MissingField(Field::Title) => "invalid title",
            ParseError::MissingField(Field::Desc) => "invalid description",
            ParseError::MissingField(_) => "invalid field",
            ParseError::InvalidTimestamp(Field::Updated) => "invalid updated date",
            ParseError::InvalidTimestamp(_) => "invalid creation date",
            ParseError::MissingFrontmatterDelimiters => "invalid frontmatter",
            ParseError::Pattern => "invalid pattern",
        }
    }
}

/// A note: what its header says of it, and its text.
#[derive(Clone, Debug, PartialEq, Eq, PartialOrd, Ord, Hash)]
pub struct Note {
    pub id: String,
    pub title: String,
    pub desc: String,
    pub created: Timestamp,
    pub updated: Timestamp,
    pub text: String,
}

/// A note as a mathematical value.
pub struct NoteView {
    pub id: Seq<char>,
    pub title: Seq<char>,
    pub desc: Seq<char>,
    pub created: Timestamp,
    pub updated: Timestamp,
    pub text: Seq<char>,
}

impl View for Note {
    type V = NoteView;

    open spec fn view(&self) -> NoteView {
        NoteView {
            id: self.id@,
            title: self.title@,
            desc: self.desc@,
            created: self.created,
            updated: self.updated,
            text: self.text@,
        }
    }
}

impl NoteView {
    /// Both instants are ones that chrono can hold.
    pub open spec fn wf(self) -> bool {
        self.created.wf() && self.updated.wf()
    }
}

/// What reading a note came to, as a mathematical value.
pub open spec fn outcome(r: Result<Note, ParseError>) -> Result<NoteView, ParseError> {
    match r {
        Ok(note) => Ok(note@),
        Err(e) => Err(e),
    }
}

/// The text that the search for `field` found, or the error that the search
/// ends the reading with.
pub open spec fn found_text(field: Field, s: SearchView) -> Result<Seq<char>, ParseError> {
    match s {
        SearchView::Rejected => Err(ParseError::Pattern),
        SearchView::Absent => Err(field.absent()),
        SearchView::Found(t) => Ok(t),
    }
}

/// The instant that the search for `field` found, or the error that the
/// search ends the reading with.
pub open spec fn found_time(field: Field, s: SearchView) -> Result<Timestamp, ParseError> {
    match found_text(field, s) {
        Err(e) => Err(e),
        Ok(t) => match Timestamp::of_text(t) {
            Some(instant) => Ok(instant),
            None => Err(ParseError::InvalidTimestamp(field)),
        },
    }
}

/// The note that six searches make, or the error of the first of them, in
/// the order of the parameters, that does not give its part.
pub open spec fn assembled(
    id: SearchView,
    title: SearchView,
    desc: SearchView,
    created: SearchView,
    updated: SearchView,
    text: SearchView,
) -> Result<NoteView, ParseError> {
    match found_text(Field::Id, id) {
        Err(e) => Err(e),
        Ok(id) => match found_text(Field::Title, title) {
            Err(e) => Err(e),
            Ok(title) => match found_text(Field::Desc, desc) {
                Err(e) => Err(e),
                Ok(desc) => match found_time(Field::Created, created) {
                    Err(e) => Err(e),
                    Ok(created) => match found_time(Field::Updated, updated) {
                        Err(e) => Err(e),
                        Ok(updated) => match found_text(Field::Text, text) {
                            Err(e) => Err(e),
                            Ok(text) => Ok(NoteView { id, title, desc, created, updated, text }),
                        },
                    },
                },
            },
        },
    }
}

/// The note that `raw_text` holds, or why it holds none.
pub open spec fn parsed(raw_text: Seq<char>) -> Result<NoteView, ParseError> {
    assembled(
        Field::Id.sought(raw_text),
        Field::Title.sought(raw_text),
        Field::Desc.sought(raw_text),
        Field::Created.sought(raw_text),
        Field::Updated.sought(raw_text),
        Field::Text.sought(raw_text),
    )
}

/// The text that the search for `field` found.
fn text_found(field: Field, s: Search) -> (r: Result<String, ParseError>)
    ensures
        match r {
            Ok(t) => found_text(field, s@) == Ok::<Seq<char>, ParseError>(t@),
            Err(e) => found_text(field, s@) == Err::<Seq<char>, ParseError>(e),
        },
{
    match s {
        Search::Rejected => Err(ParseError::Pattern),
        Search::Absent => Err(
            match field {
                Field::Id | Field::Title | Field::Desc => ParseError::MissingField(field),
                Field::Created | Field::Updated => ParseError::InvalidTimestamp(field),
                Field::Text => ParseError::MissingFrontmatterDelimiters,
            },
        ),
        Search::Found(t) => Ok(t),
    }
}

/// The instant that the search for `field` found.
fn time_found(field: Field, s: Search) -> (r: Result<Timestamp, ParseError>)
    ensures
        r == found_time(field, s@),
        r matches Ok(instant) ==> instant.wf(),
{
    match text_found(field, s) {
        Err(e) => Err(e),
        Ok(t) => match time_from_string(t.as_str()) {
            Some(instant) => Ok(instant),
            None => Err(ParseError::InvalidTimestamp(field)),
        },
    }
}

impl Note {
    /// Makes a note of what six searches came to, one for each part.
    ///
    /// The parts are taken in the order of the parameters, and the first one
    /// that is wanting decides the error: a refused pattern gives `Pattern`; a
    /// search that found nothing gives `MissingField` for `id`, `title` and
    /// `desc`, `InvalidTimestamp` for `created` and `updated`, and
    /// `MissingFrontmatterDelimiters` for the text; a `created` or `updated`
    /// that is no decimal count of milliseconds, or lies where chrono has no
    /// instant, gives `InvalidTimestamp`. With nothing wanting, the note holds
    /// what was found, letter for letter, and the two instants cut down to
    /// whole seconds.
    pub fn from_searches(
        id: Search,
        title: Search,
        desc: Search,
        created: Search,
        updated: Search,
        text: Search,
    ) -> (r: Result<Note, ParseError>)
        ensures
            outcome(r) == assembled(id@, title@, desc@, created@, updated@, text@),
            r matches Ok(note) ==> note@.wf(),
    {
        let id = match text_found(Field::Id, id) {
            Ok(t) => t,
            Err(e) => { return Err(e); },
        };
        let title = match text_found(Field::Title, title) {
            Ok(t) => t,
            Err(e) => { return Err(e); },
        };
        let desc = match text_found(Field::Desc, desc) {
            Ok(t) => t,
            Err(e) => { return Err(e); },
        };
        let created = match time_found(Field::Created, created) {
            Ok(t) => t,
            Err(e) => { return Err(e); },
        };
        let updated = match time_found(Field::Updated, updated) {
            Ok(t) => t,
            Err(e) => { return Err(e); },
        };
        let text = match text_found(Field::Text, text) {
            Ok(t) => t,
            Err(e) => { return Err(e); },
        };
        Ok(Note { id, title, desc, created, updated, text })
    }

    /// Reads a note from `raw_text`.
    ///
    /// Each part is searched for in the whole text, and the note is made of
    /// what the searches found as `from_searches` says.
    pub fn from_str(raw_text: &str) -> (r: Result<Note, ParseError>)
        ensures
            outcome(r) == parsed(raw_text@),
            r matches Ok(note) ==> note@.wf(),
    {
        let id = Field::Id.seek(raw_text);
        let title = Field::Title.seek(raw_text);
        let desc = Field::Desc.seek(raw_text);
        let created = Field::Created.seek(raw_text);
        let updated = Field::Updated.seek(raw_text);
        let text = Field::Text.seek(raw_text);
        Note::from_searches(id, title, desc, created, updated, text)
    }
}

/// Whether the engine takes all six patterns.
pub open spec fn patterns_accepted() -> bool {
    &&& accepted(Field::Id.pattern())
    &&& accepted(Field::Title.pattern())
    &&& accepted(Field::Desc.pattern())
    &&& accepted(Field::Created.pattern())
    &&& accepted(Field::Updated.pattern())
    &&& accepted(Field::Text.pattern())
}

/// What the pattern of `field` finds in `raw_text`, if anything.
pub open spec fn part(field: Field, raw_text: Seq<char>) -> Option<Seq<char>> {
    captured(field.pattern(), raw_text, field.group())
}

/// Where the engine takes the six patterns: a text in which every one of the
/// six parts is found, and whose `created` and `updated` are counts of
/// milliseconds that stand for instants, is a note. Its `id`, `title`, `desc` and text are what was found, letter for
/// letter, and its two instants are those that the counts fall in.
pub proof fn lemma_complete_text_is_note(raw_text: Seq<char>)
    requires
        patterns_accepted(),
        part(Field::Id, raw_text) is Some,
        part(Field::Title, raw_text) is Some,
        part(Field::Desc, raw_text) is Some,
        part(Field::Created, raw_text) is Some,
        part(Field::Updated, raw_text) is Some,
        part(Field::Text, raw_text) is Some,
        Timestamp::of_text(part(Field::Created, raw_text).unwrap()) is Some,
        Timestamp::of_text(part(Field::Updated, raw_text).unwrap()) is Some,
    ensures
        parsed(raw_text) == Ok::<NoteView, ParseError>(
            NoteView {
                id: part(Field::Id, raw_text).unwrap(),
                title: part(Field::Title, raw_text).unwrap(),
                desc: part(Field::Desc, raw_text).unwrap(),
                created: Timestamp::of_text(part(Field::Created, raw_text).unwrap()).unwrap(),
                updated: Timestamp::of_text(part(Field::Updated, raw_text).unwrap()).unwrap(),
                text: part(Field::Text, raw_text).unwrap(),
            },
        ),
{
}

/// Where the engine takes the six patterns: a text that lacks one of `id`,
/// `title` and `desc`, and has those of the three that come before it, is no
/// note. The reading fails with `MissingField` for the one it lacks, whatever
/// else the text holds.
pub proof fn lemma_missing_field(raw_text: Seq<char>, field: Field)
    requires
        patterns_accepted(),
        field == Field::Id || field == Field::Title || field == Field::Desc,
        part(field, raw_text) is None,
        field == Field::Title || field == Field::Desc ==> part(Field::Id, raw_text) is Some,
        field == Field::Desc ==> part(Field::Title, raw_text) is Some,
    ensures
        parsed(raw_text) == Err::<NoteView, ParseError>(ParseError::MissingField(field)),
{
}

/// The instants of a note are the counts of milliseconds that its text gives
/// for `created` and `updated`, cut down to whole seconds. For a count that
/// is not negative, or is a whole number of seconds, that is the count
/// divided by 1000 and rounded down.
pub proof fn lemma_instants_are_whole_seconds(raw_text: Seq<char>, note: NoteView)
    requires
        parsed(raw_text) == Ok::<NoteView, ParseError>(note),
    ensures
        part(Field::Created, raw_text) is Some,
        part(Field::Updated, raw_text) is Some,
        decimal_i64(part(Field::Created, raw_text).unwrap()) matches Some(millis) && ({
            &&& note.created.seconds == whole_seconds(millis as int)
            &&& (millis >= 0 || millis % 1000 == 0) ==> note.created.seconds == millis / 1000
        }),
        decimal_i64(part(Field::Updated, raw_text).unwrap()) matches Some(millis) && ({
            &&& note.updated.seconds == whole_seconds(millis as int)
            &&& (millis >= 0 || millis % 1000 == 0) ==> note.updated.seconds == millis / 1000
        }),
{
    lemma_whole_seconds();
}

/// A text in which every one of the six parts is found, and whose `created`
/// and `updated` are decimal counts of milliseconds from the epoch to the end
/// of the year 9999, is a note, where the engine takes the six patterns. Its
/// `created` is as many whole seconds after the epoch as the count of
/// `created` divided by 1000 and rounded down, and its `updated` likewise.
pub proof fn lemma_common_era_note(raw_text: Seq<char>, created: int, updated: int)
    requires
        patterns_accepted(),
        part(Field::Id, raw_text) is Some,
        part(Field::Title, raw_text) is Some,
        part(Field::Desc, raw_text) is Some,
        part(Field::Created, raw_text) matches Some(t) && decimal_value(t) == Some(created),
        part(Field::Updated, raw_text) matches Some(t) && decimal_value(t) == Some(updated),
        part(Field::Text, raw_text) is Some,
        0 <= created <= 1000 * LAST_COMMON_SECOND + 999,
        0 <= updated <= 1000 * LAST_COMMON_SECOND + 999,
    ensures
        parsed(raw_text) == Ok::<NoteView, ParseError>(
            NoteView {
                id: part(Field::Id, raw_text).unwrap(),
                title: part(Field::Title, raw_text).unwrap(),
                desc: part(Field::Desc, raw_text).unwrap(),
                created: Timestamp { seconds: (created / 1000) as i64 },
                updated: Timestamp { seconds: (updated / 1000) as i64 },
                text: part(Field::Text, raw_text).unwrap(),
            },
        ),
{
    lemma_common_era_text(part(Field::Created, raw_text).unwrap(), created);
    lemma_common_era_text(part(Field::Updated, raw_text).unwrap(), updated);
}

/// Where the engine takes the six patterns: a text in which the five parts of
/// the header are found and its two instants are in order, but in which the
/// text is not found, is no note. The reading fails with
/// `MissingFrontmatterDelimiters`.
pub proof fn lemma_missing_delimiters(raw_text: Seq<char>)
    requires
        patterns_accepted(),
        part(Field::Id, raw_text) is Some,
        part(Field::Title, raw_text) is Some,
        part(Field::Desc, raw_text) is Some,
        part(Field::Created, raw_text) is Some,
        part(Field::Updated, raw_text) is Some,
        Timestamp::of_text(part(Field::Created, raw_text).unwrap()) is Some,
        Timestamp::of_text(part(Field::Updated, raw_text).unwrap()) is Some,
        part(Field::Text, raw_text) is None,
    ensures
        parsed(raw_text) == Err::<NoteView, ParseError>(ParseError::MissingFrontmatterDelimiters),
{
}

/// Reading the same text twice gives the same: two outcomes of reading one
/// text are both the same note, part by part, or both the same error.
pub proof fn lemma_reading_is_repeatable(
    raw_text: Seq<char>,
    first: Result<Note, ParseError>,
    second: Result<Note, ParseError>,
)
    requires
        outcome(first) == parsed(raw_text),
        outcome(second) == parsed(raw_text),
    ensures
        outcome(first) == outcome(second),
        first is Ok <==> second is Ok,
        first matches Ok(a) ==> second matches Ok(b) && a@ == b@,
        first matches Err(e) ==> second == Err::<Note, ParseError>(e),
{
}

} // verus!
