//! The rules behind the project and model commands: how a project is stored,
//! which files in the projects directory are projects, and how far a model
//! download has come.

use vstd::prelude::*;
use vstd::slice::slice_subrange;
use crate::json::{json_string_literal, write_string_literal};
use crate::text::{
    chars_end_with, chars_of, find_char, first_at, has_suffix, last_word, last_word_span,
    parse_unsigned, text_of, unsigned_number,
};

verus! {

/// The directory, below the user's documents, that holds the projects.
pub const PROJECTS_DIRECTORY: &'static str = "AntigravityProjects";

/// The address at which a running Ollama answers.
pub const OLLAMA_ADDRESS: &'static str = "http://localhost:11434";

/// The number of seconds that Ollama is given to answer when it is asked
/// whether it runs.
pub const STATUS_TIMEOUT_SECONDS: u64 = 2;

/// The event that carries the progress of a download.
pub const PROGRESS_EVENT: &'static str = "download-progress";

/// The ending of a project's file name.
pub const PROJECT_SUFFIX: &'static str = ".json";

/// A project as it is stored.
#[derive(Debug)]
pub struct ProjectData {
    pub name: String,
    pub code: String,
    pub chat_history: String,
}

/// What a `ProjectData` holds.
pub struct ProjectDataView {
    pub name: Seq<char>,
    pub code: Seq<char>,
    pub chat_history: Seq<char>,
}

impl View for ProjectData {
    type V = ProjectDataView;

    open spec fn view(&self) -> ProjectDataView {
        ProjectDataView { name: self.name@, code: self.code@, chat_history: self.chat_history@ }
    }
}

impl ProjectData {
    /// The JSON text of a project: an object with `name`, `code` and
    /// `chat_history`, one member to a line, indented by two blanks.
    pub open spec fn json(self) -> Seq<char> {
        "{\n  \"name\": "@ + json_string_literal(self.name@) + ",\n  \"code\": "@
            + json_string_literal(self.code@) + ",\n  \"chat_history\": "@ + json_string_literal(
            self.chat_history@,
        ) + "\n}"@
    }

    /// The name of the file that holds the project.
    pub open spec fn file_name(self) -> Seq<char> {
        self.name@ + PROJECT_SUFFIX@
    }

    /// A project.
    pub fn new(name: String, code: String, chat_history: String) -> (project: ProjectData)
        ensures
            project@ == (ProjectDataView {
                name: name@,
                code: code@,
                chat_history: chat_history@,
            }),
    {
        ProjectData { name, code, chat_history }
    }

    /// Writes the project as JSON, laid out for reading.
    pub fn to_json_pretty(&self) -> (text: String)
        ensures
            text@ == self.json(),
    {
        let mut text = "{\n  \"name\": ".to_owned();
        let name = write_string_literal(self.name.as_str());
        text.append(name.as_str());
        text.append(",\n  \"code\": ");
        let code = write_string_literal(self.code.as_str());
        text.append(code.as_str());
        text.append(",\n  \"chat_history\": ");
        let history = write_string_literal(self.chat_history.as_str());
        text.append(history.as_str());
        text.append("\n}");
        text
    }

    /// The name of the file that holds the project.
    pub fn project_file_name(&self) -> (file_name: String)
        ensures
            file_name@ == self.file_name(),
    {
        let mut file_name = self.name.clone();
        file_name.append(PROJECT_SUFFIX);
        file_name
    }
}

/// A text without any of the copies of `suffix` at its end.
pub open spec fn without_endings(text: Seq<char>, suffix: Seq<char>) -> Seq<char>
    decreases text.len(),
{
    if suffix.len() > 0 && has_suffix(text, suffix) {
        without_endings(text.take(text.len() - suffix.len()), suffix)
    } else {
        text
    }
}

/// The project that a file of the projects directory holds: its name ends
/// in `.json`, and the project is named by what stands before all such
/// endings.
pub open spec fn project_of(file_name: Seq<char>) -> Option<Seq<char>> {
    if has_suffix(file_name, PROJECT_SUFFIX@) {
        Some(without_endings(file_name, PROJECT_SUFFIX@))
    } else {
        None
    }
}

/// The projects among the files of the projects directory, in their order.
pub open spec fn projects_among(file_names: Seq<Seq<char>>) -> Seq<Seq<char>>
    decreases file_names.len(),
{
    if file_names.len() == 0 {
        Seq::empty()
    } else {
        match project_of(file_names.last()) {
            Some(name) => projects_among(file_names.drop_last()).push(name),
            None => projects_among(file_names.drop_last()),
        }
    }
}

/// The texts of a list.
pub open spec fn text_views(texts: Seq<String>) -> Seq<Seq<char>> {
    texts.map_values(|text: String| text@)
}

/// The project that a file of the projects directory holds.
pub fn project_name(file_name: &str) -> (name: Option<String>)
    ensures
        match name {
            Some(n) => project_of(file_name@) == Some(n@),
            None => project_of(file_name@) is None,
        },
{
    let chars = chars_of(file_name);
    let suffix = chars_of(PROJECT_SUFFIX);
    proof {
        reveal_strlit(".json");
    }
    if !chars_end_with(chars.as_slice(), suffix.as_slice()) {
        return None;
    }
    let mut end: usize = chars.len();
    assert(chars@.take(end as int) =~= chars@);
    while chars_end_with(slice_subrange(chars.as_slice(), 0, end), suffix.as_slice())
        invariant
            end <= chars@.len(),
            suffix@ == PROJECT_SUFFIX@,
            suffix@.len() == 5,
            without_endings(chars@, suffix@) == without_endings(chars@.take(end as int), suffix@),
        decreases end,
    {
        assert(chars@.take(end as int).take(end - 5) =~= chars@.take(end - 5));
        end -= 5;
    }
    Some(text_of(slice_subrange(chars.as_slice(), 0, end)))
}

/// The projects among the files of the projects directory, in their order.
pub fn project_names(file_names: &Vec<String>) -> (names: Vec<String>)
    ensures
        text_views(names@) == projects_among(text_views(file_names@)),
{
    let mut names: Vec<String> = Vec::new();
    let ghost all = text_views(file_names@);
    let mut i: usize = 0;
    while i < file_names.len()
        invariant
            i <= file_names@.len(),
            all == text_views(file_names@),
            text_views(names@) == projects_among(all.take(i as int)),
        decreases file_names@.len() - i,
    {
        let ghost before = text_views(names@);
        assert(all.take(i + 1).drop_last() =~= all.take(i as int));
        if let Some(name) = project_name(file_names[i].as_str()) {
            names.push(name);
        }
        i += 1;
    }
    assert(all.take(i as int) =~= all);
    names
}

/// How far a download has come, by a line of the downloader's report: the
/// number that ends the last word before the first `%`, or 0 where the line
/// holds no `%` or that word is no number.
pub open spec fn progress_of(line: Seq<char>, percent_at: int) -> u64 {
    match unsigned_number(last_word(line.take(percent_at))) {
        Some(percent) => percent,
        None => 0,
    }
}

/// Reads the progress of a download from a line of the downloader's report.
pub fn progress_percent(line: &str) -> (percent: u64)
    ensures
        !line@.contains('%') ==> percent == 0,
        forall|at: int| first_at(line@, '%', at) ==> percent == progress_of(line@, at),
{
    let chars = chars_of(line);
    match find_char(chars.as_slice(), '%') {
        None => 0,
        Some(at) => {
            let (start, stop) = last_word_span(chars.as_slice(), at);
            let word = slice_subrange(chars.as_slice(), start, stop);
            let percent = match parse_unsigned(word) {
                Some(percent) => percent,
                None => 0,
            };
            assert forall|other: int| first_at(line@, '%', other) implies other == at by {
                assert(!(other < at) && !(at < other));
            }
            percent
        },
    }
}

/// What is reported when the downloader ends without success.
pub fn download_failure(status: &str) -> (message: String)
    ensures
        message@ == "Ollama exited with status: "@ + status@,
{
    let mut message = "Ollama exited with status: ".to_owned();
    message.append(status);
    message
}

} // verus!
