use vstd::prelude::*;
use crate::path::{decompose, directory_part, file_name_part};
use crate::text::{chars_of, push_all, string_of};

verus! {

/// A destination for log lines: a file, given by its directory (empty or
/// ending with the separator) and its name, or the console.
#[derive(Clone, Debug)]
pub enum Output {
    File { file_path: String, file_name: String },
    Console,
}

/// What an `Output` is: the characters of a file's directory and name, or the console.
pub enum SinkModel {
    File { directory: Seq<char>, file_name: Seq<char> },
    Console,
}

impl View for Output {
    type V = SinkModel;

    open spec fn view(&self) -> SinkModel {
        match self {
            Output::File { file_path, file_name } => SinkModel::File {
                directory: file_path@,
                file_name: file_name@,
            },
            Output::Console => SinkModel::Console,
        }
    }
}

impl PartialEq for Output {
    fn eq(&self, o: &Output) -> (r: bool) {
        match (self, o) {
            (Output::File { file_path: d1, file_name: n1 }, Output::File { file_path: d2, file_name: n2 }) => {
                *d1 == *d2 && *n1 == *n2
            },
            (Output::Console, Output::Console) => true,
            _ => false,
        }
    }
}

impl vstd::std_specs::cmp::PartialEqSpecImpl for Output {
    open spec fn obeys_eq_spec() -> bool {
        true
    }

    open spec fn eq_spec(&self, o: &Output) -> bool {
        self@ == o@
    }
}

impl Output {
    /// The file sink for a path: its directory part and its file name.
    pub fn new_as_file(file: String) -> (r: Output)
        ensures
            r@ == (SinkModel::File {
                directory: directory_part(file@),
                file_name: file_name_part(file@),
            }),
    {
        let (file_path, file_name) = decompose(file.as_str());
        Output::File { file_path, file_name }
    }

    /// The file that a writer for this sink starts afresh: for a file sink,
    /// its directory followed by its name; none for the console.
    pub fn target_path(&self) -> (r: Option<String>)
        ensures
            match self@ {
                SinkModel::File { directory, file_name } => r is Some && r->0@ == directory + file_name,
                SinkModel::Console => r is None,
            },
    {
        match self {
            Output::File { file_path, file_name } => {
                let mut v = chars_of(file_path.as_str());
                let n = chars_of(file_name.as_str());
                push_all(&mut v, &n);
                Some(string_of(&v))
            },
            Output::Console => None,
        }
    }
}

/// What one log call asks of one sink: a line to print on the console, or
/// an entry for the file `file_name` in `directory`.
#[derive(Clone, Debug)]
pub enum Delivery {
    Console { line: String },
    File { directory: String, file_name: String, text: String },
}

/// What is written to a file for an entry `text`: the text alone when the
/// file does not exist yet, else a newline and then the text.
pub open spec fn entry_bytes(exists: bool, text: Seq<char>) -> Seq<char> {
    if exists {
        seq!['\n'] + text
    } else {
        text
    }
}

/// What a file holds after an entry `text` is written to it, given what it
/// held before (`None` where it did not exist).
pub open spec fn after_entry(before: Option<Seq<char>>, text: Seq<char>) -> Seq<char> {
    match before {
        Some(c) => c + entry_bytes(true, text),
        None => entry_bytes(false, text),
    }
}

/// What a file that did not exist holds after `entries` are written to it
/// in order (`None` where none was).
pub open spec fn session_content(entries: Seq<Seq<char>>) -> Option<Seq<char>>
    decreases entries.len(),
{
    if entries.len() == 0 {
        None
    } else {
        Some(after_entry(session_content(entries.drop_last()), entries.last()))
    }
}

/// `entries` joined with one newline between each two.
pub open spec fn joined(entries: Seq<Seq<char>>) -> Seq<char>
    decreases entries.len(),
{
    if entries.len() == 0 {
        Seq::empty()
    } else if entries.len() == 1 {
        entries[0]
    } else {
        joined(entries.drop_last()) + seq!['\n'] + entries.last()
    }
}

/// A file started afresh holds, after any number of entries, exactly those
/// entries in order, separated by one newline each, with no newline before
/// the first or after the last.
pub proof fn lemma_session_is_joined(entries: Seq<Seq<char>>)
    requires
        entries.len() > 0,
    ensures
        session_content(entries) == Some(joined(entries)),
    decreases entries.len(),
{
    if entries.len() == 1 {
        assert(session_content(entries.drop_last()) == None::<Seq<char>>);
    } else {
        lemma_session_is_joined(entries.drop_last());
        assert(joined(entries.drop_last()) + entry_bytes(true, entries.last())
            =~= joined(entries.drop_last()) + seq!['\n'] + entries.last());
    }
}

/// What to write to a file for the entry `text`, given whether the file exists.
pub fn file_entry(exists: bool, text: &String) -> (r: String)
    ensures
        r@ == entry_bytes(exists, text@),
{
    if exists {
        let mut v: Vec<char> = Vec::new();
        v.push('\n');
        let t = chars_of(text.as_str());
        push_all(&mut v, &t);
        assert(v@ =~= seq!['\n'] + text@);
        string_of(&v)
    } else {
        text.clone()
    }
}

} // verus!
