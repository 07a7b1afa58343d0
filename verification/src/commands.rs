//! The small decisions behind the viewer's commands: which file the command
//! line asks for, how windows are titled, where a file to open goes, and what
//! the viewer says when it cannot read one.

use crate::paths::{file_name_of, path_file_name};
use crate::text::opt_view;
use vstd::prelude::*;
use vstd::string::*;

verus! {

/// The text of each value, with `None` for a value that is no string.
pub open spec fn values_view(values: Seq<Option<String>>) -> Seq<Option<Seq<char>>> {
    Seq::new(values.len(), |i: int| opt_view(values[i]))
}

/// The first of `values` that is a string.
pub open spec fn first_text(values: Seq<Option<Seq<char>>>) -> Option<Seq<char>>
    decreases values.len(),
{
    if values.len() == 0 {
        None
    } else if values.first() is Some {
        values.first()
    } else {
        first_text(values.drop_first())
    }
}

/// The file that the command line asks to open: the value of the argument
/// `path` where the command line has that argument (nothing where its value
/// is no string), else the first argument value that is a string.
pub open spec fn cli_file(path_argument: Option<Option<Seq<char>>>, values: Seq<Option<Seq<char>>>)
    -> Option<Seq<char>> {
    match path_argument {
        Some(value) => value,
        None => first_text(values),
    }
}

/// Picks the file to open from the command line: `path_argument` is the
/// value of the argument `path` where there is one, `values` are the values
/// of all arguments in the order in which the command line gives them.
pub fn select_cli_file(
    path_argument: Option<Option<String>>,
    values: &Vec<Option<String>>,
) -> (file: Option<String>)
    ensures
        opt_view(file) == cli_file(
            match path_argument {
                Some(value) => Some(opt_view(value)),
                None => None,
            },
            values_view(values@),
        ),
{
    match path_argument {
        Some(value) => value,
        None => {
            let mut i: usize = 0;
            assert(values_view(values@).skip(0) == values_view(values@));
            while i < values.len()
                invariant
                    i <= values.len(),
                    path_argument is None,
                    first_text(values_view(values@)) == first_text(
                        values_view(values@).skip(i as int),
                    ),
                decreases values.len() - i,
            {
                let ghost rest = values_view(values@).skip(i as int);
                assert(rest.first() == opt_view(values@[i as int]));
                assert(rest.drop_first() == values_view(values@).skip(i + 1));
                match &values[i] {
                    Some(text) => {
                        assert(first_text(rest) == Some(text@));
                        return Some(text.clone());
                    },
                    None => {},
                }
                i = i + 1;
            }
            assert(values_view(values@).skip(i as int).len() == 0);
            None
        },
    }
}

/// The title of a window that shows the file at `path`: the file's name, or
/// `fallback` where the path has none.
pub open spec fn title_of(path: Seq<char>, fallback: Seq<char>) -> Seq<char> {
    match file_name_of(path) {
        Some(name) => name,
        None => fallback,
    }
}

/// The title of the main window once it shows the file at `path`: the
/// file's name, or the path itself where it has none.
pub fn window_title(path: &str) -> (title: String)
    ensures
        title@ == title_of(path@, path@),
{
    match path_file_name(path) {
        Some(name) => name,
        None => path.to_owned(),
    }
}

/// The title of a new window for the file at `path`: the file's name, or
/// the viewer's own name where the path has none.
pub fn new_window_title(path: &str) -> (title: String)
    ensures
        title@ == title_of(path@, "ReadText"@),
{
    match path_file_name(path) {
        Some(name) => name,
        None => "ReadText".to_owned(),
    }
}

/// What to do with a request to open another file.
#[derive(Debug, Clone, Copy, PartialEq, Eq, Structural)]
pub enum OpenFile {
    /// Hand the file to the main window, which opens it in a new tab.
    Emit,
    /// There is no window to take the file: the request fails.
    Refuse,
    /// Nothing to do.
    Ignore,
}

/// Decides what to do with a request to open another file: the main window
/// takes it where it exists; without one the request fails, unless the
/// single-instance mode is on.
pub fn open_file_decision(has_main_window: bool, instance_mode_enabled: bool) -> (decision: OpenFile)
    ensures
        has_main_window ==> decision == OpenFile::Emit,
        !has_main_window && !instance_mode_enabled ==> decision == OpenFile::Refuse,
        !has_main_window && instance_mode_enabled ==> decision == OpenFile::Ignore,
{
    if has_main_window {
        OpenFile::Emit
    } else if !instance_mode_enabled {
        OpenFile::Refuse
    } else {
        OpenFile::Ignore
    }
}

/// The text of the failure to open a file without a window.
pub fn no_window_message() -> (message: String)
    ensures
        message@ == "No window available"@,
{
    "No window available".to_owned()
}

/// Why a file could not be handed to the viewer.
#[derive(Debug, Clone, Copy, PartialEq, Eq, Structural)]
pub enum ReadRefusal {
    /// The file's metadata could not be read.
    Missing,
    /// The path names something that is no regular file.
    NotAFile,
}

/// The text that the viewer shows for a refusal to read `path`.
pub open spec fn refusal_text(refusal: ReadRefusal, path: Seq<char>) -> Seq<char> {
    match refusal {
        ReadRefusal::Missing => "Lỗi: File '"@ + path + "' không tồn tại."@,
        ReadRefusal::NotAFile => "Lỗi: '"@ + path + "' là thư mục, không phải file."@,
    }
}

/// Builds the text that the viewer shows for a refusal to read `path`.
pub fn read_refusal_message(refusal: ReadRefusal, path: &str) -> (message: String)
    ensures
        message@ == refusal_text(refusal, path@),
{
    let mut message = String::new();
    match refusal {
        ReadRefusal::Missing => {
            message.append("Lỗi: File '");
            message.append(path);
            message.append("' không tồn tại.");
        },
        ReadRefusal::NotAFile => {
            message.append("Lỗi: '");
            message.append(path);
            message.append("' là thư mục, không phải file.");
        },
    }
    assert(message@ =~= refusal_text(refusal, path@));
    message
}

/// Decides whether a file may be read: its metadata must be readable and
/// must say that it is a regular file. `is_file` is `None` where the
/// metadata could not be read.
pub fn check_readable(is_file: Option<bool>) -> (check: Result<(), ReadRefusal>)
    ensures
        is_file == Some(true) <==> check is Ok,
        is_file is None ==> check == Err::<(), ReadRefusal>(ReadRefusal::Missing),
        is_file == Some(false) ==> check == Err::<(), ReadRefusal>(ReadRefusal::NotAFile),
{
    match is_file {
        None => Err(ReadRefusal::Missing),
        Some(false) => Err(ReadRefusal::NotAFile),
        Some(true) => Ok(()),
    }
}

} // verus!
