//! Source positions: the file, line and column of a call site.
use vstd::prelude::*;
use crate::decimal::{decimal_text, u32_text};

verus! {

/// The last component of a path, as the standard library's `Path::file_name`
/// finds it; `None` where the path has none (it is empty or ends in `..`).
pub uninterp spec fn file_name_of(path: Seq<char>) -> Option<Seq<char>>;

/// Relies on std::path::Path::file_name, read back into a `String`. The path
/// comes from a `&str`, so the component is valid UTF-8 and the conversion
/// loses nothing.
#[verifier::external_body]
fn file_name(path: &str) -> (r: Option<String>)
    ensures
        match r {
            Some(n) => file_name_of(path@) == Some(n@),
            None => file_name_of(path@) is None,
        },
{
    std::path::Path::new(path).file_name().map(|n| n.to_string_lossy().into_owned())
}

/// Where in the source a diagnostic was raised.
#[derive(Debug)]
pub struct Position {
    pub file: String,
    pub line: u32,
    pub column: u32,
}

/// `file:line:column`, the numbers in decimal.
pub open spec fn position_text(file: Seq<char>, line: u32, column: u32) -> Seq<char> {
    file + seq![':'] + decimal_text(line as nat) + seq![':'] + decimal_text(column as nat)
}

impl Position {
    pub open spec fn text(&self) -> Seq<char> {
        position_text(self.file@, self.line, self.column)
    }

    pub fn new(file: String, line: u32, column: u32) -> (r: Position)
        ensures
            r.file@ == file@,
            r.line == line,
            r.column == column,
    {
        Position { file, line, column }
    }

    /// The position of a call site whose source file is at `path`: only the
    /// file's name is kept. `None` where the path names no file.
    pub fn from_source_path(path: &str, line: u32, column: u32) -> (r: Option<Position>)
        ensures
            match file_name_of(path@) {
                Some(n) => r matches Some(p) && p.file@ == n && p.line == line && p.column == column,
                None => r is None,
            },
    {
        match file_name(path) {
            Some(file) => Some(Position { file, line, column }),
            None => None,
        }
    }

    /// The position as `file:line:column`.
    pub fn to_text(&self) -> (r: String)
        ensures
            r@ == self.text(),
    {
        let mut r = self.file.clone();
        r.append(":");
        let line = u32_text(self.line);
        r.append(line.as_str());
        r.append(":");
        let column = u32_text(self.column);
        r.append(column.as_str());
        proof {
            reveal_strlit(":");
            assert(r@ =~= self.text());
        }
        r
    }
}

impl Clone for Position {
    fn clone(&self) -> (r: Position)
        ensures
            r.file@ == self.file@,
            r.line == self.line,
            r.column == self.column,
    {
        Position { file: self.file.clone(), line: self.line, column: self.column }
    }
}

} // verus!
