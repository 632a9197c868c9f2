//! Invariant violations detected by the program itself: what they are called,
//! how they read, and what is reported when one is reached.
use vstd::prelude::*;
use crate::position::Position;

verus! {

/// The three kinds of invariant violation.
#[derive(PartialEq, Eq, Structural, Clone, Copy, Debug)]
pub enum DiagKind {
    UnreachableReached,
    UnimplementedReached,
    InternalError,
}

/// What each kind says of itself.
pub open spec fn kind_message(kind: DiagKind) -> Seq<char> {
    match kind {
        DiagKind::UnreachableReached => "unreachable code reached"@,
        DiagKind::UnimplementedReached => "unimplemented code reached"@,
        DiagKind::InternalError => "internal error"@,
    }
}

impl DiagKind {
    pub fn message(&self) -> (r: &'static str)
        ensures
            r@ == kind_message(*self),
    {
        match self {
            DiagKind::UnreachableReached => "unreachable code reached",
            DiagKind::UnimplementedReached => "unimplemented code reached",
            DiagKind::InternalError => "internal error",
        }
    }
}

/// `<kind message> at <position>`, then `: <detail>` where a detail was given.
pub open spec fn error_text(kind: DiagKind, position: Seq<char>, detail: Option<Seq<char>>) -> Seq<char> {
    let head = kind_message(kind) + " at "@ + position;
    match detail {
        Some(d) => head + ": "@ + d,
        None => head,
    }
}

pub open spec fn detail_view(detail: Option<String>) -> Option<Seq<char>> {
    match detail {
        Some(d) => Some(d@),
        None => None,
    }
}

/// An invariant violation, with the position where it was detected and an
/// optional message of the caller's.
#[derive(Debug)]
pub struct DiagError {
    pub kind: DiagKind,
    pub position: Position,
    pub detail: Option<String>,
}

/// The lines reported on the diagnostics channel for an error: its kind and
/// position, the caller's message if any, and the backtrace.
pub open spec fn report_lines(error: DiagError, backtrace: Seq<char>) -> Seq<Seq<char>> {
    let head = seq![kind_message(error.kind) + " at "@ + error.position.text()];
    match error.detail {
        Some(d) => head.push(d@).push(backtrace),
        None => head.push(backtrace),
    }
}

pub open spec fn views(lines: Seq<String>) -> Seq<Seq<char>> {
    lines.map_values(|l: String| l@)
}

/// Relies on backtrace::Backtrace::new and its `Debug` form: the resolved
/// stack of the calling thread, which depends on the build and the machine.
#[verifier::external_body]
fn capture_backtrace() -> (r: String) {
    format!("{:?}", backtrace::Backtrace::new())
}

impl DiagError {
    pub open spec fn text(&self) -> Seq<char> {
        error_text(self.kind, self.position.text(), detail_view(self.detail))
    }

    pub fn new(kind: DiagKind, position: Position, detail: Option<String>) -> (r: DiagError)
        ensures
            r == (DiagError { kind, position, detail }),
    {
        DiagError { kind, position, detail }
    }

    /// The error's text, as it reads where it is displayed.
    pub fn to_text(&self) -> (r: String)
        ensures
            r@ == self.text(),
    {
        let mut r = String::from_str(self.kind.message());
        r.append(" at ");
        let position = self.position.to_text();
        r.append(position.as_str());
        match &self.detail {
            Some(d) => {
                r.append(": ");
                r.append(d.as_str());
            },
            None => {},
        }
        proof {
            assert(r@ =~= self.text());
        }
        r
    }

    /// The lines to report for this error, given the backtrace's text.
    pub fn report_with(&self, backtrace: &str) -> (r: Vec<String>)
        ensures
            views(r@) == report_lines(*self, backtrace@),
    {
        let mut head = String::from_str(self.kind.message());
        head.append(" at ");
        let position = self.position.to_text();
        head.append(position.as_str());
        let mut r: Vec<String> = Vec::new();
        r.push(head);
        match &self.detail {
            Some(d) => r.push(d.clone()),
            None => {},
        }
        r.push(String::from_str(backtrace));
        proof {
            assert(views(r@) =~= report_lines(*self, backtrace@));
        }
        r
    }

    /// The lines to report for this error, with a backtrace of the calling
    /// thread.
    pub fn report(&self) -> (r: Vec<String>)
        ensures
            exists|backtrace: Seq<char>| views(r@) == #[trigger] report_lines(*self, backtrace),
    {
        let backtrace = capture_backtrace();
        self.report_with(backtrace.as_str())
    }
}

/// Whether marking an unreachable or unimplemented branch aborts the process.
/// A program decides it once at start, most often by whether it is a debug
/// build.
#[derive(Debug)]
pub struct DiagConfig {
    pub panic_on_unreachable: bool,
}

/// What a call site reports when it reaches an invariant violation: the error,
/// the lines for the diagnostics channel, and whether to abort after writing
/// them.
#[derive(Debug)]
pub struct Diagnostic {
    pub error: DiagError,
    pub lines: Vec<String>,
    pub abort: bool,
}

impl Diagnostic {
    /// Reports `error`, and has the process abort after writing the lines
    /// when `abort` is set.
    pub open spec fn reports(&self, error: DiagError, abort: bool) -> bool {
        &&& self.error == error
        &&& self.abort == abort
        &&& exists|backtrace: Seq<char>| views(self.lines@) == #[trigger] report_lines(error, backtrace)
    }
}

fn diagnose(kind: DiagKind, position: Position, detail: Option<String>, abort: bool) -> (r: Diagnostic)
    ensures
        r.reports(DiagError { kind, position, detail }, abort),
{
    let error = DiagError { kind, position, detail };
    let lines = error.report();
    Diagnostic { error, lines, abort }
}

/// Marks a branch that should never run: reported, and fatal where the
/// configuration says so.
pub fn mark_unreachable(config: &DiagConfig, position: Position, detail: Option<String>) -> (r: Diagnostic)
    ensures
        r.reports(DiagError { kind: DiagKind::UnreachableReached, position, detail }, config.panic_on_unreachable),
{
    diagnose(DiagKind::UnreachableReached, position, detail, config.panic_on_unreachable)
}

/// Marks a branch that is not written yet: reported, and fatal where the
/// configuration says so.
pub fn mark_unimplemented(config: &DiagConfig, position: Position, detail: Option<String>) -> (r: Diagnostic)
    ensures
        r.reports(DiagError { kind: DiagKind::UnimplementedReached, position, detail }, config.panic_on_unreachable),
{
    diagnose(DiagKind::UnimplementedReached, position, detail, config.panic_on_unreachable)
}

/// Reports an unreachable branch and hands its error to the caller; never fatal.
pub fn unreachable_err(position: Position, detail: Option<String>) -> (r: Diagnostic)
    ensures
        r.reports(DiagError { kind: DiagKind::UnreachableReached, position, detail }, false),
{
    diagnose(DiagKind::UnreachableReached, position, detail, false)
}

/// Reports an unimplemented branch and hands its error to the caller; never fatal.
pub fn unimplemented_err(position: Position, detail: Option<String>) -> (r: Diagnostic)
    ensures
        r.reports(DiagError { kind: DiagKind::UnimplementedReached, position, detail }, false),
{
    diagnose(DiagKind::UnimplementedReached, position, detail, false)
}

/// Reports an internal error and hands it to the caller, who propagates it.
pub fn diag_err(position: Position, detail: Option<String>) -> (r: Diagnostic)
    ensures
        r.reports(DiagError { kind: DiagKind::InternalError, position, detail }, false),
{
    diagnose(DiagKind::InternalError, position, detail, false)
}

/// Reports an internal error and fails: the result is always `Err`, so a
/// caller that returns it at once never reaches its success path.
pub fn bail_diag<T>(position: Position, detail: Option<String>) -> (r: Result<T, Diagnostic>)
    ensures
        r matches Err(d) && d.reports(DiagError { kind: DiagKind::InternalError, position, detail }, false),
{
    Err(diag_err(position, detail))
}

/// The text of every error holds its position, `file:line:column`, right
/// after `<kind message> at `; so it names the file and the line and column of
/// the call site.
pub proof fn error_text_holds_position(error: DiagError)
    ensures
        ({
            let k = kind_message(error.kind).len() as int + 4;
            error.text().subrange(k, k + error.position.text().len() as int) == error.position.text()
        }),
{
    let k = kind_message(error.kind).len() as int + 4;
    let head = kind_message(error.kind) + " at "@ + error.position.text();
    assert(" at "@.len() == 4) by {
        reveal_strlit(" at ");
    }
    assert(head.subrange(k, k + error.position.text().len() as int) =~= error.position.text());
    match error.detail {
        Some(d) => {
            assert(error.text() == head + ": "@ + d@);
            assert(error.text().subrange(k, k + error.position.text().len() as int) =~= head.subrange(k, k + error.position.text().len() as int));
        },
        None => {},
    }
}

} // verus!
