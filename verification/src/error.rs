use vstd::prelude::*;
use vstd::string::StringExecFns;

verus! {

/// How serious an error is for the frame loop.
#[derive(Clone, Copy, Debug, PartialEq, Eq, Structural)]
pub enum Severity {
    Info,
    Warning,
    Recoverable,
    Fatal,
}

/// What went wrong.
#[derive(Clone, Copy, Debug, PartialEq, Eq)]
pub enum ErrorKind {
    NoCompatibleDevice,
    SurfaceNotAttached,
    Unsupported(&'static str),
    InvalidDescriptor(&'static str),
    ResourceNotFound(&'static str),
    TextureUploadFailed(&'static str),
    PipelineCreationFailed(&'static str),
}

/// An error of the backend: a kind and a severity.
#[derive(Clone, Copy, Debug, PartialEq, Eq)]
pub struct Error {
    pub kind: ErrorKind,
    pub severity: Severity,
}

/// The error value `Error { kind, severity: Fatal }`.
pub open spec fn fatal_error(kind: ErrorKind) -> Error {
    Error { kind, severity: Severity::Fatal }
}

/// The error value `Error { kind, severity: Recoverable }`.
pub open spec fn recoverable_error(kind: ErrorKind) -> Error {
    Error { kind, severity: Severity::Recoverable }
}

impl Error {
    /// An error that ends the frame.
    pub fn fatal(kind: ErrorKind) -> (e: Error)
        ensures
            e == fatal_error(kind),
    {
        Error { kind, severity: Severity::Fatal }
    }

    /// An error that the caller may recover from.
    pub fn recoverable(kind: ErrorKind) -> (e: Error)
        ensures
            e == recoverable_error(kind),
    {
        Error { kind, severity: Severity::Recoverable }
    }
}

/// The error returned whenever an operation needs a surface and none is
/// attached.
pub fn surface_not_attached_error() -> (e: Error)
    ensures
        e == fatal_error(ErrorKind::SurfaceNotAttached),
{
    Error::fatal(ErrorKind::SurfaceNotAttached)
}

/// The severities that the backend interface reports.
#[derive(Clone, Copy, Debug, PartialEq, Eq, Structural)]
pub enum CoreSeverity {
    Info,
    Warning,
    Recoverable,
    Fatal,
}

/// The error kinds that the backend interface reports.
#[derive(Clone, Debug, PartialEq, Eq)]
pub enum CoreErrorKind {
    NoCompatibleDevice,
    Unsupported(&'static str),
    /// Any other error, by its debug text.
    Backend(String),
}

/// An error as the backend interface reports it.
#[derive(Clone, Debug, PartialEq, Eq)]
pub struct CoreError {
    pub kind: CoreErrorKind,
    pub severity: CoreSeverity,
}

/// The debug text of a string slice: the text in double quotes, with the
/// characters that need it escaped.
pub uninterp spec fn str_debug_text(s: Seq<char>) -> Seq<char>;

/// The debug text of a string slice. Calls `format!("{:?}", s)`, which
/// formats with std's `Debug` for `str`; the result depends on the text
/// alone.
#[verifier::external_body]
fn debug_text(s: &str) -> (t: String)
    ensures
        t@ == str_debug_text(s@),
{
    format!("{:?}", s)
}

/// The debug text of an error kind: the variant's name, followed by the
/// debug text of its message in parentheses when it has one.
pub open spec fn spec_kind_debug(kind: ErrorKind) -> Seq<char> {
    match kind {
        ErrorKind::NoCompatibleDevice => "NoCompatibleDevice"@,
        ErrorKind::SurfaceNotAttached => "SurfaceNotAttached"@,
        ErrorKind::Unsupported(m) => "Unsupported"@ + "("@ + str_debug_text(m@) + ")"@,
        ErrorKind::InvalidDescriptor(m) => "InvalidDescriptor"@ + "("@ + str_debug_text(m@) + ")"@,
        ErrorKind::ResourceNotFound(m) => "ResourceNotFound"@ + "("@ + str_debug_text(m@) + ")"@,
        ErrorKind::TextureUploadFailed(m) => "TextureUploadFailed"@ + "("@ + str_debug_text(m@) + ")"@,
        ErrorKind::PipelineCreationFailed(m) => "PipelineCreationFailed"@ + "("@ + str_debug_text(m@) + ")"@,
    }
}

/// The text `name(` + debug text of `m` + `)`.
fn variant_with_message(name: &str, m: &str) -> (t: String)
    ensures
        t@ == name@ + "("@ + str_debug_text(m@) + ")"@,
{
    let mut t = String::from_str(name);
    t.append("(");
    let d = debug_text(m);
    t.append(d.as_str());
    t.append(")");
    t
}

/// The debug text of an error kind.
pub fn error_kind_debug(kind: ErrorKind) -> (t: String)
    ensures
        t@ == spec_kind_debug(kind),
{
    match kind {
        ErrorKind::NoCompatibleDevice => String::from_str("NoCompatibleDevice"),
        ErrorKind::SurfaceNotAttached => String::from_str("SurfaceNotAttached"),
        ErrorKind::Unsupported(m) => variant_with_message("Unsupported", m),
        ErrorKind::InvalidDescriptor(m) => variant_with_message("InvalidDescriptor", m),
        ErrorKind::ResourceNotFound(m) => variant_with_message("ResourceNotFound", m),
        ErrorKind::TextureUploadFailed(m) => variant_with_message("TextureUploadFailed", m),
        ErrorKind::PipelineCreationFailed(m) => variant_with_message("PipelineCreationFailed", m),
    }
}

/// The interface severity of a severity: fatal errors stay fatal, all
/// others are warnings.
pub open spec fn spec_core_severity(s: Severity) -> CoreSeverity {
    if s == Severity::Fatal { CoreSeverity::Fatal } else { CoreSeverity::Warning }
}

/// Whether `c` is how the backend interface reports `e`: with the mapped
/// severity; a missing device and an unsupported feature keep their kind,
/// any other kind is reported by its debug text.
pub open spec fn is_core_error_of(e: Error, c: CoreError) -> bool {
    &&& c.severity == spec_core_severity(e.severity)
    &&& match e.kind {
        ErrorKind::NoCompatibleDevice => c.kind == CoreErrorKind::NoCompatibleDevice,
        ErrorKind::Unsupported(m) => c.kind == CoreErrorKind::Unsupported(m),
        other => c.kind matches CoreErrorKind::Backend(t) && t@ == spec_kind_debug(other),
    }
}

/// Converts an error to the form the backend interface reports.
pub fn to_core_error(error: Error) -> (c: CoreError)
    ensures
        is_core_error_of(error, c),
{
    let severity = match error.severity {
        Severity::Fatal => CoreSeverity::Fatal,
        Severity::Info | Severity::Warning | Severity::Recoverable => CoreSeverity::Warning,
    };
    let kind = match error.kind {
        ErrorKind::NoCompatibleDevice => CoreErrorKind::NoCompatibleDevice,
        ErrorKind::Unsupported(message) => CoreErrorKind::Unsupported(message),
        other => CoreErrorKind::Backend(error_kind_debug(other)),
    };
    CoreError { kind, severity }
}

} // verus!
