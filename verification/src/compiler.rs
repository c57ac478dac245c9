//! The document compiler as seen from the pipeline: how it is called for
//! HTML, and what its answer means.
//!
//! The compiler is another program. The caller runs it and hands back what
//! it wrote; a compiler that could not be started is handed back as `None`.

use vstd::prelude::*;
use crate::fragment::{body_fragment, extract_body};

verus! {

/// The program that compiles a document to HTML.
pub const HTML_COMPILER: &'static str = "typst";

/// What is said where the HTML compiler cannot be started.
pub const COMPILER_MISSING: &'static str =
    "Typst CLI not found. Install it with 'cargo install typst-cli'";

/// What the compiler left behind: whether it ended well, and what it wrote
/// to its standard output and to its standard error.
#[derive(Clone, Debug, PartialEq, Eq)]
pub struct CompilerOutput {
    pub success: bool,
    pub stdout: String,
    pub stderr: String,
}

/// A `CompilerOutput` as texts.
pub struct CompilerOutputView {
    pub success: bool,
    pub stdout: Seq<char>,
    pub stderr: Seq<char>,
}

impl View for CompilerOutput {
    type V = CompilerOutputView;

    open spec fn view(&self) -> CompilerOutputView {
        CompilerOutputView { success: self.success, stdout: self.stdout@, stderr: self.stderr@ }
    }
}

/// Why a post could not be compiled to HTML. Either ends the run.
#[derive(Clone, Debug, PartialEq, Eq)]
pub enum CompileError {
    /// The compiler could not be started.
    CompilerMissing,
    /// The compiler ran and refused the document.
    CompileFailed { source_path: String, diagnostic: String },
}

/// A `CompileError` as texts.
pub enum CompileErrorView {
    CompilerMissing,
    CompileFailed { source_path: Seq<char>, diagnostic: Seq<char> },
}

impl View for CompileError {
    type V = CompileErrorView;

    open spec fn view(&self) -> CompileErrorView {
        match self {
            CompileError::CompilerMissing => CompileErrorView::CompilerMissing,
            CompileError::CompileFailed { source_path, diagnostic } => {
                CompileErrorView::CompileFailed {
                    source_path: source_path@,
                    diagnostic: diagnostic@,
                }
            },
        }
    }
}

/// The message of an error: for a compiler that is missing, how to install
/// it; for a document that was refused, its path and what the compiler said.
pub open spec fn error_message(error: CompileErrorView) -> Seq<char> {
    match error {
        CompileErrorView::CompilerMissing => COMPILER_MISSING@,
        CompileErrorView::CompileFailed { source_path, diagnostic } => "Typst Error in "@
            + source_path + ": "@ + diagnostic,
    }
}

/// The arguments with which the compiler writes a source as HTML to its
/// standard output.
pub open spec fn html_arguments(source_path: Seq<char>) -> Seq<Seq<char>> {
    seq![
        "compile"@,
        source_path,
        "--root"@,
        "."@,
        "--format"@,
        "html"@,
        "--features"@,
        "html"@,
        "-"@,
    ]
}

/// What an HTML compilation comes to: the body of the page it wrote, or the
/// error that ends the run.
pub open spec fn html_outcome(source_path: Seq<char>, output: Option<CompilerOutputView>) -> Result<
    Seq<char>,
    CompileErrorView,
> {
    match output {
        None => Err(CompileErrorView::CompilerMissing),
        Some(o) => if o.success {
            Ok(body_fragment(o.stdout))
        } else {
            Err(CompileErrorView::CompileFailed { source_path, diagnostic: o.stderr })
        },
    }
}

/// The outcome of a compilation as texts.
pub open spec fn outcome_view(r: Result<String, CompileError>) -> Result<
    Seq<char>,
    CompileErrorView,
> {
    match r {
        Ok(body) => Ok(body@),
        Err(e) => Err(e@),
    }
}

/// What the caller handed back, as texts.
pub open spec fn output_view(output: Option<CompilerOutput>) -> Option<CompilerOutputView> {
    match output {
        Some(o) => Some(o@),
        None => None,
    }
}

impl CompileError {
    /// The message that the run ends with.
    pub fn message(&self) -> (r: String)
        ensures
            r@ == error_message(self@),
    {
        match self {
            CompileError::CompilerMissing => COMPILER_MISSING.to_owned(),
            CompileError::CompileFailed { source_path, diagnostic } => {
                let mut text = "Typst Error in ".to_owned();
                text.append(source_path.as_str());
                text.append(": ");
                text.append(diagnostic.as_str());
                text
            },
        }
    }
}

/// The arguments with which the compiler writes a source as HTML to its
/// standard output.
pub fn html_compile_args(source_path: &str) -> (r: Vec<String>)
    ensures
        r.deep_view() == html_arguments(source_path@),
{
    let mut args: Vec<String> = Vec::new();
    args.push("compile".to_owned());
    args.push(source_path.to_owned());
    args.push("--root".to_owned());
    args.push(".".to_owned());
    args.push("--format".to_owned());
    args.push("html".to_owned());
    args.push("--features".to_owned());
    args.push("html".to_owned());
    args.push("-".to_owned());
    assert(args.deep_view() =~= html_arguments(source_path@));
    args
}

/// The body of a post from what the HTML compiler left behind. `output` is
/// `None` where the compiler could not be started. Succeeds exactly where the
/// compiler ran and ended well.
pub fn compile_blog_body(source_path: &str, output: Option<CompilerOutput>) -> (r: Result<
    String,
    CompileError,
>)
    ensures
        outcome_view(r) == html_outcome(source_path@, output_view(output)),
{
    match output {
        None => Err(CompileError::CompilerMissing),
        Some(o) => {
            if o.success {
                Ok(extract_body(o.stdout))
            } else {
                Err(
                    CompileError::CompileFailed {
                        source_path: source_path.to_owned(),
                        diagnostic: o.stderr,
                    },
                )
            }
        },
    }
}

} // verus!
