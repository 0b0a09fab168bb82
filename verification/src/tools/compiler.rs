//! The compiler tool: which command lines check a submission.
use crate::text::string_from;
use vstd::prelude::*;

verus! {

/// The raw output of one compiler run; exit code 0 counts as success.
#[derive(Debug, Clone)]
pub struct CompileOutput {
    pub success: bool,
    pub stdout: String,
    pub stderr: String,
    /// `None` when the process was killed by a signal.
    pub exit_code: Option<i32>,
}

/// Which `rustc` and `cargo` to run, and with which edition.
pub struct CompilerTool {
    rustc_path: String,
    cargo_path: String,
    edition: String,
}

pub struct CompilerView {
    pub rustc_path: Seq<char>,
    pub cargo_path: Seq<char>,
    pub edition: Seq<char>,
}

impl View for CompilerTool {
    type V = CompilerView;

    closed spec fn view(&self) -> CompilerView {
        CompilerView { rustc_path: self.rustc_path@, cargo_path: self.cargo_path@, edition: self.edition@ }
    }
}

/// The arguments of `rustc` for one source file, optionally naming the output binary.
pub open spec fn rustc_args_spec(edition: Seq<char>, source: Seq<char>, output: Option<Seq<char>>) -> Seq<Seq<char>> {
    let base = seq!["--edition"@, edition, source];
    match output {
        Some(o) => base + seq!["-o"@, o],
        None => base,
    }
}

impl CompilerTool {
    /// `rustc` and `cargo` from `PATH`, edition 2021.
    pub fn new() -> (r: Self)
        ensures
            r@ == (CompilerView { rustc_path: "rustc"@, cargo_path: "cargo"@, edition: "2021"@ }),
    {
        CompilerTool {
            rustc_path: string_from("rustc"),
            cargo_path: string_from("cargo"),
            edition: string_from("2021"),
        }
    }

    pub fn with_rustc(self, path: String) -> (r: Self)
        ensures
            r@ == (CompilerView { rustc_path: path@, ..self@ }),
    {
        CompilerTool { rustc_path: path, ..self }
    }

    pub fn with_cargo(self, path: String) -> (r: Self)
        ensures
            r@ == (CompilerView { cargo_path: path@, ..self@ }),
    {
        CompilerTool { cargo_path: path, ..self }
    }

    pub fn with_edition(self, edition: String) -> (r: Self)
        ensures
            r@ == (CompilerView { edition: edition@, ..self@ }),
    {
        CompilerTool { edition, ..self }
    }

    pub fn rustc_path(&self) -> (r: &str)
        ensures
            r@ == self@.rustc_path,
    {
        self.rustc_path.as_str()
    }

    pub fn cargo_path(&self) -> (r: &str)
        ensures
            r@ == self@.cargo_path,
    {
        self.cargo_path.as_str()
    }

    /// The arguments that compile `source` with `rustc`: the edition, the
    /// source, and `-o` with the output path when one is given.
    pub fn rustc_args(&self, source: &str, output: Option<&str>) -> (r: Vec<String>)
        ensures
            r@.map_values(|a: String| a@) == rustc_args_spec(
                self@.edition,
                source@,
                match output {
                    Some(o) => Some(o@),
                    None => None,
                },
            ),
    {
        let mut args: Vec<String> = Vec::new();
        args.push(string_from("--edition"));
        args.push(string_from(self.edition.as_str()));
        args.push(string_from(source));
        if let Some(o) = output {
            args.push(string_from("-o"));
            args.push(string_from(o));
        }
        assert(args@.map_values(|a: String| a@) =~= rustc_args_spec(
            self@.edition,
            source@,
            match output {
                Some(o) => Some(o@),
                None => None,
            },
        ));
        args
    }
}

} // verus!
