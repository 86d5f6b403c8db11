//! The values that the service describes itself and its answers with.
//!
//! Every type has a view made of plain sequences of characters, and the
//! contracts of the crate speak of those views.

use vstd::prelude::*;

verus! {

/// What a [`Language`] stands for.
pub struct LanguageView {
    pub language: Seq<char>,
    pub version: Seq<char>,
    pub aliases: Seq<Seq<char>>,
    pub runtime: Option<Seq<char>>,
}

/// A programming language that the service can run.
#[derive(Debug)]
pub struct Language {
    /// The name of the programming language.
    pub language: String,
    /// The version of the language.
    pub version: String,
    /// Other names under which the language is found.
    pub aliases: Vec<String>,
    /// The runtime that executes code in this language, if it is named.
    pub runtime: Option<String>,
}

impl View for Language {
    type V = LanguageView;

    open spec fn view(&self) -> LanguageView {
        LanguageView {
            language: self.language@,
            version: self.version@,
            aliases: self.aliases.deep_view(),
            runtime: self.runtime.deep_view(),
        }
    }
}

impl DeepView for Language {
    type V = LanguageView;

    open spec fn deep_view(&self) -> LanguageView {
        self@
    }
}

impl Clone for Language {
    fn clone(&self) -> (copy: Self)
        ensures
            copy@ == self@,
    {
        let aliases = self.aliases.clone();
        assert(aliases.deep_view() =~= self.aliases.deep_view());
        Language {
            language: self.language.clone(),
            version: self.version.clone(),
            aliases,
            runtime: self.runtime.clone(),
        }
    }
}

/// What a [`RunData`] stands for.
pub struct RunDataView {
    pub code: u8,
    pub output: Seq<char>,
    pub signal: Option<Seq<char>>,
    pub stdout: Seq<char>,
}

/// How one run of a program ended.
#[derive(Debug)]
pub struct RunData {
    /// The exit code of the program.
    pub code: u8,
    /// Standard output and standard error together.
    pub output: String,
    /// The signal that ended the program, if one did.
    pub signal: Option<String>,
    /// Standard output alone.
    pub stdout: String,
}

impl View for RunData {
    type V = RunDataView;

    open spec fn view(&self) -> RunDataView {
        RunDataView {
            code: self.code,
            output: self.output@,
            signal: self.signal.deep_view(),
            stdout: self.stdout@,
        }
    }
}

impl RunData {
    /// Standard output alone.
    #[must_use]
    pub fn stdout(&self) -> (text: &str)
        ensures
            text@ == self@.stdout,
    {
        self.stdout.as_str()
    }

    /// Standard output and standard error together.
    #[must_use]
    pub fn output(&self) -> (text: &str)
        ensures
            text@ == self@.output,
    {
        self.output.as_str()
    }

    /// The exit code of the program.
    #[must_use]
    pub fn code(&self) -> (code: u8)
        ensures
            code == self@.code,
    {
        self.code
    }

    /// The signal that ended the program, if one did.
    #[must_use]
    pub fn signal(&self) -> (name: Option<&str>)
        ensures
            name.deep_view() == self@.signal,
    {
        match &self.signal {
            Some(name) => Some(name.as_str()),
            None => None,
        }
    }
}

/// What a [`Response`] stands for.
pub struct ResponseView {
    pub language: Seq<char>,
    pub version: Seq<char>,
    pub run: RunDataView,
}

/// The answer of the service to a program that it ran.
#[derive(Debug)]
pub struct Response {
    /// The language that the program was run in.
    pub language: String,
    /// The version of that language.
    pub version: String,
    /// How the run ended.
    pub run: RunData,
}

impl View for Response {
    type V = ResponseView;

    open spec fn view(&self) -> ResponseView {
        ResponseView { language: self.language@, version: self.version@, run: self.run@ }
    }
}

impl Response {
    /// The language that the program was run in.
    #[must_use]
    pub fn language(&self) -> (name: &str)
        ensures
            name@ == self@.language,
    {
        self.language.as_str()
    }

    /// The version of that language.
    #[must_use]
    pub fn version(&self) -> (version: &str)
        ensures
            version@ == self@.version,
    {
        self.version.as_str()
    }

    /// How the run ended.
    #[must_use]
    pub fn data(&self) -> (run: &RunData)
        ensures
            run@ == self@.run,
    {
        &self.run
    }
}

/// The answer of the service to a request that it turned down.
#[derive(Debug)]
pub struct ErrorResponse {
    /// What the service objects to.
    pub message: String,
}

impl View for ErrorResponse {
    type V = Seq<char>;

    open spec fn view(&self) -> Seq<char> {
        self.message@
    }
}

impl ErrorResponse {
    /// What the service objects to.
    #[must_use]
    pub fn message(&self) -> (text: &str)
        ensures
            text@ == self@,
    {
        self.message.as_str()
    }
}

/// What an [`ApiResponse`] stands for.
pub enum ApiResponseView {
    Good(ResponseView),
    Error(Seq<char>),
}

/// The two shapes in which the service answers a request to run a program.
///
/// Nothing on the wire tells them apart. A reader of the wire tries `Good`
/// first and falls back to `Error`.
#[derive(Debug)]
pub enum ApiResponse {
    /// The program was run.
    Good(Response),
    /// The request was turned down.
    Error(ErrorResponse),
}

impl View for ApiResponse {
    type V = ApiResponseView;

    open spec fn view(&self) -> ApiResponseView {
        match self {
            ApiResponse::Good(response) => ApiResponseView::Good(response@),
            ApiResponse::Error(error) => ApiResponseView::Error(error@),
        }
    }
}

} // verus!
