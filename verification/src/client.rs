//! The client: its settings, its snapshot of the catalog, and what it asks
//! the caller to send.

use vstd::prelude::*;
use vstd::string::*;

use crate::catalog::{resolve, resolved};
use crate::error::{Error, ErrorView};
use crate::lang::{ApiResponse, Language, LanguageView, Response};
use crate::transport::{build_transport, header_value_ok, transport_from};
use crate::{EXECUTE_PATH, RUNTIMES_PATH};

verus! {

/// The version of the service's API that a client speaks.
#[derive(Clone, Copy, Debug)]
pub enum ApiVersion {
    /// The second version, the only one there is.
    V2,
}

impl ApiVersion {
    /// The part of a URL that selects this version.
    pub open spec fn tag(self) -> Seq<char> {
        match self {
            ApiVersion::V2 => "api/v2"@,
        }
    }

    /// The part of a URL that selects this version.
    pub fn as_str(&self) -> (tag: &'static str)
        ensures
            tag@ == self.tag(),
    {
        match self {
            ApiVersion::V2 => "api/v2",
        }
    }
}

impl Default for ApiVersion {
    fn default() -> (version: Self)
        ensures
            version == ApiVersion::V2,
    {
        ApiVersion::V2
    }
}

/// The URL of `path` under `base` for the API version `version`.
pub open spec fn url_of(base: Seq<char>, version: ApiVersion, path: Seq<char>) -> Seq<char> {
    base + "/"@ + version.tag() + path
}

/// Joins a base URL, the tag of an API version and a path into a URL.
pub fn build_url(base_url: &str, api_version: ApiVersion, path: &str) -> (url: String)
    ensures
        url@ == url_of(base_url@, api_version, path@),
{
    let mut url = String::from_str(base_url);
    url.append("/");
    url.append(api_version.as_str());
    url.append(path);
    url
}

/// What a [`FileData`] stands for.
pub struct FileDataView {
    pub name: Option<Seq<char>>,
    pub content: Seq<char>,
}

/// One source file of a program: its text, and its name if it has one.
#[derive(Debug)]
pub struct FileData {
    name: Option<String>,
    content: String,
}

impl View for FileData {
    type V = FileDataView;

    closed spec fn view(&self) -> FileDataView {
        FileDataView { name: self.name.deep_view(), content: self.content@ }
    }
}

impl DeepView for FileData {
    type V = FileDataView;

    open spec fn deep_view(&self) -> FileDataView {
        self@
    }
}

impl FileData {
    /// The name of the file, if it has one.
    pub fn name(&self) -> (name: Option<&str>)
        ensures
            name.deep_view() == self@.name,
    {
        match &self.name {
            Some(name) => Some(name.as_str()),
            None => None,
        }
    }

    /// The text of the file.
    pub fn content(&self) -> (content: &str)
        ensures
            content@ == self@.content,
    {
        self.content.as_str()
    }
}

impl Clone for FileData {
    fn clone(&self) -> (copy: Self)
        ensures
            copy@ == self@,
    {
        FileData { name: self.name.clone(), content: self.content.clone() }
    }
}

impl From<&str> for FileData {
    /// A file without a name that holds `content`.
    fn from(content: &str) -> (file: Self)
        ensures
            file@ == (FileDataView { name: None, content: content@ }),
    {
        FileData { name: None, content: content.to_owned() }
    }
}

/// No specification function makes a `String` of a `&str`: what the
/// conversion gives is said by the contract of `from` alone.
impl vstd::std_specs::convert::FromSpecImpl<&str> for FileData {
    open spec fn obeys_from_spec() -> bool {
        false
    }

    open spec fn from_spec(content: &str) -> Self {
        arbitrary()
    }
}

impl From<String> for FileData {
    /// A file without a name that holds `content`.
    fn from(content: String) -> (file: Self)
        ensures
            file@ == (FileDataView { name: None, content: content@ }),
    {
        FileData { name: None, content }
    }
}

impl vstd::std_specs::convert::FromSpecImpl<String> for FileData {
    open spec fn obeys_from_spec() -> bool {
        true
    }

    closed spec fn from_spec(content: String) -> Self {
        FileData { name: None, content }
    }
}

impl From<(&str, &str)> for FileData {
    /// A file that holds the second of the pair under the name that the
    /// first gives.
    fn from(pair: (&str, &str)) -> (file: Self)
        ensures
            file@ == (FileDataView { name: Some(pair.0@), content: pair.1@ }),
    {
        FileData { name: Some(pair.0.to_owned()), content: pair.1.to_owned() }
    }
}

/// As for `&str`: what the conversion gives is said by the contract of
/// `from` alone.
impl vstd::std_specs::convert::FromSpecImpl<(&str, &str)> for FileData {
    open spec fn obeys_from_spec() -> bool {
        false
    }

    open spec fn from_spec(pair: (&str, &str)) -> Self {
        arbitrary()
    }
}

impl From<(String, String)> for FileData {
    /// A file that holds the second of the pair under the name that the
    /// first gives.
    fn from(pair: (String, String)) -> (file: Self)
        ensures
            file@ == (FileDataView { name: Some(pair.0@), content: pair.1@ }),
    {
        FileData { name: Some(pair.0), content: pair.1 }
    }
}

impl vstd::std_specs::convert::FromSpecImpl<(String, String)> for FileData {
    open spec fn obeys_from_spec() -> bool {
        true
    }

    closed spec fn from_spec(pair: (String, String)) -> Self {
        FileData { name: Some(pair.0), content: pair.1 }
    }
}

/// What a [`Data`] stands for.
pub struct DataView {
    pub language: Seq<char>,
    pub version: Seq<char>,
    pub files: Seq<FileDataView>,
}

/// The body of a request to run a program: the language, its version, and
/// the files in their order. The first file is the one that is run.
#[derive(Debug)]
pub struct Data {
    language: String,
    version: String,
    files: Vec<FileData>,
}

impl View for Data {
    type V = DataView;

    closed spec fn view(&self) -> DataView {
        DataView {
            language: self.language@,
            version: self.version@,
            files: self.files.deep_view(),
        }
    }
}

impl Data {
    /// Puts a request together. The files are taken as they come: none is
    /// added, dropped or moved, and a list without files stays without.
    pub fn new(language: &str, version: &str, files: Vec<FileData>) -> (data: Self)
        ensures
            data@ == (DataView {
                language: language@,
                version: version@,
                files: files.deep_view(),
            }),
    {
        Data { language: language.to_owned(), version: version.to_owned(), files }
    }

    /// The language of the program.
    pub fn language(&self) -> (language: &str)
        ensures
            language@ == self@.language,
    {
        self.language.as_str()
    }

    /// The version of the language.
    pub fn version(&self) -> (version: &str)
        ensures
            version@ == self@.version,
    {
        self.version.as_str()
    }

    /// The files of the program, in their order.
    pub fn files(&self) -> (files: &Vec<FileData>)
        ensures
            files.deep_view() == self@.files,
    {
        &self.files
    }
}

impl Clone for Data {
    fn clone(&self) -> (copy: Self)
        ensures
            copy@ == self@,
    {
        let files = self.files.clone();
        assert(files.deep_view() =~= self.files.deep_view());
        Data { language: self.language.clone(), version: self.version.clone(), files }
    }
}

/// What an [`Execute`] stands for.
pub struct ExecuteView {
    pub url: Seq<char>,
    pub payload: DataView,
}

/// A request to run a program, ready to leave: the payload, and the URL to
/// POST it to.
#[derive(Debug)]
pub struct Execute {
    /// Where the payload goes.
    pub url: String,
    /// What is sent.
    pub payload: Data,
}

impl View for Execute {
    type V = ExecuteView;

    open spec fn view(&self) -> ExecuteView {
        ExecuteView { url: self.url@, payload: self.payload@ }
    }
}

/// The request that runs `files` in `lang` at `version` through `exec_url`.
pub open spec fn execution(
    exec_url: Seq<char>,
    lang: Seq<char>,
    version: Seq<char>,
    files: Seq<FileDataView>,
) -> ExecuteView {
    ExecuteView { url: exec_url, payload: DataView { language: lang, version, files } }
}

/// What a run by name comes to once the catalog is at hand: the request at
/// the version that `lang` resolves to, or the failure to resolve it.
pub open spec fn planned(
    exec_url: Seq<char>,
    lang: Seq<char>,
    files: Seq<FileDataView>,
    catalog: Seq<LanguageView>,
) -> Result<ExecuteView, ErrorView> {
    match resolved(catalog, lang) {
        Some(version) => Ok(execution(exec_url, lang, version, files)),
        None => Err(ErrorView::UnknownLang),
    }
}

/// Says what the reply to a request to run a program means for the caller.
///
/// `reply` is what the transport made of the exchange: one of the two shapes
/// in which the service answers, or the error of the transport.
pub fn outcome(reply: Result<ApiResponse, Error>) -> (result: Result<Response, Error>)
    ensures
        match reply {
            Ok(ApiResponse::Good(response)) => result matches Ok(given) && given@ == response@,
            Ok(ApiResponse::Error(refusal)) => result matches Err(error) && error@
                == ErrorView::Unknown(refusal@),
            Err(failure) => result matches Err(error) && error@ == failure@,
        },
{
    match reply {
        Ok(ApiResponse::Good(response)) => Ok(response),
        Ok(ApiResponse::Error(refusal)) => Err(Error::Unknown(refusal.message)),
        Err(failure) => Err(failure),
    }
}

/// What a [`Pending`] stands for.
pub struct PendingView {
    pub exec_url: Seq<char>,
    pub lang: Seq<char>,
    pub files: Seq<FileDataView>,
}

/// A run by name that waits for the catalog: the language is not resolved
/// yet.
#[derive(Debug)]
pub struct Pending {
    exec_url: String,
    lang: String,
    files: Vec<FileData>,
}

impl View for Pending {
    type V = PendingView;

    closed spec fn view(&self) -> PendingView {
        PendingView { exec_url: self.exec_url@, lang: self.lang@, files: self.files.deep_view() }
    }
}

impl PendingView {
    /// What the run comes to when the fetch of the catalog has ended: the
    /// error of the fetch where it failed, else what the fetched catalog
    /// gives.
    pub open spec fn resumed(self, fetched: Result<Seq<LanguageView>, ErrorView>) -> Result<
        ExecuteView,
        ErrorView,
    > {
        match fetched {
            Ok(catalog) => planned(self.exec_url, self.lang, self.files, catalog),
            Err(error) => Err(error),
        }
    }
}

impl Pending {
    /// Goes on with the run when the fetch of the catalog has ended.
    ///
    /// A fetch that failed ends the run with its error. Else the language is
    /// resolved against the fetched catalog: the result is the request to
    /// send, or [`Error::UnknownLang`].
    pub fn resume(self, fetched: Result<Vec<Language>, Error>) -> (next: Result<Execute, Error>)
        ensures
            match fetched {
                Ok(catalog) => match self@.resumed(Ok(catalog.deep_view())) {
                    Ok(request) => next matches Ok(made) && made@ == request,
                    Err(error) => next matches Err(given) && given@ == error,
                },
                Err(failure) => next matches Err(given) && given@ == failure@,
            },
    {
        match fetched {
            Ok(catalog) => match resolve(self.lang.as_str(), &catalog) {
                Ok(version) => Ok(
                    Execute {
                        url: self.exec_url,
                        payload: Data { language: self.lang, version, files: self.files },
                    },
                ),
                Err(error) => Err(error),
            },
            Err(failure) => Err(failure),
        }
    }
}

/// What a [`Run`] stands for.
pub enum RunView {
    Fetch { url: Seq<char>, pending: PendingView },
    Post(ExecuteView),
    Failed(ErrorView),
}

/// A run by name, as far as it got without the network.
#[derive(Debug)]
pub enum Run {
    /// The catalog has to be fetched first: GET it from `url`, and hand what
    /// comes back to [`Pending::resume`].
    Fetch { url: String, pending: Pending },
    /// The request is ready: POST it, and hand what comes back to
    /// [`outcome`].
    Post(Execute),
    /// The run is over: the language was not found in the snapshot.
    Failed(Error),
}

impl View for Run {
    type V = RunView;

    open spec fn view(&self) -> RunView {
        match self {
            Run::Fetch { url, pending } => RunView::Fetch { url: url@, pending: pending@ },
            Run::Post(request) => RunView::Post(request@),
            Run::Failed(error) => RunView::Failed(error@),
        }
    }
}

/// What a lookup in the catalog gives without the network.
#[derive(Debug)]
pub enum Lookup<T> {
    /// Caching is enabled: this is the answer, read from the snapshot.
    Cached(T),
    /// Caching is disabled: the catalog has to be fetched for this lookup,
    /// with GET from this URL.
    Live(String),
}

/// The base URL of the public service.
pub const DEFAULT_BASE_URL: &'static str = "https://emkc.org";

/// The name under which a client presents itself unless it is given another.
pub const DEFAULT_USER_AGENT: &'static str = "Automated Piston Agent";

/// What a [`PistonClient`] stands for: its settings and its snapshot of the
/// catalog.
pub struct ClientView {
    pub exec_url: Seq<char>,
    pub runtime_url: Seq<char>,
    pub enable_cache: bool,
    pub api_version: ApiVersion,
    pub cache: Seq<LanguageView>,
}

impl ClientView {
    /// A client as it is made: it speaks to the public service, caching is
    /// enabled, and the snapshot is empty.
    pub open spec fn initial() -> ClientView {
        ClientView {
            exec_url: url_of(DEFAULT_BASE_URL@, ApiVersion::V2, EXECUTE_PATH@),
            runtime_url: url_of(DEFAULT_BASE_URL@, ApiVersion::V2, RUNTIMES_PATH@),
            enable_cache: true,
            api_version: ApiVersion::V2,
            cache: Seq::empty(),
        }
    }

    /// The client once `fetched` has taken the place of its snapshot.
    pub open spec fn refreshed(self, fetched: Seq<LanguageView>) -> ClientView {
        ClientView { cache: fetched, ..self }
    }

    /// The catalog as the client lists it without the network: the snapshot
    /// where caching is enabled, nothing where it is not.
    pub open spec fn listed(self) -> Option<Seq<LanguageView>> {
        if self.enable_cache {
            Some(self.cache)
        } else {
            None
        }
    }

    /// The version of `lang` as the client finds it without the network:
    /// what the snapshot resolves it to where caching is enabled, nothing
    /// where it is not.
    pub open spec fn looked_up(self, lang: Seq<char>) -> Option<Option<Seq<char>>> {
        if self.enable_cache {
            Some(resolved(self.cache, lang))
        } else {
            None
        }
    }

    /// How far a run of `files` in `lang` gets without the network.
    pub open spec fn begun(self, lang: Seq<char>, files: Seq<FileDataView>) -> RunView {
        if self.enable_cache {
            match planned(self.exec_url, lang, files, self.cache) {
                Ok(request) => RunView::Post(request),
                Err(error) => RunView::Failed(error),
            }
        } else {
            RunView::Fetch {
                url: self.runtime_url,
                pending: PendingView { exec_url: self.exec_url, lang, files },
            }
        }
    }
}

/// A client of the service, without the network: its settings, its snapshot
/// of the catalog, and the transport that the caller sends with.
pub struct PistonClient {
    exec_url: String,
    runtime_url: String,
    enable_cache: bool,
    api_version: ApiVersion,
    cache_lang: Vec<Language>,
    client: reqwest::Client,
}

impl View for PistonClient {
    type V = ClientView;

    closed spec fn view(&self) -> ClientView {
        ClientView {
            exec_url: self.exec_url@,
            runtime_url: self.runtime_url@,
            enable_cache: self.enable_cache,
            api_version: self.api_version,
            cache: self.cache_lang.deep_view(),
        }
    }
}

impl PistonClient {
    /// The transport that the client carries.
    pub closed spec fn carried(&self) -> reqwest::Client {
        self.client
    }

    /// Makes a client with the default settings and a transport of its own,
    /// which presents itself as [`DEFAULT_USER_AGENT`].
    ///
    /// The snapshot starts empty. Construction is complete when the catalog
    /// has been fetched from [`runtime_url`](Self::runtime_url) and given to
    /// [`refresh_cache`](Self::refresh_cache), and fails where that fetch
    /// fails.
    ///
    /// Whether a transport can be built is for the machine to say. Where it
    /// cannot, the error holds the diagnostic.
    pub fn new() -> (made: Result<Self, Error>)
        ensures
            match made {
                Ok(client) => client@ == ClientView::initial(),
                Err(error) => error@ is Request,
            },
    {
        match transport_from(build_transport(DEFAULT_USER_AGENT)) {
            Ok(transport) => Ok(Self::over(transport)),
            Err(error) => Err(error),
        }
    }

    /// Makes a client with the default settings that sends through
    /// `transport`. The snapshot starts empty.
    pub fn over(transport: reqwest::Client) -> (client: Self)
        ensures
            client@ == ClientView::initial(),
            client.carried() == transport,
    {
        let api_version = ApiVersion::V2;
        let cache_lang: Vec<Language> = Vec::new();
        assert(cache_lang.deep_view() =~= Seq::empty());
        PistonClient {
            exec_url: build_url(DEFAULT_BASE_URL, api_version, EXECUTE_PATH),
            runtime_url: build_url(DEFAULT_BASE_URL, api_version, RUNTIMES_PATH),
            enable_cache: true,
            api_version,
            cache_lang,
            client: transport,
        }
    }

    /// Sets the version of the API for the URLs that are built from now on.
    pub fn api_version(self, version: ApiVersion) -> (client: Self)
        ensures
            client@ == (ClientView { api_version: version, ..self@ }),
            client.carried() == self.carried(),
    {
        PistonClient { api_version: version, ..self }
    }

    /// Points the client at the service under `url`: both of its URLs are
    /// built anew, for the version of the API that is set.
    pub fn base_url(self, url: &str) -> (client: Self)
        ensures
            client@ == (ClientView {
                exec_url: url_of(url@, self@.api_version, EXECUTE_PATH@),
                runtime_url: url_of(url@, self@.api_version, RUNTIMES_PATH@),
                ..self@
            }),
            client.carried() == self.carried(),
    {
        let runtime_url = build_url(url, self.api_version, RUNTIMES_PATH);
        let exec_url = build_url(url, self.api_version, EXECUTE_PATH);
        PistonClient { exec_url, runtime_url, ..self }
    }

    /// Disables caching: from now on every lookup asks for a fetch of the
    /// catalog.
    pub fn disable_cache(self) -> (client: Self)
        ensures
            client@ == (ClientView { enable_cache: false, ..self@ }),
            client.carried() == self.carried(),
    {
        PistonClient { enable_cache: false, ..self }
    }

    /// Gives the client a new transport, which presents itself as `agent`.
    ///
    /// An agent with a character that no header value may hold is refused.
    /// For any other agent the machine decides whether a transport can be
    /// built. The error holds the diagnostic.
    pub fn user_agent(self, agent: &str) -> (set: Result<Self, Error>)
        ensures
            match set {
                Ok(client) => client@ == self@ && header_value_ok(agent@),
                Err(error) => error@ is Request,
            },
    {
        match transport_from(build_transport(agent)) {
            Ok(transport) => self.custom_client(transport),
            Err(error) => Err(error),
        }
    }

    /// Makes the client send through `transport`. This never fails.
    pub fn custom_client(self, transport: reqwest::Client) -> (set: Result<Self, Error>)
        ensures
            set matches Ok(client) && client@ == self@ && client.carried() == transport,
    {
        Ok(PistonClient { client: transport, ..self })
    }

    /// The transport to send with.
    pub fn transport(&self) -> (transport: &reqwest::Client)
        ensures
            *transport == self.carried(),
    {
        &self.client
    }

    /// The URL that the catalog is fetched from, with GET.
    pub fn runtime_url(&self) -> (url: &str)
        ensures
            url@ == self@.runtime_url,
    {
        self.runtime_url.as_str()
    }

    /// The URL that programs are sent to, with POST.
    pub fn exec_url(&self) -> (url: &str)
        ensures
            url@ == self@.exec_url,
    {
        self.exec_url.as_str()
    }

    /// Whether lookups read the snapshot.
    pub fn cache_enabled(&self) -> (enabled: bool)
        ensures
            enabled == self@.enable_cache,
    {
        self.enable_cache
    }
}

impl PistonClient {
    /// Ends a refresh: `fetched` is what the fetch of the catalog from
    /// [`runtime_url`](Self::runtime_url) came to.
    ///
    /// A fetch that failed fails the refresh with its error. Else the fetched
    /// catalog takes the place of the snapshot, whole: nothing of the old
    /// snapshot is kept. The snapshot is replaced also where caching is
    /// disabled, and is then read once caching is in use.
    pub fn refresh_cache(self, fetched: Result<Vec<Language>, Error>) -> (refreshed: Result<
        Self,
        Error,
    >)
        ensures
            match fetched {
                Ok(catalog) => refreshed matches Ok(client) && client@ == self@.refreshed(
                    catalog.deep_view(),
                ) && client.carried() == self.carried(),
                Err(failure) => refreshed matches Err(error) && error@ == failure@,
            },
    {
        match fetched {
            Ok(catalog) => Ok(PistonClient { cache_lang: catalog, ..self }),
            Err(failure) => Err(failure),
        }
    }

    /// Lists the languages of the service, as far as that goes without the
    /// network.
    ///
    /// Where caching is enabled the answer is a copy of the snapshot. Where
    /// it is disabled the snapshot is not read: the catalog has to be
    /// fetched, and what is fetched is the answer.
    pub fn get_languages(&self) -> (found: Lookup<Vec<Language>>)
        ensures
            match found {
                Lookup::Cached(catalog) => self@.listed() == Some(catalog.deep_view()),
                Lookup::Live(url) => self@.listed() is None && url@ == self@.runtime_url,
            },
    {
        if self.enable_cache {
            let catalog = self.cache_lang.clone();
            assert(catalog.deep_view() =~= self.cache_lang.deep_view());
            Lookup::Cached(catalog)
        } else {
            Lookup::Live(self.runtime_url.clone())
        }
    }

    /// Finds the version of `lang`, a name or an alias, as far as that goes
    /// without the network.
    ///
    /// Where caching is enabled the answer is what [`resolve`] gives on the
    /// snapshot. Where it is disabled the snapshot is not read: the catalog
    /// has to be fetched, and [`resolve_fetched`] gives the answer.
    pub fn lang_version(&self, lang: &str) -> (found: Lookup<Result<String, Error>>)
        ensures
            match found {
                Lookup::Cached(Ok(version)) => self@.looked_up(lang@) == Some(Some(version@)),
                Lookup::Cached(Err(error)) => self@.looked_up(lang@) == Some(
                    None::<Seq<char>>,
                ) && error@ == ErrorView::UnknownLang,
                Lookup::Live(url) => self@.looked_up(lang@) is None && url@
                    == self@.runtime_url,
            },
    {
        if self.enable_cache {
            Lookup::Cached(resolve(lang, &self.cache_lang))
        } else {
            Lookup::Live(self.runtime_url.clone())
        }
    }

    /// The request that runs `files` in `lang` at `lang_version`. The files
    /// are taken as they come, also where there is none.
    pub fn exec(&self, lang: &str, lang_version: &str, files: Vec<FileData>) -> (request: Execute)
        ensures
            request@ == execution(self@.exec_url, lang@, lang_version@, files.deep_view()),
    {
        Execute { url: self.exec_url.clone(), payload: Data::new(lang, lang_version, files) }
    }

    /// Starts a run of `files` in `lang`, whose version the catalog gives.
    ///
    /// Where caching is enabled the language is resolved against the
    /// snapshot: the run is ready to be sent, or it has failed with
    /// [`Error::UnknownLang`]. Where caching is disabled the run waits for
    /// the catalog.
    pub fn run_files(&self, lang: &str, files: Vec<FileData>) -> (run: Run)
        ensures
            run@ == self@.begun(lang@, files.deep_view()),
    {
        if self.enable_cache {
            match resolve(lang, &self.cache_lang) {
                Ok(version) => Run::Post(self.exec(lang, version.as_str(), files)),
                Err(error) => Run::Failed(error),
            }
        } else {
            Run::Fetch {
                url: self.runtime_url.clone(),
                pending: Pending {
                    exec_url: self.exec_url.clone(),
                    lang: lang.to_owned(),
                    files,
                },
            }
        }
    }

    /// The request that runs `content`, as a single file without a name, in
    /// `lang` at `version`. The catalog is not asked.
    pub fn run_with_version(&self, lang: &str, version: &str, content: &str) -> (request: Execute)
        ensures
            request@ == execution(
                self@.exec_url,
                lang@,
                version@,
                seq![FileDataView { name: None, content: content@ }],
            ),
    {
        let mut files: Vec<FileData> = Vec::new();
        files.push(FileData::from(content));
        assert(files.deep_view() =~= seq![FileDataView { name: None, content: content@ }]);
        self.exec(lang, version, files)
    }

    /// Starts a run of `content`, as a single file without a name, in `lang`,
    /// whose version the catalog gives.
    pub fn run(&self, lang: &str, content: &str) -> (run: Run)
        ensures
            run@ == self@.begun(lang@, seq![FileDataView { name: None, content: content@ }]),
    {
        let mut files: Vec<FileData> = Vec::new();
        files.push(FileData::from(content));
        assert(files.deep_view() =~= seq![FileDataView { name: None, content: content@ }]);
        self.run_files(lang, files)
    }
}

/// After a refresh a caching client answers from the fetched catalog alone:
/// it lists exactly that catalog, and resolves and plans against it. Nothing
/// of the snapshot that it held before is left.
pub proof fn lemma_refresh_replaces_snapshot(
    client: ClientView,
    prior: Seq<LanguageView>,
    fetched: Seq<LanguageView>,
    lang: Seq<char>,
)
    requires
        client.enable_cache,
    ensures
        client.refreshed(fetched).listed() == Some(fetched),
        client.refreshed(fetched).looked_up(lang) == Some(resolved(fetched, lang)),
        client.refreshed(prior).refreshed(fetched) == client.refreshed(fetched),
{
}

/// With caching disabled no lookup reads the snapshot: whatever it holds,
/// the client asks for a fetch, every time, from the same URL.
pub proof fn lemma_live_lookups_ignore_snapshot(
    client: ClientView,
    other: Seq<LanguageView>,
    lang: Seq<char>,
    files: Seq<FileDataView>,
)
    requires
        !client.enable_cache,
    ensures
        client.listed() is None,
        client.looked_up(lang) is None,
        client.begun(lang, files) is Fetch,
        client.refreshed(other).listed() == client.listed(),
        client.refreshed(other).looked_up(lang) == client.looked_up(lang),
        client.refreshed(other).begun(lang, files) == client.begun(lang, files),
{
}

/// A run that waited for the catalog goes on as a caching client would that
/// held the fetched catalog as its snapshot.
pub proof fn lemma_live_run_reads_fetched(
    client: ClientView,
    fetched: Seq<LanguageView>,
    lang: Seq<char>,
    files: Seq<FileDataView>,
)
    requires
        !client.enable_cache,
    ensures
        client.begun(lang, files) matches RunView::Fetch { url, pending } && url
            == client.runtime_url && (match pending.resumed(Ok(fetched)) {
            Ok(request) => RunView::Post(request),
            Err(error) => RunView::Failed(error),
        }) == (ClientView { enable_cache: true, cache: fetched, ..client }).begun(lang, files),
{
}

/// A run by name sends what a run at the resolved version sends, and sends
/// nothing where the name does not resolve. The files go out as they came
/// in, also where there is none.
pub proof fn lemma_run_by_name(
    client: ClientView,
    lang: Seq<char>,
    files: Seq<FileDataView>,
)
    requires
        client.enable_cache,
    ensures
        match resolved(client.cache, lang) {
            Some(version) => client.begun(lang, files) == RunView::Post(
                execution(client.exec_url, lang, version, files),
            ),
            None => client.begun(lang, files) == RunView::Failed(ErrorView::UnknownLang),
        },
        client.begun(lang, files) matches RunView::Post(request) ==> request.payload.files
            == files,
{
}

} // verus!
