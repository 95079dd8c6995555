//! From a request to the response it gets: the decisions, step by step.
//!
//! The resolver never looks at the file system itself. It says what has to
//! be found out next about the requested path, takes the answer, and either
//! asks again or settles on a response.

use vstd::prelude::*;
use crate::location::{
    as_directory, locate, parents_within, resolved, resolved_stays_under_root,
};
use crate::request::{get_request, parse_request, Method, Request};
use crate::response::{
    entry_models, DirEntry, EntryModel, FileKind, Metadata, PendingModel, PendingResponse,
};
use crate::utils::{is_sanitary, sanitize_request_path};
use crate::StatusCode;

verus! {

/// What all connections of a server share: the root of the tree it serves.
/// Nothing changes it once it is made.
#[derive(Debug, Clone, PartialEq, Eq)]
pub struct ServerConfig {
    serve_dir: Vec<u8>,
}

impl ServerConfig {
    /// The served root as a mathematical value.
    pub closed spec fn root(&self) -> Seq<u8> {
        self.serve_dir@
    }

    /// The configuration of a server that serves `serve_dir`.
    pub fn new(serve_dir: Vec<u8>) -> (config: ServerConfig)
        ensures
            config.root() == serve_dir@,
    {
        ServerConfig { serve_dir }
    }

    /// The root of the served tree.
    pub fn serve_dir(&self) -> (serve_dir: &Vec<u8>)
        ensures
            serve_dir@ == self.root(),
    {
        &self.serve_dir
    }
}

/// A question about the requested path that only the file system answers.
#[derive(Debug, Clone, Copy, PartialEq, Eq, Structural)]
pub enum Probe {
    /// Does the path exist?
    Exists,
    /// Open it as a file, and tell what the open handle is.
    Open,
    /// Tell what the path names.
    Stat,
    /// Open it as a directory, and enumerate it.
    List,
}

/// What the file system said to a probe. `None` stands for a failure.
#[derive(Debug, Clone, PartialEq, Eq)]
pub enum Answer {
    Exists(bool),
    Opened(Option<Metadata>),
    Stat(Option<Metadata>),
    Listed(Option<Vec<DirEntry>>),
}

/// An `Answer` as a mathematical value.
pub enum AnswerModel {
    Exists(bool),
    Opened(Option<Metadata>),
    Stat(Option<Metadata>),
    Listed(Option<Seq<EntryModel>>),
}

/// A request on its way to a response: the probe that is out, and for whom.
#[derive(Debug, PartialEq, Eq)]
pub struct Resolver {
    method: Method,
    path: Vec<u8>,
    probe: Probe,
}

/// Where a request stands after a decision.
#[derive(Debug, PartialEq, Eq)]
pub enum Step {
    /// The file system has to be asked; the resolver says what.
    Ask(Resolver),
    /// The response is settled.
    Reply(PendingResponse),
}

/// A decision as a mathematical value: the next probe, or the response.
pub enum Verdict {
    Ask(Probe),
    Reply(PendingModel),
}

impl View for Answer {
    type V = AnswerModel;

    open spec fn view(&self) -> AnswerModel {
        match self {
            Answer::Exists(exists) => AnswerModel::Exists(*exists),
            Answer::Opened(opened) => AnswerModel::Opened(*opened),
            Answer::Stat(found) => AnswerModel::Stat(*found),
            Answer::Listed(listed) => AnswerModel::Listed(
                match listed {
                    Some(entries) => Some(entry_models(entries@)),
                    None => None,
                },
            ),
        }
    }
}

/// The probe that follows once the path is known to exist.
pub open spec fn first_look(method: Method) -> Probe {
    match method {
        Method::Get => Probe::Open,
        Method::Info => Probe::Stat,
        Method::Dir => Probe::Stat,
    }
}

/// The decision that an answer leads to, row by row. Whatever fits no
/// row is a failure of the file system, or an answer that the method had
/// not asked for, and gets `ServerError`.
pub open spec fn decide(method: Method, probe: Probe, answer: AnswerModel) -> Verdict {
    match (method, probe, answer) {
        (_, Probe::Exists, AnswerModel::Exists(false)) => Verdict::Reply(
            PendingModel::Error(StatusCode::NotExist),
        ),
        (_, Probe::Exists, AnswerModel::Exists(true)) => Verdict::Ask(first_look(method)),
        (Method::Get, Probe::Open, AnswerModel::Opened(Some(metadata))) => if metadata.kind
            == FileKind::File {
            Verdict::Reply(PendingModel::Get(metadata.len))
        } else {
            Verdict::Reply(PendingModel::Error(StatusCode::NotFile))
        },
        (Method::Info, Probe::Stat, AnswerModel::Stat(Some(metadata))) => Verdict::Reply(
            PendingModel::Info(metadata),
        ),
        (Method::Dir, Probe::Stat, AnswerModel::Stat(Some(metadata))) => if metadata.kind
            == FileKind::Directory {
            Verdict::Ask(Probe::List)
        } else {
            Verdict::Reply(PendingModel::Error(StatusCode::NotDirectory))
        },
        (Method::Dir, Probe::Stat, AnswerModel::Stat(None)) => Verdict::Ask(Probe::List),
        (Method::Dir, Probe::List, AnswerModel::Listed(Some(entries))) => Verdict::Reply(
            PendingModel::Dir(entries),
        ),
        _ => Verdict::Reply(PendingModel::Error(StatusCode::ServerError)),
    }
}

/// The decision taken on a request before anything is asked of the file
/// system: a path that is not sanitary is refused then and there.
pub open spec fn screen(path: Seq<u8>) -> Verdict {
    if is_sanitary(path) {
        Verdict::Ask(Probe::Exists)
    } else {
        Verdict::Reply(PendingModel::BadRequest)
    }
}

/// The probes that a request of `method` can come to.
pub open spec fn may_ask(method: Method, probe: Probe) -> bool {
    match probe {
        Probe::Exists => true,
        Probe::Open => method == Method::Get,
        Probe::Stat => method != Method::Get,
        Probe::List => method == Method::Dir,
    }
}

impl Resolver {
    /// No probe is ever out for a path that is not sanitary, and none that
    /// the method has no use for.
    #[verifier::type_invariant]
    spec fn well_formed(self) -> bool {
        is_sanitary(self.path@) && may_ask(self.method, self.probe)
    }

    /// For which method the probe is out.
    pub closed spec fn spec_method(&self) -> Method {
        self.method
    }

    /// The virtual path that the probe is about.
    pub closed spec fn spec_path(&self) -> Seq<u8> {
        self.path@
    }

    /// The probe that is out.
    pub closed spec fn spec_probe(&self) -> Probe {
        self.probe
    }

    /// For which method the probe is out.
    #[verifier::when_used_as_spec(spec_method)]
    pub fn method(&self) -> (method: Method)
        ensures
            method == self.spec_method(),
    {
        self.method
    }

    /// The virtual path that the probe is about. It has passed the
    /// sanitizer, whatever the resolver has gone through.
    pub fn path(&self) -> (path: &Vec<u8>)
        ensures
            path@ == self.spec_path(),
            is_sanitary(path@),
    {
        proof {
            use_type_invariant(self);
        }
        &self.path
    }

    /// The place in the file system that the probe is about. It lies under
    /// the served root.
    pub fn path_in_fs(&self, config: &ServerConfig) -> (place: Vec<u8>)
        ensures
            place@ == resolved(config.root(), self.spec_path()),
            as_directory(config.root()).is_prefix_of(place@),
            parents_within(place@, config.root().len() as int),
    {
        proof {
            use_type_invariant(self);
            resolved_stays_under_root(config.root(), self.path@);
        }
        locate(config.serve_dir.as_slice(), self.path.as_slice())
    }

    /// The probe that is out. It is one that the method has use for.
    #[verifier::when_used_as_spec(spec_probe)]
    pub fn probe(&self) -> (probe: Probe)
        ensures
            probe == self.spec_probe(),
            may_ask(self.spec_method(), probe),
    {
        proof {
            use_type_invariant(self);
        }
        self.probe
    }

    /// Takes the answer to the probe that is out, and decides.
    pub fn advance(self, answer: Answer) -> (step: Step)
        ensures
            step.follows(
                self.spec_method(),
                self.spec_path(),
                decide(self.spec_method(), self.spec_probe(), answer@),
            ),
    {
        proof {
            use_type_invariant(&self);
        }
        let Resolver { method, path, probe } = self;
        match (method, probe, answer) {
            (_, Probe::Exists, Answer::Exists(false)) => Step::Reply(
                PendingResponse::Error(StatusCode::NotExist),
            ),
            (Method::Get, Probe::Exists, Answer::Exists(true)) => Step::Ask(
                Resolver { method, path, probe: Probe::Open },
            ),
            (_, Probe::Exists, Answer::Exists(true)) => Step::Ask(
                Resolver { method, path, probe: Probe::Stat },
            ),
            (Method::Get, Probe::Open, Answer::Opened(Some(metadata))) => match metadata.kind {
                FileKind::File => Step::Reply(PendingResponse::Get(metadata.len)),
                _ => Step::Reply(PendingResponse::Error(StatusCode::NotFile)),
            },
            (Method::Info, Probe::Stat, Answer::Stat(Some(metadata))) => Step::Reply(
                PendingResponse::Info(metadata),
            ),
            (Method::Dir, Probe::Stat, Answer::Stat(Some(metadata))) => match metadata.kind {
                FileKind::Directory => Step::Ask(Resolver { method, path, probe: Probe::List }),
                _ => Step::Reply(PendingResponse::Error(StatusCode::NotDirectory)),
            },
            (Method::Dir, Probe::Stat, Answer::Stat(None)) => Step::Ask(
                Resolver { method, path, probe: Probe::List },
            ),
            (Method::Dir, Probe::List, Answer::Listed(Some(entries))) => Step::Reply(
                PendingResponse::Dir(entries),
            ),
            _ => Step::Reply(PendingResponse::Error(StatusCode::ServerError)),
        }
    }
}

impl Step {
    /// This step sends `probe` out, for a request of `method` for `path`.
    pub open spec fn asks(self, method: Method, path: Seq<u8>, probe: Probe) -> bool {
        &&& self matches Step::Ask(resolver)
        &&& resolver.spec_method() == method
        &&& resolver.spec_path() == path
        &&& resolver.spec_probe() == probe
    }

    /// This step settles on `response`.
    pub open spec fn settles(self, response: PendingModel) -> bool {
        &&& self matches Step::Reply(pending)
        &&& pending@ == response
    }

    /// This step carries out `verdict` on a request of `method` for `path`.
    pub open spec fn follows(self, method: Method, path: Seq<u8>, verdict: Verdict) -> bool {
        match verdict {
            Verdict::Ask(probe) => self.asks(method, path, probe),
            Verdict::Reply(response) => self.settles(response),
        }
    }
}

/// Decides on a request before anything is asked of the file system. A path
/// that is not sanitary is answered at once; for any other the first probe
/// goes out.
pub fn prepare_response(request: &Request) -> (step: Step)
    ensures
        step.follows(request@.0, request@.1, screen(request@.1)),
{
    let path = request.path();
    if !sanitize_request_path(path.as_slice()) {
        return Step::Reply(PendingResponse::BadRequest);
    }
    Step::Ask(Resolver { method: request.method(), path: path.clone(), probe: Probe::Exists })
}

/// What the file system would say of one path, whatever it is asked.
pub struct Observed {
    pub exists: bool,
    pub opened: Option<Metadata>,
    pub stat: Option<Metadata>,
    pub listed: Option<Seq<EntryModel>>,
}

/// The answer that `world` gives to a probe.
pub open spec fn told(world: Observed, probe: Probe) -> AnswerModel {
    match probe {
        Probe::Exists => AnswerModel::Exists(world.exists),
        Probe::Open => AnswerModel::Opened(world.opened),
        Probe::Stat => AnswerModel::Stat(world.stat),
        Probe::List => AnswerModel::Listed(world.listed),
    }
}

/// Where a request stands after one more exchange with `world`.
pub open spec fn pursue(method: Method, verdict: Verdict, world: Observed) -> Verdict {
    match verdict {
        Verdict::Ask(probe) => decide(method, probe, told(world, probe)),
        Verdict::Reply(_) => verdict,
    }
}

/// Where a request for `path` stands after three exchanges with `world`, the
/// most that any request takes.
pub open spec fn outcome(method: Method, path: Seq<u8>, world: Observed) -> Verdict {
    pursue(method, pursue(method, pursue(method, screen(path), world), world), world)
}

/// Every request comes to a response, and none takes more than three probes.
pub proof fn every_request_is_answered(method: Method, path: Seq<u8>, world: Observed)
    ensures
        outcome(method, path, world) is Reply,
{
}

/// A request whose path is not sanitary is refused before any probe goes
/// out, so the file system is never asked about it.
pub proof fn refused_path_is_never_probed(method: Method, path: Seq<u8>, world: Observed)
    requires
        !is_sanitary(path),
    ensures
        screen(path) == Verdict::Reply(PendingModel::BadRequest),
        outcome(method, path, world) == Verdict::Reply(PendingModel::BadRequest),
{
}

/// Whatever the method, a request for a path that does not exist is answered
/// with `NotExist`.
pub proof fn missing_path_is_not_exist(method: Method, path: Seq<u8>, world: Observed)
    requires
        is_sanitary(path),
        !world.exists,
    ensures
        outcome(method, path, world) == Verdict::Reply(
            PendingModel::Error(StatusCode::NotExist),
        ),
{
}

/// A GET for a path that opens as a directory is answered with `NotFile`.
pub proof fn get_of_directory_is_not_file(path: Seq<u8>, world: Observed, len: u64)
    requires
        is_sanitary(path),
        world.exists,
        world.opened == Some(Metadata { kind: FileKind::Directory, len }),
    ensures
        outcome(Method::Get, path, world) == Verdict::Reply(
            PendingModel::Error(StatusCode::NotFile),
        ),
{
}

/// A DIR for a path that names a regular file is answered with
/// `NotDirectory`.
pub proof fn dir_of_file_is_not_directory(path: Seq<u8>, world: Observed, len: u64)
    requires
        is_sanitary(path),
        world.exists,
        world.stat == Some(Metadata { kind: FileKind::File, len }),
    ensures
        outcome(Method::Dir, path, world) == Verdict::Reply(
            PendingModel::Error(StatusCode::NotDirectory),
        ),
{
}

/// Takes the outcome of reading the request line of a fresh connection to
/// its first decision. A line that yields no request is answered with
/// `BadRequest`; a request goes to `prepare_response`.
pub fn handle_client(line: Option<Vec<u8>>) -> (step: Step)
    ensures
        match parse_request(
            match line {
                Some(raw) => Some(raw@),
                None => None,
            },
        ) {
            Ok((method, path)) => step.follows(method, path, screen(path)),
            Err(_) => step.settles(PendingModel::BadRequest),
        },
{
    match get_request(line) {
        Ok(request) => prepare_response(&request),
        Err(_) => Step::Reply(PendingResponse::BadRequest),
    }
}

} // verus!
