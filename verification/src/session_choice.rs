//! Which session a command-line client ends up with: the one to attach to, a new
//! one, or none, and why not.

use crate::assets::same_text;
use vstd::prelude::*;

verus! {

/// The session that a client is started for.
#[derive(Debug, PartialEq, Eq)]
pub enum ClientInfo {
    /// Attach to the running session of this name.
    Attach(String),
    /// Start a new session of this name.
    New(String),
}

impl ClientInfo {
    /// The session's name.
    pub open spec fn session_name(&self) -> Seq<char> {
        match self {
            ClientInfo::Attach(name) => name@,
            ClientInfo::New(name) => name@,
        }
    }

    /// The session's name.
    pub fn get_session_name(&self) -> (name: &str)
        ensures
            name@ == self.session_name(),
    {
        match self {
            ClientInfo::Attach(name) => name.as_str(),
            ClientInfo::New(name) => name.as_str(),
        }
    }

    /// Whether the client brings a layout along: a new session is laid out, a
    /// running one keeps what it has.
    pub fn takes_layout(&self) -> (takes: bool)
        ensures
            takes == (self is New),
    {
        match self {
            ClientInfo::Attach(_) => false,
            ClientInfo::New(_) => true,
        }
    }
}

/// How many sessions are running, and which one where there is just one.
#[derive(Debug, PartialEq, Eq)]
pub enum ActiveSession {
    /// No session runs.
    Nothing,
    /// One session runs, of this name.
    One(String),
    /// Several sessions run.
    Many,
}

/// How a name that the user gave matches the running sessions.
#[derive(Debug, PartialEq, Eq)]
pub enum SessionNameMatch {
    /// Several sessions start with it, and none has it for its name.
    AmbiguousPrefix(Vec<String>),
    /// One session starts with it.
    UniquePrefix(String),
    /// A session has it for its name.
    Exact(String),
    /// No session starts with it.
    Nothing,
}

/// A choice before the name of a new session is known.
#[derive(Debug, PartialEq, Eq)]
pub enum SessionPick {
    /// Attach to the running session of this name.
    Attach(String),
    /// Start a new session under a generated name.
    CreateNew,
}

/// Why no session could be chosen.
#[derive(Debug, PartialEq, Eq)]
pub enum ChoiceError {
    /// No session is running.
    NoActiveSessions,
    /// The list of sessions has no such place.
    NoSessionAtIndex { index: usize },
    /// Several sessions start with the name.
    AmbiguousName { prefix: String, sessions: Vec<String> },
    /// No session has the name, or starts with it.
    NoSessionNamed { name: String },
    /// Several sessions are running and none was named.
    SessionNotSpecified,
}

/// Whether a name has the form of two words joined by a hyphen: it holds a
/// hyphen that is neither its first nor its last character, so that something
/// stands before the hyphen and something after it.
pub open spec fn is_hyphenated_name(name: Seq<char>) -> bool {
    exists|i: int| 0 < i < name.len() - 1 && #[trigger] name[i] == '-'
}

/// The client for a session under a freshly generated name.
pub fn create_new_client() -> (client: ClientInfo)
    ensures
        client is New,
        is_hyphenated_name(client.session_name()),
{
    ClientInfo::New(generated_name())
}

/// `names::Generator::default().next()`: an adjective and a noun of the crate's
/// two word lists, picked at random and joined by a hyphen. No word of the lists
/// is empty, so the hyphen has a character on each side. Which words come is not
/// said.
#[verifier::external_body]
fn generated_name() -> (name: String)
    ensures
        is_hyphenated_name(name@),
{
    names::Generator::default().next().unwrap()
}

/// The client for a pick: the named session to attach to, or a new session
/// under a freshly generated name.
pub fn client_for(pick: SessionPick) -> (client: ClientInfo)
    ensures
        match pick {
            SessionPick::Attach(name) => client == ClientInfo::Attach(name),
            SessionPick::CreateNew => client is New && is_hyphenated_name(client.session_name()),
        },
{
    match pick {
        SessionPick::Attach(name) => ClientInfo::Attach(name),
        SessionPick::CreateNew => create_new_client(),
    }
}

/// Picks the session at a place of the list. Past the end of the list a new
/// session is picked where `create` allows it, and none else.
pub fn find_indexed_session(sessions: &Vec<String>, index: usize, create: bool) -> (pick: Result<
    SessionPick,
    ChoiceError,
>)
    ensures
        index < sessions@.len() ==> pick == Ok::<SessionPick, ChoiceError>(
            SessionPick::Attach(sessions@[index as int]),
        ),
        index >= sessions@.len() && create ==> pick == Ok::<SessionPick, ChoiceError>(
            SessionPick::CreateNew,
        ),
        index >= sessions@.len() && !create ==> pick == Err::<SessionPick, ChoiceError>(
            ChoiceError::NoSessionAtIndex { index },
        ),
{
    if index < sessions.len() {
        Ok(SessionPick::Attach(sessions[index].clone()))
    } else if create {
        Ok(SessionPick::CreateNew)
    } else {
        Err(ChoiceError::NoSessionAtIndex { index })
    }
}

/// Picks a session by its place among the running sessions, the newest first.
/// With no session running a new one is picked where `create` allows it.
pub fn attach_with_session_index(sessions: &Vec<String>, index: usize, create: bool) -> (pick:
    Result<SessionPick, ChoiceError>)
    ensures
        index < sessions@.len() ==> pick == Ok::<SessionPick, ChoiceError>(
            SessionPick::Attach(sessions@[index as int]),
        ),
        index >= sessions@.len() && create ==> pick == Ok::<SessionPick, ChoiceError>(
            SessionPick::CreateNew,
        ),
        sessions@.len() == 0 && !create ==> pick == Err::<SessionPick, ChoiceError>(
            ChoiceError::NoActiveSessions,
        ),
        sessions@.len() > 0 && index >= sessions@.len() && !create ==> pick == Err::<
            SessionPick,
            ChoiceError,
        >(ChoiceError::NoSessionAtIndex { index }),
{
    if sessions.len() == 0 {
        if create {
            Ok(SessionPick::CreateNew)
        } else {
            Err(ChoiceError::NoActiveSessions)
        }
    } else {
        find_indexed_session(sessions, index, create)
    }
}

/// What has to be found out before a session can be chosen by name.
#[derive(Clone, Copy, Debug, PartialEq, Eq, Structural)]
pub enum NameQuery {
    /// Whether a session of the given name runs.
    Exists,
    /// How the given name matches the running sessions.
    Match,
    /// Which sessions run.
    Active,
}

/// What has to be found out: for a given name that may be created, whether it
/// runs; for another given name, what it matches; with no name, what runs.
pub fn name_query(session_name: &Option<String>, create: bool) -> (query: NameQuery)
    ensures
        query == (match session_name {
            Some(_) => if create {
                NameQuery::Exists
            } else {
                NameQuery::Match
            },
            None => NameQuery::Active,
        }),
{
    match session_name {
        Some(_) => if create {
            NameQuery::Exists
        } else {
            NameQuery::Match
        },
        None => NameQuery::Active,
    }
}

/// The client for a named session that may be created: attach where it runs,
/// start it where it does not.
pub fn attach_or_create(session: String, exists: bool) -> (client: ClientInfo)
    ensures
        client == (if exists {
            ClientInfo::Attach(session)
        } else {
            ClientInfo::New(session)
        }),
{
    if exists {
        ClientInfo::Attach(session)
    } else {
        ClientInfo::New(session)
    }
}

/// The client for a name that must match a running session: the session that
/// has the name or alone starts with it.
pub fn attach_to_match(prefix: &str, matched: SessionNameMatch) -> (client: Result<
    ClientInfo,
    ChoiceError,
>)
    ensures
        match matched {
            SessionNameMatch::UniquePrefix(name) | SessionNameMatch::Exact(name) => client == Ok::<
                ClientInfo,
                ChoiceError,
            >(ClientInfo::Attach(name)),
            SessionNameMatch::AmbiguousPrefix(sessions) => {
                &&& client matches Err(ChoiceError::AmbiguousName { prefix: p, sessions: s })
                &&& p@ == prefix@
                &&& s == sessions
            },
            SessionNameMatch::Nothing => {
                &&& client matches Err(ChoiceError::NoSessionNamed { name })
                &&& name@ == prefix@
            },
        },
{
    match matched {
        SessionNameMatch::UniquePrefix(name) => Ok(ClientInfo::Attach(name)),
        SessionNameMatch::Exact(name) => Ok(ClientInfo::Attach(name)),
        SessionNameMatch::AmbiguousPrefix(sessions) => Err(
            ChoiceError::AmbiguousName { prefix: prefix.to_owned(), sessions },
        ),
        SessionNameMatch::Nothing => Err(ChoiceError::NoSessionNamed { name: prefix.to_owned() }),
    }
}

/// The pick where no name was given: the one session that runs; a new one
/// where none runs and `create` allows it.
pub fn attach_to_active(active: ActiveSession, create: bool) -> (pick: Result<
    SessionPick,
    ChoiceError,
>)
    ensures
        pick == (match active {
            ActiveSession::Nothing => if create {
                Ok::<SessionPick, ChoiceError>(SessionPick::CreateNew)
            } else {
                Err::<SessionPick, ChoiceError>(ChoiceError::NoActiveSessions)
            },
            ActiveSession::One(name) => Ok::<SessionPick, ChoiceError>(SessionPick::Attach(name)),
            ActiveSession::Many => Err::<SessionPick, ChoiceError>(
                ChoiceError::SessionNotSpecified,
            ),
        }),
{
    match active {
        ActiveSession::Nothing => if create {
            Ok(SessionPick::CreateNew)
        } else {
            Err(ChoiceError::NoActiveSessions)
        },
        ActiveSession::One(name) => Ok(SessionPick::Attach(name)),
        ActiveSession::Many => Err(ChoiceError::SessionNotSpecified),
    }
}

/// Whether a list of names holds a name.
pub open spec fn holds_name(names: Seq<String>, name: Seq<char>) -> bool {
    exists|i: int| 0 <= i < names.len() && (#[trigger] names[i])@ == name
}

/// Whether a list of names holds a name.
pub fn contains_name(names: &Vec<String>, name: &str) -> (found: bool)
    ensures
        found == holds_name(names@, name@),
{
    let mut i: usize = 0;
    while i < names.len()
        invariant
            i <= names@.len(),
            forall|j: int| 0 <= j < i ==> (#[trigger] names@[j])@ != name@,
        decreases names@.len() - i,
    {
        if same_text(names[i].as_str(), name) {
            return true;
        }
        i = i + 1;
    }
    false
}

/// Why an action has no session to go to.
#[derive(Debug, PartialEq, Eq)]
pub enum TargetError {
    /// No session is running.
    NoActiveSession,
    /// The requested session is not among the running ones.
    SessionNotFound { requested: String },
    /// Several sessions are running, and neither the request nor the
    /// environment names one.
    SessionNotSpecified,
}

/// The session that an action is sent to. Where one session runs: that one,
/// unless another was requested. Where several run: the requested one if it
/// runs; with no request, the one that the environment names.
pub open spec fn target_of(
    active: ActiveSession,
    requested: Option<String>,
    existing: Seq<String>,
    from_environment: Option<String>,
) -> Result<Seq<char>, TargetError> {
    match active {
        ActiveSession::Nothing => Err(TargetError::NoActiveSession),
        ActiveSession::One(name) => match requested {
            Some(r) => if r@ != name@ {
                Err(TargetError::SessionNotFound { requested: r })
            } else {
                Ok(name@)
            },
            None => Ok(name@),
        },
        ActiveSession::Many => match requested {
            Some(r) => if holds_name(existing, r@) {
                Ok(r@)
            } else {
                Err(TargetError::SessionNotFound { requested: r })
            },
            None => match from_environment {
                Some(name) => Ok(name@),
                None => Err(TargetError::SessionNotSpecified),
            },
        },
    }
}

/// The view of a choice of target.
pub open spec fn target_view(target: Result<String, TargetError>) -> Result<
    Seq<char>,
    TargetError,
> {
    match target {
        Ok(name) => Ok(name@),
        Err(e) => Err(e),
    }
}

/// Chooses the session that an action is sent to. `existing` is read only where
/// several sessions run.
pub fn action_target(
    active: ActiveSession,
    requested: Option<String>,
    existing: &Vec<String>,
    from_environment: Option<String>,
) -> (target: Result<String, TargetError>)
    ensures
        target_view(target) == target_of(active, requested, existing@, from_environment),
{
    match active {
        ActiveSession::Nothing => Err(TargetError::NoActiveSession),
        ActiveSession::One(name) => match requested {
            Some(r) => if !same_text(r.as_str(), name.as_str()) {
                Err(TargetError::SessionNotFound { requested: r })
            } else {
                Ok(name)
            },
            None => Ok(name),
        },
        ActiveSession::Many => match requested {
            Some(r) => if contains_name(existing, r.as_str()) {
                Ok(r)
            } else {
                Err(TargetError::SessionNotFound { requested: r })
            },
            None => match from_environment {
                Some(name) => Ok(name),
                None => Err(TargetError::SessionNotSpecified),
            },
        },
    }
}

/// Whether a client would attach to the session that it runs in: the
/// environment names a session, and it is the client's.
pub fn is_nested_attach(current_session: Option<&str>, client: &ClientInfo) -> (nested: bool)
    ensures
        nested == (match current_session {
            Some(current) => current@ == client.session_name(),
            None => false,
        }),
{
    match current_session {
        Some(current) => same_text(current, client.get_session_name()),
        None => false,
    }
}

/// How the session of an attach command is chosen.
#[derive(Clone, Copy, Debug, PartialEq, Eq, Structural)]
pub enum AttachWay {
    /// By its place among the running sessions; a name that was given too is
    /// not looked at.
    ByIndex(usize),
    /// By the name that was given, or by what runs where none was given.
    ByName,
}

/// What an attach command leads to before any session is looked at.
#[derive(Clone, Copy, Debug, PartialEq, Eq, Structural)]
pub struct AttachPlan {
    /// How the session is chosen.
    pub way: AttachWay,
    /// Whether the default assets are installed before the client starts.
    pub install_assets: bool,
}

/// Plans an attach command: the session is chosen by index where an index was
/// given, and by name else; the default assets are installed where the session
/// may be created, and only there.
pub fn attach_plan(index: Option<usize>, create: bool) -> (plan: AttachPlan)
    ensures
        plan.way == (match index {
            Some(i) => AttachWay::ByIndex(i),
            None => AttachWay::ByName,
        }),
        plan.install_assets == create,
{
    let way = match index {
        Some(i) => AttachWay::ByIndex(i),
        None => AttachWay::ByName,
    };
    AttachPlan { way, install_assets: create }
}

/// How a client is started where the command line asks for no attach.
#[derive(Debug, PartialEq, Eq)]
pub enum StartPlan {
    /// A new session under the name of the command line.
    Named(String),
    /// The session that the configuration names: attached to where it runs, and
    /// started where it does not.
    AttachOrCreate(String),
    /// A new session under the name of the configuration.
    NamedByConfig(String),
    /// A new session under a generated name.
    Generated,
}

/// Plans the start of a client where the command line asks for no attach. The
/// name of the command line comes first, then the name of the configuration,
/// which is attached to only where the configuration says so.
pub fn start_plan(
    flag_session: Option<String>,
    config_session: Option<String>,
    attach_to_session: Option<bool>,
) -> (plan: StartPlan)
    ensures
        plan == (match flag_session {
            Some(name) => StartPlan::Named(name),
            None => match config_session {
                Some(name) => if attach_to_session == Some(true) {
                    StartPlan::AttachOrCreate(name)
                } else {
                    StartPlan::NamedByConfig(name)
                },
                None => StartPlan::Generated,
            },
        }),
{
    match flag_session {
        Some(name) => StartPlan::Named(name),
        None => match config_session {
            Some(name) => match attach_to_session {
                Some(true) => StartPlan::AttachOrCreate(name),
                _ => StartPlan::NamedByConfig(name),
            },
            None => StartPlan::Generated,
        },
    }
}

} // verus!
