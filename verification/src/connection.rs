//! The sessions of one OMP connection.
use std::path::PathBuf;

use vstd::prelude::*;

use crate::discovery::{
    launch_arg_views, owned_path, session_args, tool_dir_paths, with_dirs, OmpCommand,
    SessionLaunch,
};
use crate::json::JsonView;
use crate::protocol::{prompt_text, text_of_prompt, ContentBlock, StopReason, OMP_AGENT_ID};
use crate::session::{
    abort_frame, get_state_frame, line_step, optional_action, rejections, request_id, ChildExit,
    Frame, OmpAction, OmpSessionState, PromptError, SessionView,
};
use crate::terminal::TaskStream;
use crate::text::{concatenated, decimal, decimal_text, decimal_text_is_injective};
use crate::ui::IconName;

verus! {

/// The built-in OMP agent.
pub struct OmpAgentServer;

impl OmpAgentServer {
    /// The id under which the agent is registered.
    pub fn agent_id(&self) -> (id: String)
        ensures
            id@ == OMP_AGENT_ID@,
    {
        OMP_AGENT_ID.to_owned()
    }

    /// The agent's icon.
    pub fn logo(&self) -> (icon: IconName)
        ensures
            icon == IconName::Terminal,
    {
        IconName::Terminal
    }

    /// A connection that starts its children with `command`.
    pub fn connect(&self, command: OmpCommand) -> (connection: OmpAgentConnection)
        ensures
            connection@ == ConnectionView::opened(command),
            connection@.well_formed(),
            connection@.ids_issued(),
    {
        OmpAgentConnection::new(command)
    }
}

/// Why a session cannot do what is asked.
#[derive(Clone, Copy, Debug, PartialEq, Eq, Structural)]
pub enum ConnectionError {
    NoWorkspaceDirectory,
    SessionNotFound,
    Prompt(PromptError),
}

impl ConnectionError {
    /// What the user is told.
    pub open spec fn text(self) -> Seq<char> {
        match self {
            ConnectionError::NoWorkspaceDirectory => "OMP agent requires a workspace directory"@,
            ConnectionError::SessionNotFound => "OMP session not found"@,
            ConnectionError::Prompt(cause) => cause.text(),
        }
    }

    /// What the user is told.
    pub fn message(&self) -> (message: String)
        ensures
            message@ == self.text(),
    {
        match self {
            ConnectionError::NoWorkspaceDirectory =>
                "OMP agent requires a workspace directory".to_owned(),
            ConnectionError::SessionNotFound => "OMP session not found".to_owned(),
            ConnectionError::Prompt(cause) => cause.message(),
        }
    }
}

/// The sessions of one connection.
pub struct OmpAgentConnection {
    command: OmpCommand,
    sessions: Vec<(String, OmpSessionState)>,
    next_session_id: u64,
}

/// What an [`OmpAgentConnection`] stands for.
#[verifier::ext_equal]
pub struct ConnectionView {
    /// What the children are started with.
    pub command: OmpCommand,
    /// Id and state of each session.
    pub sessions: Seq<(Seq<char>, SessionView)>,
    /// The number of the next session.
    pub next_id: nat,
}

impl View for OmpAgentConnection {
    type V = ConnectionView;

    closed spec fn view(&self) -> ConnectionView {
        ConnectionView {
            command: self.command,
            sessions: Seq::new(
                self.sessions@.len(),
                |i: int| (self.sessions@[i].0@, self.sessions@[i].1@),
            ),
            next_id: self.next_session_id as nat,
        }
    }
}

/// The session id with a given number.
pub open spec fn session_id(number: nat) -> Seq<char> {
    "omp-"@ + decimal_text(number)
}

/// Two different numbers give two different session ids.
pub proof fn session_ids_never_repeat(left: nat, right: nat)
    requires
        session_id(left) == session_id(right),
    ensures
        left == right,
{
    assert(session_id(left).skip("omp-"@.len() as int) =~= decimal_text(left));
    assert(session_id(right).skip("omp-"@.len() as int) =~= decimal_text(right));
    decimal_text_is_injective(left, right);
}

/// The place of the session with a given id, or the number of sessions where
/// there is none.
pub open spec fn session_place(sessions: Seq<(Seq<char>, SessionView)>, id: Seq<char>) -> int
    decreases sessions.len(),
{
    if sessions.len() == 0 || sessions[0].0 == id {
        0
    } else {
        1 + session_place(sessions.drop_first(), id)
    }
}

proof fn session_place_facts(sessions: Seq<(Seq<char>, SessionView)>, id: Seq<char>)
    ensures
        0 <= session_place(sessions, id) <= sessions.len(),
        forall|i: int| 0 <= i < session_place(sessions, id) ==> (#[trigger] sessions[i]).0 != id,
        session_place(sessions, id) < sessions.len() ==> sessions[session_place(sessions, id)].0
            == id,
    decreases sessions.len(),
{
    if sessions.len() > 0 && sessions[0].0 != id {
        let rest = sessions.drop_first();
        session_place_facts(rest, id);
        assert forall|i: int| 0 <= i < session_place(sessions, id) implies (
        #[trigger] sessions[i]).0 != id by {
            if i > 0 {
                assert(rest[i - 1] == sessions[i]);
            }
        }
    }
}

impl ConnectionView {
    /// A connection without sessions.
    pub open spec fn opened(command: OmpCommand) -> ConnectionView {
        ConnectionView { command, sessions: Seq::empty(), next_id: 0 }
    }

    /// There is a session with a given id.
    pub open spec fn has(self, id: Seq<char>) -> bool {
        session_place(self.sessions, id) < self.sessions.len()
    }

    /// The state of the session with a given id.
    pub open spec fn state(self, id: Seq<char>) -> SessionView
        recommends
            self.has(id),
    {
        self.sessions[session_place(self.sessions, id)].1
    }

    /// What holds of every connection: no two sessions have the same id, and each
    /// is well formed.
    pub open spec fn well_formed(self) -> bool {
        &&& forall|i: int, j: int|
            0 <= i < j < self.sessions.len() ==> (#[trigger] self.sessions[i]).0 != (
            #[trigger] self.sessions[j]).0
        &&& forall|i: int|
            0 <= i < self.sessions.len() ==> (#[trigger] self.sessions[i]).1.well_formed()
    }

    /// The connection once another session id has been given out.
    pub open spec fn counted(self) -> ConnectionView {
        ConnectionView { next_id: self.next_id + 1, ..self }
    }

    /// A session id that has been given out.
    pub open spec fn issued(self, id: Seq<char>) -> bool {
        exists|number: nat| number < self.next_id && id == #[trigger] session_id(number)
    }

    /// Every session has an id that was given out.
    pub open spec fn ids_issued(self) -> bool {
        forall|i: int| 0 <= i < self.sessions.len() ==> self.issued((#[trigger] self.sessions[i]).0)
    }

    /// The connection once the session with a given id has a given state: in the
    /// place it had, or at the end where it is new.
    pub open spec fn with(self, id: Seq<char>, state: SessionView) -> ConnectionView {
        ConnectionView {
            sessions: if self.has(id) {
                self.sessions.update(session_place(self.sessions, id), (id, state))
            } else {
                self.sessions.push((id, state))
            },
            ..self
        }
    }

    /// The connection once the session with a given id is gone.
    pub open spec fn without(self, id: Seq<char>) -> ConnectionView {
        ConnectionView {
            sessions: if self.has(id) {
                self.sessions.remove(session_place(self.sessions, id))
            } else {
                self.sessions
            },
            ..self
        }
    }
}

proof fn first_place(sessions: Seq<(Seq<char>, SessionView)>, id: Seq<char>, at: int)
    requires
        0 <= at < sessions.len(),
        sessions[at].0 == id,
        forall|i: int| 0 <= i < at ==> (#[trigger] sessions[i]).0 != id,
    ensures
        session_place(sessions, id) == at,
{
    session_place_facts(sessions, id);
    let place = session_place(sessions, id);
    if place < at {
        assert(sessions[place].0 != id);
    }
    if place > at {
        assert(sessions[at].0 != id);
    }
}

proof fn no_place(sessions: Seq<(Seq<char>, SessionView)>, id: Seq<char>)
    requires
        forall|i: int| 0 <= i < sessions.len() ==> (#[trigger] sessions[i]).0 != id,
    ensures
        session_place(sessions, id) == sessions.len(),
{
    session_place_facts(sessions, id);
    let place = session_place(sessions, id);
    if place < sessions.len() {
        assert(sessions[place].0 != id);
    }
}

/// A change of one session reaches that session, and leaves every other as it
/// was.
pub proof fn sessions_do_not_disturb_each_other(
    connection: ConnectionView,
    id: Seq<char>,
    state: SessionView,
    other: Seq<char>,
)
    requires
        other != id,
    ensures
        connection.with(id, state).has(id),
        connection.with(id, state).state(id) == state,
        connection.with(id, state).has(other) == connection.has(other),
        connection.has(other) ==> connection.with(id, state).state(other) == connection.state(
            other,
        ),
{
    let before = connection.sessions;
    let after = connection.with(id, state).sessions;
    session_place_facts(before, id);
    session_place_facts(before, other);
    let place = session_place(before, id);
    if connection.has(id) {
        assert forall|i: int| 0 <= i < place implies (#[trigger] after[i]).0 != id by {
            assert(before[i].0 != id);
        }
        first_place(after, id, place);
    } else {
        assert forall|i: int| 0 <= i < before.len() implies (#[trigger] after[i]).0 != id by {
            assert(before[i].0 != id);
        }
        first_place(after, id, before.len() as int);
    }
    let theirs = session_place(before, other);
    assert forall|i: int| 0 <= i < theirs implies (#[trigger] after[i]).0 != other by {
        assert(before[i].0 != other);
    }
    if connection.has(other) {
        first_place(after, other, theirs);
    } else {
        assert forall|i: int| 0 <= i < after.len() implies (#[trigger] after[i]).0 != other by {
            if i < before.len() {
                assert(before[i].0 != other);
            }
        }
        no_place(after, other);
    }
}

/// A change of one session keeps a connection well formed.
pub proof fn changing_a_session_keeps_the_invariant(
    connection: ConnectionView,
    id: Seq<char>,
    state: SessionView,
)
    requires
        connection.well_formed(),
        state.well_formed(),
    ensures
        connection.with(id, state).well_formed(),
{
    let before = connection.sessions;
    let after = connection.with(id, state).sessions;
    session_place_facts(before, id);
    assert forall|i: int, j: int| 0 <= i < j < after.len() implies (#[trigger] after[i]).0 != (
    #[trigger] after[j]).0 by {
        assert(before[i].0 == after[i].0);
        if j < before.len() {
            assert(before[j].0 == after[j].0);
        }
    }
    assert forall|i: int| 0 <= i < after.len() implies (#[trigger] after[i]).1.well_formed() by {
        if i < before.len() {
            assert(before[i].1.well_formed());
        }
    }
}

/// Removing a session removes it for good, keeps the others, and keeps a
/// connection well formed.
pub proof fn removing_a_session_keeps_the_others(
    connection: ConnectionView,
    id: Seq<char>,
    other: Seq<char>,
)
    requires
        connection.well_formed(),
    ensures
        connection.without(id).well_formed(),
        !connection.without(id).has(id),
        other != id ==> connection.without(id).has(other) == connection.has(other),
        other != id && connection.has(other) ==> connection.without(id).state(other)
            == connection.state(other),
{
    let before = connection.sessions;
    let after = connection.without(id).sessions;
    session_place_facts(before, id);
    session_place_facts(before, other);
    let place = session_place(before, id);
    if connection.has(id) {
        assert forall|i: int, j: int| 0 <= i < j < after.len() implies (#[trigger] after[i]).0 != (
        #[trigger] after[j]).0 by {
            let i_before = if i < place {
                i
            } else {
                i + 1
            };
            let j_before = if j < place {
                j
            } else {
                j + 1
            };
            assert(before[i_before].0 != before[j_before].0);
        }
        assert forall|i: int| 0 <= i < after.len() implies (
        #[trigger] after[i]).1.well_formed() by {
            let i_before = if i < place {
                i
            } else {
                i + 1
            };
            assert(before[i_before].1.well_formed());
        }
        assert forall|i: int| 0 <= i < after.len() implies (#[trigger] after[i]).0 != id by {
            if i < place {
                assert(before[i].0 != before[place].0);
            } else {
                assert(before[place].0 != before[i + 1].0);
            }
        }
        no_place(after, id);
        if other != id {
            let theirs = session_place(before, other);
            let moved = if theirs < place {
                theirs
            } else {
                theirs - 1
            };
            assert(theirs != place);
            assert forall|i: int| 0 <= i < moved implies (#[trigger] after[i]).0 != other by {
                if i < place {
                    assert(before[i].0 != other);
                } else {
                    assert(before[i + 1].0 != other);
                }
            }
            if connection.has(other) {
                first_place(after, other, moved);
            } else {
                assert forall|i: int| 0 <= i < after.len() implies (#[trigger] after[i]).0
                    != other by {
                    if i < place {
                        assert(before[i].0 != other);
                    } else {
                        assert(before[i + 1].0 != other);
                    }
                }
                no_place(after, other);
            }
        }
    }
}

/// Giving out a session id keeps every session's id one that was given out.
pub proof fn counting_keeps_the_ids_issued(connection: ConnectionView)
    ensures
        connection.counted().issued(session_id(connection.next_id)),
        connection.ids_issued() ==> connection.counted().ids_issued(),
{
    let counted = connection.counted();
    assert(connection.next_id < counted.next_id);
    if connection.ids_issued() {
        assert forall|i: int| 0 <= i < counted.sessions.len() implies counted.issued(
            (#[trigger] counted.sessions[i]).0,
        ) by {
            assert(connection.issued(connection.sessions[i].0));
        }
    }
}

/// A change of a session keeps every session's id one that was given out, where
/// its own id is, or was that of a session.
pub proof fn changing_a_session_keeps_the_ids_issued(
    connection: ConnectionView,
    id: Seq<char>,
    state: SessionView,
)
    requires
        connection.ids_issued(),
        connection.issued(id) || connection.has(id),
    ensures
        connection.with(id, state).ids_issued(),
{
    let before = connection.sessions;
    let after = connection.with(id, state);
    session_place_facts(before, id);
    if connection.has(id) {
        assert(connection.issued(before[session_place(before, id)].0));
    }
    assert forall|i: int| 0 <= i < after.sessions.len() implies after.issued(
        (#[trigger] after.sessions[i]).0,
    ) by {
        if i < before.len() {
            assert(connection.issued(before[i].0));
        }
    }
}

/// Removing a session keeps every session's id one that was given out.
pub proof fn removing_a_session_keeps_the_ids_issued(connection: ConnectionView, id: Seq<char>)
    requires
        connection.ids_issued(),
    ensures
        connection.without(id).ids_issued(),
{
    let before = connection.sessions;
    let after = connection.without(id);
    session_place_facts(before, id);
    let place = session_place(before, id);
    assert forall|i: int| 0 <= i < after.sessions.len() implies after.issued(
        (#[trigger] after.sessions[i]).0,
    ) by {
        let i_before = if i < place {
            i
        } else {
            i + 1
        };
        assert(connection.issued(before[i_before].0));
    }
}

/// A new session displaces none: no session has the id that is given out next, so
/// that a session under that id comes after all others, each of which stays as it
/// is.
pub proof fn a_new_session_displaces_none(connection: ConnectionView, state: SessionView)
    requires
        connection.ids_issued(),
    ensures
        !connection.has(session_id(connection.next_id)),
        ({
            let id = session_id(connection.next_id);
            let after = connection.counted().with(id, state);
            &&& after.sessions == connection.sessions.push((id, state))
            &&& after.ids_issued()
        }),
{
    let id = session_id(connection.next_id);
    let sessions = connection.sessions;
    assert forall|i: int| 0 <= i < sessions.len() implies (#[trigger] sessions[i]).0 != id by {
        assert(connection.issued(sessions[i].0));
        let number = choose|number: nat|
            number < connection.next_id && sessions[i].0 == #[trigger] session_id(number);
        if sessions[i].0 == id {
            session_ids_never_repeat(number, connection.next_id);
        }
    }
    no_place(sessions, id);
    counting_keeps_the_ids_issued(connection);
    changing_a_session_keeps_the_ids_issued(connection.counted(), id, state);
}

/// A session that is to be started.
#[derive(Debug, PartialEq, Eq)]
pub struct SessionStart {
    pub session_id: String,
    pub launch: SessionLaunch,
}

/// What the end of a session settles.
#[derive(Debug, PartialEq, Eq)]
pub struct SessionClose {
    /// The answer to the waiting prompt.
    pub prompt: Option<StopReason>,
    /// The requests that wait, each with the error that answers it.
    pub rejected: Vec<(String, String)>,
    /// The child is to be killed and waited for.
    pub kill: bool,
}

/// What cancelling a turn leads to.
#[derive(Debug, PartialEq)]
pub struct TurnCancel {
    /// What is sent to the child.
    pub abort: Option<Frame>,
    /// The answer to the waiting prompt.
    pub prompt: Option<StopReason>,
}

/// The answer to a prompt that was cancelled.
pub open spec fn cancelled_answer(state: SessionView) -> Option<StopReason> {
    if state.prompt is Some {
        Some(StopReason::Cancelled)
    } else {
        None
    }
}

/// Where one connection differs from another in the state of one session alone, it
/// is that connection with that state.
proof fn one_session_changed(
    before: OmpAgentConnection,
    after: OmpAgentConnection,
    id: Seq<char>,
)
    requires
        before@.has(id),
        after.command == before.command,
        after.next_session_id == before.next_session_id,
        ({
            let place = session_place(before@.sessions, id);
            after.sessions@ =~= before.sessions@.update(
                place,
                (before.sessions@[place].0, after.sessions@[place].1),
            )
        }),
    ensures
        ({
            let state = after.sessions@[session_place(before@.sessions, id)].1@;
            &&& after@ == before@.with(id, state)
            &&& before@.well_formed() && state.well_formed() ==> after@.well_formed()
            &&& before@.ids_issued() ==> after@.ids_issued()
        }),
{
    let state = after.sessions@[session_place(before@.sessions, id)].1@;
    session_place_facts(before@.sessions, id);
    assert(after@ =~= before@.with(id, state));
    if before@.well_formed() && state.well_formed() {
        changing_a_session_keeps_the_invariant(before@, id, state);
    }
    if before@.ids_issued() {
        changing_a_session_keeps_the_ids_issued(before@, id, state);
    }
}

impl OmpAgentConnection {
    /// A connection without sessions.
    pub fn new(command: OmpCommand) -> (connection: OmpAgentConnection)
        ensures
            connection@ == ConnectionView::opened(command),
            connection@.well_formed(),
            connection@.ids_issued(),
    {
        let connection = OmpAgentConnection { command, sessions: Vec::new(), next_session_id: 0 };
        assert(connection@ =~= ConnectionView::opened(command));
        connection
    }

    /// The id under which the agent is registered.
    pub fn agent_id(&self) -> (id: String)
        ensures
            id@ == OMP_AGENT_ID@,
    {
        OMP_AGENT_ID.to_owned()
    }

    /// The id under which the agent is counted.
    pub fn telemetry_id(&self) -> (id: String)
        ensures
            id@ == OMP_AGENT_ID@,
    {
        OMP_AGENT_ID.to_owned()
    }

    /// Sessions can be closed.
    pub fn supports_close_session(&self) -> (supports: bool)
        ensures
            supports,
    {
        true
    }

    /// Another session id can be given out.
    pub fn can_issue_id(&self) -> (can: bool)
        ensures
            can == (self@.next_id < u64::MAX),
    {
        self.next_session_id < u64::MAX
    }

    /// The place of the session with a given id.
    fn find(&self, id: &str) -> (place: Option<usize>)
        ensures
            place is Some == self@.has(id@),
            place is Some ==> {
                &&& place->0 < self.sessions@.len()
                &&& place->0 == session_place(self@.sessions, id@)
                &&& self.sessions@[place->0 as int].1@ == self@.state(id@)
                &&& self@.well_formed() ==> self@.state(id@).well_formed()
            },
    {
        let ghost all = self@.sessions;
        let mut i: usize = 0;
        while i < self.sessions.len()
            invariant
                i <= self.sessions@.len(),
                all == self@.sessions,
                all.len() == self.sessions@.len(),
                forall|j: int| 0 <= j < i ==> (#[trigger] all[j]).0 != id@,
            decreases self.sessions@.len() - i,
        {
            if self.sessions[i].0.as_str().eq(id) {
                proof {
                    assert(all[i as int].0 == id@);
                    first_place(all, id@, i as int);
                }
                return Some(i);
            }
            assert(all[i as int].0 != id@);
            i = i + 1;
        }
        proof {
            no_place(all, id@);
        }
        None
    }

    /// The next session id.
    fn next_session_id(&mut self) -> (id: String)
        requires
            old(self)@.next_id < u64::MAX,
        ensures
            id@ == session_id(old(self)@.next_id),
            final(self)@ == old(self)@.counted(),
    {
        let number = self.next_session_id;
        self.next_session_id = number + 1;
        concatenated("omp-", decimal(number).as_str())
    }

    /// Gives a new session its id, and what is started for it: the child, in the
    /// first of the workspace's directories. `paths` is the search path of this
    /// process, and `home` the user's home.
    pub fn new_session(
        &mut self,
        work_dirs: &Vec<PathBuf>,
        paths: Vec<PathBuf>,
        home: Option<&PathBuf>,
    ) -> (start: Result<SessionStart, ConnectionError>)
        requires
            old(self)@.next_id < u64::MAX,
        ensures
            final(self)@ == old(self)@.counted(),
            old(self)@.well_formed() ==> final(self)@.well_formed(),
            old(self)@.ids_issued() ==> final(self)@.ids_issued(),
            start is Ok ==> final(self)@.issued(start->Ok_0.session_id@),
            old(self)@.ids_issued() && start is Ok ==> !old(self)@.has(start->Ok_0.session_id@),
            work_dirs@.len() == 0 ==> start == Err::<SessionStart, ConnectionError>(
                ConnectionError::NoWorkspaceDirectory,
            ),
            work_dirs@.len() > 0 ==> {
                &&& start is Ok
                &&& start->Ok_0.session_id@ == session_id(old(self)@.next_id)
                &&& start->Ok_0.launch.program == old(self)@.command.program
                &&& launch_arg_views(start->Ok_0.launch.args@) == session_args(
                    old(self)@.command.prefix_args.deep_view(),
                    work_dirs@[0],
                )
                &&& start->Ok_0.launch.current_dir == work_dirs@[0]
                &&& start->Ok_0.launch.search_path@ == with_dirs(
                    paths@,
                    tool_dir_paths(owned_path(home)),
                )
                &&& start->Ok_0.launch.stdin == TaskStream::Piped
                &&& start->Ok_0.launch.stdout == TaskStream::Piped
                &&& start->Ok_0.launch.stderr == TaskStream::Piped
            },
    {
        proof {
            counting_keeps_the_ids_issued(self@);
            if self@.ids_issued() {
                a_new_session_displaces_none(self@, SessionView::started());
            }
        }
        let session_id = self.next_session_id();
        if work_dirs.len() == 0 {
            return Err(ConnectionError::NoWorkspaceDirectory);
        }
        let launch = SessionLaunch::new(&self.command, &work_dirs[0], paths, home);
        Ok(SessionStart { session_id, launch })
    }

    /// Takes note that the child of a session has been started, and gives what is
    /// sent to it first. `session_id` is the id that was given out for it.
    pub fn create_session(&mut self, session_id: &str) -> (sent: Option<Frame>)
        ensures
            final(self)@ == old(self)@.with(
                session_id@,
                SessionView::started().requested(get_state_frame()).0,
            ),
            sent is Some,
            SessionView::started().requested(get_state_frame()).1 == Ok::<
                JsonView,
                crate::session::SendError,
            >(sent->0@),
            old(self)@.well_formed() ==> final(self)@.well_formed(),
            old(self)@.ids_issued() && old(self)@.issued(session_id@) ==> final(self)@.ids_issued(),
    {
        let ghost before = self@;
        let mut state = OmpSessionState::new();
        let sent = state.request_state_update();
        let ghost after = state@;
        match self.find(session_id) {
            Some(place) => self.sessions.set(place, (session_id.to_owned(), state)),
            None => self.sessions.push((session_id.to_owned(), state)),
        }
        proof {
            assert(self@.sessions =~= before.with(session_id@, after).sessions);
            if before.well_formed() {
                changing_a_session_keeps_the_invariant(before, session_id@, after);
            }
            if before.ids_issued() && before.issued(session_id@) {
                changing_a_session_keeps_the_ids_issued(before, session_id@, after);
            }
        }
        sent
    }

    /// Ends a session: its prompt is cancelled, its requests are answered, and its
    /// child is killed.
    pub fn close_session(&mut self, session_id: &str) -> (close: Option<SessionClose>)
        ensures
            final(self)@ == old(self)@.without(session_id@),
            close is Some == old(self)@.has(session_id@),
            close is Some ==> {
                let state = old(self)@.state(session_id@);
                &&& close->0.prompt == cancelled_answer(state)
                &&& close->0.rejected.deep_view() == rejections(
                    state.requests,
                    "OMP session closed"@,
                )
                &&& close->0.kill == state.child_held
            },
            old(self)@.well_formed() ==> final(self)@.well_formed(),
            old(self)@.ids_issued() ==> final(self)@.ids_issued(),
    {
        let ghost before = self@;
        proof {
            if before.well_formed() {
                removing_a_session_keeps_the_others(before, session_id@, session_id@);
            }
            if before.ids_issued() {
                removing_a_session_keeps_the_ids_issued(before, session_id@);
            }
        }
        match self.find(session_id) {
            Some(place) => {
                let removed = self.sessions.remove(place);
                assert(self@.sessions =~= before.without(session_id@).sessions);
                let mut state = removed.1;
                assert(state@ == before.state(session_id@));
                let prompt = state.cancel_active_turn();
                let rejected = state.reject_pending_requests("OMP session closed");
                let kill = state.kill();
                Some(SessionClose { prompt, rejected, kill })
            },
            None => None,
        }
    }

    /// The session with a given id can give out another request id.
    pub fn can_issue_request_id(&self, session_id: &str) -> (can: bool)
        ensures
            can == (self@.has(session_id@) ==> self@.state(session_id@).next_id < u64::MAX),
    {
        match self.find(session_id) {
            Some(place) => self.sessions[place].1.can_issue_id(),
            None => true,
        }
    }

    /// Hands a prompt to a session, and gives what is sent for it.
    pub fn prompt(&mut self, session_id: &str, prompt: &Vec<ContentBlock>) -> (sent: Result<
        Frame,
        ConnectionError,
    >)
        requires
            old(self)@.has(session_id@) ==> old(self)@.state(session_id@).next_id < u64::MAX,
        ensures
            !old(self)@.has(session_id@) ==> {
                &&& final(self)@ == old(self)@
                &&& sent == Err::<Frame, ConnectionError>(ConnectionError::SessionNotFound)
            },
            old(self)@.has(session_id@) ==> {
                let step = old(self)@.state(session_id@).prompted(text_of_prompt(prompt@));
                &&& final(self)@ == old(self)@.with(session_id@, step.0)
                &&& match step.1 {
                    Ok(frame) => sent is Ok && sent->Ok_0@ == frame,
                    Err(error) => sent == Err::<Frame, ConnectionError>(
                        ConnectionError::Prompt(error),
                    ),
                }
            },
            old(self)@.well_formed() ==> final(self)@.well_formed(),
            old(self)@.ids_issued() ==> final(self)@.ids_issued(),
    {
        let place = match self.find(session_id) {
            Some(place) => place,
            None => return Err(ConnectionError::SessionNotFound),
        };
        let text = prompt_text(prompt);
        let sent = self.sessions[place].1.prompt(text.as_str());
        proof {
            one_session_changed(*old(self), *self, session_id@);
        }
        match sent {
            Ok(frame) => Ok(frame),
            Err(error) => Err(ConnectionError::Prompt(error)),
        }
    }

    /// Cancels the turn of a session: the child is told to abort, and the waiting
    /// prompt is answered.
    pub fn cancel(&mut self, session_id: &str) -> (cancel: Option<TurnCancel>)
        requires
            old(self)@.has(session_id@) ==> old(self)@.state(session_id@).next_id < u64::MAX,
        ensures
            cancel is Some == old(self)@.has(session_id@),
            !old(self)@.has(session_id@) ==> final(self)@ == old(self)@,
            old(self)@.has(session_id@) ==> {
                let state = old(self)@.state(session_id@);
                &&& final(self)@ == old(self)@.with(session_id@, state.counted().unprompted())
                &&& cancel->0.prompt == cancelled_answer(state)
                &&& cancel->0.abort is Some == state.send_error() is None
                &&& cancel->0.abort is Some ==> cancel->0.abort->0@ == abort_frame(
                    request_id(state.next_id),
                )
            },
            old(self)@.well_formed() ==> final(self)@.well_formed(),
            old(self)@.ids_issued() ==> final(self)@.ids_issued(),
    {
        let place = match self.find(session_id) {
            Some(place) => place,
            None => return None,
        };
        let abort = self.sessions[place].1.send_abort();
        let prompt = self.sessions[place].1.cancel_active_turn();
        proof {
            one_session_changed(*old(self), *self, session_id@);
        }
        Some(TurnCancel { abort, prompt })
    }

    /// What a line of a session's child leads to. A line of a session that is gone
    /// leads to nothing.
    pub fn dispatch_line(&mut self, session_id: &str, line: &str) -> (action: Option<OmpAction>)
        ensures
            !old(self)@.has(session_id@) ==> final(self)@ == old(self)@ && action is None,
            old(self)@.has(session_id@) ==> {
                let step = line_step(old(self)@.state(session_id@), line@);
                &&& final(self)@ == old(self)@.with(session_id@, step.0)
                &&& optional_action(action) == step.1
            },
            old(self)@.well_formed() ==> final(self)@.well_formed(),
            old(self)@.ids_issued() ==> final(self)@.ids_issued(),
    {
        let place = match self.find(session_id) {
            Some(place) => place,
            None => return None,
        };
        let action = self.sessions[place].1.dispatch_line(line);
        proof {
            one_session_changed(*old(self), *self, session_id@);
        }
        action
    }

    /// Takes note that the standard input of a session's child takes no more
    /// frames.
    pub fn mark_stdin_closed(&mut self, session_id: &str)
        ensures
            !old(self)@.has(session_id@) ==> final(self)@ == old(self)@,
            old(self)@.has(session_id@) ==> final(self)@ == old(self)@.with(
                session_id@,
                (SessionView { outgoing_open: false, ..old(self)@.state(session_id@) }),
            ),
            old(self)@.well_formed() ==> final(self)@.well_formed(),
            old(self)@.ids_issued() ==> final(self)@.ids_issued(),
    {
        if let Some(place) = self.find(session_id) {
            self.sessions[place].1.mark_stdin_closed();
            proof {
                one_session_changed(*old(self), *self, session_id@);
            }
        }
    }

    /// Takes note that the child of a session has exited.
    pub fn mark_child_exited(&mut self, session_id: &str) -> (exit: Option<ChildExit>)
        ensures
            exit is Some == old(self)@.has(session_id@),
            !old(self)@.has(session_id@) ==> final(self)@ == old(self)@,
            old(self)@.has(session_id@) ==> {
                let state = old(self)@.state(session_id@);
                &&& final(self)@ == old(self)@.with(session_id@, state.exited())
                &&& exit->0.prompt == cancelled_answer(state)
                &&& exit->0.rejected.deep_view() == rejections(
                    state.requests,
                    "OMP child exited"@,
                )
                &&& exit->0.reap == state.child_held
            },
            old(self)@.well_formed() ==> final(self)@.well_formed(),
            old(self)@.ids_issued() ==> final(self)@.ids_issued(),
    {
        let place = match self.find(session_id) {
            Some(place) => place,
            None => return None,
        };
        let exit = self.sessions[place].1.mark_child_exited();
        proof {
            one_session_changed(*old(self), *self, session_id@);
        }
        Some(exit)
    }
}

/// The answer to a prompt: how its turn ended, or what went wrong. An answer that
/// never comes is an error.
pub fn prompt_response(answer: Option<Result<StopReason, String>>) -> (response: Result<
    StopReason,
    String,
>)
    ensures
        match answer {
            Some(Ok(reason)) => response == Ok::<StopReason, String>(reason),
            Some(Err(error)) => response is Err && response->Err_0@ == error@,
            None => response is Err && response->Err_0@ == "OMP prompt response dropped"@,
        },
{
    match answer {
        Some(Ok(reason)) => Ok(reason),
        Some(Err(error)) => Err(error),
        None => Err("OMP prompt response dropped".to_owned()),
    }
}

// ---------------------------------------------------------------------------
// What a connection tells
// ---------------------------------------------------------------------------

/// A connection opens without sessions and has given out no id. A session id tells its
/// number.
pub proof fn a_new_connection_has_no_sessions(command: OmpCommand, id: Seq<char>, number: nat)
    ensures
        !ConnectionView::opened(command).has(id),
        !ConnectionView::opened(command).issued(id),
        ConnectionView::opened(command).command == command,
        session_id(number).take(4) == "omp-"@,
        crate::text::digits_value(session_id(number).skip(4)) == number,
{
    reveal_strlit("omp-");
    assert(session_id(number).take(4) =~= "omp-"@);
    assert(session_id(number).skip(4) =~= decimal_text(number));
    crate::text::decimal_text_reads_back(number);
}

/// A session is found under its id alone: under one that no session has none is found,
/// and under one that a session has, that session.
pub proof fn sessions_are_found_by_their_ids(connection: ConnectionView, id: Seq<char>, i: int)
    requires
        connection.well_formed(),
    ensures
        connection.has(id) <==> exists|j: int|
            0 <= j < connection.sessions.len() && (#[trigger] connection.sessions[j]).0 == id,
        0 <= i < connection.sessions.len() && connection.sessions[i].0 == id
            ==> connection.state(id) == connection.sessions[i].1,
{
    let sessions = connection.sessions;
    session_place_facts(sessions, id);
    let place = session_place(sessions, id);
    if place < sessions.len() {
        assert(sessions[place].0 == id);
        if 0 <= i < sessions.len() && sessions[i].0 == id {
            if i < place {
                assert(sessions[i].0 != sessions[place].0);
            } else if place < i {
                assert(sessions[place].0 != sessions[i].0);
            }
        }
    }
}

/// A waiting prompt is answered as cancelled, and nothing is answered where none waits.
/// What cannot be done is told.
pub proof fn cancelling_answers_the_waiting_prompt(state: SessionView)
    ensures
        state.prompt is Some ==> cancelled_answer(state) == Some(StopReason::Cancelled),
        state.prompt is None ==> cancelled_answer(state) is None,
        ConnectionError::NoWorkspaceDirectory.text() == "OMP agent requires a workspace directory"@,
        ConnectionError::SessionNotFound.text() == "OMP session not found"@,
        ConnectionError::Prompt(PromptError::AlreadyInProgress).text()
            == "OMP prompt already in progress"@,
{
}

/// Changing a session's state keeps the command and the count of the ids, and so does
/// removing one.
pub proof fn changes_touch_sessions_alone(
    connection: ConnectionView,
    id: Seq<char>,
    state: SessionView,
)
    ensures
        connection.with(id, state).command == connection.command,
        connection.with(id, state).next_id == connection.next_id,
        connection.without(id).command == connection.command,
        connection.without(id).next_id == connection.next_id,
        connection.counted().sessions == connection.sessions,
        connection.counted().command == connection.command,
        connection.counted().next_id == connection.next_id + 1,
{
}

} // verus!
