//! The generate and fix pipelines as one state machine. The caller performs
//! each effect the machine asks for (permits, files, the code generator, the
//! simulator), sends the records it hands out, and reports what happened
//! as the next event.
use vstd::prelude::*;
use vstd::string::*;
use crate::fence::{extract_source, install_components, install_components_of, source_of, ExtractError};
use crate::forge_output::{details_json, ForgeOutput, TransactionDetails, transactions_json};
use crate::models::{FixRequest, ForgeRequest, Turn};
use crate::step::ForgeStep;

verus! {

/// How many generation runs may hold a permit at once.
pub const DEFAULT_CAPACITY: usize = 100;

/// The buffer size of a run's progress channel.
pub const DEFAULT_SINK_CAPACITY: usize = 100;

/// The address of the node the simulation forks when a request names none.
pub open spec fn default_rpc_url() -> Seq<char> {
    "http://localhost:8545"@
}

#[derive(PartialEq, Eq, Structural, Clone, Copy, Debug)]
pub enum Flow {
    Generate,
    Fix,
}

#[derive(PartialEq, Eq, Structural, Clone, Copy, Debug)]
pub enum Phase {
    Start,
    AwaitingPermit,
    CreatingWorkspace,
    Provisioning,
    Guidance,
    LookingUp,
    LoadingSession,
    Generating,
    Persisting,
    Installing,
    Materializing,
    Simulating,
    ReadingOutput,
    Done,
}

/// How a run ended.
#[derive(PartialEq, Eq, Structural, Clone, Copy, Debug)]
pub enum Verdict {
    /// The simulation ran and its transactions were reported.
    Success,
    /// A fatal error was reported.
    Failed,
}

/// What became of the simulator's structured output file.
pub enum OutputFile {
    Missing,
    Unreadable(String),
    Malformed(String),
    Parsed(ForgeOutput),
}

/// What the caller observed after performing the last effect.
pub enum Event {
    /// The run is starting; no effect was asked for yet.
    Started,
    /// The effect succeeded and had nothing to report.
    Completed,
    /// The effect failed, with its diagnostic text.
    Failed(String),
    /// A workspace was created at this path, which is also its session key.
    WorkspaceCreated(String),
    /// Guidance text for the intent.
    Guidance(String),
    /// The session document's turns were read.
    SessionLoaded(Vec<Turn>),
    /// The code generator was sent `prompt` and answered `response`.
    Generated { prompt: String, response: String },
    /// The simulator exited, successfully or not, with this output.
    Simulated { success: bool, stdout: String, stderr: String },
    /// The simulator's structured output file, read after a successful exit.
    Output(OutputFile),
}

/// What the machine asks the caller to do next.
pub enum Effect {
    /// Wait for a permit of the pipeline limiter.
    AcquirePermit,
    /// Create and register a fresh workspace directory whose name starts with
    /// `prefix`.
    CreateWorkspace { prefix: String },
    /// Copy the template project into the workspace.
    CopyTemplate,
    /// Ask for guidance on the protocols that the intent names.
    ClassifyIntent { intent: String },
    /// Ask the code generator for a script.
    Generate { intent: String, from_address: String, guidance: String },
    /// Find the workspace registered under `key`.
    LookupWorkspace { key: String },
    /// Read the session document of the workspace.
    LoadSession,
    /// Ask the code generator to repair the script, given this error and the
    /// conversation so far.
    RequestFix { error: String, history: Vec<Turn> },
    /// Write these turns as the session document.
    SaveSession { turns: Vec<Turn> },
    /// Install a component into the workspace.
    Install { component: String },
    /// Write the script source into the workspace.
    WriteScript { source: String },
    /// Run the simulator on the script against this node.
    Simulate { rpc_url: String },
    /// Read the simulator's structured output file.
    ReadOutput,
    /// Release the permit, if any, and close the stream.
    Finish(Verdict),
}

/// Records to send, in order, then an effect to perform.
pub struct Action {
    pub records: Vec<ForgeStep>,
    pub effect: Effect,
}

pub open spec fn is_error_record(r: ForgeStep) -> bool {
    r.title@ == "Error"@
}

pub open spec fn step_is(r: ForgeStep, title: Seq<char>, output: Seq<char>) -> bool {
    r.title@ == title && r.output@ == output
}

pub open spec fn turn_is(t: Turn, role: Seq<char>, content: Seq<char>) -> bool {
    t.role@ == role && t.content@ == content
}

pub open spec fn turn_views(v: Seq<Turn>) -> Seq<(Seq<char>, Seq<char>)> {
    v.map_values(|t: Turn| (t.role@, t.content@))
}

/// The record of a simulator's captured output.
pub open spec fn captured_output(stdout: Seq<char>, stderr: Seq<char>) -> Seq<char> {
    "STDOUT:\n"@ + stdout + "\n\nSTDERR:\n"@ + stderr
}

/// The diagnostic of a simulation that exited unsuccessfully.
pub open spec fn failure_output(stdout: Seq<char>, stderr: Seq<char>) -> Seq<char> {
    "Forge script failed:\n"@ + captured_output(stdout, stderr)
}

/// The name prefix of a session's workspace directory.
pub open spec fn workspace_prefix(session_id: Seq<char>) -> Seq<char> {
    "forge_"@ + session_id + "_"@
}

/// How many phases at most lie ahead of `p`; each step of a run moves to a
/// later phase, but for installs, which count down the components left.
pub open spec fn phase_rank(p: Phase) -> nat {
    match p {
        Phase::Start => 13,
        Phase::AwaitingPermit => 12,
        Phase::CreatingWorkspace => 11,
        Phase::Provisioning => 10,
        Phase::Guidance => 9,
        Phase::LookingUp => 8,
        Phase::LoadingSession => 7,
        Phase::Generating => 6,
        Phase::Persisting => 5,
        Phase::Installing => 4,
        Phase::Materializing => 3,
        Phase::Simulating => 2,
        Phase::ReadingOutput => 1,
        Phase::Done => 0,
    }
}

/// Where no record but the last reports an error, and the last one does
/// exactly when the run fails.
pub open spec fn records_fit(records: Seq<ForgeStep>, effect: Effect) -> bool {
    match effect {
        Effect::Finish(Verdict::Failed) => {
            &&& records.len() >= 1
            &&& is_error_record(records.last())
            &&& forall|i: int| 0 <= i < records.len() - 1 ==> !is_error_record(#[trigger] records[i])
        },
        Effect::Finish(Verdict::Success) => {
            &&& records.len() >= 1
            &&& records.last().title@ == "Simulating Transactions"@
            &&& forall|i: int| 0 <= i < records.len() ==> !is_error_record(#[trigger] records[i])
        },
        _ => forall|i: int| 0 <= i < records.len() ==> !is_error_record(#[trigger] records[i]),
    }
}

/// One run of the generate or the fix pipeline.
pub struct Pipeline {
    flow: Flow,
    phase: Phase,
    session_id: String,
    intent: String,
    from_address: String,
    rpc_url: String,
    error: String,
    workspace: String,
    history: Vec<Turn>,
    response: String,
    source: String,
    components: Vec<String>,
    next_component: usize,
    outcome: Option<Verdict>,
}

/// Relies on `uuid::Uuid::new_v4` and its hyphenated text form: a fresh
/// random identifier.
#[verifier::external_body]
fn new_session_id() -> (r: String)
    ensures
        r@.len() == 36,
{
    uuid::Uuid::new_v4().to_string()
}

fn cat(a: &str, b: &str) -> (r: String)
    ensures
        r@ == a@ + b@,
{
    let mut r = String::from_str(a);
    r.append(b);
    r
}

fn step(title: &str, output: &str) -> (r: ForgeStep)
    ensures
        r.title@ == title@,
        r.output@ == output@,
{
    ForgeStep::new(title, output)
}

proof fn lemma_titles_not_error()
    ensures
        "Session"@ != "Error"@,
        "Initializing Forge"@ != "Error"@,
        "Generating Code"@ != "Error"@,
        "Writing Code"@ != "Error"@,
        "Simulating Transactions"@ != "Error"@,
        "Installing Dependencies"@ != "Error"@,
        "Fixing"@ != "Error"@,
{
    reveal_strlit("Error");
    reveal_strlit("Session");
    reveal_strlit("Initializing Forge");
    reveal_strlit("Generating Code");
    reveal_strlit("Writing Code");
    reveal_strlit("Simulating Transactions");
    reveal_strlit("Installing Dependencies");
    reveal_strlit("Fixing");
    assert("Error"@[0] == 'E');
    assert("Session"@[0] != "Error"@[0]);
    assert("Initializing Forge"@[0] != "Error"@[0]);
    assert("Generating Code"@[0] != "Error"@[0]);
    assert("Writing Code"@[0] != "Error"@[0]);
    assert("Simulating Transactions"@[0] != "Error"@[0]);
    assert("Installing Dependencies"@[0] != "Error"@[0]);
    assert("Fixing"@[0] != "Error"@[0]);
}

/// Appends a record that does not report an error.
fn push_step(records: &mut Vec<ForgeStep>, title: &str, output: &str)
    requires
        title@ != "Error"@,
        forall|i: int| 0 <= i < old(records)@.len() ==> !is_error_record(#[trigger] old(records)@[i]),
    ensures
        final(records)@.len() == old(records)@.len() + 1,
        final(records)@.subrange(0, old(records)@.len() as int) == old(records)@,
        step_is(final(records)@.last(), title@, output@),
        forall|i: int| 0 <= i < final(records)@.len() ==> !is_error_record(#[trigger] final(records)@[i]),
{
    let ghost before = records@;
    records.push(step(title, output));
    assert(records@.subrange(0, before.len() as int) =~= before);
    assert forall|i: int| 0 <= i < records@.len() implies !is_error_record(#[trigger] records@[i]) by {
        if i < before.len() {
            assert(records@[i] == before[i]);
        }
    }
}

fn clone_turns(v: &Vec<Turn>) -> (r: Vec<Turn>)
    ensures
        turn_views(r@) == turn_views(v@),
{
    let mut r: Vec<Turn> = Vec::new();
    let mut k: usize = 0;
    while k < v.len()
        invariant
            k <= v@.len(),
            r@.len() == k,
            turn_views(r@) == turn_views(v@).take(k as int),
        decreases v.len() - k,
    {
        let t = Turn { role: v[k].role.clone(), content: v[k].content.clone() };
        let ghost before = r@;
        r.push(t);
        assert forall|i: int| 0 <= i <= k implies #[trigger] turn_views(r@)[i]
            == turn_views(v@).take(k as int + 1)[i] by {
            if i < k {
                assert(r@[i] == before[i]);
                assert(turn_views(before)[i] == turn_views(v@).take(k as int)[i]);
            }
        }
        assert(turn_views(r@) =~= turn_views(v@).take(k as int + 1));
        k = k + 1;
    }
    assert(turn_views(v@).take(k as int) =~= turn_views(v@));
    r
}

impl Pipeline {
    pub closed spec fn flow_spec(&self) -> Flow {
        self.flow
    }

    pub closed spec fn phase_spec(&self) -> Phase {
        self.phase
    }

    pub closed spec fn outcome_spec(&self) -> Option<Verdict> {
        self.outcome
    }

    pub closed spec fn session_id_spec(&self) -> Seq<char> {
        self.session_id@
    }

    pub closed spec fn rpc_url_spec(&self) -> Seq<char> {
        self.rpc_url@
    }

    pub closed spec fn workspace_spec(&self) -> Seq<char> {
        self.workspace@
    }

    /// The conversation so far, as (role, content) pairs.
    pub closed spec fn history_spec(&self) -> Seq<(Seq<char>, Seq<char>)> {
        turn_views(self.history@)
    }

    pub closed spec fn intent_spec(&self) -> Seq<char> {
        self.intent@
    }

    pub closed spec fn from_address_spec(&self) -> Seq<char> {
        self.from_address@
    }

    /// The program source taken from the last response.
    pub closed spec fn source_spec(&self) -> Seq<char> {
        self.source@
    }

    /// The components to install, and how many of them were asked for.
    pub closed spec fn components_spec(&self) -> Seq<Seq<char>> {
        self.components@.map_values(|c: String| c@)
    }

    pub closed spec fn next_component_spec(&self) -> nat {
        self.next_component as nat
    }

    /// The error text a fix run was asked to repair.
    pub closed spec fn error_spec(&self) -> Seq<char> {
        self.error@
    }

    /// The last response of the code generator.
    pub closed spec fn response_spec(&self) -> Seq<char> {
        self.response@
    }

    /// A run has an outcome exactly when it is done.
    pub closed spec fn wf(&self) -> bool {
        &&& (self.phase == Phase::Done) == (self.outcome is Some)
        &&& self.next_component <= self.components@.len()
    }

    pub open spec fn is_done(&self) -> bool {
        self.phase_spec() == Phase::Done
    }

    /// A generation run for `request`; `fresh_id` names the session when the
    /// request names none.
    pub fn generation(request: &ForgeRequest, fresh_id: String) -> (r: Pipeline)
        ensures
            r.wf(),
            r.flow_spec() == Flow::Generate,
            r.phase_spec() == Phase::Start,
            r.session_id_spec() == match request.session_id {
                Some(id) => id@,
                None => fresh_id@,
            },
            r.rpc_url_spec() == match request.rpc_url {
                Some(u) => u@,
                None => default_rpc_url(),
            },
            r.history_spec() == Seq::<(Seq<char>, Seq<char>)>::empty(),
            r.intent_spec() == request.intent@,
            r.from_address_spec() == request.from_address@,
            r.components_spec() == Seq::<Seq<char>>::empty(),
            r.next_component_spec() == 0,
    {
        let session_id = match &request.session_id {
            Some(id) => id.clone(),
            None => fresh_id,
        };
        let rpc_url = match &request.rpc_url {
            Some(u) => u.clone(),
            None => String::from_str("http://localhost:8545"),
        };
        let r = Pipeline {
            flow: Flow::Generate,
            phase: Phase::Start,
            session_id,
            intent: request.intent.clone(),
            from_address: request.from_address.clone(),
            rpc_url,
            error: String::new(),
            workspace: String::new(),
            history: Vec::new(),
            response: String::new(),
            source: String::new(),
            components: Vec::new(),
            next_component: 0,
            outcome: None,
        };
        assert(turn_views(r.history@) =~= Seq::<(Seq<char>, Seq<char>)>::empty());
        assert(r.components_spec() =~= Seq::<Seq<char>>::empty());
        r
    }

    /// A generation run for `request`, under a fresh random session id when
    /// the request names none.
    pub fn start_generation(request: &ForgeRequest) -> (r: Pipeline)
        ensures
            r.wf(),
            r.flow_spec() == Flow::Generate,
            r.phase_spec() == Phase::Start,
            request.session_id is Some ==> r.session_id_spec() == request.session_id->0@,
            request.session_id is None ==> r.session_id_spec().len() == 36,
            r.rpc_url_spec() == match request.rpc_url {
                Some(u) => u@,
                None => default_rpc_url(),
            },
            r.intent_spec() == request.intent@,
            r.from_address_spec() == request.from_address@,
            r.history_spec() == Seq::<(Seq<char>, Seq<char>)>::empty(),
    {
        let fresh = match &request.session_id {
            Some(_) => String::new(),
            None => new_session_id(),
        };
        Pipeline::generation(request, fresh)
    }

    /// A fix run for `request`.
    pub fn fix(request: &FixRequest) -> (r: Pipeline)
        ensures
            r.wf(),
            r.flow_spec() == Flow::Fix,
            r.phase_spec() == Phase::Start,
            r.workspace_spec() == request.temp_dir@,
            r.error_spec() == request.error@,
            r.components_spec() == Seq::<Seq<char>>::empty(),
            r.next_component_spec() == 0,
            r.history_spec() == Seq::<(Seq<char>, Seq<char>)>::empty(),
            r.rpc_url_spec() == match request.rpc_url {
                Some(u) => u@,
                None => default_rpc_url(),
            },
    {
        let rpc_url = match &request.rpc_url {
            Some(u) => u.clone(),
            None => String::from_str("http://localhost:8545"),
        };
        let r = Pipeline {
            flow: Flow::Fix,
            phase: Phase::Start,
            session_id: request.temp_dir.clone(),
            intent: String::new(),
            from_address: String::new(),
            rpc_url,
            error: request.error.clone(),
            workspace: request.temp_dir.clone(),
            history: Vec::new(),
            response: String::new(),
            source: String::new(),
            components: Vec::new(),
            next_component: 0,
            outcome: None,
        };
        assert(turn_views(r.history@) =~= Seq::<(Seq<char>, Seq<char>)>::empty());
        assert(r.components_spec() =~= Seq::<Seq<char>>::empty());
        r
    }

    pub fn phase(&self) -> (r: Phase)
        ensures
            r == self.phase_spec(),
    {
        self.phase
    }

    pub fn outcome(&self) -> (r: Option<Verdict>)
        ensures
            r == self.outcome_spec(),
    {
        self.outcome
    }

    /// The path and session key of the run's workspace, once known.
    pub fn workspace(&self) -> (r: &str)
        ensures
            r@ == self.workspace_spec(),
    {
        self.workspace.as_str()
    }

    /// Ends the run with an error record holding `message`.
    fn fail(&mut self, records: Vec<ForgeStep>, message: &str) -> (r: Action)
        requires
            forall|i: int| 0 <= i < records@.len() ==> !is_error_record(#[trigger] records@[i]),
            old(self).next_component <= old(self).components@.len(),
        ensures
            final(self).wf(),
            final(self).phase == Phase::Done,
            final(self).outcome == Some(Verdict::Failed),
            r.effect == Effect::Finish(Verdict::Failed),
            r.records@.len() == records@.len() + 1,
            r.records@.subrange(0, records@.len() as int) == records@,
            step_is(r.records@.last(), "Error"@, message@),
            keeps_request(*old(self), *final(self)),
            final(self).workspace == old(self).workspace,
            final(self).components == old(self).components,
            final(self).next_component == old(self).next_component,
            final(self).history == old(self).history,
            records_fit(r.records@, r.effect),
            final(self).flow == old(self).flow,
    {
        let mut records = records;
        let ghost before = records@;
        let e = step("Error", message);
        proof {
            reveal_strlit("Error");
        }
        records.push(e);
        assert(records@.subrange(0, before.len() as int) =~= before);
        self.phase = Phase::Done;
        self.outcome = Some(Verdict::Failed);
        Action { records, effect: Effect::Finish(Verdict::Failed) }
    }
}

/// The request a run serves is the same in `after` as in `before`.
pub open spec fn keeps_request(before: Pipeline, after: Pipeline) -> bool {
    &&& after.flow_spec() == before.flow_spec()
    &&& after.intent_spec() == before.intent_spec()
    &&& after.from_address_spec() == before.from_address_spec()
    &&& after.rpc_url_spec() == before.rpc_url_spec()
    &&& after.session_id_spec() == before.session_id_spec()
    &&& after.error_spec() == before.error_spec()
}

/// The phase a run moves to when `ev` arrives in phase `p` and is what that
/// phase waits for; any other event ends the run.
pub open spec fn expected_next_phase(before: Pipeline, ev: Event) -> Option<Phase> {
    match (before.phase_spec(), ev) {
        (Phase::Start, Event::Started) => Some(if before.flow_spec() == Flow::Generate {
            Phase::AwaitingPermit
        } else {
            Phase::LookingUp
        }),
        (Phase::AwaitingPermit, Event::Completed) => Some(Phase::CreatingWorkspace),
        (Phase::CreatingWorkspace, Event::WorkspaceCreated(_)) => Some(Phase::Provisioning),
        (Phase::Provisioning, Event::Completed) => Some(Phase::Guidance),
        (Phase::Guidance, Event::Guidance(_)) => Some(Phase::Generating),
        (Phase::LookingUp, Event::Completed) => Some(Phase::LoadingSession),
        (Phase::LoadingSession, Event::SessionLoaded(_)) => Some(Phase::Generating),
        (Phase::Generating, Event::Generated { .. }) => Some(Phase::Persisting),
        (Phase::Persisting, Event::Completed) => match source_of(before.response_spec()) {
            Ok(_) => Some(if install_components_of(before.response_spec()).len() > 0 {
                Phase::Installing
            } else {
                Phase::Materializing
            }),
            Err(_) => Some(Phase::Done),
        },
        (Phase::Installing, Event::Completed) => Some(
            if before.next_component_spec() < before.components_spec().len() {
                Phase::Installing
            } else {
                Phase::Materializing
            },
        ),
        (Phase::Installing, Event::Failed(_)) => Some(
            if before.next_component_spec() < before.components_spec().len() {
                Phase::Installing
            } else {
                Phase::Materializing
            },
        ),
        (Phase::Materializing, Event::Completed) => Some(Phase::Simulating),
        (Phase::Simulating, Event::Simulated { success, .. }) => Some(if success {
            Phase::ReadingOutput
        } else {
            Phase::Done
        }),
        (Phase::Done, _) => Some(Phase::Done),
        _ => None,
    }
}

/// What one step of a run does: the state `before` takes event `ev`, ends
/// as `after`, and hands out action `r`.
pub open spec fn step_post(before: Pipeline, ev: Event, after: Pipeline, r: Action) -> bool {
    &&& (before.phase_spec() != Phase::LoadingSession && before.phase_spec() != Phase::Generating
        ==> after.history_spec() == before.history_spec())
    &&& (before.phase_spec() == Phase::LookingUp && ev is Completed ==> r.effect is LoadSession
        && r.records@.len() == 0)
    &&& after.next_component_spec() <= after.components_spec().len()
    &&& (before.phase_spec() != Phase::Persisting ==> after.components_spec()
        == before.components_spec())
    &&& keeps_request(before, after)
    &&& (before.phase_spec() != Phase::CreatingWorkspace ==> after.workspace_spec()
        == before.workspace_spec())
    &&& (after.phase_spec() == match expected_next_phase(before, ev) {
        Some(p) => p,
        None => Phase::Done,
    })
    &&& (before.phase_spec() == Phase::Persisting && ev is Completed && source_of(
        before.response_spec(),
    ) is Err ==> r.records@.len() == 1)
    &&& (after.wf())
    &&& (after.flow_spec() == before.flow_spec())
    &&& (!before.is_done() ==> records_fit(r.records@, r.effect))
    &&& (after.is_done() <==> r.effect is Finish)
    &&& (match r.effect {
            Effect::Finish(v) => after.outcome_spec() == Some(v),
            _ => after.outcome_spec() is None,
})
    &&& (before.is_done() ==> after == before && r.records@.len() == 0)
    &&& (!before.is_done() ==> phase_rank(after.phase_spec()) < phase_rank(
            before.phase_spec(),
) || (after.phase_spec() == Phase::Installing && before.phase_spec()
            == Phase::Installing && after.components_spec() == before.components_spec()
            && before.next_component_spec() < after.next_component_spec()
            <= after.components_spec().len()))
    &&& (before.phase_spec() == Phase::Start && before.flow_spec() == Flow::Generate
            && ev is Started ==> r.effect is AcquirePermit && r.records@.len() == 0)
    &&& (before.phase_spec() == Phase::Start && before.flow_spec() == Flow::Fix
            && ev is Started ==> r.records@.len() == 0 && match r.effect {
            Effect::LookupWorkspace { key } => key@ == before.workspace_spec(),
            _ => false,
})
    &&& (before.phase_spec() == Phase::AwaitingPermit && ev is Completed ==> r.records@.len()
            == 0 && match r.effect {
            Effect::CreateWorkspace { prefix } => prefix@ == workspace_prefix(
                before.session_id_spec(),
            ),
            _ => false,
})
    &&& (before.phase_spec() == Phase::CreatingWorkspace ==> match ev {
            Event::WorkspaceCreated(path) => {
                &&& r.records@.len() == 2
                &&& step_is(r.records@[0], "Session"@, path@)
                &&& step_is(r.records@[1], "Initializing Forge"@, path@)
                &&& after.workspace_spec() == path@
                &&& r.effect is CopyTemplate
            },
            Event::Failed(e) => r.effect == Effect::Finish(Verdict::Failed) && r.records@.len()
                == 1 && step_is(
                r.records@[0],
                "Error"@,
                "Failed to create temp directory: "@ + e@,
            ),
            _ => r.effect == Effect::Finish(Verdict::Failed),
})
    &&& (before.phase_spec() == Phase::LookingUp && ev is Failed ==> r.effect == Effect::Finish(
            Verdict::Failed,
) && r.records@.len() == 1 && step_is(r.records@[0], "Error"@, "Session directory not found"@))
    &&& (before.phase_spec() == Phase::LoadingSession ==> match ev {
            Event::SessionLoaded(turns) => {
                &&& after.history_spec() == turn_views(turns@)
                &&& match r.effect {
                    Effect::RequestFix { error, history } => error@ == before.error_spec()
                        && turn_views(history@) == turn_views(turns@),
                    _ => false,
                }
            },
            _ => r.effect == Effect::Finish(Verdict::Failed),
})
    &&& (before.phase_spec() == Phase::Generating ==> match ev {
            Event::Generated { prompt, response } => {
                &&& after.history_spec() == before.history_spec() + seq![
                    ("user"@, prompt@),
                    ("assistant"@, response@),
                ]
                &&& after.response_spec() == response@
                &&& match r.effect {
                    Effect::SaveSession { turns } => turn_views(turns@) == after.history_spec(),
                    _ => false,
                }
            },
            _ => r.effect == Effect::Finish(Verdict::Failed),
})
    &&& (before.phase_spec() == Phase::Persisting && ev is Completed ==> match source_of(
            before.response_spec(),
) {
            Err(e) => r.effect == Effect::Finish(Verdict::Failed) && r.records@.last().output@
                == e.message_spec(),
            Ok(src) => if install_components_of(before.response_spec()).len() > 0 {
                match r.effect {
                    Effect::Install { component } => component@ == install_components_of(
                        before.response_spec(),
                    )[0],
                    _ => false,
                }
            } else {
                match r.effect {
                    Effect::WriteScript { source } => source@ == src,
                    _ => false,
                }
            },
})
    &&& (before.phase_spec() == Phase::Provisioning && ev is Completed ==> r.records@.len() == 0
            && match r.effect {
            Effect::ClassifyIntent { intent } => intent@ == before.intent_spec(),
            _ => false,
})
    &&& (before.phase_spec() == Phase::Guidance ==> match ev {
            Event::Guidance(g) => r.records@.len() == 0 && match r.effect {
                Effect::Generate { intent, from_address, guidance } => intent@
                    == before.intent_spec() && from_address@ == before.from_address_spec()
                    && guidance@ == g@,
                _ => false,
            },
            _ => r.effect == Effect::Finish(Verdict::Failed),
})
    &&& ((before.phase_spec() == Phase::Provisioning || before.phase_spec() == Phase::Guidance
            || before.phase_spec() == Phase::LoadingSession || before.phase_spec()
            == Phase::Generating || before.phase_spec() == Phase::Persisting
            || before.phase_spec() == Phase::Materializing || before.phase_spec()
            == Phase::Simulating) ==> match ev {
            Event::Failed(e) => r.effect == Effect::Finish(Verdict::Failed) && r.records@.len()
                == 1 && step_is(r.records@[0], "Error"@, e@),
            _ => true,
})
    &&& (before.phase_spec() == Phase::Persisting && ev is Completed && source_of(
            before.response_spec(),
) is Ok ==> after.components_spec() == install_components_of(
            before.response_spec(),
) && after.source_spec() == source_of(before.response_spec())->Ok_0)
    &&& (before.phase_spec() == Phase::Installing && (ev is Completed || ev is Failed) ==> {
            &&& !(r.effect is Finish)
            &&& ev is Failed ==> r.records@[0].title@ == "Installing Dependencies"@
            &&& before.next_component_spec() < before.components_spec().len() ==> match r.effect {
                Effect::Install { component } => component@ == before.components_spec()[before.next_component_spec() as int],
                _ => false,
            }
            &&& before.next_component_spec() == before.components_spec().len() ==> match r.effect {
                Effect::WriteScript { source } => source@ == before.source_spec(),
                _ => false,
            }
        })
    &&& (before.phase_spec() == Phase::Materializing && ev is Completed ==> match r.effect {
            Effect::Simulate { rpc_url } => rpc_url@ == before.rpc_url_spec(),
            _ => false,
})
    &&& (before.phase_spec() == Phase::Simulating ==> match ev {
            Event::Simulated { success, stdout, stderr } => {
                &&& step_is(
                    r.records@[0],
                    "Simulating Transactions"@,
                    captured_output(stdout@, stderr@),
                )
                &&& success ==> r.records@.len() == 1 && r.effect is ReadOutput
                &&& !success ==> r.records@.len() == 2 && r.effect == Effect::Finish(
                    Verdict::Failed,
                ) && r.records@[1].output@ == failure_output(stdout@, stderr@)
            },
            _ => r.effect == Effect::Finish(Verdict::Failed),
})
    &&& (before.phase_spec() == Phase::ReadingOutput ==> match ev {
            Event::Output(OutputFile::Missing) => {
                &&& r.effect == Effect::Finish(Verdict::Success)
                &&& r.records@.len() == 1
                &&& step_is(
                    r.records@[0],
                    "Simulating Transactions"@,
                    details_json(Seq::<TransactionDetails>::empty()),
                )
            },
            Event::Output(OutputFile::Parsed(o)) => {
                &&& r.effect == Effect::Finish(Verdict::Success)
                &&& r.records@.len() == 1
                &&& exists|ds: Seq<TransactionDetails>| {
                    &&& ds.len() == o.transactions@.len()
                    &&& forall|i: int| 0 <= i < ds.len() ==> #[trigger] o.transactions@[i].reported_by(ds[i])
                    &&& step_is(r.records@[0], "Simulating Transactions"@, details_json(ds))
                }
            },
            Event::Output(OutputFile::Unreadable(_)) => {
                &&& r.effect == Effect::Finish(Verdict::Failed)
                &&& r.records@.len() == 1
                &&& step_is(r.records@[0], "Error"@, "Failed to read Forge output"@)
            },
            Event::Output(OutputFile::Malformed(_)) => {
                &&& r.effect == Effect::Finish(Verdict::Failed)
                &&& r.records@.len() == 1
                &&& step_is(r.records@[0], "Error"@, "Failed to parse Forge output"@)
            },
            _ => r.effect == Effect::Finish(Verdict::Failed),
})
}

impl Pipeline {
    /// Moves to `phase`, handing out `records` and asking for `effect`.
    fn proceed(&mut self, records: Vec<ForgeStep>, effect: Effect, phase: Phase) -> (r: Action)
        requires
            forall|i: int| 0 <= i < records@.len() ==> !is_error_record(#[trigger] records@[i]),
            !(effect is Finish),
            phase != Phase::Done,
            old(self).next_component <= old(self).components@.len(),
        ensures
            final(self).wf(),
            final(self).phase == phase,
            final(self).outcome is None,
            final(self).flow == old(self).flow,
            keeps_request(*old(self), *final(self)),
            final(self).workspace == old(self).workspace,
            final(self).components == old(self).components,
            final(self).next_component == old(self).next_component,
            final(self).history == old(self).history,
            final(self).history == old(self).history,
            final(self).response == old(self).response,
            final(self).components == old(self).components,
            final(self).next_component == old(self).next_component,
            final(self).history == old(self).history,
            final(self).source == old(self).source,
            r.records@ == records@,
            r.effect == effect,
            records_fit(r.records@, r.effect),
    {
        self.phase = phase;
        self.outcome = None;
        Action { records, effect }
    }

    /// Ends the run successfully with a record of the transactions.
    fn succeed(&mut self, transactions_json: String) -> (r: Action)
        requires
            old(self).next_component <= old(self).components@.len(),
        ensures
            final(self).wf(),
            final(self).phase == Phase::Done,
            final(self).outcome == Some(Verdict::Success),
            final(self).flow == old(self).flow,
            keeps_request(*old(self), *final(self)),
            final(self).workspace == old(self).workspace,
            final(self).components == old(self).components,
            final(self).next_component == old(self).next_component,
            final(self).history == old(self).history,
            r.effect == Effect::Finish(Verdict::Success),
            r.records@.len() == 1,
            step_is(r.records@[0], "Simulating Transactions"@, transactions_json@),
            records_fit(r.records@, r.effect),
    {
        proof {
            lemma_titles_not_error();
        }
        let mut records: Vec<ForgeStep> = Vec::new();
        push_step(&mut records, "Simulating Transactions", transactions_json.as_str());
        self.phase = Phase::Done;
        self.outcome = Some(Verdict::Success);
        Action { records, effect: Effect::Finish(Verdict::Success) }
    }

    /// After the source is known: install the next component, if any is
    /// left, else write the script.
    fn next_install_or_write(&mut self, records: Vec<ForgeStep>) -> (r: Action)
        requires
            forall|i: int| 0 <= i < records@.len() ==> !is_error_record(#[trigger] records@[i]),
            old(self).next_component <= old(self).components@.len(),
        ensures
            final(self).wf(),
            final(self).outcome is None,
            final(self).flow == old(self).flow,
            final(self).workspace == old(self).workspace,
            final(self).history == old(self).history,
            final(self).components == old(self).components,
            final(self).source == old(self).source,
            final(self).response == old(self).response,
            keeps_request(*old(self), *final(self)),
            !(r.effect is Finish),
            (final(self).phase == Phase::Materializing) == (old(self).next_component
                == old(self).components@.len()),
            final(self).phase == Phase::Materializing || (final(self).phase == Phase::Installing
                && old(self).next_component < old(self).components@.len()
                && final(self).next_component == old(self).next_component + 1),
            records_fit(r.records@, r.effect),
            r.records@.len() > records@.len(),
            r.records@.subrange(0, records@.len() as int) == records@,
            old(self).next_component < old(self).components@.len() ==> match r.effect {
                Effect::Install { component } => component@ == old(self).components_spec()[old(self).next_component as int],
                _ => false,
            },
            old(self).next_component == old(self).components@.len() ==> match r.effect {
                Effect::WriteScript { source } => source@ == old(self).source@,
                _ => false,
            },
    {
        proof {
            lemma_titles_not_error();
        }
        let mut records = records;
        let ghost before = records@;
        if self.next_component < self.components.len() {
            let c = self.components[self.next_component].clone();
            assert(self.components_spec()[self.next_component as int] == self.components@[self.next_component as int]@);
            let mut line = cat("Installing ", c.as_str());
            line.append("\n");
            push_step(&mut records, "Installing Dependencies", line.as_str());
            self.next_component = self.next_component + 1;
            assert(records@.subrange(0, before.len() as int) =~= before);
            self.proceed(records, Effect::Install { component: c }, Phase::Installing)
        } else {
            push_step(&mut records, "Writing Code", "Writing code...\n");
            assert(records@.subrange(0, before.len() as int) =~= before);
            let source = self.source.clone();
            self.proceed(records, Effect::WriteScript { source }, Phase::Materializing)
        }
    }

    /// Takes what the caller observed after the last effect and decides the
    /// records to send and the next effect. A run that is done stays done.
    pub fn advance(&mut self, ev: Event) -> (r: Action)
        requires
            old(self).wf(),
        ensures
            final(self).wf(),
            step_post(*old(self), ev, *final(self), r),

    {
        proof {
            lemma_titles_not_error();
        }
        let none: Vec<ForgeStep> = Vec::new();
        let r = match self.phase {
            Phase::Done => {
                let v = match self.outcome {
                    Some(v) => v,
                    None => Verdict::Failed,
                };
                Action { records: none, effect: Effect::Finish(v) }
            },
            Phase::Start => match ev {
                Event::Started => match self.flow {
                    Flow::Generate => self.proceed(none, Effect::AcquirePermit, Phase::AwaitingPermit),
                    Flow::Fix => {
                        let key = self.workspace.clone();
                        self.proceed(none, Effect::LookupWorkspace { key }, Phase::LookingUp)
                    },
                },
                _ => self.fail(none, "Unexpected step result"),
            },
            Phase::AwaitingPermit => match ev {
                Event::Completed => {
                    let mut prefix = cat("forge_", self.session_id.as_str());
                    prefix.append("_");
                    self.proceed(none, Effect::CreateWorkspace { prefix }, Phase::CreatingWorkspace)
                },
                _ => self.fail(none, "Unexpected step result"),
            },
            Phase::CreatingWorkspace => match ev {
                Event::WorkspaceCreated(path) => {
                    let mut records = none;
                    push_step(&mut records, "Session", path.as_str());
                    push_step(&mut records, "Initializing Forge", path.as_str());
                    self.workspace = path;
                    self.proceed(records, Effect::CopyTemplate, Phase::Provisioning)
                },
                Event::Failed(e) => {
                    let m = cat("Failed to create temp directory: ", e.as_str());
                    self.fail(none, m.as_str())
                },
                _ => self.fail(none, "Unexpected step result"),
            },
            Phase::Provisioning => match ev {
                Event::Completed => {
                    let intent = self.intent.clone();
                    self.proceed(none, Effect::ClassifyIntent { intent }, Phase::Guidance)
                },
                Event::Failed(e) => self.fail(none, e.as_str()),
                _ => self.fail(none, "Unexpected step result"),
            },
            Phase::Guidance => match ev {
                Event::Guidance(guidance) => {
                    let intent = self.intent.clone();
                    let from_address = self.from_address.clone();
                    self.proceed(
                        none,
                        Effect::Generate { intent, from_address, guidance },
                        Phase::Generating,
                    )
                },
                Event::Failed(e) => self.fail(none, e.as_str()),
                _ => self.fail(none, "Unexpected step result"),
            },
            Phase::LookingUp => match ev {
                Event::Completed => self.proceed(none, Effect::LoadSession, Phase::LoadingSession),
                Event::Failed(_) => self.fail(none, "Session directory not found"),
                _ => self.fail(none, "Unexpected step result"),
            },
            Phase::LoadingSession => match ev {
                Event::SessionLoaded(turns) => {
                    self.history = turns;
                    let mut records = none;
                    push_step(&mut records, "Fixing", "Requesting a corrected script...\n");
                    let error = self.error.clone();
                    let history = clone_turns(&self.history);
                    self.proceed(records, Effect::RequestFix { error, history }, Phase::Generating)
                },
                Event::Failed(e) => self.fail(none, e.as_str()),
                _ => self.fail(none, "Unexpected step result"),
            },
            Phase::Generating => match ev {
                Event::Generated { prompt, response } => {
                    let ghost before = turn_views(self.history@);
                    let ghost pv = prompt@;
                    let ghost rv = response@;
                    self.history.push(Turn { role: String::from_str("user"), content: prompt });
                    self.history.push(
                        Turn { role: String::from_str("assistant"), content: response.clone() },
                    );
                    assert(turn_views(self.history@) =~= before + seq![
                        ("user"@, pv),
                        ("assistant"@, rv),
                    ]);
                    self.response = response;
                    let mut records = none;
                    push_step(&mut records, "Generating Code", "Saving session...\n");
                    let turns = clone_turns(&self.history);
                    self.proceed(records, Effect::SaveSession { turns }, Phase::Persisting)
                },
                Event::Failed(e) => self.fail(none, e.as_str()),
                _ => self.fail(none, "Unexpected step result"),
            },
            Phase::Persisting => match ev {
                Event::Completed => match extract_source(self.response.as_str()) {
                    Err(e) => {
                        let m = e.message();
                        self.fail(none, m.as_str())
                    },
                    Ok(source) => {
                        self.source = source;
                        self.components = install_components(self.response.as_str());
                        self.next_component = 0;
                        assert(self.components_spec().len() == self.components@.len());
                        proof {
                            if self.components@.len() > 0 {
                                assert(self.components@.map_values(|x: String| x@)[0]
                                    == self.components@[0]@);
                            }
                        }
                        self.next_install_or_write(none)
                    },
                },
                Event::Failed(e) => self.fail(none, e.as_str()),
                _ => self.fail(none, "Unexpected step result"),
            },
            Phase::Installing => match ev {
                Event::Completed => {
                    assert(self.components_spec().len() == self.components@.len());
                    self.next_install_or_write(none)
                },
                Event::Failed(e) => {
                    let mut line = String::from_str("Failed to install: ");
                    line.append(e.as_str());
                    line.append("\n");
                    let mut records = none;
                    push_step(&mut records, "Installing Dependencies", line.as_str());
                    assert(self.components_spec().len() == self.components@.len());
                    let a = self.next_install_or_write(records);
                    assert(a.records@[0] == a.records@.subrange(0, 1)[0]);
                    a
                },
                _ => self.fail(none, "Unexpected step result"),
            },
            Phase::Materializing => match ev {
                Event::Completed => {
                    let mut records = none;
                    push_step(&mut records, "Simulating Transactions", "Compiling script...\n");
                    let rpc_url = self.rpc_url.clone();
                    self.proceed(records, Effect::Simulate { rpc_url }, Phase::Simulating)
                },
                Event::Failed(e) => self.fail(none, e.as_str()),
                _ => self.fail(none, "Unexpected step result"),
            },
            Phase::Simulating => match ev {
                Event::Simulated { success, stdout, stderr } => {
                    let mut captured = cat("STDOUT:\n", stdout.as_str());
                    captured.append("\n\nSTDERR:\n");
                    captured.append(stderr.as_str());
                    let mut records = none;
                    push_step(&mut records, "Simulating Transactions", captured.as_str());
                    if success {
                        self.proceed(records, Effect::ReadOutput, Phase::ReadingOutput)
                    } else {
                        let m = cat("Forge script failed:\n", captured.as_str());
                        self.fail(records, m.as_str())
                    }
                },
                Event::Failed(e) => self.fail(none, e.as_str()),
                _ => self.fail(none, "Unexpected step result"),
            },
            Phase::ReadingOutput => match ev {
                Event::Output(OutputFile::Missing) => {
                    let empty: Vec<TransactionDetails> = Vec::new();
                    self.succeed(transactions_json(&empty))
                },
                Event::Output(OutputFile::Parsed(o)) => {
                    let ds = o.transaction_details();
                    self.succeed(transactions_json(&ds))
                },
                Event::Output(OutputFile::Unreadable(_)) => self.fail(none, "Failed to read Forge output"),
                Event::Output(OutputFile::Malformed(_)) => self.fail(none, "Failed to parse Forge output"),
                _ => self.fail(none, "Unexpected step result"),
            },
        };
        proof {
            assert(self.components_spec().len() == self.components@.len());
        }
        r
    }
}

impl Pipeline {
    /// Feeds a run the events in order, stopping once it finishes, and
    /// returns the actions it took. Only the last action can finish the run,
    /// so a run reports one verdict, success or failure, never both, and its
    /// stream is closed exactly once.
    pub fn run_events(&mut self, events: Vec<Event>) -> (r: Vec<Action>)
        requires
            old(self).wf(),
            !old(self).is_done(),
        ensures
            final(self).wf(),
            r@.len() <= events@.len(),
            forall|i: int| 0 <= i < r@.len() ==> records_fit(#[trigger] r@[i].records@, r@[i].effect),
            forall|i: int| 0 <= i < r@.len() - 1 ==> !(#[trigger] r@[i].effect is Finish),
            final(self).is_done() <==> (r@.len() > 0 && r@.last().effect is Finish),
            final(self).is_done() ==> match r@.last().effect {
                Effect::Finish(v) => final(self).outcome_spec() == Some(v),
                _ => false,
            },
            !final(self).is_done() ==> r@.len() == events@.len(),
            exists|states: Seq<Pipeline>| {
                &&& states.len() == r@.len() + 1
                &&& states[0] == *old(self)
                &&& states.last() == *final(self)
                &&& forall|i: int| 0 <= i < r@.len() ==> #[trigger] step_post(states[i], events@[i], states[i + 1], r@[i])
            },
    {
        let mut events = events;
        let ghost n = events@.len();
        let ghost evs = events@;
        let ghost start = *self;
        let ghost mut states: Seq<Pipeline> = seq![*self];
        let mut out: Vec<Action> = Vec::new();
        while events.len() > 0 && !(self.phase == Phase::Done)
            invariant
                self.wf(),
                out@.len() + events@.len() == n,
                evs.len() == n,
                events@ == evs.subrange(out@.len() as int, n as int),
                states.len() == out@.len() + 1,
                states[0] == start,
                states.last() == *self,
                forall|i: int| 0 <= i < out@.len() ==> #[trigger] step_post(states[i], evs[i], states[i + 1], out@[i]),
                forall|i: int| 0 <= i < out@.len() ==> records_fit(#[trigger] out@[i].records@, out@[i].effect),
                forall|i: int| 0 <= i < out@.len() - 1 ==> !(#[trigger] out@[i].effect is Finish),
                self.is_done() <==> (out@.len() > 0 && out@.last().effect is Finish),
                self.is_done() ==> match out@.last().effect {
                    Effect::Finish(v) => self.outcome_spec() == Some(v),
                    _ => false,
                },
            decreases events@.len(),
        {
            let ghost k = out@.len();
            let ev = events.remove(0);
            assert(ev == evs[k as int]);
            let a = self.advance(ev);
            proof {
                states = states.push(*self);
            }
            out.push(a);
            assert(events@ =~= evs.subrange(out@.len() as int, n as int));
        }
        assert(states[0] == *old(self));
        out
    }
}

/// A bound on the steps a run can still take when no run step lists more
/// than `c` components: each step lowers it.
pub open spec fn steps_left(s: Pipeline, c: nat) -> int {
    let rank = phase_rank(s.phase_spec()) as int;
    if rank >= 5 {
        rank + c + 1
    } else if s.phase_spec() == Phase::Installing {
        rank + s.components_spec().len() - s.next_component_spec()
    } else {
        rank
    }
}

/// A run always reaches its verdict. When no state of the run lists more
/// than `c` components to install, at most `c + 14` steps come before the
/// run is done, for any sequence of events.
pub proof fn lemma_run_ends(states: Seq<Pipeline>, events: Seq<Event>, actions: Seq<Action>, c: nat)
    requires
        states.len() == actions.len() + 1,
        events.len() >= actions.len(),
        forall|i: int| 0 <= i < actions.len() ==> #[trigger] step_post(states[i], events[i], states[i + 1], actions[i]),
        forall|i: int| 0 <= i < actions.len() ==> !(#[trigger] states[i]).is_done(),
        forall|i: int| 0 <= i < states.len() ==> (#[trigger] states[i]).components_spec().len() <= c,
        states[0].next_component_spec() <= states[0].components_spec().len(),
    ensures
        actions.len() + steps_left(states.last(), c) <= steps_left(states[0], c),
        actions.len() <= c + 14,
    decreases actions.len(),
{
    if actions.len() > 0 {
        let n = actions.len() - 1;
        let s2 = states.subrange(0, n + 1);
        let a2 = actions.subrange(0, n as int);
        assert forall|i: int| 0 <= i < a2.len() implies #[trigger] step_post(s2[i], events[i], s2[i + 1], a2[i]) by {
            assert(step_post(states[i], events[i], states[i + 1], actions[i]));
        }
        assert forall|i: int| 0 <= i < a2.len() implies !(#[trigger] s2[i]).is_done() by {
            assert(!states[i].is_done());
        }
        assert forall|i: int| 0 <= i < s2.len() implies (#[trigger] s2[i]).components_spec().len() <= c by {
            assert(states[i].components_spec().len() <= c);
        }
        lemma_run_ends(s2, events, a2, c);
        assert(s2.last() == states[n]);
        if n > 0 {
            let k = n - 1;
            assert(step_post(states[k], events[k], states[k + 1], actions[k]));
            assert(k + 1 == n);
        }
        lemma_step_lowers(states[n], events[n], states[n + 1], actions[n], c);
        assert(states[n].components_spec().len() <= c);
        assert(states[n + 1].components_spec().len() <= c);
        assert(step_post(states[n], events[n], states[n + 1], actions[n]));
        lemma_steps_left_nonneg(states[n + 1], c);
        assert(states.last() == states[n + 1]);
    } else {
        lemma_steps_left_nonneg(states[0], c);
    }
    lemma_steps_left_nonneg(states.last(), c);
    lemma_steps_left_bounded(states[0], c);
}

proof fn lemma_steps_left_nonneg(s: Pipeline, c: nat)
    requires
        s.next_component_spec() <= s.components_spec().len(),
    ensures
        steps_left(s, c) >= 0,
{
}

proof fn lemma_steps_left_bounded(s: Pipeline, c: nat)
    requires
        s.components_spec().len() <= c,
    ensures
        steps_left(s, c) <= c + 14,
{
}

proof fn lemma_step_lowers(before: Pipeline, ev: Event, after: Pipeline, r: Action, c: nat)
    requires
        step_post(before, ev, after, r),
        !before.is_done(),
        before.components_spec().len() <= c,
        after.components_spec().len() <= c,
        before.phase_spec() == Phase::Installing ==> before.next_component_spec() <= before.components_spec().len(),
    ensures
        steps_left(after, c) < steps_left(before, c),
{
}

/// States `states` linked by the steps `actions` taking `events`.
pub open spec fn is_run(states: Seq<Pipeline>, events: Seq<Event>, actions: Seq<Action>) -> bool {
    &&& states.len() == actions.len() + 1
    &&& events.len() >= actions.len()
    &&& forall|i: int| 0 <= i < actions.len() ==> #[trigger] step_post(states[i], events[i], states[i + 1], actions[i])
}

/// The first record a generation run sends names its session, the path of
/// its workspace, and comes only after the run was granted a permit; unless
/// the run ended before it got that far.
pub proof fn lemma_session_record_first(states: Seq<Pipeline>, events: Seq<Event>, actions: Seq<Action>, i: int)
    requires
        is_run(states, events, actions),
        states[0].phase_spec() == Phase::Start,
        states[0].flow_spec() == Flow::Generate,
        0 <= i < actions.len(),
        forall|j: int| 0 <= j < i ==> (#[trigger] actions[j]).records@.len() == 0,
        actions[i].records@.len() > 0,
    ensures
        actions[i].effect is Finish || {
            &&& i == 2
            &&& actions[0].effect is AcquirePermit
            &&& events[1] is Completed
            &&& step_is(actions[i].records@[0], "Session"@, states[i + 1].workspace_spec())
        },
{
    let z: int = 0;
    assert(step_post(states[z], events[z], states[z + 1], actions[z]));
    if i >= 1 {
        assert(actions[0].records@.len() == 0);
        let one: int = 1;
        assert(step_post(states[one], events[one], states[one + 1], actions[one]));
        if i >= 2 {
            assert(actions[1].records@.len() == 0);
            let two: int = 2;
            assert(step_post(states[two], events[two], states[two + 1], actions[two]));
            if i >= 3 {
                assert(actions[2].records@.len() == 0);
            }
        }
    }
}

/// Once a run is past creating its workspace, its session key stays what
/// it was for the rest of the run.
pub proof fn lemma_workspace_kept(states: Seq<Pipeline>, events: Seq<Event>, actions: Seq<Action>, k: int, m: int)
    requires
        is_run(states, events, actions),
        0 <= k <= m < states.len(),
        phase_rank(states[k].phase_spec()) < phase_rank(Phase::CreatingWorkspace),
    ensures
        states[m].workspace_spec() == states[k].workspace_spec(),
        phase_rank(states[m].phase_spec()) <= phase_rank(states[k].phase_spec()),
    decreases m - k,
{
    if m > k {
        lemma_workspace_kept(states, events, actions, k, m - 1);
        let j = m - 1;
        assert(step_post(states[j], events[j], states[j + 1], actions[j]));
    }
}

/// A fix run saves a session document that holds every turn it loaded, in
/// order, then the new prompt and the corrected reply: strictly more turns
/// than before.
pub proof fn lemma_fix_saves_longer_session(states: Seq<Pipeline>, events: Seq<Event>, actions: Seq<Action>, i: int)
    requires
        is_run(states, events, actions),
        states[0].phase_spec() == Phase::Start,
        states[0].flow_spec() == Flow::Fix,
        0 <= i < actions.len(),
        actions[i].effect is SaveSession,
        forall|j: int| 0 <= j < i ==> !((#[trigger] actions[j]).effect is SaveSession),
        forall|j: int| 0 <= j < i ==> !((#[trigger] actions[j]).effect is Finish),
    ensures
        i == 3,
        events[2] is SessionLoaded,
        events[3] is Generated,
        turn_views(actions[i].effect->SaveSession_turns@) == turn_views(events[2]->SessionLoaded_0@)
            + seq![("user"@, events[3]->Generated_prompt@), ("assistant"@, events[3]->Generated_response@)],
        turn_views(actions[i].effect->SaveSession_turns@).len() > turn_views(events[2]->SessionLoaded_0@).len(),
{
    let z: int = 0;
    assert(step_post(states[z], events[z], states[z + 1], actions[z]));
    if i >= 1 {
        let one: int = 1;
        assert(step_post(states[one], events[one], states[one + 1], actions[one]));
        if i >= 2 {
            let two: int = 2;
            assert(step_post(states[two], events[two], states[two + 1], actions[two]));
            if i >= 3 {
                let three: int = 3;
                assert(step_post(states[three], events[three], states[three + 1], actions[three]));
                if i >= 4 {
                    assert(!(actions[three].effect is SaveSession));
                }
            }
        }
    }
}

} // verus!
