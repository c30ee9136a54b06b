//! Composition runner: the commands issued to the composition tool and the
//! reading of its replies. Spawning the tool and waiting for it is left to the
//! caller, which hands the outcome back as a [`ToolRun`].
use vstd::prelude::*;
use crate::error::CoreError;
use crate::text::{lossy_text, lossy_text_of, lit};

verus! {

#[verifier::external_type_specification]
#[verifier::external_body]
pub struct ExJsonValue(serde_json::Value);

#[verifier::external_type_specification]
#[verifier::external_body]
pub struct ExJsonError(serde_json::Error);

/// What `serde_json::from_slice` reads as a JSON array from the given bytes,
/// if they hold one.
pub uninterp spec fn json_array_of(b: Seq<u8>) -> Option<Seq<serde_json::Value>>;

/// The text of the string member `key` of a JSON value, if the value is an
/// object with such a member holding a string.
pub uninterp spec fn str_member_of(v: serde_json::Value, key: Seq<char>) -> Option<Seq<char>>;

/// Relies on `serde_json::from_slice`: parses the bytes as a JSON array of
/// values, and fails exactly when they hold no such array.
#[verifier::external_body]
fn parse_json_array(b: &[u8]) -> (r: Result<Vec<serde_json::Value>, serde_json::Error>)
    ensures
        r is Ok <==> json_array_of(b@) is Some,
        r matches Ok(v) ==> v@ == json_array_of(b@)->0,
{
    serde_json::from_slice(b)
}

/// Relies on `serde_json::Value`'s indexing by a key and `Value::as_str`:
/// the string held under `key`, if any.
#[verifier::external_body]
fn str_member(v: &serde_json::Value, key: &str) -> (r: Option<String>)
    ensures
        r matches Some(s) ==> str_member_of(*v, key@) == Some(s@),
        r is None ==> str_member_of(*v, key@) is None,
{
    v[key].as_str().map(String::from)
}

/// Relies on `serde_json::Error`'s `Display`: the parser's description of
/// why the bytes were refused.
#[verifier::external_body]
fn json_error_text(e: &serde_json::Error) -> (r: String)
{
    e.to_string()
}

/// The stateless composition runner.
pub struct ComposeService {}

/// A compose project as the composition tool lists it.
#[derive(Debug)]
pub struct ComposeProject {
    pub name: String,
    pub status: String,
    pub config_path: String,
}

/// The action requested for a compose project.
#[derive(Debug)]
pub struct ComposeAction {
    pub project_path: String,
    pub action: String,
}

/// The actions that the runner carries out.
#[derive(PartialEq, Eq, Structural, Clone, Copy, Debug)]
pub enum ActionKind {
    Up,
    Down,
}

/// How a run of the composition tool ended.
#[derive(Debug)]
pub enum ToolRun {
    /// The process could not be started; carries the reason.
    NotSpawned { reason: String },
    /// The process ran to its end.
    Exited { success: bool, stdout: Vec<u8>, stderr: Vec<u8> },
}

/// The action that an action name stands for, if any.
pub open spec fn action_of(name: Seq<char>) -> Option<ActionKind> {
    if name == "up"@ {
        Some(ActionKind::Up)
    } else if name == "down"@ {
        Some(ActionKind::Down)
    } else {
        None
    }
}

/// A listed field as read: a missing or non-text field reads as empty.
pub open spec fn field_text(f: Option<Seq<char>>) -> Seq<char> {
    match f {
        Some(t) => t,
        None => Seq::empty(),
    }
}

/// The project that a listing record describes.
pub open spec fn project_matches(p: ComposeProject, record: serde_json::Value) -> bool {
    &&& p.name@ == field_text(str_member_of(record, "Name"@))
    &&& p.status@ == field_text(str_member_of(record, "Status"@))
    &&& p.config_path@ == field_text(str_member_of(record, "ConfigFiles"@))
}

/// The failure that an unsuccessful run of the tool is reported as.
pub open spec fn run_failure(run: ToolRun) -> Option<Seq<char>> {
    match run {
        ToolRun::NotSpawned { reason } => Some(reason@),
        ToolRun::Exited { success, stderr, .. } => {
            if success {
                None
            } else {
                Some(lossy_text_of(stderr@))
            }
        },
    }
}

impl ComposeAction {
    /// The action requested; an unknown action name is an invalid request.
    pub fn kind(&self) -> (r: Result<ActionKind, CoreError>)
        ensures
            action_of(self.action@) matches Some(k) ==> r == Ok::<ActionKind, CoreError>(k),
            action_of(self.action@) is None ==> (r matches Err(CoreError::InvalidRequest { reason })
                && reason@ == "Invalid action"@),
    {
        let up = lit("up");
        let down = lit("down");
        if self.action == up {
            Ok(ActionKind::Up)
        } else if self.action == down {
            Ok(ActionKind::Down)
        } else {
            Err(CoreError::InvalidRequest { reason: lit("Invalid action") })
        }
    }
}

/// The text of an optional field.
pub open spec fn text_of(f: Option<String>) -> Option<Seq<char>> {
    match f {
        Some(s) => Some(s@),
        None => None,
    }
}

/// The project that a listing record describes, given the record's name,
/// status and definition-file fields; a missing field reads as empty.
pub fn project_from_fields(name: Option<String>, status: Option<String>, config_path: Option<String>) -> (r:
    ComposeProject)
    ensures
        r.name@ == field_text(text_of(name)),
        r.status@ == field_text(text_of(status)),
        r.config_path@ == field_text(text_of(config_path)),
{
    ComposeProject {
        name: match name {
            Some(s) => s,
            None => String::new(),
        },
        status: match status {
            Some(s) => s,
            None => String::new(),
        },
        config_path: match config_path {
            Some(s) => s,
            None => String::new(),
        },
    }
}

/// Turns a failed run into the error that reports it.
fn failure_of(run: &ToolRun) -> (r: Option<CoreError>)
    ensures
        run_failure(*run) is None ==> r is None,
        run_failure(*run) matches Some(t) ==> r matches Some(CoreError::CommandFailed { stderr }) && stderr@ == t,
{
    match run {
        ToolRun::NotSpawned { reason } => Some(CoreError::CommandFailed { stderr: reason.clone() }),
        ToolRun::Exited { success, stderr, .. } => {
            if *success {
                None
            } else {
                Some(CoreError::CommandFailed { stderr: lossy_text(stderr.as_slice()) })
            }
        },
    }
}

impl ComposeService {
    pub fn new() -> (r: Self) {
        ComposeService {}
    }

    /// The program that runs the composition tool.
    pub fn program(&self) -> (r: String)
        ensures
            r@ == "docker"@,
    {
        lit("docker")
    }

    /// The arguments that ask the tool for its project listing in JSON.
    pub fn list_args(&self) -> (r: Vec<String>)
        ensures
            r@.map_values(|s: String| s@) == seq!["compose"@, "ls"@, "--format"@, "json"@],
    {
        let r = vec![lit("compose"), lit("ls"), lit("--format"), lit("json")];
        assert(r@.map_values(|s: String| s@) =~= seq!["compose"@, "ls"@, "--format"@, "json"@]);
        r
    }

    /// The arguments that carry out `kind` on the definition file at `path`:
    /// bringing up runs detached.
    pub fn action_args(&self, kind: ActionKind, path: &str) -> (r: Vec<String>)
        ensures
            r@.map_values(|s: String| s@) == (match kind {
                ActionKind::Up => seq!["compose"@, "-f"@, path@, "up"@, "-d"@],
                ActionKind::Down => seq!["compose"@, "-f"@, path@, "down"@],
            }),
    {
        let mut r = vec![lit("compose"), lit("-f"), path.to_owned()];
        match kind {
            ActionKind::Up => {
                r.push(lit("up"));
                r.push(lit("-d"));
            },
            ActionKind::Down => {
                r.push(lit("down"));
            },
        }
        assert(r@.map_values(|s: String| s@) =~= (match kind {
            ActionKind::Up => seq!["compose"@, "-f"@, path@, "up"@, "-d"@],
            ActionKind::Down => seq!["compose"@, "-f"@, path@, "down"@],
        }));
        r
    }

    /// The arguments that bring up the project defined at `project_path`.
    pub fn up(&self, project_path: &str) -> (r: Vec<String>)
        ensures
            r@.map_values(|s: String| s@) == seq!["compose"@, "-f"@, project_path@, "up"@, "-d"@],
    {
        self.action_args(ActionKind::Up, project_path)
    }

    /// The arguments that tear down the project defined at `project_path`.
    pub fn down(&self, project_path: &str) -> (r: Vec<String>)
        ensures
            r@.map_values(|s: String| s@) == seq!["compose"@, "-f"@, project_path@, "down"@],
    {
        self.action_args(ActionKind::Down, project_path)
    }

    /// The result of an up or down run: success exactly when the tool ran and
    /// exited successfully, else a command failure carrying its error text.
    pub fn finish_action(&self, run: &ToolRun) -> (r: Result<(), CoreError>)
        ensures
            run_failure(*run) is None <==> r is Ok,
            run_failure(*run) matches Some(t) ==> r matches Err(CoreError::CommandFailed { stderr }) && stderr@ == t,
    {
        match failure_of(run) {
            Some(e) => Err(e),
            None => Ok(()),
        }
    }

    /// Reads the tool's JSON listing into projects, one per record and in the
    /// same order; a record's missing field reads as empty text.
    pub fn parse_projects(&self, stdout: &[u8]) -> (r: Result<Vec<ComposeProject>, CoreError>)
        ensures
            r is Ok <==> json_array_of(stdout@) is Some,
            r matches Ok(ps) ==> {
                let records = json_array_of(stdout@)->0;
                &&& ps@.len() == records.len()
                &&& forall|i: int| 0 <= i < ps@.len() ==> project_matches(#[trigger] ps@[i], records[i])
            },
            r matches Err(e) ==> e is CommandFailed,
    {
        let records = match parse_json_array(stdout) {
            Ok(v) => v,
            Err(e) => {
                return Err(CoreError::CommandFailed { stderr: json_error_text(&e) });
            },
        };
        let mut ps: Vec<ComposeProject> = Vec::new();
        let mut i: usize = 0;
        while i < records.len()
            invariant
                records@ == json_array_of(stdout@)->0,
                i <= records@.len(),
                ps@.len() == i,
                forall|j: int| 0 <= j < i ==> project_matches(#[trigger] ps@[j], records@[j]),
            decreases records@.len() - i,
        {
            let record = &records[i];
            let p = project_from_fields(
                str_member(record, "Name"),
                str_member(record, "Status"),
                str_member(record, "ConfigFiles"),
            );
            ps.push(p);
            i = i + 1;
        }
        Ok(ps)
    }

    /// The result of a listing run: the projects when the tool exited
    /// successfully and printed a JSON array, else the failure.
    pub fn finish_listing(&self, run: &ToolRun) -> (r: Result<Vec<ComposeProject>, CoreError>)
        ensures
            run_failure(*run) matches Some(t) ==> r matches Err(CoreError::CommandFailed { stderr }) && stderr@ == t,
            run_failure(*run) is None ==> (r is Ok <==> json_array_of(run->stdout@) is Some),
            r matches Ok(ps) ==> {
                let records = json_array_of(run->stdout@)->0;
                &&& ps@.len() == records.len()
                &&& forall|i: int| 0 <= i < ps@.len() ==> project_matches(#[trigger] ps@[i], records[i])
            },
    {
        match failure_of(run) {
            Some(e) => Err(e),
            None => match run {
                ToolRun::Exited { stdout, .. } => self.parse_projects(stdout.as_slice()),
                ToolRun::NotSpawned { .. } => Err(CoreError::CommandFailed { stderr: String::new() }),
            },
        }
    }
}

} // verus!
