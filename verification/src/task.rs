//! The task model: the three mutation kinds a configuration declares, with a
//! total execution order and a uniform `execute` contract against the
//! variable store.
//!
//! Executing the full task list in its sorted order guarantees that any
//! variable referenced by a change or a move has already been prompted for.
//! The blocking interactions — the prompt, the file read, the write and the
//! rename — stay with the caller: a task takes the value it depends on as an
//! input and hands back the file mutation to perform.
use crate::apply::spec_apply;
use crate::apply::spec_parse;
use crate::apply::Apply;
use crate::error::BleurError;
use crate::store::VariableStore;
use crate::subst::first_missing;
use crate::subst::lemma_first_missing_some;
use crate::subst::replace_all;
use crate::subst::replace_from;
use crate::subst::scan_from;
use crate::subst::subst_from;
use crate::subst::substitute;
use crate::text::join_path;
use crate::text::spec_join;
use vstd::pervasive::unreached;
use vstd::prelude::*;
use vstd::string::StringExecFns;

verus! {

/// Declares one interactively resolved value.
#[derive(Debug, Clone, PartialEq, Eq)]
pub struct Variable {
    /// The name under which the value is stored and referenced.
    pub variable: String,
    /// The default value the prompt is pre-filled with.
    pub default: String,
    /// The question the user is asked to get the value.
    pub message: String,
}

/// The mathematical content of a variable declaration.
pub struct VariableV {
    pub variable: Seq<char>,
    pub default: Seq<char>,
    pub message: Seq<char>,
}

impl View for Variable {
    type V = VariableV;

    open spec fn view(&self) -> VariableV {
        VariableV { variable: self.variable@, default: self.default@, message: self.message@ }
    }
}

/// Declares a find-and-replace inside one file.
#[derive(Debug, Clone, PartialEq, Eq)]
pub struct Change {
    /// The catch phrase or word to locate in the file.
    pub placeholder: String,
    /// Where the file is located.
    pub source: String,
    /// The computable value, which may reference `@name@` placeholders.
    pub value: String,
    /// The transform spec to apply to the resolved value.
    pub apply: String,
}

/// The mathematical content of a change declaration.
pub struct ChangeV {
    pub placeholder: Seq<char>,
    pub source: Seq<char>,
    pub value: Seq<char>,
    pub apply: Seq<char>,
}

impl View for Change {
    type V = ChangeV;

    open spec fn view(&self) -> ChangeV {
        ChangeV {
            placeholder: self.placeholder@,
            source: self.source@,
            value: self.value@,
            apply: self.apply@,
        }
    }
}

/// Declares a rename whose destination may reference `@name@` placeholders.
#[derive(Debug, Clone, PartialEq, Eq)]
pub struct Move {
    /// Take the file at this path ...
    pub from: String,
    /// ... and move it to the path this template resolves to.
    pub to: String,
    /// The transform spec to apply to the resolved destination.
    pub apply: String,
}

/// The mathematical content of a move declaration.
pub struct MoveV {
    pub from: Seq<char>,
    pub to: Seq<char>,
    pub apply: Seq<char>,
}

impl View for Move {
    type V = MoveV;

    open spec fn view(&self) -> MoveV {
        MoveV { from: self.from@, to: self.to@, apply: self.apply@ }
    }
}

/// A tagged union of the three mutation kinds.
#[derive(Debug, Clone, PartialEq, Eq)]
pub enum Task {
    /// Ask for a global variable.
    Variable(Variable),
    /// Change content inside a file.
    Change(Change),
    /// Move a file from a place to a place.
    Move(Move),
}

/// The mathematical content of a task.
pub enum TaskV {
    Variable(VariableV),
    Change(ChangeV),
    Move(MoveV),
}

impl View for Task {
    type V = TaskV;

    open spec fn view(&self) -> TaskV {
        match self {
            Task::Variable(v) => TaskV::Variable(v@),
            Task::Change(c) => TaskV::Change(c@),
            Task::Move(m) => TaskV::Move(m@),
        }
    }
}

/// A change declaration with its source path rebased against the
/// working-copy root.
pub open spec fn rebase_change(c: ChangeV, root: Seq<char>) -> ChangeV {
    ChangeV {
        placeholder: c.placeholder,
        source: spec_join(root, c.source),
        value: c.value,
        apply: c.apply,
    }
}

/// A move declaration with both of its paths rebased against the
/// working-copy root.
pub open spec fn rebase_move(m: MoveV, root: Seq<char>) -> MoveV {
    MoveV { from: spec_join(root, m.from), to: spec_join(root, m.to), apply: m.apply }
}

/// Conversion of a declaration into a task, rebasing its relative paths
/// against the working-copy root.
pub trait ToTask: Sized {
    /// The task the declaration becomes for a given working-copy root.
    spec fn spec_to_task(self, root: Seq<char>) -> TaskV;

    /// Wraps the declaration in a task, rebasing paths against `path`.
    fn to_task(self, path: &str) -> (t: Task)
        ensures
            t@ == self.spec_to_task(path@),
    ;
}

impl ToTask for Variable {
    open spec fn spec_to_task(self, root: Seq<char>) -> TaskV {
        TaskV::Variable(self@)
    }

    fn to_task(self, path: &str) -> (t: Task) {
        Task::Variable(
            Variable { message: self.message, default: self.default, variable: self.variable },
        )
    }
}

impl ToTask for Change {
    open spec fn spec_to_task(self, root: Seq<char>) -> TaskV {
        TaskV::Change(rebase_change(self@, root))
    }

    fn to_task(self, path: &str) -> (t: Task) {
        Task::Change(
            Change {
                placeholder: self.placeholder,
                source: join_path(path, self.source.as_str()),
                value: self.value,
                apply: self.apply,
            },
        )
    }
}

impl ToTask for Move {
    open spec fn spec_to_task(self, root: Seq<char>) -> TaskV {
        TaskV::Move(rebase_move(self@, root))
    }

    fn to_task(self, path: &str) -> (t: Task) {
        Task::Move(
            Move {
                from: join_path(path, self.from.as_str()),
                to: join_path(path, self.to.as_str()),
                apply: self.apply,
            },
        )
    }
}

/// What the caller hands a task before it runs: the outcome of the one
/// blocking interaction the task depends on.
#[derive(Debug, Clone, PartialEq, Eq)]
pub enum TaskInput {
    /// The value the user entered at the prompt, for a variable task.
    PromptReply(String),
    /// The current content of the task's source file, for a change task.
    FileContents(String),
    /// Nothing: the task needs no outside value.
    NoInput,
}

/// The file mutation a task asks the caller to perform after it ran.
#[derive(Debug, Clone, PartialEq, Eq)]
pub enum TaskAction {
    /// The store took the prompted value; there is nothing to write.
    StoreUpdated,
    /// Write `contents` over the file at `path`, truncating what was there.
    WriteBack { path: String, contents: String },
    /// Rename the file at `from` to `to`.
    Rename { from: String, to: String },
}

/// What executing a change must yield for a given store and file content:
/// on success, the file content with every occurrence of the placeholder
/// replaced by the resolved and transformed value template; otherwise the
/// first name of the value template the store does not resolve.
pub open spec fn change_post(
    c: ChangeV,
    m: Map<Seq<char>, Seq<char>>,
    contents: Seq<char>,
    r: Result<TaskAction, BleurError>,
) -> bool {
    match r {
        Ok(a) => match a {
            TaskAction::WriteBack { path, contents: out } => {
                &&& first_missing(scan_from(c.value, 0), m) is None
                &&& path@ == c.source
                &&& out@ == replace_from(
                    contents,
                    0,
                    c.placeholder,
                    spec_apply(spec_parse(c.apply), subst_from(c.value, 0, m)),
                )
            },
            _ => false,
        },
        Err(e) => match e {
            BleurError::NoSuchVariable(n) => first_missing(scan_from(c.value, 0), m) == Some(n@),
            _ => false,
        },
    }
}

/// What executing a move must yield for a given store: on success, a rename
/// of the declared source to the resolved and transformed destination;
/// otherwise the first name of the destination template the store does not
/// resolve.
pub open spec fn move_post(
    mv: MoveV,
    m: Map<Seq<char>, Seq<char>>,
    r: Result<TaskAction, BleurError>,
) -> bool {
    match r {
        Ok(a) => match a {
            TaskAction::Rename { from, to } => {
                &&& first_missing(scan_from(mv.to, 0), m) is None
                &&& from@ == mv.from
                &&& to@ == spec_apply(spec_parse(mv.apply), subst_from(mv.to, 0, m))
            },
            _ => false,
        },
        Err(e) => match e {
            BleurError::NoSuchVariable(n) => first_missing(scan_from(mv.to, 0), m) == Some(n@),
            _ => false,
        },
    }
}

impl Variable {
    /// Records the prompted value for this variable, overwriting any prior
    /// value. The prompt itself, and its cancellation, are the caller's.
    pub fn execute(&self, global: &mut VariableStore, reply: &str) -> (r: Result<
        TaskAction,
        BleurError,
    >)
        ensures
            final(global)@ == old(global)@.insert(self.variable@, reply@),
            r == Result::<TaskAction, BleurError>::Ok(TaskAction::StoreUpdated),
    {
        global.insert(self.variable.clone(), String::from_str(reply));
        Ok(TaskAction::StoreUpdated)
    }
}

impl Change {
    /// Resolves the value template against the store, applies the transform
    /// pipeline, and hands back the file content with every occurrence of
    /// the placeholder replaced. Reading and writing the file are the
    /// caller's.
    pub fn execute(&self, global: &VariableStore, contents: &str) -> (r: Result<
        TaskAction,
        BleurError,
    >)
        ensures
            change_post(self@, global@, contents@, r),
    {
        let resolved = match substitute(self.value.as_str(), global) {
            Ok(v) => v,
            Err(e) => {
                return Err(e);
            },
        };
        let applications = Apply::parse(self.apply.as_str());
        let transformed = applications.execute(resolved.as_str());
        let out = replace_all(contents, self.placeholder.as_str(), transformed.as_str());
        Ok(TaskAction::WriteBack { path: self.source.clone(), contents: out })
    }
}

impl Move {
    /// Resolves the destination template against the store, applies the
    /// transform pipeline, and hands back the rename to perform. The rename
    /// itself is the caller's.
    pub fn execute(&self, global: &VariableStore) -> (r: Result<TaskAction, BleurError>)
        ensures
            move_post(self@, global@, r),
    {
        let resolved = match substitute(self.to.as_str(), global) {
            Ok(v) => v,
            Err(e) => {
                return Err(e);
            },
        };
        let applications = Apply::parse(self.apply.as_str());
        let transformed = applications.execute(resolved.as_str());
        Ok(TaskAction::Rename { from: self.from.clone(), to: transformed })
    }
}

/// The ordering key of a task: variables first, then content changes, then
/// moves.
pub open spec fn spec_index(t: TaskV) -> int {
    match t {
        TaskV::Variable(_) => 1,
        TaskV::Change(_) => 2,
        TaskV::Move(_) => 3,
    }
}

impl Task {
    /// Ordering of what to perform after what: first get all the variables,
    /// then change contents inside files, then move files to their
    /// destinations.
    pub fn index(&self) -> (r: u8)
        ensures
            r as int == spec_index(self@),
    {
        match self {
            Task::Variable(_) => 1,
            Task::Change(_) => 2,
            Task::Move(_) => 3,
        }
    }

    /// Runs the task against the store. The outcome of the one blocking
    /// interaction the task depends on comes in; the file mutation the
    /// caller must perform comes out.
    pub fn execute(&self, global: &mut VariableStore, input: TaskInput) -> (r: Result<
        TaskAction,
        BleurError,
    >)
        requires
            match self {
                Task::Variable(_) => input matches TaskInput::PromptReply(_),
                Task::Change(_) => input matches TaskInput::FileContents(_),
                Task::Move(_) => true,
            },
        ensures
            match self {
                Task::Variable(v) => match input {
                    TaskInput::PromptReply(reply) => {
                        &&& final(global)@ == old(global)@.insert(v.variable@, reply@)
                        &&& r == Result::<TaskAction, BleurError>::Ok(TaskAction::StoreUpdated)
                    },
                    _ => true,
                },
                Task::Change(c) => final(global)@ == old(global)@ && match input {
                    TaskInput::FileContents(contents) => change_post(
                        c@,
                        old(global)@,
                        contents@,
                        r,
                    ),
                    _ => true,
                },
                Task::Move(m) => final(global)@ == old(global)@ && move_post(m@, old(global)@, r),
            },
    {
        match self {
            Task::Variable(v) => match input {
                TaskInput::PromptReply(reply) => v.execute(global, reply.as_str()),
                _ => unreached(),
            },
            Task::Change(c) => match input {
                TaskInput::FileContents(contents) => c.execute(global, contents.as_str()),
                _ => unreached(),
            },
            Task::Move(m) => m.execute(global),
        }
    }
}

/// A change task whose value template references a name the store does not
/// resolve always fails with the substitution error kind, whatever its
/// transform spec says.
pub proof fn lemma_change_missing_variable(
    c: ChangeV,
    m: Map<Seq<char>, Seq<char>>,
    n: Seq<char>,
    contents: Seq<char>,
    r: Result<TaskAction, BleurError>,
)
    requires
        scan_from(c.value, 0).contains(n),
        !m.contains_key(n),
        change_post(c, m, contents, r),
    ensures
        r matches Err(BleurError::NoSuchVariable(_)),
{
    lemma_first_missing_some(scan_from(c.value, 0), m, n);
}

/// A move task whose destination template references a name the store does
/// not resolve fails the same way.
pub proof fn lemma_move_missing_variable(
    mv: MoveV,
    m: Map<Seq<char>, Seq<char>>,
    n: Seq<char>,
    r: Result<TaskAction, BleurError>,
)
    requires
        scan_from(mv.to, 0).contains(n),
        !m.contains_key(n),
        move_post(mv, m, r),
    ensures
        r matches Err(BleurError::NoSuchVariable(_)),
{
    lemma_first_missing_some(scan_from(mv.to, 0), m, n);
}

} // verus!
