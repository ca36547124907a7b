//! The template configuration: project metadata and the declaration lists,
//! and its derivation into the ordered task list.
//!
//! `to_tasks` rebases every relative path against the working-copy root and
//! collects the declarations into one sequence in the stable sort order of
//! the task ordering key: all variables in declaration order, then all
//! content changes, then all moves. That order guarantees that any variable
//! a change or a move references has already been prompted for.
use crate::task::rebase_change;
use crate::task::rebase_move;
use crate::task::spec_index;
use crate::task::Change;
use crate::task::ChangeV;
use crate::task::Move;
use crate::task::MoveV;
use crate::task::Task;
use crate::task::TaskV;
use crate::task::ToTask;
use crate::task::Variable;
use crate::task::VariableV;
use vstd::prelude::*;

verus! {

/// Project metadata of a template.
#[derive(Debug, Clone, PartialEq, Eq)]
pub struct Project {
    /// The name the template presents itself under.
    pub name: String,
}

/// The mathematical content of the project metadata.
pub struct ProjectV {
    pub name: Seq<char>,
}

impl View for Project {
    type V = ProjectV;

    open spec fn view(&self) -> ProjectV {
        ProjectV { name: self.name@ }
    }
}

/// The parsed configuration: project metadata, zero or more declarations of
/// each kind, and the runtime-only path of the fetched working copy.
#[derive(Debug, Clone)]
pub struct Template {
    /// The project section of the configuration.
    pub project: Project,
    /// The interactively resolved values the template declares.
    pub variable: Vec<Variable>,
    /// The in-file replacements the template declares.
    pub change: Vec<Change>,
    /// The renames the template declares.
    pub replace: Vec<Move>,
    /// Only for runtime use: where the fetched working copy stands, for path
    /// awareness when rebasing and recursively copying. Populated exactly
    /// once, after parsing, before any task derivation.
    pub path: String,
}

/// The mathematical content of a template.
pub struct TemplateV {
    pub project: ProjectV,
    pub variable: Seq<VariableV>,
    pub change: Seq<ChangeV>,
    pub replace: Seq<MoveV>,
    pub path: Seq<char>,
}

impl View for Template {
    type V = TemplateV;

    open spec fn view(&self) -> TemplateV {
        TemplateV {
            project: self.project@,
            variable: self.variable@.map_values(|v: Variable| v@),
            change: self.change@.map_values(|c: Change| c@),
            replace: self.replace@.map_values(|m: Move| m@),
            path: self.path@,
        }
    }
}

/// The task list a template derives: three contiguous blocks in the order
/// variables, changes, moves, each block in declaration order, with every
/// relative path rebased against the working-copy root. This is the stable
/// sort of the combined declarations by the task ordering key.
pub open spec fn spec_tasks(t: TemplateV) -> Seq<TaskV> {
    t.variable.map_values(|v: VariableV| TaskV::Variable(v)) + t.change.map_values(
        |c: ChangeV| TaskV::Change(rebase_change(c, t.path)),
    ) + t.replace.map_values(|m: MoveV| TaskV::Move(rebase_move(m, t.path)))
}

/// Appends every declaration of one list to the task list, in declaration
/// order, rebased against `path`.
fn append_tasks<T: ToTask>(out: &mut Vec<Task>, decls: Vec<T>, path: &str)
    ensures
        final(out)@.map_values(|t: Task| t@) == old(out)@.map_values(|t: Task| t@) + decls@
            .map_values(|d: T| d.spec_to_task(path@)),
{
    let ghost dv = decls@.map_values(|d: T| d.spec_to_task(path@));
    let ghost base = old(out)@.map_values(|t: Task| t@);
    let mut decls = decls;
    proof {
        assert(base + dv.take(0) =~= base);
    }
    while decls.len() > 0
        invariant
            decls@.len() <= dv.len(),
            decls@.map_values(|d: T| d.spec_to_task(path@)) == dv.skip(
                dv.len() - decls@.len() as int,
            ),
            out@.map_values(|t: Task| t@) == base + dv.take(dv.len() - decls@.len() as int),
        decreases decls.len(),
    {
        let ghost processed = dv.len() - decls@.len() as int;
        let ghost d0 = decls@;
        let ghost outm0 = out@.map_values(|t: Task| t@);
        let d = decls.remove(0);
        let t = d.to_task(path);
        out.push(t);
        proof {
            assert(d0.map_values(|d: T| d.spec_to_task(path@))[0] == d.spec_to_task(path@));
            assert(dv.skip(processed)[0] == dv[processed]);
            assert(t@ == dv[processed]);
            assert(decls@ =~= d0.drop_first());
            assert(decls@.map_values(|d: T| d.spec_to_task(path@)) =~= d0.map_values(
                |d: T| d.spec_to_task(path@),
            ).drop_first());
            assert(dv.skip(processed).drop_first() =~= dv.skip(processed + 1));
            assert(out@.map_values(|t: Task| t@) =~= outm0.push(t@));
            assert(dv.take(processed + 1) =~= dv.take(processed).push(dv[processed]));
            assert(out@.map_values(|t: Task| t@) =~= base + dv.take(processed + 1));
        }
    }
    proof {
        assert(dv.take(dv.len() as int) =~= dv);
    }
}

/// The executor a template's tasks are handed to: the ordered task list, run
/// by the caller task by task against a fresh store.
pub struct Executor {
    /// The derived tasks, in execution order.
    pub tasks: Vec<Task>,
}

impl Executor {
    /// Consumes a template into an executor over its derived task list.
    pub fn consume(template: Template) -> (r: Executor)
        ensures
            r.tasks@.map_values(|t: Task| t@) == spec_tasks(template@),
    {
        Executor { tasks: template.to_tasks() }
    }
}

impl Template {
    /// Sets the runtime working-copy path the relative paths are rebased
    /// against; everything else stands as parsed.
    pub fn with_path(self, path: String) -> (r: Template)
        ensures
            r@ == (TemplateV { path: path@, ..self@ }),
    {
        Template {
            project: self.project,
            variable: self.variable,
            change: self.change,
            replace: self.replace,
            path,
        }
    }

    /// The working-copy path of the template.
    pub fn path(&self) -> (r: &String)
        ensures
            r@ == self@.path,
    {
        &self.path
    }

    /// Wraps the template in an executor over its derived task list.
    pub fn computable(self) -> (r: Executor)
        ensures
            r.tasks@.map_values(|t: Task| t@) == spec_tasks(self@),
    {
        Executor::consume(self)
    }

    /// Derives the ordered task list: every declaration wrapped as a task
    /// with its paths rebased against the working-copy root, all variables
    /// first, then all changes, then all moves, each block in declaration
    /// order.
    pub fn to_tasks(self) -> (r: Vec<Task>)
        ensures
            r@.map_values(|t: Task| t@) == spec_tasks(self@),
    {
        let ghost tv = self@;
        let Template { project: _, variable, change, replace, path } = self;
        let mut tasks: Vec<Task> = Vec::new();
        proof {
            assert(tasks@.map_values(|t: Task| t@) =~= Seq::<TaskV>::empty());
        }
        append_tasks(&mut tasks, variable, path.as_str());
        append_tasks(&mut tasks, change, path.as_str());
        append_tasks(&mut tasks, replace, path.as_str());
        proof {
            let va = tv.variable.map_values(|v: VariableV| TaskV::Variable(v));
            let ca = tv.change.map_values(|c: ChangeV| TaskV::Change(rebase_change(c, tv.path)));
            let ma = tv.replace.map_values(|m: MoveV| TaskV::Move(rebase_move(m, tv.path)));
            assert(variable@.map_values(|d: Variable| d.spec_to_task(path@)) =~= va);
            assert(change@.map_values(|d: Change| d.spec_to_task(path@)) =~= ca);
            assert(replace@.map_values(|d: Move| d.spec_to_task(path@)) =~= ma);
            assert(tasks@.map_values(|t: Task| t@) =~= spec_tasks(tv));
        }
        tasks
    }
}

/// The derived task list is sorted by the task ordering key: a task never
/// stands before one with a smaller key, so every variable task stands
/// before every change task, and every change task before every move task.
pub proof fn lemma_to_tasks_sorted(t: TemplateV)
    ensures
        forall|i: int, j: int|
            0 <= i <= j < spec_tasks(t).len() ==> spec_index(#[trigger] spec_tasks(t)[i])
                <= spec_index(#[trigger] spec_tasks(t)[j]),
{
    let s = spec_tasks(t);
    let nv = t.variable.len() as int;
    let nc = t.change.len() as int;
    assert forall|i: int| 0 <= i < s.len() implies spec_index(#[trigger] s[i]) == (if i < nv {
        1int
    } else if i < nv + nc {
        2int
    } else {
        3int
    }) by {
        if i < nv {
            assert(s[i] == t.variable.map_values(|v: VariableV| TaskV::Variable(v))[i]);
        } else if i < nv + nc {
            assert(s[i] == t.change.map_values(
                |c: ChangeV| TaskV::Change(rebase_change(c, t.path)),
            )[i - nv]);
        } else {
            assert(s[i] == t.replace.map_values(
                |m: MoveV| TaskV::Move(rebase_move(m, t.path)),
            )[i - nv - nc]);
        }
    }
}

} // verus!
