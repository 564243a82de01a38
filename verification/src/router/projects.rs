//! Projects and their tasks.

use vstd::prelude::*;
use crate::entity::{ProjectModel, TaskModel, Timestamp};
use crate::error::HttpError;
use crate::router::found_or_not_found;
use crate::validation::{entries_well_formed, kind_well_formed, tree_well_formed, FieldError, ValidationErrors, ValidationErrorsKind};

verus! {

/// A project with its tasks.
pub struct GetProjectResponse {
    pub project: ProjectModel,
    pub tasks: Vec<TaskModel>,
}

/// The tasks listed for a project joined with at most one related task.
pub open spec fn tasks_of(task: Option<TaskModel>) -> Seq<TaskModel> {
    match task {
        Some(t) => seq![t],
        None => Seq::empty(),
    }
}

/// A task found with its project is listed, alone and unchanged, whatever
/// its fields; without a related task nothing is listed.
pub proof fn lemma_row_lists_its_task(task: Option<TaskModel>)
    ensures
        task matches Some(t) ==> tasks_of(task).len() == 1 && tasks_of(task)[0] == t,
        task is None ==> tasks_of(task).len() == 0,
{
}

impl GetProjectResponse {
    /// The response for a project found together with its related task, if any.
    pub fn from_row(project: ProjectModel, task: Option<TaskModel>) -> (r: GetProjectResponse)
        ensures
            r.project == project,
            r.tasks@ == tasks_of(task),
    {
        match task {
            Some(t) => {
                let mut tasks = Vec::new();
                tasks.push(t);
                GetProjectResponse { project, tasks }
            },
            None => GetProjectResponse { project, tasks: Vec::new() },
        }
    }
}

/// The response for looking up one project: not found when the lookup found
/// no row.
pub fn project_response(row: Option<(ProjectModel, Option<TaskModel>)>) -> (r: Result<GetProjectResponse, HttpError>)
    ensures
        match (row, r) {
            (Some((p, t)), Ok(resp)) => resp.project == p && resp.tasks@ == tasks_of(t),
            (None, Err(HttpError::NotFound { message: None, detail: None })) => true,
            _ => false,
        },
{
    match found_or_not_found(row) {
        Ok(found) => Ok(GetProjectResponse::from_row(found.0, found.1)),
        Err(e) => Err(e),
    }
}

/// The responses for listing projects, one per row, in the order of the rows.
pub fn project_responses(rows: Vec<(ProjectModel, Option<TaskModel>)>) -> (r: Vec<GetProjectResponse>)
    ensures
        r@.len() == rows@.len(),
        forall|i: int| 0 <= i < rows@.len() ==> {
            &&& (#[trigger] r@[i]).project == rows@[i].0
            &&& r@[i].tasks@ == tasks_of(rows@[i].1)
        },
{
    let mut rows = rows;
    let ghost given = rows@;
    let mut reversed: Vec<GetProjectResponse> = Vec::new();
    while rows.len() > 0
        invariant
            rows@.len() + reversed@.len() == given.len(),
            rows@ == given.take(rows@.len() as int),
            forall|i: int| 0 <= i < reversed@.len() ==> {
                &&& (#[trigger] reversed@[i]).project == given[given.len() - 1 - i].0
                &&& reversed@[i].tasks@ == tasks_of(given[given.len() - 1 - i].1)
            },
        decreases rows.len(),
    {
        let row = rows.pop().unwrap();
        let ghost k = rows@.len() as int;
        assert(given[k] == row) by {
            assert(given.take(k + 1)[k] == given[k]);
        }
        reversed.push(GetProjectResponse::from_row(row.0, row.1));
        assert(rows@ =~= given.take(k));
    }
    let mut r: Vec<GetProjectResponse> = Vec::new();
    while reversed.len() > 0
        invariant
            r@.len() + reversed@.len() == given.len(),
            forall|i: int| 0 <= i < reversed@.len() ==> {
                &&& (#[trigger] reversed@[i]).project == given[given.len() - 1 - i].0
                &&& reversed@[i].tasks@ == tasks_of(given[given.len() - 1 - i].1)
            },
            forall|i: int| 0 <= i < r@.len() ==> {
                &&& (#[trigger] r@[i]).project == given[i].0
                &&& r@[i].tasks@ == tasks_of(given[i].1)
            },
        decreases reversed.len(),
    {
        let resp = reversed.pop().unwrap();
        r.push(resp);
    }
    r
}

/// A request to create a project.
#[derive(Debug)]
pub struct ProjectRequest {
    pub title: String,
    pub text: String,
}

impl Clone for ProjectRequest {
    fn clone(&self) -> (r: ProjectRequest)
        ensures
            r.title@ == self.title@,
            r.text@ == self.text@,
    {
        ProjectRequest { title: self.title.clone(), text: self.text.clone() }
    }
}

impl PartialEq for ProjectRequest {
    fn eq(&self, other: &ProjectRequest) -> (r: bool) {
        self.title == other.title && self.text == other.text
    }
}

impl vstd::std_specs::cmp::PartialEqSpecImpl for ProjectRequest {
    open spec fn obeys_eq_spec() -> bool {
        true
    }

    open spec fn eq_spec(&self, other: &ProjectRequest) -> bool {
        self.title@ == other.title@ && self.text@ == other.text@
    }
}

/// The message of a failed non-emptiness check.
pub open spec fn empty_field_message() -> Seq<char> {
    "Can not be empty"@
}

/// The report of a field that failed the non-emptiness check.
pub open spec fn empty_field_report(name: Seq<char>, entry: (String, ValidationErrorsKind)) -> bool {
    &&& entry.0@ == name
    &&& entry.1 matches ValidationErrorsKind::Field(v)
    &&& v@.len() == 1
    &&& v@[0].code@ == "length"@
    &&& v@[0].message matches Some(m)
    &&& m@ == empty_field_message()
}

fn empty_field_entry(name: &str) -> (entry: (String, ValidationErrorsKind))
    ensures
        empty_field_report(name@, entry),
{
    let mut errors: Vec<FieldError> = Vec::new();
    errors.push(FieldError { code: String::from_str("length"), message: Some(String::from_str("Can not be empty")) });
    (name.to_owned(), ValidationErrorsKind::Field(errors))
}

impl ProjectRequest {
    /// Checks that the title and the text are not empty. The report lists
    /// each empty field once; the order of the fields in it is not promised.
    pub fn validate(&self) -> (r: Result<(), ValidationErrors>)
        ensures
            (self.title@.len() > 0 && self.text@.len() > 0) <==> r is Ok,
            r matches Err(report) ==> {
                let es = report.entries@;
                &&& tree_well_formed(report)
                &&& es.len() == (if self.title@.len() == 0 { 1int } else { 0int })
                    + (if self.text@.len() == 0 { 1int } else { 0int })
                &&& forall|i: int| 0 <= i < es.len() ==> {
                    ||| self.title@.len() == 0 && empty_field_report("title"@, #[trigger] es[i])
                    ||| self.text@.len() == 0 && empty_field_report("text"@, es[i])
                }
            },
    {
        proof {
            reveal_strlit("title");
            reveal_strlit("text");
        }
        let mut entries: Vec<(String, ValidationErrorsKind)> = Vec::new();
        if self.title.as_str().unicode_len() < 1 {
            entries.push(empty_field_entry("title"));
        }
        if self.text.as_str().unicode_len() < 1 {
            entries.push(empty_field_entry("text"));
        }
        if entries.len() == 0 {
            Ok(())
        } else {
            let report = ValidationErrors { entries };
            assert(tree_well_formed(report)) by {
                let es = report.entries@;
                let first = es.subrange(0, 1);
                assert(entries_well_formed(first.subrange(0, 0)));
                assert(first[0] == es[0]);
                assert(kind_well_formed(es[0].1));
                assert(entries_well_formed(first));
                if es.len() == 2 {
                    assert("title"@.len() != "text"@.len());
                    assert(es[0].0@ != es[1].0@);
                    assert(es.subrange(0, 1) == first);
                    assert(kind_well_formed(es[1].1));
                    assert(entries_well_formed(es));
                } else {
                    assert(es == first);
                }
            }
            Err(report)
        }
    }

    /// The project record this request creates, with identifier `id`, at `now`.
    pub fn into_project(self, id: u128, now: Timestamp) -> (p: ProjectModel)
        ensures
            p.id == id,
            p.title == self.title,
            p.text == self.text,
            p.user_id is None,
            p.created_at == now,
            p.updated_at == now,
    {
        ProjectModel::new(id, self.title, self.text, None, now)
    }
}

/// A request body that updates a stored record.
pub trait ModelIn {
    type ActiveModel;

    fn update_model(self, model: &mut Self::ActiveModel);
}

} // verus!
