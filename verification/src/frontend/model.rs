//! The project page: the project identifier being typed, the project shown,
//! and what each message does to them.
use vstd::prelude::*;

use crate::frontend::api_client::HttpClientImpl;

verus! {

/// A project as the project query returns it.
#[derive(Debug)]
pub struct ProjectViewProject {
    pub id: String,
    pub name: String,
}

/// The variables of the project query.
#[derive(Debug)]
pub struct Variables {
    pub id: String,
}

/// The messages of the project page.
#[derive(Debug)]
pub enum Msg {
    ModifyProjectID(String),
    Error(String),
    GetProject,
    SetProject(ProjectViewProject),
}

/// What the page asks its surroundings to do after a message.
#[derive(Debug)]
pub enum Effect {
    Nothing,
    SendProjectQuery(Variables),
    Alert(String),
}

/// The state of the project page.
#[derive(Debug)]
pub struct Model {
    project_id: String,
    project: ProjectViewProject,
}

/// What the page holds: the identifier typed so far, and the identifier and
/// name of the project shown.
pub struct ModelView {
    pub project_id: Seq<char>,
    pub project_id_shown: Seq<char>,
    pub project_name_shown: Seq<char>,
}

impl View for Model {
    type V = ModelView;

    closed spec fn view(&self) -> ModelView {
        ModelView {
            project_id: self.project_id@,
            project_id_shown: self.project.id@,
            project_name_shown: self.project.name@,
        }
    }
}

/// The state after a message, and what the page asks for: a new identifier
/// is kept; a fetched project is shown; getting the project sends the query
/// for the identifier typed; an error is shown in an alert. The page is
/// redrawn after every message.
pub open spec fn update_spec(before: ModelView, msg: Msg, after: ModelView, effect: Effect) -> bool {
    match msg {
        Msg::ModifyProjectID(s) => after == ModelView { project_id: s@, ..before }
            && effect is Nothing,
        Msg::SetProject(p) => after == ModelView {
            project_id_shown: p.id@,
            project_name_shown: p.name@,
            ..before
        } && effect is Nothing,
        Msg::GetProject => after == before && match effect {
            Effect::SendProjectQuery(v) => v.id@ == before.project_id,
            _ => false,
        },
        Msg::Error(s) => after == before && match effect {
            Effect::Alert(a) => a@ == s@,
            _ => false,
        },
    }
}

impl Model {
    /// A page with no identifier typed and an empty project shown.
    pub fn create() -> (r: Model)
        ensures
            r@ == (ModelView {
                project_id: Seq::empty(),
                project_id_shown: Seq::empty(),
                project_name_shown: Seq::empty(),
            }),
    {
        Model {
            project_id: String::new(),
            project: ProjectViewProject { id: String::new(), name: String::new() },
        }
    }

    /// Handles a message; the result says whether to redraw, which is
    /// always, and what to do.
    pub fn update(&mut self, msg: Msg) -> (r: (bool, Effect))
        ensures
            r.0,
            update_spec(old(self)@, msg, final(self)@, r.1),
    {
        match msg {
            Msg::GetProject => {
                let variables = Variables { id: self.project_id.clone() };
                (true, Effect::SendProjectQuery(variables))
            },
            Msg::SetProject(project) => {
                self.project = project;
                (true, Effect::Nothing)
            },
            Msg::ModifyProjectID(s) => {
                self.project_id = s;
                (true, Effect::Nothing)
            },
            Msg::Error(s) => (true, Effect::Alert(s)),
        }
    }

    /// New properties never call for a redraw: the page has none.
    pub fn change(&mut self) -> (r: bool)
        ensures
            !r,
            final(self)@ == old(self)@,
    {
        false
    }

    pub fn project_id(&self) -> (r: &String)
        ensures
            r@ == self@.project_id,
    {
        &self.project_id
    }

    pub fn project(&self) -> (r: &ProjectViewProject)
        ensures
            r.id@ == self@.project_id_shown,
            r.name@ == self@.project_name_shown,
    {
        &self.project
    }
}

/// The client that the page sends its project query through: the API at
/// `http://localhost:8000`.
pub fn project_api_client() -> (r: HttpClientImpl)
    ensures
        r@ == "http://localhost:8000"@,
{
    HttpClientImpl::new("http://localhost:8000".to_owned())
}

/// The message that the answer to the project query becomes: the project
/// to show, or the error text to alert.
pub fn message_for_response(response: Result<ProjectViewProject, String>) -> (r: Msg)
    ensures
        match response {
            Ok(p) => r == Msg::SetProject(p),
            Err(e) => r == Msg::Error(e),
        },
{
    match response {
        Ok(p) => Msg::SetProject(p),
        Err(e) => Msg::Error(e),
    }
}

} // verus!

verus! {

/// Getting the project queries the identifier that was typed last: after a
/// `ModifyProjectID(id)`, a `GetProject` sends the query for `id`.
pub proof fn law_typed_id_is_queried(
    s0: ModelView,
    typed: String,
    s1: ModelView,
    e1: Effect,
    s2: ModelView,
    e2: Effect,
)
    requires
        update_spec(s0, Msg::ModifyProjectID(typed), s1, e1),
        update_spec(s1, Msg::GetProject, s2, e2),
    ensures
        e2 matches Effect::SendProjectQuery(v) && v.id@ == typed@,
        s2 == s1,
{
}

/// An error only alerts: after any run of `Error` messages the page holds
/// what it held before, and each message is alerted with its own text.
pub proof fn law_errors_leave_page_unchanged(
    states: Seq<ModelView>,
    texts: Seq<String>,
    effects: Seq<Effect>,
)
    requires
        states.len() == texts.len() + 1,
        effects.len() == texts.len(),
        forall|k: int|
            0 <= k < texts.len() ==> update_spec(
                states[k],
                Msg::Error(#[trigger] texts[k]),
                states[k + 1],
                effects[k],
            ),
    ensures
        states.last() == states[0],
        forall|k: int|
            0 <= k < texts.len() ==> ((#[trigger] effects[k]) matches Effect::Alert(a) && a@
                == texts[k]@),
    decreases texts.len(),
{
    if texts.len() > 0 {
        let n = texts.len() - 1;
        law_errors_leave_page_unchanged(states.drop_last(), texts.drop_last(), effects.drop_last());
        assert(states.drop_last().last() == states[n]);
        assert(update_spec(states[n], Msg::Error(texts[n]), states[n + 1], effects[n]));
        assert forall|k: int| 0 <= k < texts.len() implies ((#[trigger] effects[k]) matches Effect::Alert(
            a,
        ) && a@ == texts[k]@) by {
            if k < n {
                assert(effects.drop_last()[k] == effects[k]);
                assert(texts.drop_last()[k] == texts[k]);
            }
        }
    }
}

/// Errors do not touch the identifier being typed: after a
/// `ModifyProjectID(id)`, any run of `Error` messages and then a
/// `GetProject` sends the query for `id`.
pub proof fn law_typed_id_survives_errors(
    s0: ModelView,
    typed: String,
    s1: ModelView,
    e1: Effect,
    states: Seq<ModelView>,
    texts: Seq<String>,
    effects: Seq<Effect>,
    s2: ModelView,
    e2: Effect,
)
    requires
        update_spec(s0, Msg::ModifyProjectID(typed), s1, e1),
        states.len() == texts.len() + 1,
        effects.len() == texts.len(),
        states[0] == s1,
        forall|k: int|
            0 <= k < texts.len() ==> update_spec(
                states[k],
                Msg::Error(#[trigger] texts[k]),
                states[k + 1],
                effects[k],
            ),
        update_spec(states.last(), Msg::GetProject, s2, e2),
    ensures
        e2 matches Effect::SendProjectQuery(v) && v.id@ == typed@,
{
    law_errors_leave_page_unchanged(states, texts, effects);
}

/// A fetched project is shown as it came, with the identifier being typed
/// kept, and nothing more is asked; getting the project changes nothing on
/// the page and asks for the identifier typed so far.
pub proof fn law_show_and_get(
    s0: ModelView,
    p: ProjectViewProject,
    s1: ModelView,
    e1: Effect,
    s2: ModelView,
    e2: Effect,
)
    requires
        update_spec(s0, Msg::SetProject(p), s1, e1),
        update_spec(s1, Msg::GetProject, s2, e2),
    ensures
        s1.project_id_shown == p.id@,
        s1.project_name_shown == p.name@,
        s1.project_id == s0.project_id,
        e1 is Nothing,
        s2 == s1,
        e2 matches Effect::SendProjectQuery(v) && v.id@ == s0.project_id,
{
}

} // verus!
