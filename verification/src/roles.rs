//! KB-wide role policy: the roles a template's namespaces declare, each
//! binding a record field to what the engine does with it.
use vstd::prelude::*;

verus! {

/// What a role lets the engine do with the field that plays it.
#[derive(Debug, Clone, Copy, PartialEq, Eq, Structural)]
pub enum Binding {
    /// Names the record in lists, links and briefs.
    Title,
    /// Places the record in time.
    Timeline,
}

/// A role a namespace declares: its name, what it is for, and its binding.
#[derive(Debug, Clone)]
pub struct RoleSpec {
    pub name: String,
    pub doc: String,
    pub binds: Binding,
}

/// What the title role is for.
pub open spec fn title_doc() -> Seq<char> {
    "Names the record — lists, links, briefs."@
}

/// What the date role is for.
pub open spec fn date_doc() -> Seq<char> {
    "Places the record on the KB's timeline — sorting, recency."@
}

/// `role` is the title role.
pub open spec fn is_title_role(role: RoleSpec) -> bool {
    &&& role.name@ == "title"@
    &&& role.doc@ == title_doc()
    &&& role.binds == Binding::Title
}

/// `role` is the date role.
pub open spec fn is_date_role(role: RoleSpec) -> bool {
    &&& role.name@ == "date"@
    &&& role.doc@ == date_doc()
    &&& role.binds == Binding::Timeline
}

/// The role called `title` names records and the role called `date` places
/// them in time; no role is both, and their docs say what each is for.
pub proof fn law_roles_bind_by_name(role: RoleSpec)
    ensures
        is_title_role(role) ==> role.name@ == "title"@ && role.binds == Binding::Title
            && role.doc@ == "Names the record — lists, links, briefs."@,
        is_date_role(role) ==> role.name@ == "date"@ && role.binds == Binding::Timeline
            && role.doc@ == "Places the record on the KB's timeline — sorting, recency."@,
        !(is_title_role(role) && is_date_role(role)),
{
}

fn title_spec() -> (role: RoleSpec)
    ensures
        is_title_role(role),
{
    RoleSpec {
        name: String::from_str("title"),
        doc: String::from_str("Names the record — lists, links, briefs."),
        binds: Binding::Title,
    }
}

fn date_spec() -> (role: RoleSpec)
    ensures
        is_date_role(role),
{
    RoleSpec {
        name: String::from_str("date"),
        doc: String::from_str("Places the record on the KB's timeline — sorting, recency."),
        binds: Binding::Timeline,
    }
}

/// The roles of the blank template's one namespace: a title and a date.
pub fn blank_roles() -> (roles: Vec<RoleSpec>)
    ensures
        roles@.len() == 2,
        is_title_role(roles@[0]),
        is_date_role(roles@[1]),
{
    let mut roles = Vec::new();
    roles.push(title_spec());
    roles.push(date_spec());
    roles
}

/// The roles of a governance namespace: a title only.
pub fn title_role() -> (roles: Vec<RoleSpec>)
    ensures
        roles@.len() == 1,
        is_title_role(roles@[0]),
{
    let mut roles = Vec::new();
    roles.push(title_spec());
    roles
}

/// The roles of the knowledge namespace: a title and a date.
pub fn knowledge_roles() -> (roles: Vec<RoleSpec>)
    ensures
        roles@.len() == 2,
        is_title_role(roles@[0]),
        is_date_role(roles@[1]),
{
    let mut roles = Vec::new();
    roles.push(title_spec());
    roles.push(date_spec());
    roles
}

} // verus!
