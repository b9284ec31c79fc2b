use kyyn_templates::roles::{blank_roles, knowledge_roles, title_role, Binding};

const TITLE_DOC: &str = "Names the record — lists, links, briefs.";
const DATE_DOC: &str = "Places the record on the KB's timeline — sorting, recency.";

#[test]
fn the_blank_namespace_declares_a_title_and_a_date() {
    let roles = blank_roles();
    assert_eq!(roles.len(), 2);
    assert_eq!(roles[0].name, "title");
    assert_eq!(roles[0].doc, TITLE_DOC);
    assert_eq!(roles[0].binds, Binding::Title);
    assert_eq!(roles[1].name, "date");
    assert_eq!(roles[1].doc, DATE_DOC);
    assert_eq!(roles[1].binds, Binding::Timeline);
}

#[test]
fn the_governance_namespace_declares_only_a_title() {
    let roles = title_role();
    assert_eq!(roles.len(), 1);
    assert_eq!(roles[0].name, "title");
    assert_eq!(roles[0].doc, TITLE_DOC);
    assert_eq!(roles[0].binds, Binding::Title);
}

#[test]
fn the_knowledge_namespace_declares_a_title_and_a_date() {
    let roles = knowledge_roles();
    let names: Vec<&str> = roles.iter().map(|r| r.name.as_str()).collect();
    assert_eq!(names, vec!["title", "date"]);
    assert_eq!(roles[1].doc, DATE_DOC);
    assert_eq!(roles[1].binds, Binding::Timeline);
}
