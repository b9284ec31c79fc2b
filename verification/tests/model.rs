use chrono::NaiveDate;
use kyyn_core::link::Link;
use kyyn_templates::model::{
    Charter, Entity, EntityType, LinkVerb, Relationship, SelfContext, Take, TakeKind,
    TimelineEntry,
};

#[test]
fn records_hold_what_a_page_says() {
    let e = Entity {
        id: "jane-doe".into(),
        title: "Jane Doe".into(),
        page_type: EntityType::Person,
        subtype: None,
        aliases: vec!["J. Doe".into(), "jane@acme.com".into()],
        email: Some("jane@acme.com".into()),
        location: Some("SF".into()),
        role: Some("CTO, Acme".into()),
        compiled: "CTO of Acme; deep infra background.".into(),
        timeline: vec![TimelineEntry {
            time: NaiveDate::from_ymd_opt(2026, 4, 7).unwrap(),
            entry: "Meeting — pushed back on pricing.".into(),
        }],
    };
    assert_eq!(e.clone(), e);
    assert_eq!(e.timeline[0].time.to_string(), "2026-04-07");

    let r = Relationship {
        id: "jane-doe-works-at-acme".into(),
        title: "Jane Doe works_at Acme".into(),
        from: Link::kb("entity", "jane-doe"),
        to: Link::kb("entity", "acme"),
        verb: LinkVerb::WorksAt,
        context: "Since 2024.".into(),
    };
    assert_eq!(r.from.raw(), "entity:jane-doe");
    assert_eq!(r.clone(), r);

    let t = Take {
        id: "acme-cto".into(),
        title: "Jane is CTO".into(),
        subject: Link::kb("entity", "jane-doe"),
        kind: TakeKind::Fact,
        claim: String::new(),
        confidence: None,
        valid_from: None,
        source: None,
    };
    assert_eq!(t.kind, TakeKind::Fact);
    assert_eq!(t.subject, Link::kb("entity", "jane-doe"));
}

#[test]
fn charter_and_owner_records() {
    let c = Charter {
        purpose: "Track FY training sessions.".into(),
        objectives: vec!["A list of sessions with attendees".into()],
        notes: "Period: 2025-05-01 to 2026-04-30.".into(),
    };
    assert_eq!(c.clone(), c);
    let s = SelfContext { name: "Owner".into(), role: "Owner".into(), notes: String::new() };
    assert_eq!(s.notes, "");
}
