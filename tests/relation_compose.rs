use entity_hooks::relation::{
    compose_direct, compose_via_junction, CompositionError, ConditionType, EntityRelations,
    ForeignKeyAction, NamedRelation, RelationDef, RelationDescriptor, RelationType,
};

fn belongs_to(from: &str, from_col: &str, to: &str, to_col: &str, fk: &str) -> RelationDef {
    RelationDef {
        rel_type: RelationType::HasOne,
        from_tbl: from.to_string(),
        to_tbl: to.to_string(),
        from_col: vec![from_col.to_string()],
        to_col: vec![to_col.to_string()],
        is_owner: true,
        on_delete: Some(ForeignKeyAction::Cascade),
        on_update: Some(ForeignKeyAction::NoAction),
        fk_name: Some(fk.to_string()),
        condition_type: ConditionType::All,
    }
}

fn named(name: &str, def: RelationDef) -> NamedRelation {
    NamedRelation { name: name.to_string(), def }
}

fn order() -> EntityRelations {
    EntityRelations {
        table: "order".to_string(),
        relations: vec![named(
            "customer",
            belongs_to("order", "customer_id", "customer", "id", "fk-order-customer"),
        )],
    }
}

fn post_tag() -> EntityRelations {
    EntityRelations {
        table: "post_tag".to_string(),
        relations: vec![
            named("post", belongs_to("post_tag", "post_id", "post", "id", "fk-post_tag-post")),
            named("tag", belongs_to("post_tag", "tag_id", "tag", "id", "fk-post_tag-tag")),
        ],
    }
}

#[test]
fn reverse_swaps_ends_and_drops_constraint_name() {
    let d = belongs_to("post_tag", "post_id", "post", "id", "fk-post_tag-post");
    let r = d.clone().reverse();
    assert_eq!(r.rel_type, RelationType::HasOne);
    assert_eq!(r.from_tbl, "post");
    assert_eq!(r.to_tbl, "post_tag");
    assert_eq!(r.from_col, vec!["id".to_string()]);
    assert_eq!(r.to_col, vec!["post_id".to_string()]);
    assert!(!r.is_owner);
    assert_eq!(r.on_delete, Some(ForeignKeyAction::Cascade));
    assert_eq!(r.on_update, Some(ForeignKeyAction::NoAction));
    assert_eq!(r.fk_name, None);
    assert_eq!(r.condition_type, ConditionType::All);
}

#[test]
fn order_to_customer_walks_the_declared_relation() {
    let decl = order();
    let desc = compose_direct(&decl, "customer", "customer").unwrap();
    assert_eq!(
        desc,
        RelationDescriptor {
            source: "order".to_string(),
            target: "customer".to_string(),
            to: decl.relations[0].def.clone(),
            via: None,
        }
    );
}

#[test]
fn direct_with_unknown_relation_is_refused() {
    let r = compose_direct(&order(), "customer", "buyer");
    assert_eq!(r, Err(CompositionError::MissingRelation("buyer".to_string())));
}

#[test]
fn direct_to_another_table_is_refused() {
    let r = compose_direct(&order(), "invoice", "customer");
    assert_eq!(r, Err(CompositionError::WrongTarget("customer".to_string())));
}

#[test]
fn direct_takes_the_first_relation_of_a_name() {
    let mut decl = order();
    decl.relations.push(named(
        "customer",
        belongs_to("order", "other_id", "customer", "id", "fk-second"),
    ));
    let desc = compose_direct(&decl, "customer", "customer").unwrap();
    assert_eq!(desc.to.from_col, vec!["customer_id".to_string()]);
}

#[test]
fn post_to_tag_goes_through_post_tag() {
    let junction = post_tag();
    let desc = compose_via_junction("post", "post", &junction, "tag", "tag").unwrap();
    assert_eq!(desc.source, "post");
    assert_eq!(desc.target, "tag");
    assert_eq!(desc.via, Some(junction.relations[0].def.clone().reverse()));
    assert_eq!(desc.to, junction.relations[1].def);
    let first = desc.via.unwrap();
    assert_eq!(first.from_tbl, "post");
    assert_eq!(first.to_tbl, "post_tag");
    assert_eq!(first.from_col, vec!["id".to_string()]);
    assert_eq!(first.to_col, vec!["post_id".to_string()]);
    assert_eq!(desc.to.from_tbl, "post_tag");
    assert_eq!(desc.to.to_tbl, "tag");
}

#[test]
fn via_with_unknown_target_relation_is_refused() {
    let r = compose_via_junction("post", "post", &post_tag(), "tag", "label");
    assert_eq!(r, Err(CompositionError::MissingRelation("label".to_string())));
}

#[test]
fn via_with_unknown_source_relation_is_refused() {
    let r = compose_via_junction("post", "article", &post_tag(), "tag", "tag");
    assert_eq!(r, Err(CompositionError::MissingRelation("article".to_string())));
}

#[test]
fn via_with_target_relation_elsewhere_is_refused() {
    let r = compose_via_junction("post", "post", &post_tag(), "tag", "post");
    assert_eq!(r, Err(CompositionError::WrongTarget("post".to_string())));
}

#[test]
fn via_with_source_relation_elsewhere_is_refused() {
    let r = compose_via_junction("post", "tag", &post_tag(), "tag", "tag");
    assert_eq!(r, Err(CompositionError::WrongTarget("tag".to_string())));
}

#[test]
fn via_checks_target_relation_before_source_relation() {
    let r = compose_via_junction("post", "article", &post_tag(), "tag", "label");
    assert_eq!(r, Err(CompositionError::MissingRelation("label".to_string())));
}

#[test]
fn lookup_finds_declared_relation() {
    let junction = post_tag();
    assert_eq!(junction.relation("tag"), Some(&junction.relations[1].def));
    assert_eq!(junction.relation("author"), None);
}
