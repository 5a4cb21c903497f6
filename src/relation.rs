//! Relation definitions between entity types, and the composition of the
//! descriptor that tells a resolution engine how to join from one entity type
//! to another, directly or through one junction entity type.
use vstd::prelude::*;

verus! {

/// How many rows of the target one row of the source relates to.
#[derive(Clone, Copy, Debug, PartialEq, Eq, Structural)]
pub enum RelationType {
    HasOne,
    HasMany,
}

/// What the database does to referencing rows when a referenced row changes.
#[derive(Clone, Copy, Debug, PartialEq, Eq, Structural)]
pub enum ForeignKeyAction {
    Restrict,
    Cascade,
    SetNull,
    NoAction,
    SetDefault,
}

/// How the column pairs of a join condition are combined.
#[derive(Clone, Copy, Debug, PartialEq, Eq, Structural)]
pub enum ConditionType {
    Any,
    All,
}

/// A join between two tables: rows of `from_tbl` whose `from_col` columns
/// match the `to_col` columns of rows of `to_tbl`.
#[derive(Clone, Debug, PartialEq, Eq)]
pub struct RelationDef {
    pub rel_type: RelationType,
    pub from_tbl: String,
    pub to_tbl: String,
    pub from_col: Vec<String>,
    pub to_col: Vec<String>,
    pub is_owner: bool,
    pub on_delete: Option<ForeignKeyAction>,
    pub on_update: Option<ForeignKeyAction>,
    pub fk_name: Option<String>,
    pub condition_type: ConditionType,
}

/// A relation definition with every name taken as its characters.
pub struct RelationDefView {
    pub rel_type: RelationType,
    pub from_tbl: Seq<char>,
    pub to_tbl: Seq<char>,
    pub from_col: Seq<Seq<char>>,
    pub to_col: Seq<Seq<char>>,
    pub is_owner: bool,
    pub on_delete: Option<ForeignKeyAction>,
    pub on_update: Option<ForeignKeyAction>,
    pub fk_name: Option<Seq<char>>,
    pub condition_type: ConditionType,
}

pub open spec fn names_view(v: Seq<String>) -> Seq<Seq<char>> {
    v.map_values(|s: String| s@)
}

pub open spec fn opt_text_view(o: Option<String>) -> Option<Seq<char>> {
    match o {
        Some(s) => Some(s@),
        None => None,
    }
}

impl View for RelationDef {
    type V = RelationDefView;

    open spec fn view(&self) -> RelationDefView {
        RelationDefView {
            rel_type: self.rel_type,
            from_tbl: self.from_tbl@,
            to_tbl: self.to_tbl@,
            from_col: names_view(self.from_col@),
            to_col: names_view(self.to_col@),
            is_owner: self.is_owner,
            on_delete: self.on_delete,
            on_update: self.on_update,
            fk_name: opt_text_view(self.fk_name),
            condition_type: self.condition_type,
        }
    }
}

impl RelationDefView {
    /// The same join walked from the other end: the tables and the column
    /// lists trade places, ownership flips, and the constraint name, which
    /// belongs to the declaring side, is dropped.
    pub open spec fn reversed(self) -> RelationDefView {
        RelationDefView {
            rel_type: self.rel_type,
            from_tbl: self.to_tbl,
            to_tbl: self.from_tbl,
            from_col: self.to_col,
            to_col: self.from_col,
            is_owner: !self.is_owner,
            on_delete: self.on_delete,
            on_update: self.on_update,
            fk_name: None,
            condition_type: self.condition_type,
        }
    }
}

fn clone_names(v: &Vec<String>) -> (r: Vec<String>)
    ensures
        r@ == v@,
{
    let mut r: Vec<String> = Vec::new();
    let mut i: usize = 0;
    while i < v.len()
        invariant
            i <= v@.len(),
            r@ == v@.subrange(0, i as int),
        decreases v@.len() - i,
    {
        r.push(v[i].clone());
        i += 1;
    }
    assert(r@ =~= v@);
    r
}

fn clone_text(o: &Option<String>) -> (r: Option<String>)
    ensures
        r == *o,
{
    match o {
        Some(s) => Some(s.clone()),
        None => None,
    }
}

impl RelationDef {
    /// Turns a relation declared from the far side into one that can be
    /// walked forward from the near side.
    pub fn reverse(self) -> (r: RelationDef)
        ensures
            r@ == self@.reversed(),
    {
        RelationDef {
            rel_type: self.rel_type,
            from_tbl: self.to_tbl,
            to_tbl: self.from_tbl,
            from_col: self.to_col,
            to_col: self.from_col,
            is_owner: !self.is_owner,
            on_delete: self.on_delete,
            on_update: self.on_update,
            fk_name: None,
            condition_type: self.condition_type,
        }
    }

    fn copied(&self) -> (r: RelationDef)
        ensures
            r@ == self@,
    {
        RelationDef {
            rel_type: self.rel_type,
            from_tbl: self.from_tbl.clone(),
            to_tbl: self.to_tbl.clone(),
            from_col: clone_names(&self.from_col),
            to_col: clone_names(&self.to_col),
            is_owner: self.is_owner,
            on_delete: self.on_delete,
            on_update: self.on_update,
            fk_name: clone_text(&self.fk_name),
            condition_type: self.condition_type,
        }
    }
}

/// A relation as an entity type declares it, under its name.
#[derive(Clone, Debug, PartialEq, Eq)]
pub struct NamedRelation {
    pub name: String,
    pub def: RelationDef,
}

/// The direct relations that one entity type declares to its neighbours.
#[derive(Clone, Debug, PartialEq, Eq)]
pub struct EntityRelations {
    pub table: String,
    pub relations: Vec<NamedRelation>,
}

/// The definition of the first relation named `name` in `rels` at index `i`
/// or later.
pub open spec fn find_from(rels: Seq<NamedRelation>, name: Seq<char>, i: int) -> Option<
    RelationDefView,
>
    decreases rels.len() - i,
{
    if i < 0 || i >= rels.len() {
        None
    } else if rels[i].name@ == name {
        Some(rels[i].def@)
    } else {
        find_from(rels, name, i + 1)
    }
}

/// `d` is a relation that leads to `table`.
pub open spec fn leads_to(d: Option<RelationDefView>, table: Seq<char>) -> bool {
    d is Some && d.unwrap().to_tbl == table
}

impl EntityRelations {
    /// The relation that this entity type declares under `name`: the first
    /// one of that name.
    pub open spec fn declared(&self, name: Seq<char>) -> Option<RelationDefView> {
        find_from(self.relations@, name, 0)
    }

    /// Looks up the relation declared under `name`.
    pub fn relation(&self, name: &str) -> (r: Option<&RelationDef>)
        ensures
            match r {
                Some(d) => self.declared(name@) == Some(d@),
                None => self.declared(name@) is None,
            },
    {
        let key = name.to_owned();
        let mut i: usize = 0;
        while i < self.relations.len()
            invariant
                i <= self.relations@.len(),
                key@ == name@,
                self.declared(name@) == find_from(self.relations@, name@, i as int),
            decreases self.relations@.len() - i,
        {
            if self.relations[i].name == key {
                return Some(&self.relations[i].def);
            }
            i += 1;
        }
        None
    }
}

/// How to join from the `source` entity type to the `target` entity type:
/// through `via` first, where a junction lies between them, and then `to`.
#[derive(Clone, Debug, PartialEq, Eq)]
pub struct RelationDescriptor {
    pub source: String,
    pub target: String,
    pub to: RelationDef,
    pub via: Option<RelationDef>,
}

pub struct RelationDescriptorView {
    pub source: Seq<char>,
    pub target: Seq<char>,
    pub to: RelationDefView,
    pub via: Option<RelationDefView>,
}

impl View for RelationDescriptor {
    type V = RelationDescriptorView;

    open spec fn view(&self) -> RelationDescriptorView {
        RelationDescriptorView {
            source: self.source@,
            target: self.target@,
            to: self.to@,
            via: match self.via {
                Some(d) => Some(d@),
                None => None,
            },
        }
    }
}

/// A relation that a composition names is not declared, or does not lead
/// where the composition needs it to; each carries the relation's name.
#[derive(Clone, Debug, PartialEq, Eq)]
pub enum CompositionError {
    MissingRelation(String),
    WrongTarget(String),
}

/// The descriptor for a direct neighbour: `source` declares the relation
/// named `relation`, which must lead to `target`, and the descriptor walks
/// exactly that relation.
pub fn compose_direct(source: &EntityRelations, target: &str, relation: &str) -> (r: Result<
    RelationDescriptor,
    CompositionError,
>)
    ensures
        match r {
            Ok(desc) => {
                &&& leads_to(source.declared(relation@), target@)
                &&& desc@ == (RelationDescriptorView {
                    source: source.table@,
                    target: target@,
                    to: source.declared(relation@).unwrap(),
                    via: None,
                })
            },
            Err(CompositionError::MissingRelation(n)) => {
                &&& source.declared(relation@) is None
                &&& n@ == relation@
            },
            Err(CompositionError::WrongTarget(n)) => {
                &&& source.declared(relation@) is Some
                &&& !leads_to(source.declared(relation@), target@)
                &&& n@ == relation@
            },
        },
{
    match source.relation(relation) {
        None => Err(CompositionError::MissingRelation(relation.to_owned())),
        Some(d) => {
            if d.to_tbl != target.to_owned() {
                Err(CompositionError::WrongTarget(relation.to_owned()))
            } else {
                Ok(
                    RelationDescriptor {
                        source: source.table.clone(),
                        target: target.to_owned(),
                        to: d.copied(),
                        via: None,
                    },
                )
            }
        },
    }
}

/// The descriptor for a neighbour reached through the junction entity type
/// `junction`. The junction declares `target_relation`, leading to `target`,
/// and `source_relation`, leading back to `source`. The descriptor first walks
/// the reverse of `source_relation`, from the source into the junction, and
/// then `target_relation`, from the junction to the target. The target
/// relation is checked first.
pub fn compose_via_junction(
    source: &str,
    source_relation: &str,
    junction: &EntityRelations,
    target: &str,
    target_relation: &str,
) -> (r: Result<RelationDescriptor, CompositionError>)
    ensures
        match r {
            Ok(desc) => {
                &&& leads_to(junction.declared(target_relation@), target@)
                &&& leads_to(junction.declared(source_relation@), source@)
                &&& desc@ == (RelationDescriptorView {
                    source: source@,
                    target: target@,
                    to: junction.declared(target_relation@).unwrap(),
                    via: Some(junction.declared(source_relation@).unwrap().reversed()),
                })
            },
            Err(CompositionError::MissingRelation(n)) => {
                ||| junction.declared(target_relation@) is None && n@ == target_relation@
                ||| {
                    &&& leads_to(junction.declared(target_relation@), target@)
                    &&& junction.declared(source_relation@) is None
                    &&& n@ == source_relation@
                }
            },
            Err(CompositionError::WrongTarget(n)) => {
                ||| {
                    &&& junction.declared(target_relation@) is Some
                    &&& !leads_to(junction.declared(target_relation@), target@)
                    &&& n@ == target_relation@
                }
                ||| {
                    &&& leads_to(junction.declared(target_relation@), target@)
                    &&& junction.declared(source_relation@) is Some
                    &&& !leads_to(junction.declared(source_relation@), source@)
                    &&& n@ == source_relation@
                }
            },
        },
{
    let to = match junction.relation(target_relation) {
        None => {
            return Err(CompositionError::MissingRelation(target_relation.to_owned()));
        },
        Some(d) => d,
    };
    if to.to_tbl != target.to_owned() {
        return Err(CompositionError::WrongTarget(target_relation.to_owned()));
    }
    let back = match junction.relation(source_relation) {
        None => {
            return Err(CompositionError::MissingRelation(source_relation.to_owned()));
        },
        Some(d) => d,
    };
    if back.to_tbl != source.to_owned() {
        return Err(CompositionError::WrongTarget(source_relation.to_owned()));
    }
    Ok(
        RelationDescriptor {
            source: source.to_owned(),
            target: target.to_owned(),
            to: to.copied(),
            via: Some(back.copied().reverse()),
        },
    )
}

} // verus!
