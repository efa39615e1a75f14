use vstd::prelude::*;
use vstd::string::StringExecFns;
use crate::groups::Group;
use crate::url::{decimal, group_url, groups_root, push_decimal};

verus! {

/// The body of a batch accept or decline of relationship requests.
#[derive(Debug, Clone)]
pub struct BatchRequest {
    pub group_ids: Vec<usize>,
}

/// The kind of a relationship between two groups; `All` stands for both.
#[derive(Debug, Clone, Copy, PartialEq, Eq, Structural)]
pub enum RelationshipType {
    Enemy,
    Ally,
    All,
}

/// The path segment of a relationship kind.
pub open spec fn relationship_type_name(t: RelationshipType) -> Seq<char> {
    match t {
        RelationshipType::Enemy => "Enemies"@,
        RelationshipType::Ally => "Allies"@,
        RelationshipType::All => "All"@,
    }
}

impl RelationshipType {
    /// The path segment of this kind: `Enemies`, `Allies` or `All`.
    pub fn get_relationship_type_string(&self) -> (r: String)
        ensures
            r@ == relationship_type_name(*self),
    {
        match self {
            RelationshipType::Enemy => String::from_str("Enemies"),
            RelationshipType::Ally => String::from_str("Allies"),
            RelationshipType::All => String::from_str("All"),
        }
    }

    /// The kinds a call for this kind stands for: `All` is enemies then
    /// allies, any other kind is itself.
    pub fn expand(&self) -> (r: Vec<RelationshipType>)
        ensures
            *self == RelationshipType::All ==> r@ == seq![
                RelationshipType::Enemy,
                RelationshipType::Ally,
            ],
            *self != RelationshipType::All ==> r@ == seq![*self],
    {
        let mut r = Vec::new();
        match self {
            RelationshipType::All => {
                r.push(RelationshipType::Enemy);
                r.push(RelationshipType::Ally);
            },
            _ => r.push(*self),
        }
        r
    }
}

/// A group's relationships of one kind.
#[derive(Debug, Clone)]
pub struct GroupRelationships {
    pub group_id: usize,
    pub relationship_type: RelationshipType,
    pub total_group_count: usize,
    pub groups: Vec<Group>,
}

/// The query that lists relationships from the first row, up to a thousand.
pub const LIST_QUERY: &'static str = "?model.startRowIndex=0&model.maxRows=1000";

pub open spec fn relationships_path(group_id: usize, t: RelationshipType) -> Seq<char> {
    groups_root() + decimal(group_id as nat) + "/relationships/"@ + relationship_type_name(t)
}

fn push_relationships_path(group_id: usize, t: RelationshipType) -> (r: String)
    ensures
        r@ == relationships_path(group_id, t),
{
    let mut s = group_url(group_id as u64);
    s.append("/relationships/");
    let name = t.get_relationship_type_string();
    s.append(name.as_str());
    s
}

/// The listing of a group's relationships of one kind.
pub fn relationships_url(group_id: usize, relationship_type: RelationshipType) -> (r: String)
    ensures
        r@ == relationships_path(group_id, relationship_type)
            + "?model.startRowIndex=0&model.maxRows=1000"@,
{
    let mut s = push_relationships_path(group_id, relationship_type);
    s.append(LIST_QUERY);
    s
}

/// The listing of a group's pending relationship requests of one kind.
pub fn relationship_requests_url(group_id: usize, relationship_type: RelationshipType) -> (r:
    String)
    ensures
        r@ == relationships_path(group_id, relationship_type) + "/requests"@
            + "?model.startRowIndex=0&model.maxRows=1000"@,
{
    let mut s = push_relationships_path(group_id, relationship_type);
    s.append("/requests");
    s.append(LIST_QUERY);
    s
}

/// Where a batch of relationship requests of one kind is accepted (POST)
/// or declined (DELETE).
pub fn batch_requests_url(group_id: usize, relationship_type: RelationshipType) -> (r: String)
    ensures
        r@ == relationships_path(group_id, relationship_type) + "/requests"@,
{
    let mut s = push_relationships_path(group_id, relationship_type);
    s.append("/requests");
    s
}

/// Where one relationship request from `relation_group_id` is accepted
/// (POST) or declined (DELETE).
pub fn request_url(group_id: usize, relationship_type: RelationshipType, relation_group_id: usize) -> (r: String)
    ensures
        r@ == relationships_path(group_id, relationship_type) + "/requests/"@ + decimal(
            relation_group_id as nat,
        ),
{
    let mut s = push_relationships_path(group_id, relationship_type);
    s.append("/requests/");
    push_decimal(&mut s, relation_group_id as u64);
    s
}

/// The answer for `All`: the enemy listing followed by the ally listing,
/// with their counts added.
pub fn merge_relationships(
    group_id: usize,
    relationship_type: RelationshipType,
    enemies: GroupRelationships,
    allies: GroupRelationships,
) -> (r: GroupRelationships)
    requires
        enemies.total_group_count + allies.total_group_count <= usize::MAX,
    ensures
        r.group_id == group_id,
        r.relationship_type == relationship_type,
        r.total_group_count == enemies.total_group_count + allies.total_group_count,
        r.groups@ == enemies.groups@ + allies.groups@,
{
    let total = enemies.total_group_count + allies.total_group_count;
    let mut groups = enemies.groups;
    let mut more = allies.groups;
    groups.append(&mut more);
    GroupRelationships { group_id, relationship_type, total_group_count: total, groups }
}

} // verus!
