//! The mathematical model of the validation core: which schema-declared
//! property names are missing from an entity's property list, and the laws
//! that computation obeys.

use vstd::prelude::*;
use crate::property::{EntityProperty, SchemaProperty};

verus! {

broadcast use vstd::seq_lib::group_seq_properties;

/// The names declared by a sequence of schema properties, in declaration order.
pub open spec fn schema_names(props: Seq<SchemaProperty>) -> Seq<Seq<char>> {
    props.map_values(|p: SchemaProperty| p.name@)
}

/// The names carried by a sequence of entity properties, in order.
pub open spec fn entity_names(props: Seq<EntityProperty>) -> Seq<Seq<char>> {
    props.map_values(|p: EntityProperty| p.name@)
}

/// The schema names that occur nowhere among the entity names: each such name
/// is listed exactly once, at the position of its first occurrence in the
/// schema. Values and declared types play no role; only names do.
pub open spec fn missing_names(schema: Seq<Seq<char>>, entity: Seq<Seq<char>>) -> Seq<Seq<char>>
    decreases schema.len(),
{
    if schema.len() == 0 {
        Seq::empty()
    } else {
        let rest = missing_names(schema.drop_last(), entity);
        let last = schema.last();
        if entity.contains(last) || schema.drop_last().contains(last) {
            rest
        } else {
            rest.push(last)
        }
    }
}

/// The name-to-property map induced by a schema's property list: a later
/// declaration of a name shadows an earlier one (ordinary map insertion).
pub open spec fn props_map_of(props: Seq<SchemaProperty>) -> Map<Seq<char>, SchemaProperty>
    decreases props.len(),
{
    if props.len() == 0 {
        Map::empty()
    } else {
        props_map_of(props.drop_last()).insert(props.last().name@, props.last())
    }
}

/// Membership in the missing-keys report: a name is reported exactly when the
/// schema declares it and the entity does not supply it.
pub proof fn lemma_missing_names_contains(
    schema: Seq<Seq<char>>,
    entity: Seq<Seq<char>>,
    name: Seq<char>,
)
    ensures
        missing_names(schema, entity).contains(name) <==> (schema.contains(name)
            && !entity.contains(name)),
    decreases schema.len(),
{
    if schema.len() == 0 {
    } else {
        lemma_missing_names_contains(schema.drop_last(), entity, name);
        assert(schema =~= schema.drop_last().push(schema.last()));
        assert(schema.contains(name) <==> (schema.drop_last().contains(name) || schema.last()
            == name)) by {
            assert(schema.drop_last().push(schema.last()).contains(name) <==> (schema.last() == name
                || schema.drop_last().contains(name)));
        }
    }
}

/// The missing-keys report is a set-difference computation: viewed as a set,
/// it is exactly (schema names) minus (entity names).
pub proof fn lemma_missing_names_is_set_difference(schema: Seq<Seq<char>>, entity: Seq<Seq<char>>)
    ensures
        missing_names(schema, entity).to_set() == schema.to_set().difference(entity.to_set()),
{
    assert forall|name: Seq<char>|
        missing_names(schema, entity).to_set().contains(name) <==> schema.to_set().difference(
            entity.to_set(),
        ).contains(name) by {
        lemma_missing_names_contains(schema, entity, name);
    }
    assert(missing_names(schema, entity).to_set() =~= schema.to_set().difference(entity.to_set()));
}

/// The missing-keys report never lists a name twice.
pub proof fn lemma_missing_names_no_duplicates(schema: Seq<Seq<char>>, entity: Seq<Seq<char>>)
    ensures
        missing_names(schema, entity).no_duplicates(),
    decreases schema.len(),
{
    if schema.len() == 0 {
    } else {
        lemma_missing_names_no_duplicates(schema.drop_last(), entity);
        let rest = missing_names(schema.drop_last(), entity);
        let last = schema.last();
        if !entity.contains(last) && !schema.drop_last().contains(last) {
            lemma_missing_names_contains(schema.drop_last(), entity, last);
            assert(!rest.contains(last));
            assert forall|i: int, j: int|
                0 <= i < rest.push(last).len() && 0 <= j < rest.push(last).len() && i != j implies
                rest.push(last)[i] != rest.push(last)[j] by {
                if i < rest.len() && j < rest.len() {
                } else if j == rest.len() {
                    assert(rest[i] != last) by {
                        if rest[i] == last {
                            assert(rest.contains(last));
                        }
                    }
                } else {
                    assert(rest[j] != last) by {
                        if rest[j] == last {
                            assert(rest.contains(last));
                        }
                    }
                }
            }
        }
    }
}

/// The report depends on the entity's names only as a set: reordering the
/// entity's property names (or repeating them) cannot change it.
pub proof fn lemma_missing_names_entity_order_irrelevant(
    schema: Seq<Seq<char>>,
    entity1: Seq<Seq<char>>,
    entity2: Seq<Seq<char>>,
)
    requires
        entity1.to_set() == entity2.to_set(),
    ensures
        missing_names(schema, entity1) == missing_names(schema, entity2),
    decreases schema.len(),
{
    if schema.len() == 0 {
    } else {
        lemma_missing_names_entity_order_irrelevant(schema.drop_last(), entity1, entity2);
        assert(entity1.contains(schema.last()) <==> entity2.contains(schema.last())) by {
            assert(entity1.contains(schema.last()) <==> entity1.to_set().contains(schema.last()));
            assert(entity2.contains(schema.last()) <==> entity2.to_set().contains(schema.last()));
        }
    }
}

/// The report depends on the entity's properties only through their names:
/// the values attached to those names play no role.
pub proof fn lemma_missing_names_values_irrelevant(
    schema: Seq<Seq<char>>,
    entity1: Seq<EntityProperty>,
    entity2: Seq<EntityProperty>,
)
    requires
        entity_names(entity1) == entity_names(entity2),
    ensures
        missing_names(schema, entity_names(entity1)) == missing_names(
            schema,
            entity_names(entity2),
        ),
{
}

/// The missing-keys computation is a pure function of the schema's and the
/// entity's names: two results computed from identical inputs are identical.
pub proof fn lemma_missing_names_deterministic(
    schema: Seq<Seq<char>>,
    entity: Seq<Seq<char>>,
    report1: Seq<Seq<char>>,
    report2: Seq<Seq<char>>,
)
    requires
        report1 == missing_names(schema, entity),
        report2 == missing_names(schema, entity),
    ensures
        report1 == report2,
{
}

/// A schema that declares no properties reports nothing missing, whatever
/// the entity supplies.
pub proof fn lemma_empty_schema_nothing_missing(entity: Seq<Seq<char>>)
    ensures
        missing_names(Seq::<Seq<char>>::empty(), entity) == Seq::<Seq<char>>::empty(),
{
}

} // verus!
