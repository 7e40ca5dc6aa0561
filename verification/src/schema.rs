//! Schemas, the builder that produces them, and entity construction.

use vstd::prelude::*;
use crate::missing::{
    entity_names, lemma_missing_names_contains, lemma_missing_names_no_duplicates, missing_names,
    props_map_of, schema_names,
};
use crate::property::{EntityProperty, SchemaProperty, Type};

verus! {

broadcast use vstd::seq_lib::group_seq_properties;

/// An immutable named collection of typed property declarations, produced
/// only by `SchemaBuilder::build`.
#[derive(Debug)]
pub struct Schema {
    pub name: String,
    pub properties: Vec<SchemaProperty>,
}

impl Clone for Schema {
    /// A clone is equal to the original: same name, same property list.
    fn clone(&self) -> (s: Self)
        ensures
            s.name == self.name,
            s.properties@ == self.properties@,
    {
        let properties = self.properties.clone();
        proof {
            assert forall|k: int| 0 <= k < self.properties@.len() implies properties@[k]
                == self.properties@[k] by {
                assert(vstd::pervasive::cloned::<SchemaProperty>(
                    self.properties@[k],
                    properties@[k],
                ));
            }
            assert(properties@ =~= self.properties@);
        }
        Schema { name: self.name.clone(), properties }
    }
}

/// A constructed record instance: an id and a list of property values.
/// Entities are value objects with no further lifecycle.
pub struct Entity {
    pub id: String,
    pub props: Vec<EntityProperty>,
}

/// A transient, mutable accumulator of property declarations, consumed by
/// `build`. Once `build` has run, the builder is gone: no later use of it can
/// reach the `Schema` it produced.
pub struct SchemaBuilder {
    pub name: String,
    pub props: Vec<SchemaProperty>,
}

impl SchemaBuilder {
    /// Starts a builder with the given schema name and no properties. The
    /// name is not validated: empty or duplicate schema names are permitted.
    pub fn named(name: &str) -> (builder: SchemaBuilder)
        ensures
            builder.name@ == name@,
            builder.props@ == Seq::<SchemaProperty>::empty(),
    {
        SchemaBuilder { name: name.to_string(), props: Vec::new() }
    }

    /// Appends a `(name, type)` declaration to the accumulator. Declarations
    /// are kept in call order, and no duplicate-name check is made: a name
    /// declared twice remains in the list twice.
    pub fn with_property(self, prop_name: &str, prop_type: Type) -> (builder: SchemaBuilder)
        ensures
            builder.name@ == self.name@,
            builder.props@.len() == self.props@.len() + 1,
            builder.props@.drop_last() == self.props@,
            builder.props@.last().name@ == prop_name@,
            builder.props@.last().prop_type == prop_type,
    {
        let ghost declared = self.props@;
        let mut props = self.props;
        props.push(SchemaProperty::new(prop_name, prop_type));
        proof {
            assert(props@.drop_last() =~= declared);
        }
        SchemaBuilder { name: self.name, props }
    }

    /// Finalizes the accumulator into an immutable `Schema`, consuming the
    /// builder: the schema's property list equals the builder's, in insertion
    /// order.
    pub fn build(self) -> (schema: Schema)
        ensures
            schema.name@ == self.name@,
            schema.properties@ == self.props@,
    {
        Schema { name: self.name, properties: self.props }
    }
}

/// Whether any of the entity's properties carries the given name.
fn entity_supplies_name(entity_props: &[EntityProperty], name: &String) -> (found: bool)
    ensures
        found == entity_names(entity_props@).contains(name@),
{
    let n = entity_props.len();
    let mut i: usize = 0;
    while i < n
        invariant
            n == entity_props@.len(),
            i <= n,
            forall|j: int| 0 <= j < i ==> entity_props@[j].name@ != name@,
        decreases n - i,
    {
        let p = vstd::slice::slice_index_get(entity_props, i);
        if p.name == *name {
            proof {
                assert(entity_names(entity_props@)[i as int] == name@);
            }
            return true;
        }
        i += 1;
    }
    proof {
        assert forall|j: int| 0 <= j < entity_names(entity_props@).len() implies entity_names(
            entity_props@,
        )[j] != name@ by {
            assert(entity_props@[j].name@ != name@);
        }
    }
    false
}

/// Whether one of the first `upto` schema declarations carries the given name.
fn schema_declares_name_before(props: &Vec<SchemaProperty>, upto: usize, name: &String) -> (found:
    bool)
    requires
        upto <= props@.len(),
    ensures
        found == schema_names(props@).take(upto as int).contains(name@),
{
    let mut i: usize = 0;
    while i < upto
        invariant
            upto <= props@.len(),
            i <= upto,
            forall|j: int| 0 <= j < i ==> props@[j].name@ != name@,
        decreases upto - i,
    {
        if props[i].name == *name {
            proof {
                assert(schema_names(props@).take(upto as int)[i as int] == name@);
            }
            return true;
        }
        i += 1;
    }
    proof {
        assert forall|j: int|
            0 <= j < schema_names(props@).take(upto as int).len() implies schema_names(
            props@,
        ).take(upto as int)[j] != name@ by {
            assert(props@[j].name@ != name@);
        }
    }
    false
}

/// The position of the property with the given name, if the list holds one.
fn index_of_name(props: &Vec<SchemaProperty>, name: &String) -> (position: Option<usize>)
    ensures
        match position {
            Some(j) => j < props@.len() && props@[j as int].name@ == name@,
            None => !schema_names(props@).contains(name@),
        },
{
    let n = props.len();
    let mut i: usize = 0;
    while i < n
        invariant
            n == props@.len(),
            i <= n,
            forall|j: int| 0 <= j < i ==> props@[j].name@ != name@,
        decreases n - i,
    {
        if props[i].name == *name {
            return Some(i);
        }
        i += 1;
    }
    proof {
        assert forall|j: int| 0 <= j < schema_names(props@).len() implies schema_names(
            props@,
        )[j] != name@ by {
            assert(props@[j].name@ != name@);
        }
    }
    None
}

impl Schema {
    /// The validation core: the schema property names missing from the given
    /// entity property list, computed by set subtraction over names alone.
    /// Each missing name is reported once, in schema declaration order; the
    /// values and declared types attached to the names play no role.
    pub fn find_missing_keys(&self, entity_props: &[EntityProperty]) -> (missing: Vec<String>)
        ensures
            missing.deep_view() == missing_names(
                schema_names(self.properties@),
                entity_names(entity_props@),
            ),
    {
        let ghost sn = schema_names(self.properties@);
        let ghost en = entity_names(entity_props@);
        let mut missing: Vec<String> = Vec::new();
        let n = self.properties.len();
        let mut i: usize = 0;
        while i < n
            invariant
                n == self.properties@.len(),
                i <= n,
                sn == schema_names(self.properties@),
                en == entity_names(entity_props@),
                missing.deep_view() == missing_names(sn.take(i as int), en),
            decreases n - i,
        {
            let p = &self.properties[i];
            let supplied = entity_supplies_name(entity_props, &p.name);
            let declared_before = schema_declares_name_before(&self.properties, i, &p.name);
            proof {
                assert(sn.take(i + 1).drop_last() =~= sn.take(i as int));
                assert(sn.take(i + 1).last() == sn[i as int]);
                assert(sn[i as int] == self.properties@[i as int].name@);
            }
            if !supplied && !declared_before {
                let ghost reported = missing.deep_view();
                missing.push(p.name.clone());
                proof {
                    assert(missing.deep_view() =~= reported.push(p.name@));
                }
            }
            i += 1;
        }
        proof {
            assert(sn.take(n as int) =~= sn);
        }
        missing
    }

    /// The name-to-property mapping induced by this schema's declarations,
    /// as an association list: one entry per declared name, in order of each
    /// name's first declaration, carrying the last declaration of that name
    /// (later declarations of a duplicate name shadow earlier ones, per
    /// ordinary map-insertion semantics).
    pub fn props_map(&self) -> (mapping: Vec<SchemaProperty>)
        ensures
            schema_names(mapping@) == missing_names(
                schema_names(self.properties@),
                Seq::<Seq<char>>::empty(),
            ),
            forall|k: int|
                0 <= k < mapping@.len() ==> props_map_of(self.properties@).contains_key(
                    (#[trigger] mapping@[k]).name@,
                ) && mapping@[k] == props_map_of(self.properties@)[mapping@[k].name@],
            forall|k1: int, k2: int|
                0 <= k1 < k2 < mapping@.len() ==> (#[trigger] mapping@[k1]).name@ != (
                #[trigger] mapping@[k2]).name@,
    {
        let ghost props = self.properties@;
        let ghost sn = schema_names(props);
        let ghost none: Seq<Seq<char>> = Seq::empty();
        let mut mapping: Vec<SchemaProperty> = Vec::new();
        let n = self.properties.len();
        let mut i: usize = 0;
        while i < n
            invariant
                n == props.len(),
                props == self.properties@,
                sn == schema_names(props),
                none == Seq::<Seq<char>>::empty(),
                i <= n,
                schema_names(mapping@) == missing_names(sn.take(i as int), none),
                forall|k: int|
                    0 <= k < mapping@.len() ==> props_map_of(props.take(i as int)).contains_key(
                        (#[trigger] mapping@[k]).name@,
                    ) && mapping@[k] == props_map_of(props.take(i as int))[mapping@[k].name@],
            decreases n - i,
        {
            let p = self.properties[i].clone();
            proof {
                assert(sn.take(i + 1).drop_last() =~= sn.take(i as int));
                assert(sn.take(i + 1).last() == sn[i as int]);
                assert(props.take(i + 1).drop_last() =~= props.take(i as int));
                assert(props.take(i + 1).last() == props[i as int]);
                assert(sn[i as int] == props[i as int].name@);
                lemma_missing_names_contains(sn.take(i as int), none, p.name@);
                lemma_missing_names_no_duplicates(sn.take(i as int), none);
            }
            match index_of_name(&mapping, &p.name) {
                Some(j) => {
                    let ghost before = mapping@;
                    mapping[j] = p;
                    proof {
                        assert(before[j as int].name@ == props[i as int].name@);
                        assert(schema_names(before).contains(p.name@)) by {
                            assert(schema_names(before)[j as int] == p.name@);
                        }
                        assert(schema_names(mapping@) =~= schema_names(before));
                        assert forall|k: int| 0 <= k < mapping@.len() && k != j implies (
                        #[trigger] mapping@[k]).name@ != props[i as int].name@ by {
                            assert(schema_names(before)[k] == before[k].name@);
                            assert(schema_names(before)[j as int] == before[j as int].name@);
                        }
                    }
                },
                None => {
                    let ghost before = mapping@;
                    mapping.push(p);
                    proof {
                        assert(schema_names(mapping@) =~= schema_names(before).push(
                            props[i as int].name@,
                        ));
                        assert forall|k: int| 0 <= k < before.len() implies (
                        #[trigger] before[k]).name@ != props[i as int].name@ by {
                            assert(schema_names(before)[k] == before[k].name@);
                        }
                    }
                },
            }
            i += 1;
        }
        proof {
            assert(sn.take(n as int) =~= sn);
            assert(props.take(n as int) =~= props);
            lemma_missing_names_no_duplicates(sn, none);
            assert forall|k1: int, k2: int|
                0 <= k1 < k2 < mapping@.len() implies (#[trigger] mapping@[k1]).name@ != (
            #[trigger] mapping@[k2]).name@ by {
                assert(schema_names(mapping@)[k1] == mapping@[k1].name@);
                assert(schema_names(mapping@)[k2] == mapping@[k2].name@);
            }
        }
        mapping
    }

    /// Attempts to construct an entity against this schema.
    ///
    /// Construction is report-only: the call always returns `Ok`, whatever
    /// properties were supplied and whichever declared names they miss, and
    /// the entity it returns carries an empty id and an empty property list.
    /// The `Err` arm (a list of missing names) is declared but never taken
    /// under this policy. The missing-keys report that accompanies entity
    /// creation is computed by `find_missing_keys`; an unverified caller
    /// emits it to its diagnostic channel.
    pub fn create_entity(&self, entity_props: Vec<EntityProperty>) -> (result: Result<
        Entity,
        Vec<String>,
    >)
        ensures
            result is Ok,
            result->Ok_0.id@ == Seq::<char>::empty(),
            result->Ok_0.props@ == Seq::<EntityProperty>::empty(),
    {
        Ok(Entity { id: String::new(), props: Vec::new() })
    }
}

} // verus!
