//! Table models used by tests: people, body and pet.
use vstd::prelude::*;

use crate::field::AliasedFieldName;
use crate::names::TableName;
use crate::record_schema::RecordSchema;
use crate::row::Row;
use crate::schema::r_pos::RPos;
use crate::schema::{matching_pairs, Schema};
use crate::test_support::is_plain_field;
use crate::text::string_of;
use crate::value::nn_sql_value::NNSqlValue;
use crate::value::sql_value::SqlValue;

verus! {

/// Whether `schema` has the fields `table.columns[0]`, `table.columns[1]`, ... at positions 0, 1, ...
pub open spec fn is_model_schema(schema: RecordSchema, table: Seq<char>, columns: Seq<Seq<char>>) -> bool {
    &&& schema.spec_inner().len() == columns.len()
    &&& forall|i: int|
        0 <= i < columns.len() ==> (#[trigger] schema.spec_inner()[i]).0 == RPos::spec_new(i as usize) && (
        schema.spec_inner()[i].1 matches Some(n) && is_plain_field(n, table, columns[i]))
}

/// - people:
///   - id BIGINT NOT NULL, PRIMARY KEY
///   - age INTEGER NOT NULL
#[derive(Clone, PartialEq, Debug)]
pub struct People;

impl People {
    /// `people`
    pub fn table_name() -> (r: TableName)
        ensures
            r@ == "people"@,
    {
        proof {
            reveal_strlit("people");
        }
        TableName::new("people").unwrap()
    }

    /// `people.id`
    pub fn afn_id() -> (r: AliasedFieldName)
        ensures
            is_plain_field(r, "people"@, "id"@),
    {
        proof {
            reveal_strlit("id");
            reveal_strlit("people");
        }
        AliasedFieldName::factory(Self::table_name().as_str(), "id")
    }

    /// `people.age`
    pub fn afn_age() -> (r: AliasedFieldName)
        ensures
            is_plain_field(r, "people"@, "age"@),
    {
        proof {
            reveal_strlit("age");
            reveal_strlit("people");
        }
        AliasedFieldName::factory(Self::table_name().as_str(), "age")
    }

    /// Schema of people: id, age.
    pub fn schema() -> (r: RecordSchema)
        ensures
            is_model_schema(r, "people"@, seq!["id"@, "age"@]),
    {
        let mut v = Vec::new();
        v.push(Self::afn_id());
        v.push(Self::afn_age());
        RecordSchema::factory(v)
    }

    /// Position of a field of people in its schema.
    pub fn field_pos(afn: AliasedFieldName) -> (r: RPos)
        requires
            afn.field_name.correlation.correlation_name@ == "people"@,
            afn.field_name.attribute@ == "id"@ || afn.field_name.attribute@ == "age"@,
        ensures
            afn.field_name.attribute@ == "id"@ ==> r == RPos::spec_new(0),
            afn.field_name.attribute@ == "age"@ ==> r == RPos::spec_new(1),
    {
        let schema = Self::schema();
        let idx = afn.to_schema_index();
        proof {
            reveal_strlit("id");
            reveal_strlit("age");
            let names = schema.spec_names_with_pos();
            assert(names.drop_last().drop_last() =~= Seq::<(RPos, Option<AliasedFieldName>)>::empty());
            assert("id"@.len() != "age"@.len());
            reveal_with_fuel(matching_pairs, 3);
        }
        let (pos, _) = schema.index(&idx).unwrap();
        pos
    }

    /// A record of people.
    pub fn record(id: i64, age: i32) -> (r: Row)
        ensures
            r@ == seq![SqlValue::NotNull(NNSqlValue::BigInt(id)), SqlValue::NotNull(NNSqlValue::Integer(age))],
    {
        let mut v = Vec::new();
        v.push(SqlValue::NotNull(NNSqlValue::BigInt(id)));
        v.push(SqlValue::NotNull(NNSqlValue::Integer(age)));
        assert(v@ =~= seq![SqlValue::NotNull(NNSqlValue::BigInt(id)), SqlValue::NotNull(NNSqlValue::Integer(age))]);
        Row::factory(v)
    }
}


/// - body:
///   - id BIGINT NOT NULL, PRIMARY KEY
///   - people_id BIGINT NOT NULL
///   - height INTEGER NOT NULL
#[derive(Clone, PartialEq, Debug)]
pub struct Body;

impl Body {
    /// `body`
    pub fn table_name() -> (r: TableName)
        ensures
            r@ == "body"@,
    {
        proof {
            reveal_strlit("body");
        }
        TableName::new("body").unwrap()
    }

    /// `body.id`
    pub fn afn_id() -> (r: AliasedFieldName)
        ensures
            is_plain_field(r, "body"@, "id"@),
    {
        proof {
            reveal_strlit("id");
            reveal_strlit("body");
        }
        AliasedFieldName::factory(Self::table_name().as_str(), "id")
    }

    /// `body.people_id`
    pub fn afn_people_id() -> (r: AliasedFieldName)
        ensures
            is_plain_field(r, "body"@, "people_id"@),
    {
        proof {
            reveal_strlit("people_id");
            reveal_strlit("body");
        }
        AliasedFieldName::factory(Self::table_name().as_str(), "people_id")
    }

    /// `body.height`
    pub fn afn_height() -> (r: AliasedFieldName)
        ensures
            is_plain_field(r, "body"@, "height"@),
    {
        proof {
            reveal_strlit("height");
            reveal_strlit("body");
        }
        AliasedFieldName::factory(Self::table_name().as_str(), "height")
    }

    /// Schema of body: id, people_id, height.
    pub fn schema() -> (r: RecordSchema)
        ensures
            is_model_schema(r, "body"@, seq!["id"@, "people_id"@, "height"@]),
    {
        let mut v = Vec::new();
        v.push(Self::afn_id());
        v.push(Self::afn_people_id());
        v.push(Self::afn_height());
        RecordSchema::factory(v)
    }

    /// A record of body.
    pub fn record(id: i64, people_id: i64, height: i32) -> (r: Row)
        ensures
            r@ == seq![SqlValue::NotNull(NNSqlValue::BigInt(id)), SqlValue::NotNull(NNSqlValue::BigInt(people_id)), SqlValue::NotNull(NNSqlValue::Integer(height))],
    {
        let mut v = Vec::new();
        v.push(SqlValue::NotNull(NNSqlValue::BigInt(id)));
        v.push(SqlValue::NotNull(NNSqlValue::BigInt(people_id)));
        v.push(SqlValue::NotNull(NNSqlValue::Integer(height)));
        assert(v@ =~= seq![SqlValue::NotNull(NNSqlValue::BigInt(id)), SqlValue::NotNull(NNSqlValue::BigInt(people_id)), SqlValue::NotNull(NNSqlValue::Integer(height))]);
        Row::factory(v)
    }
}

/// - pet:
///   - id BIGINT NOT NULL, PRIMARY KEY
///   - people_id BIGINT NOT NULL
///   - kind TEXT NOT NULL
///   - age SMALLINT NOT NULL
#[derive(Clone, PartialEq, Debug)]
pub struct Pet;

impl Pet {
    /// `pet`
    pub fn table_name() -> (r: TableName)
        ensures
            r@ == "pet"@,
    {
        proof {
            reveal_strlit("pet");
        }
        TableName::new("pet").unwrap()
    }

    /// `pet.id`
    pub fn afn_id() -> (r: AliasedFieldName)
        ensures
            is_plain_field(r, "pet"@, "id"@),
    {
        proof {
            reveal_strlit("id");
            reveal_strlit("pet");
        }
        AliasedFieldName::factory(Self::table_name().as_str(), "id")
    }

    /// `pet.people_id`
    pub fn afn_people_id() -> (r: AliasedFieldName)
        ensures
            is_plain_field(r, "pet"@, "people_id"@),
    {
        proof {
            reveal_strlit("people_id");
            reveal_strlit("pet");
        }
        AliasedFieldName::factory(Self::table_name().as_str(), "people_id")
    }

    /// `pet.kind`
    pub fn afn_kind() -> (r: AliasedFieldName)
        ensures
            is_plain_field(r, "pet"@, "kind"@),
    {
        proof {
            reveal_strlit("kind");
            reveal_strlit("pet");
        }
        AliasedFieldName::factory(Self::table_name().as_str(), "kind")
    }

    /// `pet.age`
    pub fn afn_age() -> (r: AliasedFieldName)
        ensures
            is_plain_field(r, "pet"@, "age"@),
    {
        proof {
            reveal_strlit("age");
            reveal_strlit("pet");
        }
        AliasedFieldName::factory(Self::table_name().as_str(), "age")
    }

    /// Schema of pet: id, people_id, kind, age.
    pub fn schema() -> (r: RecordSchema)
        ensures
            is_model_schema(r, "pet"@, seq!["id"@, "people_id"@, "kind"@, "age"@]),
    {
        let mut v = Vec::new();
        v.push(Self::afn_id());
        v.push(Self::afn_people_id());
        v.push(Self::afn_kind());
        v.push(Self::afn_age());
        RecordSchema::factory(v)
    }

    /// A record of pet.
    pub fn record(id: i64, people_id: i64, kind: &str, age: i16) -> (r: Row)
        ensures
            r@.len() == 4,
            r@[0] == SqlValue::NotNull(NNSqlValue::BigInt(id)),
            r@[1] == SqlValue::NotNull(NNSqlValue::BigInt(people_id)),
            r@[2] matches SqlValue::NotNull(NNSqlValue::Text(t)) && t@ == kind@,
            r@[3] == SqlValue::NotNull(NNSqlValue::SmallInt(age)),
    {
        let mut v = Vec::new();
        v.push(SqlValue::NotNull(NNSqlValue::BigInt(id)));
        v.push(SqlValue::NotNull(NNSqlValue::BigInt(people_id)));
        v.push(SqlValue::NotNull(NNSqlValue::Text(string_of(kind))));
        v.push(SqlValue::NotNull(NNSqlValue::SmallInt(age)));
        Row::factory(v)
    }
}

/// Records of the three models.
#[derive(Clone, PartialEq, Debug)]
pub struct ModelsMock {
    /// people records
    pub people: Vec<Row>,
    /// body records
    pub body: Vec<Row>,
    /// pet records
    pub pet: Vec<Row>,
}

} // verus!
