use vstd::prelude::*;

use crate::random::random_u64;
use crate::text::{lemma_lex_order_prefix, lex_order};
use crate::value::nn_sql_value::NNSqlValue;
use crate::value::sql_compare_result::SqlCompareResult;
use crate::value::sql_value::SqlValue;

verus! {

/// Key of hash tables made from an [SqlValue].
///
/// Values that compare equal have equal keys, whatever their integer types are
/// (e.g. `42 SMALLINT` and `42 INTEGER`). Each NULL value gets a key of its own (with a random
/// number), so that NULL values do not collide in hash tables.
#[derive(Eq, PartialEq, Hash, Debug)]
pub enum SqlValueHashKey {
    /// Any integer value, taken as `i64`.
    Integer(i64),
    /// TEXT value.
    Text(String),
    /// BOOLEAN value.
    Boolean(bool),
    /// NULL value, with a random number.
    Null(u64),
}

/// What an [SqlValueHashKey] holds.
pub enum SqlValueHashKeyView {
    /// Any integer value, taken as `i64`.
    Integer(i64),
    /// TEXT value.
    Text(Seq<char>),
    /// BOOLEAN value.
    Boolean(bool),
    /// NULL value, with a random number.
    Null(u64),
}

impl View for SqlValueHashKey {
    type V = SqlValueHashKeyView;

    open spec fn view(&self) -> SqlValueHashKeyView {
        match self {
            SqlValueHashKey::Integer(i) => SqlValueHashKeyView::Integer(*i),
            SqlValueHashKey::Text(s) => SqlValueHashKeyView::Text(s@),
            SqlValueHashKey::Boolean(b) => SqlValueHashKeyView::Boolean(*b),
            SqlValueHashKey::Null(n) => SqlValueHashKeyView::Null(*n),
        }
    }
}

/// The key of a NOT NULL value.
pub open spec fn nn_key(v: NNSqlValue) -> SqlValueHashKeyView {
    match v {
        NNSqlValue::SmallInt(i) => SqlValueHashKeyView::Integer(i as i64),
        NNSqlValue::Integer(i) => SqlValueHashKeyView::Integer(i as i64),
        NNSqlValue::BigInt(i) => SqlValueHashKeyView::Integer(i),
        NNSqlValue::Text(s) => SqlValueHashKeyView::Text(s@),
        NNSqlValue::Boolean(b) => SqlValueHashKeyView::Boolean(b),
    }
}

impl SqlValueHashKey {
    /// Key of `v`: a key of its NOT NULL value, or a fresh random key for NULL.
    pub fn from(v: &SqlValue) -> (r: Self)
        ensures
            *v matches SqlValue::NotNull(nn) ==> r@ == nn_key(nn),
            *v is Null ==> r is Null,
    {
        match v {
            SqlValue::Null => SqlValueHashKey::Null(random_u64()),
            SqlValue::NotNull(nn) => match nn {
                NNSqlValue::SmallInt(i) => SqlValueHashKey::Integer(*i as i64),
                NNSqlValue::Integer(i) => SqlValueHashKey::Integer(*i as i64),
                NNSqlValue::BigInt(i) => SqlValueHashKey::Integer(*i),
                NNSqlValue::Text(s) => SqlValueHashKey::Text(s.clone()),
                NNSqlValue::Boolean(b) => SqlValueHashKey::Boolean(*b),
            },
        }
    }
}

/// Two character sequences in the same place of the lexicographic order are the same.
pub proof fn lemma_lex_order_zero(a: Seq<char>, b: Seq<char>)
    requires
        lex_order(a, b) == 0,
    ensures
        a == b,
    decreases a.len(),
{
    if a.len() > 0 && b.len() > 0 {
        lemma_lex_order_zero(a.drop_first(), b.drop_first());
        assert(a =~= seq![a[0]] + a.drop_first());
        assert(b =~= seq![b[0]] + b.drop_first());
    }
}

/// Law: NOT NULL values that compare equal have equal hash keys.
pub proof fn lemma_equal_values_equal_keys(a: NNSqlValue, b: NNSqlValue)
    requires
        a.spec_compare(b) matches Ok(SqlCompareResult::Eq),
    ensures
        nn_key(a) == nn_key(b),
{
    match (a, b) {
        (NNSqlValue::Text(x), NNSqlValue::Text(y)) => {
            lemma_lex_order_zero(x@, y@);
        },
        _ => {},
    }
}

/// Law: NOT NULL values have equal hash keys only when they compare equal: a key tells values apart
/// exactly as comparison does.
pub proof fn lemma_equal_keys_equal_values(a: NNSqlValue, b: NNSqlValue)
    requires
        nn_key(a) == nn_key(b),
    ensures
        a.spec_compare(b) == Ok::<SqlCompareResult, crate::error::ApllodbErrorView>(SqlCompareResult::Eq),
{
    match (a, b) {
        (NNSqlValue::Text(x), NNSqlValue::Text(y)) => {
            assert(x@ == y@);
            lemma_lex_order_prefix(x@, y@);
        },
        _ => {},
    }
}

} // verus!
