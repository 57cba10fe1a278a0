//! Table definitions: constraints, and tables with aliases.
use vstd::prelude::*;
use vstd::pervasive::cloned;
use vstd::std_specs::cmp::PartialEqSpec;

use crate::error::kind::ApllodbErrorKind;
use crate::error::{result_view, ApllodbError, ApllodbErrorView, ApllodbResult};
use crate::names::{AliasName, ColumnName, TableName};
use crate::text::{concat, str_debug, str_debug_of, str_equal, string_of};
use crate::validation_helper::collection::{find_dup_slow, has_dup, has_later_equal};

verus! {

/// A constraint parameter in a table definition.
#[derive(Eq, PartialEq, Hash, Debug)]
pub enum TableConstraintKind {
    /// PRIMARY KEY ({column_name}, ...)
    PrimaryKey {
        /// Compound columns.
        column_names: Vec<ColumnName>,
    },
    /// UNIQUE ({column_name}, ...)
    Unique {
        /// Compound columns.
        column_names: Vec<ColumnName>,
    },
}

impl TableConstraintKind {
    /// The column names of this constraint, in order.
    pub open spec fn spec_column_names(self) -> Seq<Seq<char>> {
        match self {
            TableConstraintKind::PrimaryKey { column_names } => column_names@.map_values(|c: ColumnName| c@),
            TableConstraintKind::Unique { column_names } => column_names@.map_values(|c: ColumnName| c@),
        }
    }

    /// The set of column names of this constraint.
    pub open spec fn spec_column_set(self) -> Set<Seq<char>> {
        self.spec_column_names().to_set()
    }

    fn column_names(&self) -> (r: &Vec<ColumnName>)
        ensures
            r@.map_values(|c: ColumnName| c@) == self.spec_column_names(),
    {
        match self {
            TableConstraintKind::PrimaryKey { column_names } => column_names,
            TableConstraintKind::Unique { column_names } => column_names,
        }
    }
}

/// Table constraints.
#[derive(Eq, PartialEq, Hash, Debug)]
pub struct TableConstraints {
    kinds: Vec<TableConstraintKind>,
}

/// Number of PRIMARY KEY constraints in `s`.
pub open spec fn pk_count(s: Seq<TableConstraintKind>) -> nat
    decreases s.len(),
{
    if s.len() == 0 {
        0
    } else {
        pk_count(s.drop_last()) + if s.last() is PrimaryKey {
            1nat
        } else {
            0nat
        }
    }
}

/// The column names of `names`, separated by `, `.
pub open spec fn join_names(names: Seq<Seq<char>>) -> Seq<char>
    decreases names.len(),
{
    if names.len() == 0 {
        Seq::empty()
    } else if names.len() == 1 {
        names[0]
    } else {
        join_names(names.drop_last()) + ", "@ + names.last()
    }
}

/// Whether the `i`-th constraint of `s` is applied to the same column set as a later one.
pub open spec fn same_cols_as_later(s: Seq<TableConstraintKind>, i: int) -> bool {
    exists|j: int| i < j < s.len() && #[trigger] s[j].spec_column_set() == s[i].spec_column_set()
}

/// Whether some constraint of `s` is applied to the same column set as a later one.
pub open spec fn has_same_cols(s: Seq<TableConstraintKind>) -> bool {
    exists|i: int| 0 <= i < s.len() && #[trigger] same_cols_as_later(s, i)
}

/// Whether `i` is the first constraint of `s` applied to the same column set as a later one.
pub open spec fn is_first_same_cols(s: Seq<TableConstraintKind>, i: int) -> bool {
    &&& 0 <= i < s.len()
    &&& same_cols_as_later(s, i)
    &&& forall|k: int| 0 <= k < i ==> !#[trigger] same_cols_as_later(s, k)
}

/// The first constraint of `s` applied to the same column set as a later one.
pub open spec fn first_same_cols(s: Seq<TableConstraintKind>) -> int {
    choose|i: int| is_first_same_cols(s, i)
}

/// `Debug` form of a column name whose string has the debug form `d`: `ColumnName(ShortName(d))`.
pub open spec fn column_debug_form(d: Seq<char>) -> Seq<char> {
    "ColumnName(ShortName("@ + d + "))"@
}

/// `Debug` form of a set of column names whose strings have the debug forms `ds`, listed in that
/// order: `{ColumnName(ShortName(d0)), ColumnName(ShortName(d1)), ...}`.
pub open spec fn column_set_debug_form(ds: Seq<Seq<char>>) -> Seq<char> {
    "{"@ + join_names(ds.map_values(|d: Seq<char>| column_debug_form(d))) + "}"@
}

/// `Debug` form of the set of the column names `names`, listed in their order.
pub open spec fn column_set_debug(names: Seq<Seq<char>>) -> Seq<char> {
    column_set_debug_form(names.map_values(|n: Seq<char>| str_debug(n)))
}

/// The description of the error for constraints applied to the same column set as the `i`-th one:
/// the set in `Debug` form, its columns in the order of the `i`-th constraint.
pub open spec fn same_cols_text(s: Seq<TableConstraintKind>, i: int) -> Seq<char> {
    "more than 1 PRIMARY KEY / UNIQUE are applied to the same column set: `"@ + column_set_debug(
        s[i].spec_column_names(),
    ) + "`"@
}

/// The error for a table definition that is not valid.
pub open spec fn invalid_definition(desc: Seq<char>) -> ApllodbErrorView {
    ApllodbErrorView { kind: ApllodbErrorKind::InvalidTableDefinition, desc }
}

/// Whether the column list of `k` names a column more than once.
pub open spec fn repeats_column(k: TableConstraintKind) -> bool {
    has_repeat(k.spec_column_names())
}

/// Whether `v` holds some item twice.
pub open spec fn has_repeat(v: Seq<Seq<char>>) -> bool {
    exists|i: int, j: int| 0 <= i < j < v.len() && #[trigger] v[i] == #[trigger] v[j]
}

/// Whether some constraint of `s` names a column more than once.
pub open spec fn has_repeated_column(s: Seq<TableConstraintKind>) -> bool {
    exists|k: int| 0 <= k < s.len() && #[trigger] repeats_column(s[k])
}

/// Whether `k` is the first constraint of `s` that names a column more than once.
pub open spec fn is_first_repeated(s: Seq<TableConstraintKind>, k: int) -> bool {
    &&& 0 <= k < s.len()
    &&& repeats_column(s[k])
    &&& forall|m: int| 0 <= m < k ==> !#[trigger] repeats_column(s[m])
}

/// The first constraint of `s` that names a column more than once.
pub open spec fn first_repeated(s: Seq<TableConstraintKind>) -> int {
    choose|k: int| is_first_repeated(s, k)
}

/// The description of the error for the `k`-th constraint of `s`, which names a column more than once.
pub open spec fn repeated_text(s: Seq<TableConstraintKind>, k: int) -> Seq<char> {
    "a PRIMARY KEY / UNIQUE has duplicate column: `"@ + join_names(s[k].spec_column_names()) + "`"@
}

/// What [TableConstraints::new] gives for `s`: the checks run in this order.
///
/// - A PRIMARY KEY or UNIQUE whose column list names a column more than once: error, naming the
///   columns of the first such constraint.
/// - No PRIMARY KEY: error.
/// - More than 1 PRIMARY KEY: error.
/// - Two constraints applied to the same column set: error, naming the columns of the first such
///   constraint.
/// - Else the constraints are valid.
pub open spec fn constraints_result(s: Seq<TableConstraintKind>) -> Result<(), ApllodbErrorView> {
    if has_repeated_column(s) {
        Err(invalid_definition(repeated_text(s, first_repeated(s))))
    } else if pk_count(s) == 0 {
        Err(invalid_definition("PRIMARY KEY is not specified"@))
    } else if pk_count(s) > 1 {
        Err(invalid_definition("more than 1 PRIMARY KEY found"@))
    } else if has_same_cols(s) {
        Err(invalid_definition(same_cols_text(s, first_same_cols(s))))
    } else {
        Ok(())
    }
}

/// Set of columns of a constraint; equal to another when both hold the same names.
struct ColumnSet {
    names: Vec<ColumnName>,
}

impl View for ColumnSet {
    type V = Seq<Seq<char>>;

    closed spec fn view(&self) -> Seq<Seq<char>> {
        self.names@.map_values(|c: ColumnName| c@)
    }
}

impl Clone for ColumnSet {
    fn clone(&self) -> (r: Self)
        ensures
            r@ == self@,
    {
        let mut names: Vec<ColumnName> = Vec::new();
        let mut i: usize = 0;
        while i < self.names.len()
            invariant
                i <= self.names@.len(),
                names@.len() == i,
                forall|k: int| 0 <= k < i ==> (#[trigger] names@[k])@ == self.names@[k]@,
            decreases self.names@.len() - i,
        {
            names.push(self.names[i].clone());
            i = i + 1;
        }
        let r = ColumnSet { names };
        assert(r@ =~= self@);
        r
    }
}

fn contains_name(names: &Vec<ColumnName>, name: &ColumnName) -> (r: bool)
    ensures
        r == names@.map_values(|c: ColumnName| c@).contains(name@),
{
    let ghost v = names@.map_values(|c: ColumnName| c@);
    let mut i: usize = 0;
    while i < names.len()
        invariant
            i <= names@.len(),
            v == names@.map_values(|c: ColumnName| c@),
            forall|k: int| 0 <= k < i ==> v[k] != name@,
        decreases names@.len() - i,
    {
        if str_equal(names[i].as_str(), name.as_str()) {
            assert(v[i as int] == name@);
            return true;
        }
        i = i + 1;
    }
    false
}

fn has_repeated_name(names: &Vec<ColumnName>) -> (r: bool)
    ensures
        r == has_repeat(names@.map_values(|c: ColumnName| c@)),
{
    let ghost v = names@.map_values(|c: ColumnName| c@);
    let mut j: usize = 0;
    while j < names.len()
        invariant
            j <= names@.len(),
            v == names@.map_values(|c: ColumnName| c@),
            forall|a: int, b: int| 0 <= a < b < j ==> #[trigger] v[a] != #[trigger] v[b],
        decreases names@.len() - j,
    {
        let mut i: usize = 0;
        while i < j
            invariant
                i <= j < names@.len(),
                v == names@.map_values(|c: ColumnName| c@),
                forall|a: int, b: int| 0 <= a < b < j ==> #[trigger] v[a] != #[trigger] v[b],
                forall|a: int| 0 <= a < i ==> #[trigger] v[a] != v[j as int],
            decreases j - i,
        {
            if str_equal(names[i].as_str(), names[j].as_str()) {
                assert(v[i as int] == v[j as int]);
                return true;
            }
            i = i + 1;
        }
        j = j + 1;
    }
    false
}

fn all_contained(a: &Vec<ColumnName>, b: &Vec<ColumnName>) -> (r: bool)
    ensures
        r == (forall|k: int|
            0 <= k < a@.len() ==> b@.map_values(|c: ColumnName| c@).contains(#[trigger] a@[k]@)),
{
    let mut i: usize = 0;
    while i < a.len()
        invariant
            i <= a@.len(),
            forall|k: int| 0 <= k < i ==> b@.map_values(|c: ColumnName| c@).contains(#[trigger] a@[k]@),
        decreases a@.len() - i,
    {
        if !contains_name(b, &a[i]) {
            return false;
        }
        i = i + 1;
    }
    true
}

proof fn lemma_same_set(a: Seq<Seq<char>>, b: Seq<Seq<char>>)
    requires
        forall|k: int| 0 <= k < a.len() ==> b.contains(#[trigger] a[k]),
        forall|k: int| 0 <= k < b.len() ==> a.contains(#[trigger] b[k]),
    ensures
        a.to_set() == b.to_set(),
{
    assert forall|x: Seq<char>| a.to_set().contains(x) <==> b.to_set().contains(x) by {
        if a.contains(x) {
            let k = choose|k: int| 0 <= k < a.len() && a[k] == x;
            assert(b.contains(a[k]));
        }
        if b.contains(x) {
            let k = choose|k: int| 0 <= k < b.len() && b[k] == x;
            assert(a.contains(b[k]));
        }
    }
    assert(a.to_set() =~= b.to_set());
}

impl PartialEq for ColumnSet {
    fn eq(&self, other: &Self) -> (r: bool) {
        let r = all_contained(&self.names, &other.names) && all_contained(&other.names, &self.names);
        proof {
            let a = self@;
            let b = other@;
            if r {
                assert forall|k: int| 0 <= k < a.len() implies b.contains(#[trigger] a[k]) by {
                    assert(a[k] == self.names@[k]@);
                }
                assert forall|k: int| 0 <= k < b.len() implies a.contains(#[trigger] b[k]) by {
                    assert(b[k] == other.names@[k]@);
                }
                lemma_same_set(a, b);
            } else if a.to_set() == b.to_set() {
                assert forall|k: int| 0 <= k < self.names@.len() implies b.contains(#[trigger] self.names@[k]@) by {
                    assert(a[k] == self.names@[k]@);
                    assert(a.to_set().contains(a[k]));
                }
                assert forall|k: int| 0 <= k < other.names@.len() implies a.contains(#[trigger] other.names@[k]@) by {
                    assert(b[k] == other.names@[k]@);
                    assert(b.to_set().contains(b[k]));
                }
            }
        }
        r
    }
}

impl vstd::std_specs::cmp::PartialEqSpecImpl for ColumnSet {
    open spec fn obeys_eq_spec() -> bool {
        true
    }

    open spec fn eq_spec(&self, other: &ColumnSet) -> bool {
        self@.to_set() == other@.to_set()
    }
}

fn copy_names(names: &Vec<ColumnName>) -> (r: Vec<ColumnName>)
    ensures
        r@ == names@,
{
    let mut r: Vec<ColumnName> = Vec::new();
    let mut i: usize = 0;
    while i < names.len()
        invariant
            i <= names@.len(),
            r@ == names@.take(i as int),
        decreases names@.len() - i,
    {
        r.push(names[i].clone());
        i = i + 1;
        assert(r@ =~= names@.take(i as int));
    }
    assert(names@.take(names@.len() as int) =~= names@);
    r
}

proof fn lemma_dup_iff_same_cols(sets: Seq<ColumnSet>, s: Seq<TableConstraintKind>)
    requires
        sets.len() == s.len(),
        forall|k: int| 0 <= k < s.len() ==> (#[trigger] sets[k])@ == s[k].spec_column_names(),
    ensures
        forall|i: int| 0 <= i < s.len() ==> (has_later_equal(sets, i) <==> #[trigger] same_cols_as_later(s, i)),
        has_dup(sets) <==> exists|i: int| 0 <= i < s.len() && #[trigger] same_cols_as_later(s, i),
{
    assert forall|i: int| 0 <= i < s.len() implies (has_later_equal(sets, i) <==> #[trigger] same_cols_as_later(s, i)) by {
        if has_later_equal(sets, i) {
            let j = choose|j: int| i < j < sets.len() && #[trigger] sets[i].eq_spec(&sets[j]);
            assert(s[j].spec_column_set() == s[i].spec_column_set());
        }
        if same_cols_as_later(s, i) {
            let j = choose|j: int| i < j < s.len() && #[trigger] s[j].spec_column_set() == s[i].spec_column_set();
            assert(sets[i].eq_spec(&sets[j]));
        }
    }
    if has_dup(sets) {
        let i = choose|i: int| 0 <= i < sets.len() && #[trigger] has_later_equal(sets, i);
        assert(same_cols_as_later(s, i));
    }
    if exists|i: int| 0 <= i < s.len() && #[trigger] same_cols_as_later(s, i) {
        let i = choose|i: int| 0 <= i < s.len() && #[trigger] same_cols_as_later(s, i);
        assert(has_later_equal(sets, i));
    }
}

proof fn lemma_first_same_cols(sets: Seq<ColumnSet>, s: Seq<TableConstraintKind>, i0: int)
    requires
        sets.len() == s.len(),
        forall|i: int| 0 <= i < s.len() ==> (has_later_equal(sets, i) <==> #[trigger] same_cols_as_later(s, i)),
        0 <= i0 < sets.len(),
        has_later_equal(sets, i0),
        forall|k: int| 0 <= k < i0 ==> !#[trigger] has_later_equal(sets, k),
    ensures
        has_same_cols(s),
        first_same_cols(s) == i0,
{
    assert(same_cols_as_later(s, i0));
    assert forall|k: int| 0 <= k < i0 implies !#[trigger] same_cols_as_later(s, k) by {
        assert(!has_later_equal(sets, k));
    }
    assert(is_first_same_cols(s, i0));
    let c = first_same_cols(s);
    assert(is_first_same_cols(s, c));
    if c < i0 {
        assert(!same_cols_as_later(s, c));
    } else if i0 < c {
        assert(!same_cols_as_later(s, i0));
    }
}

/// The set of column names whose strings have the debug forms `ds`, in `Debug` form, listed in that
/// order (see [column_set_debug_form]).
pub fn column_set_debug_text(ds: &Vec<String>) -> (r: String)
    ensures
        r@ == column_set_debug_form(ds@.map_values(|d: String| d@)),
{
    let ghost v = ds@.map_values(|d: String| d@);
    let ghost u = v.map_values(|d: Seq<char>| column_debug_form(d));
    let mut s = String::new();
    let mut i: usize = 0;
    while i < ds.len()
        invariant
            i <= ds@.len(),
            v == ds@.map_values(|d: String| d@),
            u == v.map_values(|d: Seq<char>| column_debug_form(d)),
            s@ == join_names(u.take(i as int)),
        decreases ds@.len() - i,
    {
        proof {
            assert(u.take(i + 1).drop_last() =~= u.take(i as int));
        }
        let item = concat(concat(string_of("ColumnName(ShortName("), ds[i].as_str()), "))");
        assert(item@ == u[i as int]);
        if i == 0 {
            s = item;
            assert(u.take(1) =~= seq![u[0]]);
        } else {
            s = concat(concat(s, ", "), item.as_str());
        }
        i = i + 1;
    }
    assert(u.take(ds@.len() as int) =~= u);
    concat(concat(string_of("{"), s.as_str()), "}")
}

fn debug_names_of(names: &Vec<ColumnName>) -> (r: Vec<String>)
    ensures
        r@.map_values(|d: String| d@) == names@.map_values(|c: ColumnName| c@).map_values(
            |n: Seq<char>| str_debug(n),
        ),
{
    let ghost v = names@.map_values(|c: ColumnName| c@);
    let mut r: Vec<String> = Vec::new();
    let mut i: usize = 0;
    while i < names.len()
        invariant
            i <= names@.len(),
            v == names@.map_values(|c: ColumnName| c@),
            r@.len() == i,
            forall|k: int| 0 <= k < i ==> (#[trigger] r@[k])@ == str_debug(v[k]),
        decreases names@.len() - i,
    {
        r.push(str_debug_of(names[i].as_str()));
        i = i + 1;
    }
    assert(r@.map_values(|d: String| d@) =~= v.map_values(|n: Seq<char>| str_debug(n)));
    r
}

fn join_names_of(names: &Vec<ColumnName>) -> (r: String)
    ensures
        r@ == join_names(names@.map_values(|c: ColumnName| c@)),
{
    let ghost v = names@.map_values(|c: ColumnName| c@);
    let mut s = String::new();
    let mut i: usize = 0;
    while i < names.len()
        invariant
            i <= names@.len(),
            v == names@.map_values(|c: ColumnName| c@),
            s@ == join_names(v.take(i as int)),
        decreases names@.len() - i,
    {
        proof {
            assert(v.take(i + 1).drop_last() =~= v.take(i as int));
        }
        if i == 0 {
            s = string_of(names[i].as_str());
            assert(v.take(1) =~= seq![v[0]]);
        } else {
            s = concat(concat(s, ", "), names[i].as_str());
        }
        i = i + 1;
    }
    assert(v.take(names@.len() as int) =~= v);
    s
}

impl Default for TableConstraints {
    /// No constraint.
    fn default() -> (r: Self)
        ensures
            r.spec_kinds() == Seq::<TableConstraintKind>::empty(),
    {
        Self { kinds: Vec::new() }
    }
}

impl TableConstraints {
    /// The constraints, in order.
    pub closed spec fn spec_kinds(&self) -> Seq<TableConstraintKind> {
        self.kinds@
    }

    /// Constructor.
    ///
    /// # Failures
    /// - [InvalidTableDefinition](ApllodbErrorKind::InvalidTableDefinition) when:
    ///   - No PrimaryKey is specified.
    ///   - Multiple PrimaryKeys appear.
    ///   - More than 1 PrimaryKey / Unique constraints are applied to the same column set.
    ///   - Column sequence of PrimaryKey or Unique have duplicate column.
    pub fn new(constraints: Vec<TableConstraintKind>) -> (r: ApllodbResult<Self>)
        ensures
            match r {
                Ok(tc) => constraints_result(constraints@) is Ok && tc.spec_kinds() == constraints@,
                Err(e) => constraints_result(constraints@) == Err::<(), ApllodbErrorView>(e@),
            },
    {
        let ghost s = constraints@;
        match Self::validate_col_duplication(constraints.as_slice()) {
            Ok(()) => {},
            Err(e) => {
                return Err(e);
            },
        }
        match Self::validate_pk_existence(constraints.as_slice()) {
            Ok(()) => {},
            Err(e) => {
                return Err(e);
            },
        }
        match Self::validate_multiple_pks(constraints.as_slice()) {
            Ok(()) => {},
            Err(e) => {
                return Err(e);
            },
        }
        match Self::validate_pk_or_unique_to_same_cols(constraints.as_slice()) {
            Ok(()) => {},
            Err(e) => {
                return Err(e);
            },
        }
        Ok(Self { kinds: constraints })
    }

    fn validate_col_duplication(constraints: &[TableConstraintKind]) -> (r: ApllodbResult<()>)
        ensures
            r is Ok <==> !has_repeated_column(constraints@),
            r matches Err(e) ==> e@ == invalid_definition(
                repeated_text(constraints@, first_repeated(constraints@)),
            ),
    {
        let mut k: usize = 0;
        while k < constraints.len()
            invariant
                k <= constraints@.len(),
                forall|m: int| 0 <= m < k ==> !#[trigger] repeats_column(constraints@[m]),
            decreases constraints@.len() - k,
        {
            let names = constraints[k].column_names();
            if has_repeated_name(names) {
                proof {
                    assert(is_first_repeated(constraints@, k as int));
                    let c = first_repeated(constraints@);
                    assert(is_first_repeated(constraints@, c));
                    if c < k {
                        assert(!repeats_column(constraints@[c]));
                    } else if k < c {
                        assert(!repeats_column(constraints@[k as int]));
                    }
                }
                let desc = string_of("a PRIMARY KEY / UNIQUE has duplicate column: `");
                let desc = concat(desc, join_names_of(names).as_str());
                let desc = concat(desc, "`");
                return Err(ApllodbError::new(ApllodbErrorKind::InvalidTableDefinition, desc));
            }
            k = k + 1;
        }
        Ok(())
    }

    fn validate_pk_existence(constraints: &[TableConstraintKind]) -> (r: ApllodbResult<()>)
        ensures
            r is Ok <==> pk_count(constraints@) > 0,
            r matches Err(e) ==> e@ == invalid_definition("PRIMARY KEY is not specified"@),
    {
        let mut i: usize = 0;
        assert(constraints@.take(0) =~= Seq::<TableConstraintKind>::empty());
        while i < constraints.len()
            invariant
                i <= constraints@.len(),
                pk_count(constraints@.take(i as int)) == 0,
            decreases constraints@.len() - i,
        {
            proof {
                assert(constraints@.take(i + 1).drop_last() =~= constraints@.take(i as int));
            }
            match &constraints[i] {
                TableConstraintKind::PrimaryKey { .. } => {
                    proof {
                        lemma_pk_count_prefix(constraints@, i as int + 1);
                    }
                    return Ok(());
                },
                _ => {},
            }
            i = i + 1;
        }
        assert(constraints@.take(constraints@.len() as int) =~= constraints@);
        Err(ApllodbError::new(ApllodbErrorKind::InvalidTableDefinition, string_of("PRIMARY KEY is not specified")))
    }

    fn validate_multiple_pks(constraints: &[TableConstraintKind]) -> (r: ApllodbResult<()>)
        ensures
            r is Ok <==> pk_count(constraints@) <= 1,
            r matches Err(e) ==> e@ == invalid_definition("more than 1 PRIMARY KEY found"@),
    {
        let mut count: usize = 0;
        let mut i: usize = 0;
        assert(constraints@.take(0) =~= Seq::<TableConstraintKind>::empty());
        while i < constraints.len()
            invariant
                i <= constraints@.len(),
                count == pk_count(constraints@.take(i as int)),
                count <= i,
            decreases constraints@.len() - i,
        {
            proof {
                assert(constraints@.take(i + 1).drop_last() =~= constraints@.take(i as int));
            }
            match &constraints[i] {
                TableConstraintKind::PrimaryKey { .. } => {
                    count = count + 1;
                },
                _ => {},
            }
            i = i + 1;
        }
        assert(constraints@.take(constraints@.len() as int) =~= constraints@);
        if count > 1 {
            Err(ApllodbError::new(ApllodbErrorKind::InvalidTableDefinition, string_of("more than 1 PRIMARY KEY found")))
        } else {
            Ok(())
        }
    }

    fn validate_pk_or_unique_to_same_cols(constraints: &[TableConstraintKind]) -> (r: ApllodbResult<()>)
        ensures
            r is Ok <==> !has_same_cols(constraints@),
            r matches Err(e) ==> e@ == invalid_definition(
                same_cols_text(constraints@, first_same_cols(constraints@)),
            ),
    {
        let mut sets: Vec<ColumnSet> = Vec::new();
        let mut i: usize = 0;
        while i < constraints.len()
            invariant
                i <= constraints@.len(),
                sets@.len() == i,
                forall|k: int| 0 <= k < i ==> (#[trigger] sets@[k])@ == constraints@[k].spec_column_names(),
            decreases constraints@.len() - i,
        {
            sets.push(ColumnSet { names: copy_names(constraints[i].column_names()) });
            i = i + 1;
        }
        proof {
            lemma_dup_iff_same_cols(sets@, constraints@);
        }
        match find_dup_slow(sets.as_slice()) {
            Some(colset) => {
                proof {
                    let i0 = choose|i: int|
                        0 <= i < sets@.len() && #[trigger] has_later_equal(sets@, i) && (forall|k: int|
                            0 <= k < i ==> !#[trigger] has_later_equal(sets@, k)) && cloned(sets@[i], colset);
                    assert(colset@ == sets@[i0]@);
                    lemma_first_same_cols(sets@, constraints@, i0);
                }
                let desc = string_of("more than 1 PRIMARY KEY / UNIQUE are applied to the same column set: `");
                let desc = concat(desc, column_set_debug_text(&debug_names_of(&colset.names)).as_str());
                let desc = concat(desc, "`");
                Err(ApllodbError::new(ApllodbErrorKind::InvalidTableDefinition, desc))
            },
            None => {
                assert(!has_dup(sets@));
                Ok(())
            },
        }
    }

    /// Ref to seq of [TableConstraintKind].
    pub fn kinds(&self) -> (r: &[TableConstraintKind])
        ensures
            r@ == self.spec_kinds(),
    {
        self.kinds.as_slice()
    }
}

proof fn lemma_pk_count_prefix(s: Seq<TableConstraintKind>, j: int)
    requires
        0 < j <= s.len(),
        s[j - 1] is PrimaryKey,
    ensures
        pk_count(s) > 0,
    decreases s.len() - j,
{
    assert(s.take(j).drop_last() =~= s.take(j - 1));
    if j == s.len() {
        assert(s.take(j) =~= s);
    } else {
        lemma_pk_count_monotone(s, j);
    }
}

proof fn lemma_pk_count_monotone(s: Seq<TableConstraintKind>, j: int)
    requires
        0 <= j <= s.len(),
    ensures
        pk_count(s.take(j)) <= pk_count(s),
    decreases s.len() - j,
{
    if j < s.len() {
        assert(s.take(j + 1).drop_last() =~= s.take(j));
        lemma_pk_count_monotone(s, j + 1);
    } else {
        assert(s.take(j) =~= s);
    }
}

} // verus!
