use vstd::prelude::*;

use crate::error::kind::ApllodbErrorKind;
use crate::error::{result_view, ApllodbError, ApllodbErrorView, ApllodbResult};
use crate::text::{concat, string_of};
use crate::value::nn_sql_value::NNSqlValue;
use crate::value::packing::{
    bincode_deserialize_bool, bincode_deserialize_i16, bincode_deserialize_i32, bincode_deserialize_i64,
    bincode_deserialize_string, bincode_serialize_bool, bincode_serialize_i16, bincode_serialize_i32,
    bincode_serialize_i64, bincode_serialize_string, bool_bytes, bool_from_bytes, lemma_string_bytes,
    lemma_u16_bytes, lemma_u32_bytes, lemma_u64_bytes, string_bytes, string_from_bytes, u16_from_le_bytes,
    u16_le_bytes, u32_from_le_bytes, u32_le_bytes, u64_from_le_bytes, u64_le_bytes,
};
use crate::value::sql_type::{not_null_sql_types, DataType, DataTypeKind};
use vstd::utf8::encode_utf8;

verus! {

/// NOT NULL data types of each of these kinds, in order.
pub open spec fn not_null_types(kinds: Seq<DataTypeKind>) -> Seq<DataType> {
    kinds.map_values(|k: DataTypeKind| DataType::new_spec(k, false))
}

/// The error for unpacking `v` into the Rust type named `rust_type`, which does not accept it.
pub open spec fn unpack_error(v: NNSqlValue, rust_type: Seq<char>) -> ApllodbErrorView {
    ApllodbErrorView {
        kind: ApllodbErrorKind::DatatypeMismatch,
        desc: v.spec_display() + " cannot be unpacked into "@ + rust_type,
    }
}

/// What unpacking `v` into `T` gives: the Rust value when `T` accepts `v`'s type, the error otherwise.
pub open spec fn unpack_result<T: SqlConvertible>(v: NNSqlValue) -> Result<T, ApllodbErrorView> {
    match T::spec_unpack(v) {
        Some(x) => Ok(x),
        None => Err(unpack_error(v, T::spec_rust_type_name())),
    }
}

/// The error for bytes that cannot be unpacked into the Rust type named `rust_type`.
pub open spec fn unpack_bytes_error(rust_type: Seq<char>) -> ApllodbErrorView {
    ApllodbErrorView {
        kind: ApllodbErrorKind::DeserializationError,
        desc: "failed to unpack data as "@ + rust_type,
    }
}

/// Rust types that NOT NULL SQL values are converted into.
pub trait SqlConvertible: Sized + View {
    /// The Rust value that `v` is unpacked into, when this type accepts `v`'s SQL type.
    spec fn spec_unpack(v: NNSqlValue) -> Option<Self>;

    /// Name of this Rust type.
    spec fn spec_rust_type_name() -> Seq<char>;

    /// Kinds of SQL types whose values this Rust type is unpacked from.
    spec fn spec_from_kinds() -> Seq<DataTypeKind>;

    /// Kinds of SQL types that values of this Rust type can be stored as.
    spec fn spec_to_kinds() -> Seq<DataTypeKind>;

    /// The bytes that a value (taken by its view) is packed into.
    spec fn spec_packed(x: Self::V) -> Seq<u8>;

    /// The value (taken by its view) that bytes starting with `raw` are unpacked into, if any.
    spec fn spec_unpacked(raw: Seq<u8>) -> Option<Self::V>;

    /// Whether a value (taken by its view) can be packed and read back: always, but for a string
    /// whose UTF-8 bytes outnumber a `u64`.
    spec fn spec_packable(x: Self::V) -> bool;

    /// Packs a Rust value into bytes (with bincode).
    ///
    /// # Failures
    ///
    /// - [SerializationError](ApllodbErrorKind::SerializationError) when bincode fails, which it does
    ///   not for these types.
    fn pack(rust_value: &Self) -> (r: ApllodbResult<Vec<u8>>)
        ensures
            r matches Ok(b) && b@ == Self::spec_packed(rust_value@),
            Self::spec_packable(rust_value@),
    ;

    /// Unpacks a Rust value from bytes (with bincode); trailing bytes are ignored.
    ///
    /// # Failures
    ///
    /// - [DeserializationError](ApllodbErrorKind::DeserializationError) when `raw` does not start with
    ///   the bytes of a value of this type.
    fn unpack(raw: &[u8]) -> (r: ApllodbResult<Self>)
        ensures
            match r {
                Ok(x) => Self::spec_unpacked(raw@) == Some(x@),
                Err(e) => Self::spec_unpacked(raw@) is None && e@ == unpack_bytes_error(
                    Self::spec_rust_type_name(),
                ),
            },
    ;

    /// Law: unpacking the bytes that a value is packed into gives the value back.
    proof fn lemma_unpack_pack(x: Self::V)
        requires
            Self::spec_packable(x),
        ensures
            Self::spec_unpacked(Self::spec_packed(x)) == Some(x),
    ;

    /// Unpacks `v` into this Rust type.
    ///
    /// # Failures
    ///
    /// - [DatatypeMismatch](ApllodbErrorKind::DatatypeMismatch) when this type does not accept `v`'s SQL type.
    fn unpack_from(v: &NNSqlValue) -> (r: ApllodbResult<Self>)
        ensures
            r matches Ok(x) ==> Self::spec_unpack(*v) == Some(x),
            r matches Err(e) ==> Self::spec_unpack(*v) is None && e@ == unpack_error(
                *v,
                Self::spec_rust_type_name(),
            ),
            r is Ok <==> Self::spec_unpack(*v) is Some,
    ;

    /// Name of this Rust type.
    fn rust_type_name() -> (r: String)
        ensures
            r@ == Self::spec_rust_type_name(),
    ;

    /// Whether values of `ty` are unpacked into this type.
    fn is_acceptable(ty: &DataTypeKind) -> (r: bool)
        ensures
            r == Self::spec_from_kinds().contains(*ty),
    ;

    /// NOT NULL SQL types that values of this Rust type can be stored as.
    fn to_sql_types() -> (r: Vec<DataType>)
        ensures
            r@ == not_null_types(Self::spec_to_kinds()),
    ;

    /// NOT NULL SQL types whose values are unpacked into this Rust type.
    fn from_sql_types() -> (r: Vec<DataType>)
        ensures
            r@ == not_null_types(Self::spec_from_kinds()),
    ;

    /// Law: a value is unpacked into this type exactly when its kind is one of [SqlConvertible::spec_from_kinds].
    proof fn lemma_unpack_accepts_from_kinds(v: NNSqlValue)
        ensures
            Self::spec_unpack(v) is Some <==> Self::spec_from_kinds().contains(v.spec_data_type_kind()),
    ;
}

fn mismatch(v: &NNSqlValue, rust_type_name: &str) -> (r: ApllodbError)
    ensures
        r@ == unpack_error(*v, rust_type_name@),
{
    let desc = concat(v.to_display_string(), " cannot be unpacked into ");
    ApllodbError::new(ApllodbErrorKind::DatatypeMismatch, concat(desc, rust_type_name))
}

fn pack_error() -> (r: ApllodbError)
    ensures
        r@.kind == ApllodbErrorKind::SerializationError,
{
    ApllodbError::new(ApllodbErrorKind::SerializationError, string_of("failed to pack Rust value"))
}

fn unpack_error_of(rust_type_name: &str) -> (r: ApllodbError)
    ensures
        r@ == unpack_bytes_error(rust_type_name@),
{
    ApllodbError::new(
        ApllodbErrorKind::DeserializationError,
        concat(string_of("failed to unpack data as "), rust_type_name),
    )
}

fn kinds_vec(kinds: &[DataTypeKind]) -> (r: Vec<DataType>)
    ensures
        r@ == not_null_types(kinds@),
{
    let r = not_null_sql_types(kinds);
    assert(r@ =~= not_null_types(kinds@));
    r
}

impl SqlConvertible for i16 {
    open spec fn spec_packed(x: i16) -> Seq<u8> {
        u16_le_bytes(x as u16)
    }

    open spec fn spec_unpacked(raw: Seq<u8>) -> Option<i16> {
        if raw.len() >= 2 {
            Some(u16_from_le_bytes(raw) as i16)
        } else {
            None
        }
    }

    open spec fn spec_packable(x: i16) -> bool {
        true
    }

    fn pack(rust_value: &Self) -> (r: ApllodbResult<Vec<u8>>) {
        match bincode_serialize_i16(rust_value) {
            Ok(b) => Ok(b),
            Err(_) => Err(pack_error()),
        }
    }

    fn unpack(raw: &[u8]) -> (r: ApllodbResult<Self>) {
        match bincode_deserialize_i16(raw) {
            Ok(v) => Ok(v),
            Err(_) => Err(unpack_error_of("i16")),
        }
    }

    proof fn lemma_unpack_pack(x: i16) {
        lemma_u16_bytes(x as u16);
        assert((x as u16) as i16 == x) by (bit_vector);
    }

    open spec fn spec_unpack(v: NNSqlValue) -> Option<i16> {
        match v {
            NNSqlValue::SmallInt(x) => Some(x),
            _ => None,
        }
    }

    open spec fn spec_rust_type_name() -> Seq<char> {
        "i16"@
    }

    open spec fn spec_from_kinds() -> Seq<DataTypeKind> {
        seq![DataTypeKind::SmallInt]
    }

    open spec fn spec_to_kinds() -> Seq<DataTypeKind> {
        seq![DataTypeKind::SmallInt, DataTypeKind::Integer, DataTypeKind::BigInt]
    }

    fn unpack_from(v: &NNSqlValue) -> (r: ApllodbResult<i16>) {
        match v {
            NNSqlValue::SmallInt(x) => Ok(*x),
            _ => Err(mismatch(v, "i16")),
        }
    }

    fn rust_type_name() -> (r: String) {
        string_of("i16")
    }

    fn is_acceptable(ty: &DataTypeKind) -> (r: bool) {
        proof {
            assert(Self::spec_from_kinds().contains(*ty) ==> *ty == DataTypeKind::SmallInt);
            if *ty == DataTypeKind::SmallInt {
                assert(Self::spec_from_kinds()[0] == *ty);
            }
        }
        match ty {
            DataTypeKind::SmallInt => true,
            _ => false,
        }
    }

    fn to_sql_types() -> (r: Vec<DataType>) {
        kinds_vec(&[DataTypeKind::SmallInt, DataTypeKind::Integer, DataTypeKind::BigInt])
    }

    fn from_sql_types() -> (r: Vec<DataType>) {
        kinds_vec(&[DataTypeKind::SmallInt])
    }

    proof fn lemma_unpack_accepts_from_kinds(v: NNSqlValue) {
        let k = v.spec_data_type_kind();
        assert(Self::spec_from_kinds().contains(k) ==> k == DataTypeKind::SmallInt);
        if k == DataTypeKind::SmallInt {
            assert(Self::spec_from_kinds()[0] == k);
        }
    }
}

impl SqlConvertible for i32 {
    open spec fn spec_packed(x: i32) -> Seq<u8> {
        u32_le_bytes(x as u32)
    }

    open spec fn spec_unpacked(raw: Seq<u8>) -> Option<i32> {
        if raw.len() >= 4 {
            Some(u32_from_le_bytes(raw) as i32)
        } else {
            None
        }
    }

    open spec fn spec_packable(x: i32) -> bool {
        true
    }

    fn pack(rust_value: &Self) -> (r: ApllodbResult<Vec<u8>>) {
        match bincode_serialize_i32(rust_value) {
            Ok(b) => Ok(b),
            Err(_) => Err(pack_error()),
        }
    }

    fn unpack(raw: &[u8]) -> (r: ApllodbResult<Self>) {
        match bincode_deserialize_i32(raw) {
            Ok(v) => Ok(v),
            Err(_) => Err(unpack_error_of("i32")),
        }
    }

    proof fn lemma_unpack_pack(x: i32) {
        lemma_u32_bytes(x as u32);
        assert((x as u32) as i32 == x) by (bit_vector);
    }

    open spec fn spec_unpack(v: NNSqlValue) -> Option<i32> {
        match v {
            NNSqlValue::SmallInt(x) => Some(x as i32),
            NNSqlValue::Integer(x) => Some(x),
            _ => None,
        }
    }

    open spec fn spec_rust_type_name() -> Seq<char> {
        "i32"@
    }

    open spec fn spec_from_kinds() -> Seq<DataTypeKind> {
        seq![DataTypeKind::SmallInt, DataTypeKind::Integer]
    }

    open spec fn spec_to_kinds() -> Seq<DataTypeKind> {
        seq![DataTypeKind::Integer, DataTypeKind::BigInt]
    }

    fn unpack_from(v: &NNSqlValue) -> (r: ApllodbResult<i32>) {
        match v {
            NNSqlValue::SmallInt(x) => Ok(*x as i32),
            NNSqlValue::Integer(x) => Ok(*x),
            _ => Err(mismatch(v, "i32")),
        }
    }

    fn rust_type_name() -> (r: String) {
        string_of("i32")
    }

    fn is_acceptable(ty: &DataTypeKind) -> (r: bool) {
        proof {
            assert(Self::spec_from_kinds().contains(*ty) ==> *ty == DataTypeKind::SmallInt || *ty == DataTypeKind::Integer);
            if *ty == DataTypeKind::SmallInt {
                assert(Self::spec_from_kinds()[0] == *ty);
            }
            if *ty == DataTypeKind::Integer {
                assert(Self::spec_from_kinds()[1] == *ty);
            }
        }
        match ty {
            DataTypeKind::SmallInt => true,
            DataTypeKind::Integer => true,
            _ => false,
        }
    }

    fn to_sql_types() -> (r: Vec<DataType>) {
        kinds_vec(&[DataTypeKind::Integer, DataTypeKind::BigInt])
    }

    fn from_sql_types() -> (r: Vec<DataType>) {
        kinds_vec(&[DataTypeKind::SmallInt, DataTypeKind::Integer])
    }

    proof fn lemma_unpack_accepts_from_kinds(v: NNSqlValue) {
        let k = v.spec_data_type_kind();
        assert(Self::spec_from_kinds().contains(k) ==> k == DataTypeKind::SmallInt || k == DataTypeKind::Integer);
        if k == DataTypeKind::SmallInt {
            assert(Self::spec_from_kinds()[0] == k);
        }
        if k == DataTypeKind::Integer {
            assert(Self::spec_from_kinds()[1] == k);
        }
    }
}

impl SqlConvertible for i64 {
    open spec fn spec_packed(x: i64) -> Seq<u8> {
        u64_le_bytes(x as u64)
    }

    open spec fn spec_unpacked(raw: Seq<u8>) -> Option<i64> {
        if raw.len() >= 8 {
            Some(u64_from_le_bytes(raw) as i64)
        } else {
            None
        }
    }

    open spec fn spec_packable(x: i64) -> bool {
        true
    }

    fn pack(rust_value: &Self) -> (r: ApllodbResult<Vec<u8>>) {
        match bincode_serialize_i64(rust_value) {
            Ok(b) => Ok(b),
            Err(_) => Err(pack_error()),
        }
    }

    fn unpack(raw: &[u8]) -> (r: ApllodbResult<Self>) {
        match bincode_deserialize_i64(raw) {
            Ok(v) => Ok(v),
            Err(_) => Err(unpack_error_of("i64")),
        }
    }

    proof fn lemma_unpack_pack(x: i64) {
        lemma_u64_bytes(x as u64);
        assert((x as u64) as i64 == x) by (bit_vector);
    }

    open spec fn spec_unpack(v: NNSqlValue) -> Option<i64> {
        match v {
            NNSqlValue::SmallInt(x) => Some(x as i64),
            NNSqlValue::Integer(x) => Some(x as i64),
            NNSqlValue::BigInt(x) => Some(x),
            _ => None,
        }
    }

    open spec fn spec_rust_type_name() -> Seq<char> {
        "i64"@
    }

    open spec fn spec_from_kinds() -> Seq<DataTypeKind> {
        seq![DataTypeKind::SmallInt, DataTypeKind::Integer, DataTypeKind::BigInt]
    }

    open spec fn spec_to_kinds() -> Seq<DataTypeKind> {
        seq![DataTypeKind::BigInt]
    }

    fn unpack_from(v: &NNSqlValue) -> (r: ApllodbResult<i64>) {
        match v {
            NNSqlValue::SmallInt(x) => Ok(*x as i64),
            NNSqlValue::Integer(x) => Ok(*x as i64),
            NNSqlValue::BigInt(x) => Ok(*x),
            _ => Err(mismatch(v, "i64")),
        }
    }

    fn rust_type_name() -> (r: String) {
        string_of("i64")
    }

    fn is_acceptable(ty: &DataTypeKind) -> (r: bool) {
        proof {
            assert(Self::spec_from_kinds().contains(*ty) ==> *ty == DataTypeKind::SmallInt || *ty == DataTypeKind::Integer || *ty == DataTypeKind::BigInt);
            if *ty == DataTypeKind::SmallInt {
                assert(Self::spec_from_kinds()[0] == *ty);
            }
            if *ty == DataTypeKind::Integer {
                assert(Self::spec_from_kinds()[1] == *ty);
            }
            if *ty == DataTypeKind::BigInt {
                assert(Self::spec_from_kinds()[2] == *ty);
            }
        }
        match ty {
            DataTypeKind::SmallInt => true,
            DataTypeKind::Integer => true,
            DataTypeKind::BigInt => true,
            _ => false,
        }
    }

    fn to_sql_types() -> (r: Vec<DataType>) {
        kinds_vec(&[DataTypeKind::BigInt])
    }

    fn from_sql_types() -> (r: Vec<DataType>) {
        kinds_vec(&[DataTypeKind::SmallInt, DataTypeKind::Integer, DataTypeKind::BigInt])
    }

    proof fn lemma_unpack_accepts_from_kinds(v: NNSqlValue) {
        let k = v.spec_data_type_kind();
        assert(Self::spec_from_kinds().contains(k) ==> k == DataTypeKind::SmallInt || k == DataTypeKind::Integer || k == DataTypeKind::BigInt);
        if k == DataTypeKind::SmallInt {
            assert(Self::spec_from_kinds()[0] == k);
        }
        if k == DataTypeKind::Integer {
            assert(Self::spec_from_kinds()[1] == k);
        }
        if k == DataTypeKind::BigInt {
            assert(Self::spec_from_kinds()[2] == k);
        }
    }
}

impl SqlConvertible for String {
    open spec fn spec_packed(x: Seq<char>) -> Seq<u8> {
        string_bytes(x)
    }

    open spec fn spec_unpacked(raw: Seq<u8>) -> Option<Seq<char>> {
        string_from_bytes(raw)
    }

    open spec fn spec_packable(x: Seq<char>) -> bool {
        encode_utf8(x).len() <= u64::MAX
    }

    fn pack(rust_value: &Self) -> (r: ApllodbResult<Vec<u8>>) {
        match bincode_serialize_string(rust_value) {
            Ok(b) => Ok(b),
            Err(_) => Err(pack_error()),
        }
    }

    fn unpack(raw: &[u8]) -> (r: ApllodbResult<Self>) {
        match bincode_deserialize_string(raw) {
            Ok(v) => Ok(v),
            Err(_) => Err(unpack_error_of("String")),
        }
    }

    proof fn lemma_unpack_pack(x: Seq<char>) {
        lemma_string_bytes(x);
    }

    open spec fn spec_unpack(v: NNSqlValue) -> Option<String> {
        match v {
            NNSqlValue::Text(s) => Some(s),
            _ => None,
        }
    }

    open spec fn spec_rust_type_name() -> Seq<char> {
        "String"@
    }

    open spec fn spec_from_kinds() -> Seq<DataTypeKind> {
        seq![DataTypeKind::Text]
    }

    open spec fn spec_to_kinds() -> Seq<DataTypeKind> {
        seq![DataTypeKind::Text]
    }

    fn unpack_from(v: &NNSqlValue) -> (r: ApllodbResult<String>) {
        match v {
            NNSqlValue::Text(s) => Ok(s.clone()),
            _ => Err(mismatch(v, "String")),
        }
    }

    fn rust_type_name() -> (r: String) {
        string_of("String")
    }

    fn is_acceptable(ty: &DataTypeKind) -> (r: bool) {
        proof {
            assert(Self::spec_from_kinds().contains(*ty) ==> *ty == DataTypeKind::Text);
            if *ty == DataTypeKind::Text {
                assert(Self::spec_from_kinds()[0] == *ty);
            }
        }
        match ty {
            DataTypeKind::Text => true,
            _ => false,
        }
    }

    fn to_sql_types() -> (r: Vec<DataType>) {
        kinds_vec(&[DataTypeKind::Text])
    }

    fn from_sql_types() -> (r: Vec<DataType>) {
        kinds_vec(&[DataTypeKind::Text])
    }

    proof fn lemma_unpack_accepts_from_kinds(v: NNSqlValue) {
        let k = v.spec_data_type_kind();
        assert(Self::spec_from_kinds().contains(k) ==> k == DataTypeKind::Text);
        if k == DataTypeKind::Text {
            assert(Self::spec_from_kinds()[0] == k);
        }
    }
}

impl SqlConvertible for bool {
    open spec fn spec_packed(x: bool) -> Seq<u8> {
        bool_bytes(x)
    }

    open spec fn spec_unpacked(raw: Seq<u8>) -> Option<bool> {
        bool_from_bytes(raw)
    }

    open spec fn spec_packable(x: bool) -> bool {
        true
    }

    fn pack(rust_value: &Self) -> (r: ApllodbResult<Vec<u8>>) {
        match bincode_serialize_bool(rust_value) {
            Ok(b) => Ok(b),
            Err(_) => Err(pack_error()),
        }
    }

    fn unpack(raw: &[u8]) -> (r: ApllodbResult<Self>) {
        match bincode_deserialize_bool(raw) {
            Ok(v) => Ok(v),
            Err(_) => Err(unpack_error_of("bool")),
        }
    }

    proof fn lemma_unpack_pack(x: bool) {

    }

    open spec fn spec_unpack(v: NNSqlValue) -> Option<bool> {
        match v {
            NNSqlValue::Boolean(b) => Some(b),
            _ => None,
        }
    }

    open spec fn spec_rust_type_name() -> Seq<char> {
        "bool"@
    }

    open spec fn spec_from_kinds() -> Seq<DataTypeKind> {
        seq![DataTypeKind::Boolean]
    }

    open spec fn spec_to_kinds() -> Seq<DataTypeKind> {
        seq![DataTypeKind::Boolean]
    }

    fn unpack_from(v: &NNSqlValue) -> (r: ApllodbResult<bool>) {
        match v {
            NNSqlValue::Boolean(b) => Ok(*b),
            _ => Err(mismatch(v, "bool")),
        }
    }

    fn rust_type_name() -> (r: String) {
        string_of("bool")
    }

    fn is_acceptable(ty: &DataTypeKind) -> (r: bool) {
        proof {
            assert(Self::spec_from_kinds().contains(*ty) ==> *ty == DataTypeKind::Boolean);
            if *ty == DataTypeKind::Boolean {
                assert(Self::spec_from_kinds()[0] == *ty);
            }
        }
        match ty {
            DataTypeKind::Boolean => true,
            _ => false,
        }
    }

    fn to_sql_types() -> (r: Vec<DataType>) {
        kinds_vec(&[DataTypeKind::Boolean])
    }

    fn from_sql_types() -> (r: Vec<DataType>) {
        kinds_vec(&[DataTypeKind::Boolean])
    }

    proof fn lemma_unpack_accepts_from_kinds(v: NNSqlValue) {
        let k = v.spec_data_type_kind();
        assert(Self::spec_from_kinds().contains(k) ==> k == DataTypeKind::Boolean);
        if k == DataTypeKind::Boolean {
            assert(Self::spec_from_kinds()[0] == k);
        }
    }
}

/// Law: loose unpacking keeps the integer: an integer value unpacked into `i16`, `i32` or `i64` is
/// the same number, and it is unpacked exactly when the Rust type is at least as wide as the value's
/// SQL type; a TEXT value unpacks into its `String`, a BOOLEAN into its `bool`.
pub proof fn lemma_unpack_keeps_value(v: NNSqlValue)
    ensures
        v matches NNSqlValue::SmallInt(x) ==> (<i16 as SqlConvertible>::spec_unpack(v) matches Some(y) && y as int == x as int)
            && (<i32 as SqlConvertible>::spec_unpack(v) matches Some(y) && y as int == x as int)
            && (<i64 as SqlConvertible>::spec_unpack(v) matches Some(y) && y as int == x as int),
        v matches NNSqlValue::Integer(x) ==> <i16 as SqlConvertible>::spec_unpack(v) is None
            && (<i32 as SqlConvertible>::spec_unpack(v) matches Some(y) && y as int == x as int)
            && (<i64 as SqlConvertible>::spec_unpack(v) matches Some(y) && y as int == x as int),
        v matches NNSqlValue::BigInt(x) ==> <i16 as SqlConvertible>::spec_unpack(v) is None
            && <i32 as SqlConvertible>::spec_unpack(v) is None
            && (<i64 as SqlConvertible>::spec_unpack(v) matches Some(y) && y as int == x as int),
        v matches NNSqlValue::Text(s) ==> <String as SqlConvertible>::spec_unpack(v) == Some(s),
        v matches NNSqlValue::Boolean(b) ==> <bool as SqlConvertible>::spec_unpack(v) == Some(b),
{
}

} // verus!
