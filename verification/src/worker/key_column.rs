//! The key column of a batch, and the hashes of its rows.

use super::error::WorkerRuntimeError;
use crate::filter::hash::{
    bool_hash, float32_hash, float64_hash, fnv, hash_bool_key, hash_bytes_key, hash_float32_key,
    hash_float64_key, hash_int_key, int_hash,
};
use crate::filter::pool::RuntimeFilterKeyType;
use crate::text::{append_signed, owned, signed_decimal};
use vstd::prelude::*;
use vstd::string::StringExecFns;

verus! {

/// The key column of one batch. Floats are given as their bits, text as its
/// UTF-8 bytes.
#[derive(Debug)]
pub enum KeyColumn {
    Boolean(Vec<Option<bool>>),
    Int16(Vec<Option<i16>>),
    Int32(Vec<Option<i32>>),
    Int64(Vec<Option<i64>>),
    Float32(Vec<Option<u32>>),
    Float64(Vec<Option<u64>>),
    Utf8View(Vec<Option<Vec<u8>>>),
    FixedSizeBinary(i32, Vec<Option<Vec<u8>>>),
    BinaryView(Vec<Option<Vec<u8>>>),
    /// A column of another type.
    Other,
}

/// What a key column holds.
#[verifier::ext_equal]
pub enum KeyContent {
    Boolean(Seq<Option<bool>>),
    Int16(Seq<Option<i16>>),
    Int32(Seq<Option<i32>>),
    Int64(Seq<Option<i64>>),
    Float32(Seq<Option<u32>>),
    Float64(Seq<Option<u64>>),
    Utf8View(Seq<Option<Seq<u8>>>),
    FixedSizeBinary(i32, Seq<Option<Seq<u8>>>),
    BinaryView(Seq<Option<Seq<u8>>>),
    Other,
}

/// What a list of byte keys holds.
pub open spec fn bytes_content(values: Seq<Option<Vec<u8>>>) -> Seq<Option<Seq<u8>>> {
    values.map_values(
        |v: Option<Vec<u8>>|
            match v {
                Some(bytes) => Some(bytes@),
                None => None,
            },
    )
}

impl View for KeyColumn {
    type V = KeyContent;

    open spec fn view(&self) -> KeyContent {
        match *self {
            KeyColumn::Boolean(values) => KeyContent::Boolean(values@),
            KeyColumn::Int16(values) => KeyContent::Int16(values@),
            KeyColumn::Int32(values) => KeyContent::Int32(values@),
            KeyColumn::Int64(values) => KeyContent::Int64(values@),
            KeyColumn::Float32(values) => KeyContent::Float32(values@),
            KeyColumn::Float64(values) => KeyContent::Float64(values@),
            KeyColumn::Utf8View(values) => KeyContent::Utf8View(bytes_content(values@)),
            KeyColumn::FixedSizeBinary(width, values) => KeyContent::FixedSizeBinary(
                width,
                bytes_content(values@),
            ),
            KeyColumn::BinaryView(values) => KeyContent::BinaryView(bytes_content(values@)),
            KeyColumn::Other => KeyContent::Other,
        }
    }
}

/// The hashes of byte keys; nulls have none.
pub open spec fn bytes_hashes(values: Seq<Option<Seq<u8>>>) -> Seq<Option<u64>> {
    values.map_values(
        |v: Option<Seq<u8>>|
            match v {
                Some(bytes) => Some(fnv(bytes)),
                None => None,
            },
    )
}

/// The hashes of a column, row by row; nulls have none.
pub open spec fn column_hashes(column: KeyContent) -> Seq<Option<u64>> {
    match column {
        KeyContent::Boolean(values) => values.map_values(
            |v: Option<bool>|
                match v {
                    Some(value) => Some(bool_hash(value)),
                    None => None,
                },
        ),
        KeyContent::Int16(values) => values.map_values(
            |v: Option<i16>|
                match v {
                    Some(value) => Some(int_hash(value as int)),
                    None => None,
                },
        ),
        KeyContent::Int32(values) => values.map_values(
            |v: Option<i32>|
                match v {
                    Some(value) => Some(int_hash(value as int)),
                    None => None,
                },
        ),
        KeyContent::Int64(values) => values.map_values(
            |v: Option<i64>|
                match v {
                    Some(value) => Some(int_hash(value as int)),
                    None => None,
                },
        ),
        KeyContent::Float32(values) => values.map_values(
            |v: Option<u32>|
                match v {
                    Some(value) => Some(float32_hash(value)),
                    None => None,
                },
        ),
        KeyContent::Float64(values) => values.map_values(
            |v: Option<u64>|
                match v {
                    Some(value) => Some(float64_hash(value)),
                    None => None,
                },
        ),
        KeyContent::Utf8View(values) => bytes_hashes(values),
        KeyContent::FixedSizeBinary(_, values) => bytes_hashes(values),
        KeyContent::BinaryView(values) => bytes_hashes(values),
        KeyContent::Other => Seq::empty(),
    }
}

/// The hashes that are there, in order.
pub open spec fn present(hashes: Seq<Option<u64>>) -> Seq<u64>
    decreases hashes.len(),
{
    if hashes.len() == 0 {
        Seq::empty()
    } else {
        match hashes.last() {
            Some(hash) => present(hashes.drop_last()).push(hash),
            None => present(hashes.drop_last()),
        }
    }
}

/// The name of a key type.
pub open spec fn key_type_name(key_type: RuntimeFilterKeyType) -> Seq<char> {
    match key_type {
        RuntimeFilterKeyType::Boolean => "Boolean"@,
        RuntimeFilterKeyType::Int16 => "Int16"@,
        RuntimeFilterKeyType::Int32 => "Int32"@,
        RuntimeFilterKeyType::Int64 => "Int64"@,
        RuntimeFilterKeyType::Float32 => "Float32"@,
        RuntimeFilterKeyType::Float64 => "Float64"@,
        RuntimeFilterKeyType::Utf8View => "Utf8View"@,
        RuntimeFilterKeyType::Uuid => "Uuid"@,
        RuntimeFilterKeyType::BinaryView => "BinaryView"@,
    }
}

/// The name of the arrays that hold a key type.
pub open spec fn array_name(key_type: RuntimeFilterKeyType) -> Seq<char> {
    if key_type == RuntimeFilterKeyType::Uuid {
        "FixedSizeBinary"@
    } else {
        key_type_name(key_type)
    }
}

/// The column is an array of the key type.
pub open spec fn column_fits(column: KeyContent, key_type: RuntimeFilterKeyType) -> bool {
    match key_type {
        RuntimeFilterKeyType::Boolean => column is Boolean,
        RuntimeFilterKeyType::Int16 => column is Int16,
        RuntimeFilterKeyType::Int32 => column is Int32,
        RuntimeFilterKeyType::Int64 => column is Int64,
        RuntimeFilterKeyType::Float32 => column is Float32,
        RuntimeFilterKeyType::Float64 => column is Float64,
        RuntimeFilterKeyType::Utf8View => column is Utf8View,
        RuntimeFilterKeyType::Uuid => column is FixedSizeBinary,
        RuntimeFilterKeyType::BinaryView => column is BinaryView,
    }
}

/// Why a column cannot go into a filter of a key type, if so.
pub open spec fn column_fault(column: KeyContent, key_type: RuntimeFilterKeyType) -> Option<
    Seq<char>,
> {
    if !column_fits(column, key_type) {
        Some(
            "runtime filter "@ + key_type_name(key_type) + " build key had non-"@ + array_name(
                key_type,
            ) + " array"@,
        )
    } else {
        match column {
            KeyContent::FixedSizeBinary(width, _) => if width != 16 {
                Some(
                    "runtime filter Uuid build key had FixedSizeBinary("@ + signed_decimal(
                        width as int,
                    ) + ") array"@,
                )
            } else {
                None
            },
            _ => None,
        }
    }
}

fn name_of_key_type(key_type: RuntimeFilterKeyType) -> (r: &'static str)
    ensures
        r@ == key_type_name(key_type),
{
    match key_type {
        RuntimeFilterKeyType::Boolean => "Boolean",
        RuntimeFilterKeyType::Int16 => "Int16",
        RuntimeFilterKeyType::Int32 => "Int32",
        RuntimeFilterKeyType::Int64 => "Int64",
        RuntimeFilterKeyType::Float32 => "Float32",
        RuntimeFilterKeyType::Float64 => "Float64",
        RuntimeFilterKeyType::Utf8View => "Utf8View",
        RuntimeFilterKeyType::Uuid => "Uuid",
        RuntimeFilterKeyType::BinaryView => "BinaryView",
    }
}

fn fits(column: &KeyColumn, key_type: RuntimeFilterKeyType) -> (r: bool)
    ensures
        r == column_fits(column@, key_type),
{
    match (column, key_type) {
        (KeyColumn::Boolean(_), RuntimeFilterKeyType::Boolean) => true,
        (KeyColumn::Int16(_), RuntimeFilterKeyType::Int16) => true,
        (KeyColumn::Int32(_), RuntimeFilterKeyType::Int32) => true,
        (KeyColumn::Int64(_), RuntimeFilterKeyType::Int64) => true,
        (KeyColumn::Float32(_), RuntimeFilterKeyType::Float32) => true,
        (KeyColumn::Float64(_), RuntimeFilterKeyType::Float64) => true,
        (KeyColumn::Utf8View(_), RuntimeFilterKeyType::Utf8View) => true,
        (KeyColumn::FixedSizeBinary(_, _), RuntimeFilterKeyType::Uuid) => true,
        (KeyColumn::BinaryView(_), RuntimeFilterKeyType::BinaryView) => true,
        _ => false,
    }
}

/// Checks that a column can go into a filter of a key type.
pub fn check_column(column: &KeyColumn, key_type: RuntimeFilterKeyType) -> (r: Result<
    (),
    WorkerRuntimeError,
>)
    ensures
        match column_fault(column@, key_type) {
            Some(fault) => r matches Err(WorkerRuntimeError::Execution(text)) && text@ == fault,
            None => r is Ok,
        },
{
    if !fits(column, key_type) {
        let mut text: String = owned("runtime filter ");
        text.append(name_of_key_type(key_type));
        text.append(" build key had non-");
        let array: &'static str = match key_type {
            RuntimeFilterKeyType::Uuid => "FixedSizeBinary",
            _ => name_of_key_type(key_type),
        };
        text.append(array);
        text.append(" array");
        return Err(WorkerRuntimeError::Execution(text));
    }
    match column {
        KeyColumn::FixedSizeBinary(width, _) => {
            if *width != 16 {
                let mut text: String = owned("runtime filter Uuid build key had FixedSizeBinary(");
                append_signed(&mut text, *width);
                text.append(") array");
                return Err(WorkerRuntimeError::Execution(text));
            }
        },
        _ => {},
    }
    Ok(())
}

/// The hash of one row of a column.
pub fn hash_row(column: &KeyColumn, i: usize) -> (r: Option<u64>)
    requires
        i < column_hashes(column@).len(),
    ensures
        r == column_hashes(column@)[i as int],
{
    match column {
        KeyColumn::Boolean(values) => match values[i] {
            Some(value) => Some(hash_bool_key(value)),
            None => None,
        },
        KeyColumn::Int16(values) => match values[i] {
            Some(value) => Some(hash_int_key(value as i64)),
            None => None,
        },
        KeyColumn::Int32(values) => match values[i] {
            Some(value) => Some(hash_int_key(value as i64)),
            None => None,
        },
        KeyColumn::Int64(values) => match values[i] {
            Some(value) => Some(hash_int_key(value)),
            None => None,
        },
        KeyColumn::Float32(values) => match values[i] {
            Some(value) => Some(hash_float32_key(value)),
            None => None,
        },
        KeyColumn::Float64(values) => match values[i] {
            Some(value) => Some(hash_float64_key(value)),
            None => None,
        },
        KeyColumn::Utf8View(values) => hash_bytes_row(values, i),
        KeyColumn::FixedSizeBinary(_, values) => hash_bytes_row(values, i),
        KeyColumn::BinaryView(values) => hash_bytes_row(values, i),
        KeyColumn::Other => None,
    }
}

fn hash_bytes_row(values: &Vec<Option<Vec<u8>>>, i: usize) -> (r: Option<u64>)
    requires
        i < values@.len(),
    ensures
        r == bytes_hashes(bytes_content(values@))[i as int],
{
    match &values[i] {
        Some(bytes) => Some(hash_bytes_key(bytes.as_slice())),
        None => None,
    }
}

impl KeyColumn {
    /// Number of rows.
    pub fn len(&self) -> (r: usize)
        ensures
            r == column_hashes(self@).len(),
    {
        match self {
            KeyColumn::Boolean(values) => values.len(),
            KeyColumn::Int16(values) => values.len(),
            KeyColumn::Int32(values) => values.len(),
            KeyColumn::Int64(values) => values.len(),
            KeyColumn::Float32(values) => values.len(),
            KeyColumn::Float64(values) => values.len(),
            KeyColumn::Utf8View(values) => values.len(),
            KeyColumn::FixedSizeBinary(_, values) => values.len(),
            KeyColumn::BinaryView(values) => values.len(),
            KeyColumn::Other => 0,
        }
    }
}

/// A key that is there has its hash among those that are there.
pub proof fn lemma_present(hashes: Seq<Option<u64>>, row: int)
    requires
        0 <= row < hashes.len(),
        hashes[row] is Some,
    ensures
        exists|i: int|
            0 <= i < present(hashes).len() && #[trigger] present(hashes)[i] == hashes[row]->0,
    decreases hashes.len(),
{
    let before = hashes.drop_last();
    if row < before.len() {
        lemma_present(before, row);
        let i = choose|i: int|
            0 <= i < present(before).len() && #[trigger] present(before)[i] == before[row]->0;
        assert(present(hashes)[i] == hashes[row]->0);
    } else {
        assert(present(hashes)[present(before).len() as int] == hashes[row]->0);
    }
}

} // verus!
