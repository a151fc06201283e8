//! Domain value types: their SQL storage category, nullability and foreign
//! keys, and how a raw stored value is decoded back into a domain value.
use vstd::prelude::*;

verus! {

/// The SQL storage category of a column.
#[derive(Clone, Copy, Debug, PartialEq, Eq, Structural)]
pub enum ColumnType {
    Integer,
    Float,
    String,
    Blob,
}

/// A table as the target of a foreign key: its name and its identity column.
#[derive(Debug, PartialEq, Eq)]
pub struct TableRef {
    pub name: String,
    pub id: String,
}

impl TableRef {
    pub fn new(name: &str, id: &str) -> (r: TableRef)
        ensures
            r.name@ == name@,
            r.id@ == id@,
    {
        TableRef { name: name.to_owned(), id: id.to_owned() }
    }

    pub fn copy(&self) -> (r: TableRef)
        ensures
            r == *self,
    {
        TableRef { name: self.name.clone(), id: self.id.clone() }
    }
}

/// A domain value type: a native scalar, a reference to a row of a table,
/// or a nullable wrapper around another domain value type.
#[derive(Debug, PartialEq, Eq)]
pub enum MyTyp {
    Integer,
    Float,
    Text,
    Blob,
    Bool,
    Table(TableRef),
    Nullable(Box<MyTyp>),
}

/// The storage class of a raw value as the storage engine reports it.
#[derive(Clone, Copy, Debug, PartialEq, Eq, Structural)]
pub enum StorageClass {
    Null,
    Integer,
    Real,
    Text,
    Blob,
}

/// A decode failure: the storage class that the type asked for, and the one found.
#[derive(Clone, Copy, Debug, PartialEq, Eq, Structural)]
pub struct DecodeError {
    pub expected: StorageClass,
    pub found: StorageClass,
}

/// A raw value of one column as the storage engine returns it.
/// A real number is held as the bits of its IEEE 754 double.
#[derive(Debug, PartialEq, Eq)]
pub enum RawValue {
    Null,
    Integer(i64),
    Real(u64),
    Text(String),
    Blob(Vec<u8>),
}

/// What a `RawValue` holds, with strings and bytes as sequences.
pub enum RawModel {
    Null,
    Integer(i64),
    Real(u64),
    Text(Seq<char>),
    Blob(Seq<u8>),
}

/// A decoded domain value. A float is held as the bits of its IEEE 754 double;
/// `Row` is the identity of a row of some table.
#[derive(Debug, PartialEq, Eq)]
pub enum Value {
    Integer(i64),
    Float(u64),
    Text(String),
    Blob(Vec<u8>),
    Bool(bool),
    Row(i64),
    Absent,
    Present(Box<Value>),
}

/// What a `Value` holds, with strings and bytes as sequences.
pub enum ValueModel {
    Integer(i64),
    Float(u64),
    Text(Seq<char>),
    Blob(Seq<u8>),
    Bool(bool),
    Row(i64),
    Absent,
    Present(Box<ValueModel>),
}

impl View for RawValue {
    type V = RawModel;

    open spec fn view(&self) -> RawModel {
        match self {
            RawValue::Null => RawModel::Null,
            RawValue::Integer(i) => RawModel::Integer(*i),
            RawValue::Real(f) => RawModel::Real(*f),
            RawValue::Text(s) => RawModel::Text(s@),
            RawValue::Blob(b) => RawModel::Blob(b@),
        }
    }
}

impl RawModel {
    pub open spec fn class(self) -> StorageClass {
        match self {
            RawModel::Null => StorageClass::Null,
            RawModel::Integer(_) => StorageClass::Integer,
            RawModel::Real(_) => StorageClass::Real,
            RawModel::Text(_) => StorageClass::Text,
            RawModel::Blob(_) => StorageClass::Blob,
        }
    }
}

impl Value {
    pub open spec fn model(self) -> ValueModel
        decreases self,
    {
        match self {
            Value::Integer(i) => ValueModel::Integer(i),
            Value::Float(f) => ValueModel::Float(f),
            Value::Text(s) => ValueModel::Text(s@),
            Value::Blob(b) => ValueModel::Blob(b@),
            Value::Bool(b) => ValueModel::Bool(b),
            Value::Row(i) => ValueModel::Row(i),
            Value::Absent => ValueModel::Absent,
            Value::Present(v) => ValueModel::Present(Box::new((*v).model())),
        }
    }
}

/// The view of a decode result.
pub open spec fn decoded(r: Result<Value, DecodeError>) -> Result<ValueModel, DecodeError> {
    match r {
        Ok(v) => Ok(v.model()),
        Err(e) => Err(e),
    }
}

impl ValueModel {
    /// This value is one of type `t`.
    pub open spec fn has_type(self, t: MyTyp) -> bool
        decreases t,
    {
        match t {
            MyTyp::Integer => self is Integer,
            MyTyp::Float => self is Float,
            MyTyp::Text => self is Text,
            MyTyp::Blob => self is Blob,
            MyTyp::Bool => self is Bool,
            MyTyp::Table(_) => self is Row,
            MyTyp::Nullable(inner) => match self {
                ValueModel::Absent => true,
                ValueModel::Present(v) => (*v).has_type(*inner),
                _ => false,
            },
        }
    }
}

impl MyTyp {
    /// The storage category; a nullable type has that of the type it wraps.
    pub open spec fn sql_type(self) -> ColumnType
        decreases self,
    {
        match self {
            MyTyp::Integer | MyTyp::Bool | MyTyp::Table(_) => ColumnType::Integer,
            MyTyp::Float => ColumnType::Float,
            MyTyp::Text => ColumnType::String,
            MyTyp::Blob => ColumnType::Blob,
            MyTyp::Nullable(inner) => (*inner).sql_type(),
        }
    }

    /// The table that a value of this type refers to, if any.
    pub open spec fn fk_target(self) -> Option<TableRef>
        decreases self,
    {
        match self {
            MyTyp::Table(t) => Some(t),
            MyTyp::Nullable(inner) => (*inner).fk_target(),
            _ => None,
        }
    }

    /// The storage class that a non-null stored value of this type has.
    pub open spec fn storage_class(self) -> StorageClass
        decreases self,
    {
        match self {
            MyTyp::Integer | MyTyp::Bool | MyTyp::Table(_) => StorageClass::Integer,
            MyTyp::Float => StorageClass::Real,
            MyTyp::Text => StorageClass::Text,
            MyTyp::Blob => StorageClass::Blob,
            MyTyp::Nullable(inner) => (*inner).storage_class(),
        }
    }

    /// Values of this type can be compared for equality (every non-nullable type).
    pub open spec fn eq_typ(self) -> bool {
        !(self is Nullable)
    }

    /// Values of this type take part in sums and averages.
    pub open spec fn num_typ(self) -> bool {
        self is Integer || self is Float
    }

    /// A raw value of class `c` decodes as this type.
    pub open spec fn accepts(self, c: StorageClass) -> bool
        decreases self,
    {
        match self {
            MyTyp::Nullable(inner) => c == StorageClass::Null || (*inner).accepts(c),
            _ => c == self.storage_class(),
        }
    }

    pub fn copy(&self) -> (r: MyTyp)
        ensures
            r == *self,
        decreases self,
    {
        match self {
            MyTyp::Integer => MyTyp::Integer,
            MyTyp::Float => MyTyp::Float,
            MyTyp::Text => MyTyp::Text,
            MyTyp::Blob => MyTyp::Blob,
            MyTyp::Bool => MyTyp::Bool,
            MyTyp::Table(t) => MyTyp::Table(t.copy()),
            MyTyp::Nullable(inner) => MyTyp::Nullable(Box::new(inner.copy())),
        }
    }

    /// The storage category of this type.
    pub fn typ(&self) -> (r: ColumnType)
        ensures
            r == self.sql_type(),
        decreases self,
    {
        match self {
            MyTyp::Integer | MyTyp::Bool | MyTyp::Table(_) => ColumnType::Integer,
            MyTyp::Float => ColumnType::Float,
            MyTyp::Text => ColumnType::String,
            MyTyp::Blob => ColumnType::Blob,
            MyTyp::Nullable(inner) => inner.typ(),
        }
    }

    /// Whether a column of this type may hold NULL.
    pub fn nullable(&self) -> (r: bool)
        ensures
            r == (self is Nullable),
    {
        match self {
            MyTyp::Nullable(_) => true,
            _ => false,
        }
    }

    /// The foreign key of a column of this type: the table it refers to.
    pub fn fk(&self) -> (r: Option<TableRef>)
        ensures
            r == self.fk_target(),
        decreases self,
    {
        match self {
            MyTyp::Table(t) => Some(t.copy()),
            MyTyp::Nullable(inner) => inner.fk(),
            _ => None,
        }
    }

    pub fn is_eq_typ(&self) -> (r: bool)
        ensures
            r == self.eq_typ(),
    {
        !self.nullable()
    }

    pub fn is_num_typ(&self) -> (r: bool)
        ensures
            r == self.num_typ(),
    {
        match self {
            MyTyp::Integer | MyTyp::Float => true,
            _ => false,
        }
    }

    /// The zero of a numeric type.
    pub fn zero(&self) -> (r: Value)
        requires
            self.num_typ(),
        ensures
            r.model().has_type(*self),
            r.model() == (if self is Integer {
                ValueModel::Integer(0)
            } else {
                ValueModel::Float(0)
            }),
    {
        match self {
            MyTyp::Integer => Value::Integer(0),
            _ => Value::Float(0),
        }
    }
}

impl RawValue {
    pub fn data_type(&self) -> (r: StorageClass)
        ensures
            r == self@.class(),
    {
        match self {
            RawValue::Null => StorageClass::Null,
            RawValue::Integer(_) => StorageClass::Integer,
            RawValue::Real(_) => StorageClass::Real,
            RawValue::Text(_) => StorageClass::Text,
            RawValue::Blob(_) => StorageClass::Blob,
        }
    }

    pub fn as_i64(&self) -> (r: Result<i64, DecodeError>)
        ensures
            match self@ {
                RawModel::Integer(i) => r == Ok::<i64, DecodeError>(i),
                _ => r == Err::<i64, DecodeError>(mismatch(StorageClass::Integer, self@)),
            },
    {
        match self {
            RawValue::Integer(i) => Ok(*i),
            _ => Err(DecodeError { expected: StorageClass::Integer, found: self.data_type() }),
        }
    }
}

pub open spec fn mismatch(expected: StorageClass, v: RawModel) -> DecodeError {
    DecodeError { expected, found: v.class() }
}

/// How a raw value decodes as type `t`.
pub open spec fn decode_model(t: MyTyp, v: RawModel) -> Result<ValueModel, DecodeError>
    decreases t,
{
    match t {
        MyTyp::Nullable(inner) => if v is Null {
            Ok(ValueModel::Absent)
        } else {
            match decode_model(*inner, v) {
                Ok(x) => Ok(ValueModel::Present(Box::new(x))),
                Err(e) => Err(e),
            }
        },
        MyTyp::Integer => match v {
            RawModel::Integer(i) => Ok(ValueModel::Integer(i)),
            _ => Err(mismatch(StorageClass::Integer, v)),
        },
        MyTyp::Bool => match v {
            RawModel::Integer(i) => Ok(ValueModel::Bool(i != 0)),
            _ => Err(mismatch(StorageClass::Integer, v)),
        },
        MyTyp::Table(_) => match v {
            RawModel::Integer(i) => Ok(ValueModel::Row(i)),
            _ => Err(mismatch(StorageClass::Integer, v)),
        },
        MyTyp::Float => match v {
            RawModel::Real(f) => Ok(ValueModel::Float(f)),
            _ => Err(mismatch(StorageClass::Real, v)),
        },
        MyTyp::Text => match v {
            RawModel::Text(s) => Ok(ValueModel::Text(s)),
            _ => Err(mismatch(StorageClass::Text, v)),
        },
        MyTyp::Blob => match v {
            RawModel::Blob(b) => Ok(ValueModel::Blob(b)),
            _ => Err(mismatch(StorageClass::Blob, v)),
        },
    }
}

/// Decodes a raw value as a value of type `t`. It fails exactly when the
/// value's storage class is not one that `t` accepts.
pub fn from_sql(t: &MyTyp, v: RawValue) -> (r: Result<Value, DecodeError>)
    ensures
        decoded(r) == decode_model(*t, v@),
        r is Err <==> !t.accepts(v@.class()),
        r matches Ok(x) ==> x.model().has_type(*t),
    decreases t, 0nat,
{
    match t {
        MyTyp::Nullable(inner) => option_from_sql(inner, v),
        MyTyp::Table(_) => row_from_sql(v),
        MyTyp::Integer => match v.as_i64() {
            Ok(i) => Ok(Value::Integer(i)),
            Err(e) => Err(e),
        },
        MyTyp::Bool => match v.as_i64() {
            Ok(i) => Ok(Value::Bool(i != 0)),
            Err(e) => Err(e),
        },
        MyTyp::Float => match v {
            RawValue::Real(f) => Ok(Value::Float(f)),
            _ => Err(DecodeError { expected: StorageClass::Real, found: v.data_type() }),
        },
        MyTyp::Text => match v {
            RawValue::Text(s) => Ok(Value::Text(s)),
            _ => Err(DecodeError { expected: StorageClass::Text, found: v.data_type() }),
        },
        MyTyp::Blob => match v {
            RawValue::Blob(b) => Ok(Value::Blob(b)),
            _ => Err(DecodeError { expected: StorageClass::Blob, found: v.data_type() }),
        },
    }
}

/// Decodes a nullable column: NULL is absent, anything else is decoded as `inner`.
fn option_from_sql(inner: &Box<MyTyp>, v: RawValue) -> (r: Result<Value, DecodeError>)
    ensures
        decoded(r) == decode_model(MyTyp::Nullable(*inner), v@),
        r is Err <==> !MyTyp::Nullable(*inner).accepts(v@.class()),
        r matches Ok(x) ==> x.model().has_type(MyTyp::Nullable(*inner)),
    decreases inner, 1nat,
{
    if v.data_type() == StorageClass::Null {
        Ok(Value::Absent)
    } else {
        match from_sql(inner, v) {
            Ok(x) => Ok(Value::Present(Box::new(x))),
            Err(e) => Err(e),
        }
    }
}

/// Decodes the identity of the row that a table-reference column points at.
fn row_from_sql(v: RawValue) -> (r: Result<Value, DecodeError>)
    ensures
        match v@ {
            RawModel::Integer(i) => decoded(r) == Ok::<ValueModel, DecodeError>(ValueModel::Row(i)),
            _ => r == Err::<Value, DecodeError>(mismatch(StorageClass::Integer, v@)),
        },
{
    let idx = v.as_i64();
    match idx {
        Ok(i) => Ok(Value::Row(i)),
        Err(e) => Err(e),
    }
}

} // verus!
