use vstd::prelude::*;

verus! {

/// A primitive argument type that a probe declaration may name.
#[derive(Clone, Copy, Debug, PartialEq, Eq, Structural)]
pub enum SchemaType {
    Int8,
    Int16,
    Int32,
    Int64,
    UInt8,
    UInt16,
    UInt32,
    UInt64,
    Bool,
    Str,
    Float,
    Double,
}

/// The calling-convention type that a generated entry point takes for an argument.
#[derive(Clone, Copy, Debug, PartialEq, Eq, Structural)]
pub enum NativeType {
    Int8,
    Int16,
    Int32,
    Int64,
    UInt8,
    UInt16,
    UInt32,
    UInt64,
    Bool,
    CharPtr,
}

/// A schema type that has no native representation.
#[derive(Clone, Copy, Debug, PartialEq, Eq, Structural)]
pub struct UnsupportedTypeError {
    pub ty: SchemaType,
}

/// The mapping from schema types to native types; `None` where a type is not supported.
pub open spec fn native_of(t: SchemaType) -> Option<NativeType> {
    match t {
        SchemaType::Int8 => Some(NativeType::Int8),
        SchemaType::Int16 => Some(NativeType::Int16),
        SchemaType::Int32 => Some(NativeType::Int32),
        SchemaType::Int64 => Some(NativeType::Int64),
        SchemaType::UInt8 => Some(NativeType::UInt8),
        SchemaType::UInt16 => Some(NativeType::UInt16),
        SchemaType::UInt32 => Some(NativeType::UInt32),
        SchemaType::UInt64 => Some(NativeType::UInt64),
        SchemaType::Bool => Some(NativeType::Bool),
        SchemaType::Str => Some(NativeType::CharPtr),
        SchemaType::Float => None,
        SchemaType::Double => None,
    }
}

pub open spec fn is_supported(t: SchemaType) -> bool {
    native_of(t) is Some
}

/// The spelling of a native type in generated source.
pub open spec fn c_name(n: NativeType) -> Seq<char> {
    match n {
        NativeType::Int8 => "int8_t"@,
        NativeType::Int16 => "int16_t"@,
        NativeType::Int32 => "int32_t"@,
        NativeType::Int64 => "int64_t"@,
        NativeType::UInt8 => "uint8_t"@,
        NativeType::UInt16 => "uint16_t"@,
        NativeType::UInt32 => "uint32_t"@,
        NativeType::UInt64 => "uint64_t"@,
        NativeType::Bool => "_Bool"@,
        NativeType::CharPtr => "char*"@,
    }
}

/// Maps a schema type to its native type, or reports it as unsupported.
pub fn map_type(t: SchemaType) -> (r: Result<NativeType, UnsupportedTypeError>)
    ensures
        match native_of(t) {
            Some(n) => r == Ok::<NativeType, UnsupportedTypeError>(n),
            None => r == Err::<NativeType, UnsupportedTypeError>(UnsupportedTypeError { ty: t }),
        },
{
    match t {
        SchemaType::Int8 => Ok(NativeType::Int8),
        SchemaType::Int16 => Ok(NativeType::Int16),
        SchemaType::Int32 => Ok(NativeType::Int32),
        SchemaType::Int64 => Ok(NativeType::Int64),
        SchemaType::UInt8 => Ok(NativeType::UInt8),
        SchemaType::UInt16 => Ok(NativeType::UInt16),
        SchemaType::UInt32 => Ok(NativeType::UInt32),
        SchemaType::UInt64 => Ok(NativeType::UInt64),
        SchemaType::Bool => Ok(NativeType::Bool),
        SchemaType::Str => Ok(NativeType::CharPtr),
        SchemaType::Float | SchemaType::Double => Err(UnsupportedTypeError { ty: t }),
    }
}

impl NativeType {
    /// The spelling of this type in generated source.
    pub fn c_name(&self) -> (r: &'static str)
        ensures
            r@ == c_name(*self),
    {
        match self {
            NativeType::Int8 => "int8_t",
            NativeType::Int16 => "int16_t",
            NativeType::Int32 => "int32_t",
            NativeType::Int64 => "int64_t",
            NativeType::UInt8 => "uint8_t",
            NativeType::UInt16 => "uint16_t",
            NativeType::UInt32 => "uint32_t",
            NativeType::UInt64 => "uint64_t",
            NativeType::Bool => "_Bool",
            NativeType::CharPtr => "char*",
        }
    }
}

/// One probe: its name and the ordered types of its arguments.
#[derive(Clone, Debug)]
pub struct ProbeDefinition {
    pub name: String,
    pub types: Vec<SchemaType>,
}

/// A provider: the namespace of its probes and the probes in declaration order.
#[derive(Clone, Debug)]
pub struct ProviderDefinition {
    pub name: String,
    pub probes: Vec<ProbeDefinition>,
}

pub open spec fn is_ident_start(c: char) -> bool {
    ('a' <= c && c <= 'z') || ('A' <= c && c <= 'Z') || c == '_'
}

pub open spec fn is_ident_char(c: char) -> bool {
    is_ident_start(c) || ('0' <= c && c <= '9')
}

/// A name usable as a symbol-name prefix.
pub open spec fn is_identifier(s: Seq<char>) -> bool {
    &&& s.len() > 0
    &&& is_ident_start(s[0])
    &&& forall|i: int| 0 <= i < s.len() ==> is_ident_char(#[trigger] s[i])
}

impl ProviderDefinition {
    /// Names are identifiers, at least one probe exists, and probe names are distinct.
    pub open spec fn wf(&self) -> bool {
        &&& is_identifier(self.name@)
        &&& self.probes@.len() > 0
        &&& forall|i: int| 0 <= i < self.probes@.len() ==> is_identifier(#[trigger] self.probes@[i].name@)
        &&& forall|i: int, j: int|
            0 <= i < j < self.probes@.len() ==> #[trigger] self.probes@[i].name@ != #[trigger] self.probes@[j].name@
    }
}

} // verus!
