//! Descriptive metadata about blocks and their ports, as collected at
//! build time for tooling: named port descriptions with type, direction
//! and cardinality, grouped into blocks, plus the conversion from the
//! binder's resolved binding definitions.

use vstd::prelude::*;

use crate::binder::NativeBindingDefinition;

verus! {

/// The error returned when a raw value does not name a metadata variant.
#[derive(Debug)]
pub struct ConvertError;

/// The information element types that port metadata can name, each with
/// its catalog type code as wire value.
#[derive(Debug, Clone, Copy, PartialEq, Eq)]
pub enum IEType {
    TI1,
    TI3,
    TI13,
    TI45,
    TI49,
    TI50,
    TI112,
    TI136,
    TI137,
    TI138,
    TI139,
}

/// The wire value of a metadata element type: its catalog type code.
pub open spec fn ie_type_code(t: IEType) -> u8 {
    match t {
        IEType::TI1 => 1,
        IEType::TI3 => 3,
        IEType::TI13 => 13,
        IEType::TI45 => 45,
        IEType::TI49 => 49,
        IEType::TI50 => 50,
        IEType::TI112 => 112,
        IEType::TI136 => 136,
        IEType::TI137 => 137,
        IEType::TI138 => 138,
        IEType::TI139 => 139,
    }
}

/// True when `v` is the catalog type code of a metadata element type.
pub open spec fn is_meta_type_code(v: u8) -> bool {
    ||| v == 1
    ||| v == 3
    ||| v == 13
    ||| v == 45
    ||| v == 49
    ||| v == 50
    ||| v == 112
    ||| v == 136
    ||| v == 137
    ||| v == 138
    ||| v == 139
}

impl IEType {
    /// The catalog type code of this element type.
    pub fn to_u8(self) -> (r: u8)
        ensures
            r == ie_type_code(self),
    {
        match self {
            IEType::TI1 => 1,
            IEType::TI3 => 3,
            IEType::TI13 => 13,
            IEType::TI45 => 45,
            IEType::TI49 => 49,
            IEType::TI50 => 50,
            IEType::TI112 => 112,
            IEType::TI136 => 136,
            IEType::TI137 => 137,
            IEType::TI138 => 138,
            IEType::TI139 => 139,
        }
    }

    /// The element type named by a catalog type code; fails exactly for
    /// codes outside the metadata set.
    pub fn try_from_u8(value: u8) -> (r: Result<IEType, ConvertError>)
        ensures
            r is Ok <==> is_meta_type_code(value),
            r matches Ok(t) ==> ie_type_code(t) == value,
    {
        match value {
            1 => Ok(IEType::TI1),
            3 => Ok(IEType::TI3),
            13 => Ok(IEType::TI13),
            45 => Ok(IEType::TI45),
            49 => Ok(IEType::TI49),
            50 => Ok(IEType::TI50),
            112 => Ok(IEType::TI112),
            136 => Ok(IEType::TI136),
            137 => Ok(IEType::TI137),
            138 => Ok(IEType::TI138),
            139 => Ok(IEType::TI139),
            _ => Err(ConvertError),
        }
    }
}

/// A port's direction, as named in metadata.
#[derive(Debug, Clone, Copy, PartialEq, Eq)]
pub enum Direction {
    In,
    Out,
    InOut,
}

/// The scalar types a block configuration field can take.
#[derive(Debug, Clone, Copy, PartialEq, Eq)]
pub enum AllowedType {
    U8,
    U16,
    U32,
    U64,
    I8,
    I16,
    I32,
    I64,
    F32,
    F64,
}

/// The layout of a block's configuration blob: its named fields in
/// order.
#[derive(Debug, Clone)]
pub struct BlockConf {
    pub fields: Vec<(String, AllowedType)>,
}

/// One named port or parameter of a block, as described for tooling.
#[derive(Debug, Clone)]
pub struct Port {
    pub name: String,
    pub typ: IEType,
    pub description: String,
    pub direction: Direction,
    pub required: bool,
    /// At least one.
    pub min: u8,
    /// Absent means unbounded.
    pub max: Option<u8>,
}

/// One block: its name, its ports and parameters, and its configuration
/// layout, if any.
#[derive(Debug, Clone)]
pub struct Block {
    pub name: String,
    pub description: String,
    pub semver_requirement: Option<String>,
    pub ports: Vec<Port>,
    pub params: Vec<Port>,
    pub block_conf: Option<BlockConf>,
}

/// A three-part version number: major, minor and patch.
#[derive(Debug, Clone, Copy, PartialEq, Eq)]
pub struct VersionTriple(pub u8, pub u8, pub u8);

/// The whole metadata blob a built module carries: version bounds and
/// the described blocks.
#[derive(Debug, Clone)]
pub struct WasmMetadata {
    pub minimum_firmware_version: VersionTriple,
    pub sdk_version: VersionTriple,
    pub blocks: Vec<Block>,
}

impl Port {
    /// Describes a resolved binding definition as a metadata port: the
    /// type code must name a metadata element type, the direction byte
    /// one of the three directions, and the minimum must not be zero.
    pub fn try_from_native(value: NativeBindingDefinition) -> (r: Result<Port, ConvertError>)
        ensures
            r is Ok <==> (is_meta_type_code(value.typ) && value.direction.0 < 3 && value.min_size
                >= 1),
            r matches Ok(p) ==> ie_type_code(p.typ) == value.typ && p.name@ == value.name@
                && p.required == (value.flags & crate::binder::REQUIRED != 0) && p.min
                == value.min_size && p.max == value.max_size && p.direction == (if value.direction.0
                == 0 {
                Direction::In
            } else if value.direction.0 == 1 {
                Direction::Out
            } else {
                Direction::InOut
            }),
    {
        let typ = match IEType::try_from_u8(value.typ) {
            Ok(t) => t,
            Err(e) => {
                return Err(e);
            },
        };
        let direction = if value.direction.0 == 0 {
            Direction::In
        } else if value.direction.0 == 1 {
            Direction::Out
        } else if value.direction.0 == 2 {
            Direction::InOut
        } else {
            return Err(ConvertError);
        };
        if value.min_size == 0 {
            return Err(ConvertError);
        }
        Ok(
            Port {
                name: value.name,
                typ,
                description: String::new(),
                direction,
                required: value.flags & crate::binder::REQUIRED != 0,
                min: value.min_size,
                max: value.max_size,
            },
        )
    }
}

} // verus!
