//! A local logical endpoint on the bus: a sensor or an actuator.

use vstd::prelude::*;
use vstd::slice::slice_to_vec;
use vstd::string::StringSliceAdditionalSpecFns;

use crate::error::ParsingError;
use crate::mod_type::ModuleType;
use crate::MAX_ALIAS_SIZE;
use crate::MAX_ID_VAL;

verus! {

/// A module: an alias for humans, a hardware type, and the 12-bit id
/// that addresses it on the bus.
///
/// Frames that target the module are matched by the registry; what to do
/// with a delivered message is decided by the reception callback the
/// surrounding application keeps for this module's handle.
#[derive(Clone, Debug)]
pub struct Module {
    /// Human-readable name, at most `MAX_ALIAS_SIZE` bytes.
    pub alias: Vec<u8>,
    /// Hardware category of the module.
    pub mod_type: ModuleType,
    /// The 12-bit bus id; 0 until one is assigned.
    pub id: u16,
}

impl Module {
    /// The alias fits the wire limit and the id fits in 12 bits.
    pub open spec fn wf(self) -> bool {
        &&& self.alias@.len() <= MAX_ALIAS_SIZE
        &&& self.id <= MAX_ID_VAL
    }

    /// A module with the given alias and type, id 0. An alias longer
    /// than `MAX_ALIAS_SIZE` bytes is rejected.
    pub fn new(alias: &str, mod_type: ModuleType) -> (r: Result<Module, ParsingError>)
        ensures
            r is Ok <==> alias.spec_bytes().len() <= MAX_ALIAS_SIZE,
            r matches Ok(m) ==> m.alias@ == alias.spec_bytes() && m.mod_type == mod_type && m.id
                == 0 && m.wf(),
            r matches Err(e) ==> e == ParsingError::AliasTooLong(alias.spec_bytes().len() as usize),
    {
        let bytes = alias.as_bytes();
        if bytes.len() > MAX_ALIAS_SIZE {
            Err(ParsingError::AliasTooLong(bytes.len()))
        } else {
            Ok(Module { alias: slice_to_vec(bytes), mod_type, id: 0 })
        }
    }
}

} // verus!
