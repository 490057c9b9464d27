//! The world a render consumes: the scene's primitives plus the material
//! registry their handles resolve in. Built once, then read-only.

use vstd::prelude::*;
use crate::hittables::Hittables;
use crate::hittables::obj_material_id;
use crate::materials::Materials;

verus! {

pub struct World {
    pub objects: Hittables,
    pub materials: Materials,
}

impl World {
    /// Scene validity: every member's geometry is valid and every material
    /// handle resolves in the registry.
    pub open spec fn wf(&self) -> bool {
        &&& self.objects.wf()
        &&& forall|i: int|
            0 <= i < self.objects.objects@.len() ==> obj_material_id(self.objects.objects@[i])
                < self.materials.materials@.len()
    }
}

} // verus!
