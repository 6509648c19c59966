use vstd::prelude::*;

verus! {

/// One row of the `cats` table.
pub struct Cat {
    pub id: i32,
    pub name: String,
    pub image_path: String,
}

impl Cat {
    pub fn new(id: i32, name: String, image_path: String) -> (c: Cat)
        ensures
            c.id == id,
            c.name@ == name@,
            c.image_path@ == image_path@,
    {
        Cat { id, name, image_path }
    }
}

} // verus!
