//! Choice of the rendering driver among those the platform offers.

use vstd::prelude::*;

verus! {

/// Name of the driver the scene is rendered with.
pub const GL_DRIVER: &'static str = "opengl";

/// Whether `index` is the place of the first driver called `GL_DRIVER`.
pub open spec fn is_first_gl_driver(names: Seq<String>, index: int) -> bool {
    &&& 0 <= index < names.len()
    &&& names[index]@ == GL_DRIVER@
    &&& forall|j: int| 0 <= j < index ==> names[j]@ != GL_DRIVER@
}

/// Whether no driver is called `GL_DRIVER`.
pub open spec fn has_no_gl_driver(names: Seq<String>) -> bool {
    forall|j: int| 0 <= j < names.len() ==> names[j]@ != GL_DRIVER@
}

/// Place of the first driver called `GL_DRIVER` in the list of the
/// platform's drivers, if there is one.
pub fn find_sdl_gl_driver(names: &Vec<String>) -> (found: Option<u32>)
    requires
        names@.len() <= u32::MAX,
    ensures
        found matches Some(index) ==> is_first_gl_driver(names@, index as int),
        found is None ==> has_no_gl_driver(names@),
{
    let wanted: String = GL_DRIVER.to_owned();
    let mut index: usize = 0;
    while index < names.len()
        invariant
            0 <= index <= names@.len(),
            names@.len() <= u32::MAX,
            wanted@ == GL_DRIVER@,
            forall|j: int| 0 <= j < index ==> names@[j]@ != GL_DRIVER@,
        decreases names@.len() - index,
    {
        if names[index] == wanted {
            return Some(index as u32);
        }
        index += 1;
    }
    None
}

} // verus!
