use vstd::prelude::*;

verus! {

/// A texture uploaded to the graphics device: its handle, its kind (such as
/// "texture_diffuse") and the asset path it was loaded from.
#[derive(Clone)]
pub struct Texture {
    pub id: u32,
    pub type_s: String,
    pub path: String,
}

impl Texture {
    /// The device handle.
    pub fn get_texture(&self) -> (r: u32)
        ensures
            r == self.id,
    {
        self.id
    }
}

impl Default for Texture {
    /// No texture: handle 0, empty kind and path.
    fn default() -> (r: Texture)
        ensures
            r.id == 0,
            r.type_s@.len() == 0,
            r.path@.len() == 0,
    {
        Texture { id: 0, type_s: String::new(), path: String::new() }
    }
}

} // verus!
