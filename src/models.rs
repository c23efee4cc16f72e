use crate::components::{RawModel, TerrainTexture};
use vstd::prelude::*;

verus! {

/// The six face images of a cube map.
pub struct CubeMapDefinition {
    pub back: String,
    pub bottom: String,
    pub front: String,
    pub left: String,
    pub right: String,
    pub top: String,
}

impl CubeMapDefinition {
    /// The face images in upload order: +x (right), -x (left), +y (top),
    /// -y (bottom), +z (back), -z (front).
    pub fn faces(&self) -> (r: Vec<&str>)
        ensures
            r@.len() == 6,
            r@[0]@ == self.right@,
            r@[1]@ == self.left@,
            r@[2]@ == self.top@,
            r@[3]@ == self.bottom@,
            r@[4]@ == self.back@,
            r@[5]@ == self.front@,
    {
        let mut faces: Vec<&str> = Vec::new();
        faces.push(self.right.as_str());
        faces.push(self.left.as_str());
        faces.push(self.top.as_str());
        faces.push(self.bottom.as_str());
        faces.push(self.back.as_str());
        faces.push(self.front.as_str());
        faces
    }
}

/// Owner of every graphics-backend handle created while loading the world:
/// vertex arrays, buffers and textures, all freed together at teardown.
pub struct Loader {
    pub vaos: Vec<u32>,
    pub vbos: Vec<u32>,
    pub textures: Vec<u32>,
}

impl Loader {
    pub fn new() -> (r: Loader)
        ensures
            r.vaos@.len() == 0,
            r.vbos@.len() == 0,
            r.textures@.len() == 0,
    {
        Loader { vaos: Vec::new(), vbos: Vec::new(), textures: Vec::new() }
    }

    /// Takes ownership of an indexed mesh: its vertex array and its buffers.
    /// The model draws `index_count` indices.
    pub fn load_to_vao(&mut self, vao_id: u32, buffer_ids: &Vec<u32>, index_count: usize) -> (r: RawModel)
        ensures
            r == (RawModel { vao_id, vertex_count: index_count }),
            final(self).vaos@ == old(self).vaos@.push(vao_id),
            final(self).vbos@ == old(self).vbos@ + buffer_ids@,
            final(self).textures@ == old(self).textures@,
    {
        self.vaos.push(vao_id);
        let mut i: usize = 0;
        while i < buffer_ids.len()
            invariant
                i <= buffer_ids@.len(),
                self.vaos@ == old(self).vaos@.push(vao_id),
                self.vbos@ == old(self).vbos@ + buffer_ids@.subrange(0, i as int),
                self.textures@ == old(self).textures@,
            decreases buffer_ids@.len() - i,
        {
            self.vbos.push(buffer_ids[i]);
            i += 1;
            assert(self.vbos@ =~= old(self).vbos@ + buffer_ids@.subrange(0, i as int));
        }
        assert(buffer_ids@.subrange(0, buffer_ids@.len() as int) =~= buffer_ids@);
        RawModel { vao_id, vertex_count: index_count }
    }

    /// Takes ownership of a non-indexed mesh of `value_count` position values,
    /// `dimension` per vertex, held in one buffer.
    pub fn load_positions_to_vao(&mut self, vao_id: u32, buffer_id: u32, value_count: usize, dimension: usize) -> (r:
        RawModel)
        requires
            dimension > 0,
        ensures
            r == (RawModel { vao_id, vertex_count: value_count / dimension }),
            final(self).vaos@ == old(self).vaos@.push(vao_id),
            final(self).vbos@ == old(self).vbos@.push(buffer_id),
            final(self).textures@ == old(self).textures@,
    {
        self.vaos.push(vao_id);
        self.vbos.push(buffer_id);
        RawModel { vao_id, vertex_count: value_count / dimension }
    }

    /// Takes ownership of a texture.
    pub fn load_texture(&mut self, texture_id: u32) -> (r: u32)
        ensures
            r == texture_id,
            final(self).textures@ == old(self).textures@.push(texture_id),
            final(self).vaos@ == old(self).vaos@,
            final(self).vbos@ == old(self).vbos@,
    {
        self.textures.push(texture_id);
        texture_id
    }

    /// Takes ownership of a texture used as a terrain layer.
    pub fn load_terrain_texture(&mut self, texture_id: u32) -> (r: TerrainTexture)
        ensures
            r.texture_id == texture_id,
            final(self).textures@ == old(self).textures@.push(texture_id),
            final(self).vaos@ == old(self).vaos@,
            final(self).vbos@ == old(self).vbos@,
    {
        TerrainTexture { texture_id: self.load_texture(texture_id) }
    }
}

} // verus!
