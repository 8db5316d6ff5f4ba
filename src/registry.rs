use std::collections::HashMap;
use vstd::prelude::*;

use crate::resources::{Material, Mesh, Shader, Texture};

verus! {

broadcast use vstd::std_specs::hash::group_hash_axioms;

/// Identifies a material in its registry.
#[derive(Clone, Copy, Debug, PartialEq, Eq, Structural, Hash)]
pub struct MaterialId(pub u32);

/// Identifies a mesh in its registry.
#[derive(Clone, Copy, Debug, PartialEq, Eq, Structural, Hash)]
pub struct MeshId(pub u32);

/// Identifies a texture in its registry.
#[derive(Clone, Copy, Debug, PartialEq, Eq, Structural, Hash)]
pub struct TextureId(pub u32);

/// Shaders keyed by a caller-chosen id; adding an id again replaces the entry.
pub struct Shaders {
    shaders: HashMap<u32, Shader>,
}

impl View for Shaders {
    type V = Map<u32, Shader>;

    closed spec fn view(&self) -> Map<u32, Shader> {
        self.shaders@
    }
}

impl Shaders {
    pub fn new() -> (r: Shaders)
        ensures
            r@ == Map::<u32, Shader>::empty(),
    {
        Shaders { shaders: HashMap::new() }
    }

    pub fn add(&mut self, id: u32, shader: Shader)
        ensures
            final(self)@ == old(self)@.insert(id, shader),
    {
        self.shaders.insert(id, shader);
    }

    pub fn get(&self, id: u32) -> (r: Option<&Shader>)
        ensures
            match r {
                Some(s) => self@.contains_key(id) && *s == self@[id],
                None => !self@.contains_key(id),
            },
    {
        self.shaders.get(&id)
    }
}

/// Materials keyed by a caller-chosen id; adding an id again replaces the entry.
pub struct Materials {
    materials: HashMap<u32, Material>,
}

impl View for Materials {
    type V = Map<u32, Material>;

    closed spec fn view(&self) -> Map<u32, Material> {
        self.materials@
    }
}

impl Materials {
    pub fn new() -> (r: Materials)
        ensures
            r@ == Map::<u32, Material>::empty(),
    {
        Materials { materials: HashMap::new() }
    }

    pub fn add(&mut self, id: u32, mat: Material)
        ensures
            final(self)@ == old(self)@.insert(id, mat),
    {
        self.materials.insert(id, mat);
    }

    pub fn get(&self, id: u32) -> (r: Option<&Material>)
        ensures
            match r {
                Some(s) => self@.contains_key(id) && *s == self@[id],
                None => !self@.contains_key(id),
            },
    {
        self.materials.get(&id)
    }
}

/// Meshes keyed by a caller-chosen id; adding an id again replaces the entry.
pub struct Meshes {
    meshes: HashMap<u32, Mesh>,
}

impl View for Meshes {
    type V = Map<u32, Mesh>;

    closed spec fn view(&self) -> Map<u32, Mesh> {
        self.meshes@
    }
}

impl Meshes {
    pub fn new() -> (r: Meshes)
        ensures
            r@ == Map::<u32, Mesh>::empty(),
    {
        Meshes { meshes: HashMap::new() }
    }

    pub fn add(&mut self, id: u32, mesh: Mesh)
        ensures
            final(self)@ == old(self)@.insert(id, mesh),
    {
        self.meshes.insert(id, mesh);
    }

    pub fn get(&self, id: u32) -> (r: Option<&Mesh>)
        ensures
            match r {
                Some(s) => self@.contains_key(id) && *s == self@[id],
                None => !self@.contains_key(id),
            },
    {
        self.meshes.get(&id)
    }
}

/// Textures keyed by a caller-chosen id; adding an id again replaces the entry.
pub struct Textures {
    textures: HashMap<u32, Texture>,
}

impl View for Textures {
    type V = Map<u32, Texture>;

    closed spec fn view(&self) -> Map<u32, Texture> {
        self.textures@
    }
}

impl Textures {
    pub fn new() -> (r: Textures)
        ensures
            r@ == Map::<u32, Texture>::empty(),
    {
        Textures { textures: HashMap::new() }
    }

    pub fn add(&mut self, id: u32, texture: Texture)
        ensures
            final(self)@ == old(self)@.insert(id, texture),
    {
        self.textures.insert(id, texture);
    }

    pub fn get(&self, id: u32) -> (r: Option<&Texture>)
        ensures
            match r {
                Some(s) => self@.contains_key(id) && *s == self@[id],
                None => !self@.contains_key(id),
            },
    {
        self.textures.get(&id)
    }
}

/// Replacing a shader in the registry leaves every material made from the
/// old entry drawing with the old pipeline: a material shares the shader it
/// was built from, it does not look it up again.
pub proof fn material_keeps_its_shader(
    shaders: Map<u32, Shader>,
    id: u32,
    material: Material,
    replacement: Shader,
)
    requires
        shaders.contains_key(id),
        material.shader == shaders[id],
    ensures
        shaders.insert(id, replacement)[id] == replacement,
        material.shader.pipeline == shaders[id].pipeline,
        material.shader.pipeline == shaders.insert(id, replacement)[id].pipeline
            <==> shaders[id].pipeline == replacement.pipeline,
{
}

} // verus!
