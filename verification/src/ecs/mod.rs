//! The component system: the components of the engine and where they are kept.

use vstd::prelude::*;

pub mod loader;
pub mod types;

use types::Component;

verus! {

/// What can go wrong with a component.
#[allow(non_camel_case_types)]
#[derive(Debug)]
pub enum EComponent {
    /// No component is kept at the position.
    BAD_ID(u32),
    /// The file could not be loaded, and why.
    LOADING_FILE { file: String, cause: String },
    /// The image file of the path could not be loaded, and why.
    LOAD_IMAGE(String, String),
    /// The file extension does not name a kind of shader.
    SHADER_TYPE(String),
    /// A value could not be converted.
    CONVERSION { from: String, to: String, how: String },
}

// ------------------------------------------------------------------------------------------------
// Subsystem
//
/// Keeps the components of the engine and hands out their ids.
pub struct ComponentSystem {
    id_counter: u32,
    components: Vec<Box<dyn Component>>,
    current_shader: u32,
}

impl ComponentSystem {
    /// The id that the next component gets.
    pub closed spec fn counter(self) -> u32 {
        self.id_counter
    }

    /// The components that are kept, in the order they came.
    pub closed spec fn items(self) -> Seq<Box<dyn Component>> {
        self.components@
    }

    /// The number of components that are kept.
    pub open spec fn count(self) -> nat {
        self.items().len()
    }

    /// The id of the shader in use; zero as long as there is none.
    pub closed spec fn shader(self) -> u32 {
        self.current_shader
    }

    /// A system without components; ids start at one.
    pub fn init() -> (r: Self)
        ensures
            r.counter() == 1,
            r.count() == 0,
            r.shader() == 0,
    {
        ComponentSystem { id_counter: 1, components: Vec::new(), current_shader: 0 }
    }

    /// Hands out the next id, or none when every id is taken.
    pub fn get_next_id(&mut self) -> (r: Option<u32>)
        ensures
            final(self).items() == old(self).items(),
            final(self).shader() == old(self).shader(),
            match r {
                Some(id) => id == old(self).counter() && final(self).counter() == id + 1,
                None => old(self).counter() == u32::MAX && final(self).counter() == u32::MAX,
            },
    {
        if self.id_counter == u32::MAX {
            None
        } else {
            let id = self.id_counter;
            self.id_counter = id + 1;
            Some(id)
        }
    }

    /// Keeps one more component.
    pub fn push(&mut self, component: Box<dyn Component>)
        ensures
            final(self).items() == old(self).items().push(component),
            final(self).count() == old(self).count() + 1,
            final(self).counter() == old(self).counter(),
            final(self).shader() == old(self).shader(),
    {
        self.components.push(component);
        proof {
            vstd::seq::axiom_seq_push_len(old(self).components@, component);
        }
    }

    /// The component at a position. Fails, with the position, where no component
    /// is kept there.
    pub fn get(&self, id: u32) -> (r: Result<&Box<dyn Component>, EComponent>)
        ensures
            match r {
                Ok(component) => id < self.count() && *component == self.items()[id as int],
                Err(e) => id >= self.count() && e == EComponent::BAD_ID(id),
            },
    {
        let position = id as usize;
        if position < self.components.len() {
            Ok(&self.components[position])
        } else {
            Err(EComponent::BAD_ID(id))
        }
    }

    /// The number of components that are kept.
    pub fn len(&self) -> (r: usize)
        ensures
            r == self.count(),
    {
        self.components.len()
    }

    pub fn set_curent_shader(&mut self, id: u32)
        ensures
            final(self).shader() == id,
            final(self).items() == old(self).items(),
            final(self).counter() == old(self).counter(),
    {
        self.current_shader = id
    }

    pub fn get_current_shader(&self) -> (r: u32)
        ensures
            r == self.shader(),
    {
        self.current_shader
    }
}

} // verus!
