//! Queue families of a physical device and the roles the engine gives them.

use vstd::prelude::*;

verus! {

/// What the driver reports of one queue family, as far as the engine reads it.
#[derive(Debug, Clone, Copy, PartialEq, Eq, Structural)]
pub struct QueueFamilyProperties {
    /// The family accepts graphics operations.
    pub graphics: bool,
    /// The family can present to the bound surface.
    pub present: bool,
}

/// A family can serve the engine when it both draws and presents.
pub open spec fn family_usable(family: QueueFamilyProperties) -> bool {
    family.graphics && family.present
}

/// Some family of the list can serve the engine.
pub open spec fn has_usable_family(families: Seq<QueueFamilyProperties>) -> bool {
    exists|i: int| 0 <= i < families.len() && family_usable(#[trigger] families[i])
}

/// `index` is the first family of the list that can serve the engine.
pub open spec fn is_first_usable_family(families: Seq<QueueFamilyProperties>, index: int) -> bool {
    &&& 0 <= index < families.len()
    &&& family_usable(families[index])
    &&& forall|j: int| 0 <= j < index ==> !family_usable(#[trigger] families[j])
}

/// Maps the roles of the engine (graphics, present) to queue family indices.
#[derive(Debug, Clone, Copy, PartialEq, Eq, Structural)]
pub struct QueueFamilyIndices {
    graphicfamily: Option<u32>,
    presentfamily: Option<u32>,
}

impl QueueFamilyIndices {
    /// Index of the family that draws, if one was found.
    pub closed spec fn graphic(self) -> Option<u32> {
        self.graphicfamily
    }

    /// Index of the family that presents, if one was found.
    pub closed spec fn present(self) -> Option<u32> {
        self.presentfamily
    }

    /// Both roles resolve to a family.
    pub open spec fn complete(self) -> bool {
        self.graphic().is_some() && self.present().is_some()
    }

    /// A record built from the two indices as given.
    pub fn new(graphicfamily: Option<u32>, presentfamily: Option<u32>) -> (r: Self)
        ensures
            r.graphic() == graphicfamily,
            r.present() == presentfamily,
    {
        QueueFamilyIndices { graphicfamily, presentfamily }
    }

    /// True when both roles resolve to a family.
    pub fn is_complete(&self) -> (r: bool)
        ensures
            r == self.complete(),
    {
        self.graphicfamily.is_some() && self.presentfamily.is_some()
    }

    pub fn get_graphic_index(&self) -> (r: Option<u32>)
        ensures
            r == self.graphic(),
    {
        self.graphicfamily
    }

    pub fn get_present_index(&self) -> (r: Option<u32>)
        ensures
            r == self.present(),
    {
        self.presentfamily
    }
}

/// Looks for the first family that both draws and presents, in the order of the
/// driver's list, and gives it both roles. No role is resolved when there is none.
pub fn find_queue_family(families: &Vec<QueueFamilyProperties>) -> (r: QueueFamilyIndices)
    requires
        families.len() <= u32::MAX,
    ensures
        r.present() == r.graphic(),
        r.complete() <==> has_usable_family(families@),
        r.graphic() matches Some(i) ==> is_first_usable_family(families@, i as int),
{
    let mut index: usize = 0;
    while index < families.len()
        invariant
            index <= families.len() <= u32::MAX,
            forall|j: int| 0 <= j < index ==> !family_usable(#[trigger] families@[j]),
        decreases families.len() - index,
    {
        let family = families[index];
        if family.graphics && family.present {
            let found: u32 = index as u32;
            return QueueFamilyIndices { graphicfamily: Some(found), presentfamily: Some(found) };
        }
        index += 1;
    }
    QueueFamilyIndices { graphicfamily: None, presentfamily: None }
}

} // verus!
