//! Data structures related to objects (useful data) stored on Subspace Network.
//!
//! There are two kinds of mappings:
//! * for objects within a block
//! * for global objects in the global history of the blockchain (inside a piece)

use vstd::prelude::*;

verus! {

/// Object stored inside the block
#[derive(Debug, Copy, Clone, PartialEq, Eq, Ord, PartialOrd, Hash)]
pub struct BlockObject {
    /// Object hash
    pub hash: [u8; 32],
    /// Offset of the object in the encoded block
    pub offset: u32,
}

/// Mapping of objects stored inside the block
#[derive(Debug, Clone, PartialEq, Eq, Ord, PartialOrd, Hash)]
pub enum BlockObjectMapping {
    /// V0 of object mapping data structure
    V0 {
        /// Objects stored inside the block
        objects: Vec<BlockObject>,
    },
}

impl BlockObjectMapping {
    /// The objects that the mapping lists, in order.
    pub open spec fn objects_view(self) -> Seq<BlockObject> {
        match self {
            BlockObjectMapping::V0 { objects } => objects@,
        }
    }

    /// Returns a newly created BlockObjectMapping from a list of object mappings
    pub fn from_objects(objects: Vec<BlockObject>) -> (mapping: Self)
        ensures
            mapping.objects_view() == objects@,
    {
        BlockObjectMapping::V0 { objects }
    }

    /// Returns the object mappings
    pub fn objects(&self) -> (objects: &[BlockObject])
        ensures
            objects@ == self.objects_view(),
    {
        match self {
            BlockObjectMapping::V0 { objects } => objects.as_slice(),
        }
    }

    /// Returns the object mappings as a mutable slice
    pub fn objects_mut(&mut self) -> (objects: &mut Vec<BlockObject>)
        ensures
            objects@ == old(self).objects_view(),
            final(self).objects_view() == final(objects)@,
    {
        match self {
            BlockObjectMapping::V0 { objects } => objects,
        }
    }
}

impl Default for BlockObjectMapping {
    fn default() -> (mapping: Self)
        ensures
            mapping.objects_view() == Seq::<BlockObject>::empty(),
    {
        BlockObjectMapping::V0 { objects: Vec::new() }
    }
}

/// Object stored in the history of the blockchain
#[derive(Debug, Copy, Clone, PartialEq, Eq, Ord, PartialOrd, Hash)]
pub struct GlobalObject {
    /// Object hash.
    ///
    /// We order objects by hash, so object hash lookups can be performed efficiently.
    pub hash: [u8; 32],
    /// Piece index where the object is contained (at least its beginning, might not fit fully)
    pub piece_index: u64,
    /// Raw record offset of the object in that piece, for use with `Record::to_raw_record_bytes`
    pub offset: u32,
}

/// Mapping of objects stored in the history of the blockchain
#[derive(Debug, Clone, PartialEq, Eq, Ord, PartialOrd, Hash)]
pub enum GlobalObjectMapping {
    /// V0 of object mapping data structure
    V0 {
        /// Objects stored in the history of the blockchain
        objects: Vec<GlobalObject>,
    },
}

impl GlobalObjectMapping {
    /// The objects that the mapping lists, in order.
    pub open spec fn objects_view(self) -> Seq<GlobalObject> {
        match self {
            GlobalObjectMapping::V0 { objects } => objects@,
        }
    }

    /// Returns a newly created GlobalObjectMapping from a list of object mappings
    pub fn from_objects(objects: Vec<GlobalObject>) -> (mapping: Self)
        ensures
            mapping.objects_view() == objects@,
    {
        GlobalObjectMapping::V0 { objects }
    }

    /// Returns the object mappings
    pub fn objects(&self) -> (objects: &[GlobalObject])
        ensures
            objects@ == self.objects_view(),
    {
        match self {
            GlobalObjectMapping::V0 { objects } => objects.as_slice(),
        }
    }

    /// Returns the object mappings as a mutable slice
    pub fn objects_mut(&mut self) -> (objects: &mut Vec<GlobalObject>)
        ensures
            objects@ == old(self).objects_view(),
            final(self).objects_view() == final(objects)@,
    {
        match self {
            GlobalObjectMapping::V0 { objects } => objects,
        }
    }
}

impl Default for GlobalObjectMapping {
    fn default() -> (mapping: Self)
        ensures
            mapping.objects_view() == Seq::<GlobalObject>::empty(),
    {
        GlobalObjectMapping::V0 { objects: Vec::new() }
    }
}

} // verus!
