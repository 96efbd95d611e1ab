//! The vocabulary of the foreign-function boundary, as plain values.
//!
//! A `Call` names one thing the native side has to do; a `Reply` is what came
//! back. Neither holds a pointer: a native object is known here only by its
//! address, and what the crate reads out of a native block arrives as a copy.
use crate::text::decode;
use vstd::prelude::*;
use vstd::utf8::*;

verus! {

/// The address of a native object.
#[derive(Clone, Copy, Debug, PartialEq, Eq, Hash, Structural)]
pub struct Handle {
    pub addr: usize,
}

/// One record of a face's naming table, as the native query filled it in.
#[derive(Clone, Debug, PartialEq, Eq)]
pub struct NameRecord {
    pub platform_id: u16,
    pub encoding_id: u16,
    pub language_id: u16,
    pub name_id: u16,
    /// The record's raw bytes; there is no terminator.
    pub string: Vec<u8>,
    /// How many bytes the native side says the record has.
    pub string_len: u32,
}

/// One slot of a variation descriptor's axis array.
#[derive(Clone, Debug, PartialEq, Eq)]
pub struct AxisRecord {
    /// The axis name, without the zero byte that closes it on the native side.
    pub name: Vec<u8>,
    pub minimum: i64,
    pub def: i64,
    pub maximum: i64,
    pub tag: u64,
    /// The index of the axis's display name in the face's naming table.
    pub strid: u32,
}

/// One slot of a variation descriptor's named-style array.
#[derive(Clone, Debug, PartialEq, Eq)]
pub struct StyleRecord {
    /// One coordinate for each axis of the descriptor, in axis order.
    pub coords: Vec<i64>,
    pub strid: u32,
    pub psid: u32,
}

/// The contents of a native variation descriptor.
#[derive(Clone, Debug, PartialEq, Eq)]
pub struct MmVarRecord {
    pub num_axis: u32,
    pub num_designs: u32,
    pub num_namedstyles: u32,
    pub axis: Vec<AxisRecord>,
    pub namedstyle: Vec<StyleRecord>,
}

/// One thing the native side is asked to do.
#[derive(Clone, Copy, Debug, PartialEq, Eq)]
pub enum Call<'p> {
    /// Create a runtime instance with the crate's allocator table.
    NewLibrary,
    /// Install the default processing modules into a runtime instance.
    AddDefaultModules { library: Handle },
    /// Add one reference to a runtime instance.
    ReferenceLibrary { library: Handle },
    /// Give up one reference to a runtime instance; the last one destroys it.
    DoneLibrary { library: Handle },
    /// Open the face at `face_index` of the file at `path`, a C string.
    NewFace { library: Handle, path: &'p Vec<u8>, face_index: i64 },
    /// Add one reference to a face.
    ReferenceFace { face: Handle },
    /// Give up one reference to a face; the last one destroys it.
    DoneFace { face: Handle },
    /// Count the records of a face's naming table.
    GetSfntNameCount { face: Handle },
    /// Allocate an empty naming-table record from the system allocator.
    AllocSfntName,
    /// Fill `record` with entry `index` of a face's naming table.
    GetSfntName { face: Handle, index: u32, record: Handle },
    /// Copy out what a filled naming-table record holds.
    ReadSfntName { record: Handle },
    /// Return a naming-table record to the system allocator.
    FreeSfntName { record: Handle },
    /// Build the variation descriptor of a face.
    GetMmVar { face: Handle },
    /// Copy out what a variation descriptor holds.
    ReadMmVar { mm_var: Handle },
    /// Destroy a variation descriptor, through the runtime instance that allocated it.
    DoneMmVar { library: Handle, mm_var: Handle },
}

/// What the native side answered.
#[derive(Clone, Debug, PartialEq, Eq)]
#[allow(inconsistent_fields)]
pub enum Reply {
    /// The call returns nothing.
    Nothing,
    /// The call returns a status.
    Status { code: i32 },
    /// The call returns a status and stores a handle; the handle means nothing
    /// unless the status is success.
    Created { code: i32, handle: Handle },
    /// The call returns a count.
    Count { count: u32 },
    /// The call returns freshly allocated memory.
    Block { handle: Handle },
    /// The contents of a naming-table record.
    Name { record: NameRecord },
    /// The contents of a variation descriptor.
    Variations { record: MmVarRecord },
}

impl NameRecord {
    /// The bytes copied out are as many as the native side reported.
    pub open spec fn wf(&self) -> bool {
        self.string@.len() == self.string_len
    }

    /// Whether the record is well formed.
    pub fn is_wf(&self) -> (yes: bool)
        ensures
            yes == self.wf(),
    {
        self.string.len() == self.string_len as usize
    }

    /// The record's bytes are well-formed UTF-8.
    pub open spec fn is_text(&self) -> bool {
        valid_utf8(self.string@)
    }

    /// Whether the record's bytes can be read as text.
    pub fn has_text(&self) -> (yes: bool)
        ensures
            yes == self.is_text(),
    {
        decode(self.string.as_slice()).is_some()
    }

    /// The record's bytes as text.
    pub fn text(&self) -> (text: &str)
        requires
            self.is_text(),
        ensures
            text@ == decode_utf8(self.string@),
    {
        match decode(self.string.as_slice()) {
            Some(text) => text,
            None => vstd::pervasive::unreached(),
        }
    }
}

impl StyleRecord {
    /// The style gives one coordinate for each of `num_axis` axes.
    pub open spec fn fits(&self, num_axis: u32) -> bool {
        self.coords@.len() == num_axis
    }
}

impl MmVarRecord {
    /// The arrays are as long as the counts say, and every named style has one
    /// coordinate for every axis.
    pub open spec fn wf(&self) -> bool {
        &&& self.axis@.len() == self.num_axis
        &&& self.namedstyle@.len() == self.num_namedstyles
        &&& forall|i: int| 0 <= i < self.namedstyle@.len() ==> (#[trigger] self.namedstyle@[i]).fits(self.num_axis)
    }

    /// Whether the record is well formed.
    pub fn is_wf(&self) -> (yes: bool)
        ensures
            yes == self.wf(),
    {
        if self.axis.len() != self.num_axis as usize {
            return false;
        }
        if self.namedstyle.len() != self.num_namedstyles as usize {
            return false;
        }
        let mut i: usize = 0;
        while i < self.namedstyle.len()
            invariant
                i <= self.namedstyle@.len(),
                forall|j: int| 0 <= j < i ==> (#[trigger] self.namedstyle@[j]).fits(self.num_axis),
            decreases self.namedstyle@.len() - i,
        {
            if self.namedstyle[i].coords.len() != self.num_axis as usize {
                return false;
            }
            i = i + 1;
        }
        true
    }
}

} // verus!
