//! Variation metadata of a variable font: its axes and its named styles.
use crate::face::Face;
use crate::library::Library;
use crate::native::{AxisRecord, Handle, MmVarRecord, StyleRecord};
use crate::protocol::{Lookup, Pending, Step};
use crate::text::decode;
use vstd::prelude::*;
use vstd::utf8::*;

verus! {

/// A native variation descriptor and a copy of what it holds.
///
/// It borrows the face it describes and the library that allocated it: the
/// library's handle is needed again to destroy it.
#[derive(Debug, PartialEq, Eq)]
#[must_use]
pub struct MMVar<'a> {
    pub raw: Handle,
    pub library: &'a Library,
    pub face: &'a Face<'a>,
    pub data: MmVarRecord,
}

/// One axis of a variation descriptor.
#[derive(Clone, Copy, Debug, PartialEq, Eq)]
pub struct VarAxis<'a> {
    pub raw: &'a AxisRecord,
    pub face: &'a Face<'a>,
}

/// One named style of a variation descriptor.
#[derive(Clone, Copy, Debug, PartialEq, Eq)]
pub struct VarNamedStyle<'a> {
    pub raw: &'a StyleRecord,
    pub mm_var: &'a MMVar<'a>,
}

impl<'a> MMVar<'a> {
    /// The descriptor's arrays agree with its counts.
    pub open spec fn wf(&self) -> bool {
        self.data.wf()
    }

    /// Whether the descriptor is well formed.
    pub fn is_wf(&self) -> (yes: bool)
        ensures
            yes == self.wf(),
    {
        self.data.is_wf()
    }

    /// The axes, one view for each slot of the native array and in its order.
    pub open spec fn axis_views(&self) -> Seq<VarAxis<'_>> {
        Seq::new(self.data.axis@.len(), |i: int| VarAxis { raw: &self.data.axis@[i], face: self.face })
    }

    /// The named styles, one view for each slot of the native array and in its order.
    pub open spec fn named_style_views(&self) -> Seq<VarNamedStyle<'_>> {
        Seq::new(self.data.namedstyle@.len(), |i: int| VarNamedStyle { raw: &self.data.namedstyle@[i], mm_var: self })
    }

    /// The number of axes.
    pub fn num_axis(&self) -> (n: usize)
        ensures
            n == self.data.num_axis,
    {
        self.data.num_axis as usize
    }

    /// The number of designs.
    pub fn num_designs(&self) -> (n: usize)
        ensures
            n == self.data.num_designs,
    {
        self.data.num_designs as usize
    }

    /// The number of named styles.
    pub fn num_named_styles(&self) -> (n: usize)
        ensures
            n == self.data.num_namedstyles,
    {
        self.data.num_namedstyles as usize
    }

    /// The axes, in native order: as many as `num_axis` says, and the same
    /// sequence at every call.
    pub fn axis(&self) -> (views: Vec<VarAxis<'_>>)
        ensures
            views@ == self.axis_views(),
            self.wf() ==> views@.len() == self.data.num_axis,
    {
        let mut views: Vec<VarAxis<'_>> = Vec::new();
        let mut i: usize = 0;
        while i < self.data.axis.len()
            invariant
                i <= self.data.axis@.len(),
                views@ == self.axis_views().take(i as int),
            decreases self.data.axis@.len() - i,
        {
            views.push(VarAxis { raw: &self.data.axis[i], face: self.face });
            i = i + 1;
        }
        views
    }

    /// The named styles, in native order: as many as `num_named_styles` says,
    /// and the same sequence at every call. Each has one coordinate for each
    /// axis.
    pub fn named_styles(&self) -> (views: Vec<VarNamedStyle<'_>>)
        ensures
            views@ == self.named_style_views(),
            self.wf() ==> views@.len() == self.data.num_namedstyles,
            self.wf() ==> forall|i: int| 0 <= i < views@.len() ==> (#[trigger] views@[i]).wf(),
    {
        let mut views: Vec<VarNamedStyle<'_>> = Vec::new();
        let mut i: usize = 0;
        while i < self.data.namedstyle.len()
            invariant
                i <= self.data.namedstyle@.len(),
                views@ == self.named_style_views().take(i as int),
            decreases self.data.namedstyle@.len() - i,
        {
            views.push(VarNamedStyle { raw: &self.data.namedstyle[i], mm_var: self });
            i = i + 1;
        }
        views
    }

    /// Begins destroying the descriptor.
    pub fn release(self) -> (step: Step<'static>)
        ensures
            step == Step::Await(Pending::DropMmVar { owner: self.library.raw, raw: self.raw }),
    {
        Step::Await(Pending::DropMmVar { owner: self.library.raw, raw: self.raw })
    }
}

impl<'a> VarAxis<'a> {
    /// The axis name is well-formed UTF-8.
    pub open spec fn is_text(&self) -> bool {
        valid_utf8(self.raw.name@)
    }

    /// Whether `name` may be called.
    pub fn has_text(&self) -> (yes: bool)
        ensures
            yes == self.is_text(),
    {
        decode(self.raw.name.as_slice()).is_some()
    }

    /// The axis name, as the descriptor spells it.
    pub fn name(&self) -> (text: &str)
        requires
            self.is_text(),
        ensures
            text@ == decode_utf8(self.raw.name@),
    {
        match decode(self.raw.name.as_slice()) {
            Some(text) => text,
            None => vstd::pervasive::unreached(),
        }
    }

    /// Begins looking up the axis's display name in the naming table of the
    /// face.
    ///
    /// A lookup that the native side refuses is no error: the axis then has no
    /// display name.
    pub fn sfnt_name(&self) -> (step: Step<'static>)
        ensures
            step == Step::Await(
                Pending::AllocName {
                    lookup: Some(Lookup { face: self.face.raw, index: self.raw.strid, keep: false }),
                },
            ),
    {
        Step::Await(
            Pending::AllocName { lookup: Some(Lookup { face: self.face.raw, index: self.raw.strid, keep: false }) },
        )
    }

    /// The coordinate of the default design on this axis.
    pub fn default(&self) -> (value: i64)
        ensures
            value == self.raw.def,
    {
        self.raw.def
    }

    /// The least coordinate on this axis.
    pub fn minimum(&self) -> (value: i64)
        ensures
            value == self.raw.minimum,
    {
        self.raw.minimum
    }

    /// The greatest coordinate on this axis.
    pub fn maximum(&self) -> (value: i64)
        ensures
            value == self.raw.maximum,
    {
        self.raw.maximum
    }
}

impl<'a> VarNamedStyle<'a> {
    /// The style has one coordinate for each axis of its descriptor.
    pub open spec fn wf(&self) -> bool {
        self.raw.fits(self.mm_var.data.num_axis)
    }

    /// Whether `coords` may be called.
    pub fn is_wf(&self) -> (yes: bool)
        ensures
            yes == self.wf(),
    {
        self.raw.coords.len() == self.mm_var.num_axis()
    }

    /// The style's coordinates, one for each axis and in axis order.
    pub fn coords(&self) -> (values: Vec<i64>)
        requires
            self.wf(),
        ensures
            values@ == self.raw.coords@,
            values@.len() == self.mm_var.data.num_axis,
    {
        let count = self.mm_var.num_axis();
        let mut values: Vec<i64> = Vec::new();
        let mut i: usize = 0;
        while i < count
            invariant
                count == self.raw.coords@.len(),
                i <= count,
                values@ == self.raw.coords@.take(i as int),
            decreases count - i,
        {
            values.push(self.raw.coords[i]);
            i = i + 1;
        }
        values
    }
}

} // verus!
