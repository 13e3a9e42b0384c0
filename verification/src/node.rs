//! The element capability hint synthesis reads: a tag name, the typed
//! attribute accessors' results, and the raw string attributes.
//!
//! The attribute storage and parsing layer lives outside this library; an
//! [`Element`] here carries exactly what that layer would hand back, already
//! normalized (a malformed `width` arrives as [`LengthOrPercentageOrAuto::Auto`],
//! a malformed `size` as `None`), so synthesis is total over every value of it.

use vstd::prelude::*;
use crate::geometry::Au;
use crate::legacy::{IntegerAttribute, LengthAttribute};

verus! {

/// The value domain of a length attribute, as the attribute accessor reports
/// it: the keyword `auto`, a percentage, or an absolute length.
#[derive(Clone, Copy, Debug, PartialEq, Eq, Structural)]
pub enum LengthOrPercentageOrAuto {
    Auto,
    /// A percentage in the attribute's native scale (`width="50%"` arrives
    /// as `Percentage(50)`).
    Percentage(i32),
    Length(Au),
}

/// One attribute of an element: a local name and its raw string value.
#[derive(Clone, Debug)]
pub struct Attr {
    pub name: String,
    pub value: String,
}

/// The mathematical image of an [`Attr`].
pub ghost struct AttrView {
    pub name: Seq<char>,
    pub value: Seq<char>,
}

impl View for Attr {
    type V = AttrView;

    open spec fn view(&self) -> AttrView {
        AttrView { name: self.name@, value: self.value@ }
    }
}

/// The mathematical image of an [`Element`].
pub ghost struct ElementView {
    pub local_name: Seq<char>,
    pub width: LengthOrPercentageOrAuto,
    pub size: Option<i32>,
    pub attrs: Seq<AttrView>,
}

/// One element, reduced to what hint synthesis reads.
pub struct Element {
    local_name: String,
    width: LengthOrPercentageOrAuto,
    size: Option<i32>,
    attrs: Vec<Attr>,
}

impl View for Element {
    type V = ElementView;

    closed spec fn view(&self) -> ElementView {
        ElementView {
            local_name: self.local_name@,
            width: self.width,
            size: self.size,
            attrs: self.attrs@.map_values(|a: Attr| a@),
        }
    }
}

/// The value of the first attribute named `name` among `attrs`, if any.
pub open spec fn spec_lookup_attr(attrs: Seq<AttrView>, name: Seq<char>) -> Option<Seq<char>>
    decreases attrs.len(),
{
    if attrs.len() == 0 {
        None
    } else if attrs[0].name == name {
        Some(attrs[0].value)
    } else {
        spec_lookup_attr(attrs.drop_first(), name)
    }
}

impl Element {
    /// An element as the attribute layer presents it: a local tag name, the
    /// already-normalized `width` and `size` accessor results, and the raw
    /// attributes for generic lookup.
    pub fn new(
        local_name: String,
        width: LengthOrPercentageOrAuto,
        size: Option<i32>,
        attrs: Vec<Attr>,
    ) -> (r: Element)
        ensures
            r@ == (ElementView {
                local_name: local_name@,
                width,
                size,
                attrs: attrs@.map_values(|a: Attr| a@),
            }),
    {
        Element { local_name, width, size, attrs }
    }

    /// The element's resolved local tag name.
    pub fn get_local_name(&self) -> (r: &String)
        ensures
            r@ == self@.local_name,
    {
        &self.local_name
    }

    /// The typed accessor for a length attribute.
    pub fn get_length_attribute(&self, attribute: LengthAttribute) -> (r: LengthOrPercentageOrAuto)
        ensures
            r == self@.width,
    {
        match attribute {
            LengthAttribute::Width => self.width,
        }
    }

    /// The typed accessor for an integer attribute.
    pub fn get_integer_attribute(&self, attribute: IntegerAttribute) -> (r: Option<i32>)
        ensures
            r == self@.size,
    {
        match attribute {
            IntegerAttribute::Size => self.size,
        }
    }

    /// Generic string attribute lookup: the value of the element's first
    /// attribute named `name`, if any.
    pub fn get_attr(&self, name: &String) -> (r: Option<&String>)
        ensures
            match r {
                Some(value) => spec_lookup_attr(self@.attrs, name@) == Some(value@),
                None => spec_lookup_attr(self@.attrs, name@) is None,
            },
    {
        let ghost all = self@.attrs;
        let n = self.attrs.len();
        let mut i: usize = 0;
        proof {
            assert(all.skip(0) =~= all);
        }
        while i < n
            invariant
                i <= n,
                n == self.attrs.len(),
                all == self@.attrs,
                spec_lookup_attr(all.skip(i as int), name@) == spec_lookup_attr(all, name@),
            decreases n - i,
        {
            proof {
                assert(all[i as int] == self.attrs@[i as int]@);
                assert(all.skip(i as int)[0] == all[i as int]);
            }
            if self.attrs[i].name == *name {
                return Some(&self.attrs[i].value);
            }
            proof {
                assert(all.skip(i as int).drop_first() =~= all.skip(i as int + 1));
            }
            i = i + 1;
        }
        proof {
            assert(all.skip(n as int) =~= Seq::<AttrView>::empty());
        }
        None
    }
}

} // verus!
