//! Code segments are compared by the address they are loaded at.

use std::cmp::Ordering;
use vstd::prelude::*;
use vstd::std_specs::cmp::{PartialEqSpecImpl, PartialOrdSpecImpl};
use crate::elf::CodeSegment;

verus! {

impl<'a> PartialEq for CodeSegment<'a> {
    fn eq(&self, other: &CodeSegment<'a>) -> (r: bool) {
        self.addr == other.addr
    }
}

impl<'a> PartialEqSpecImpl for CodeSegment<'a> {
    open spec fn obeys_eq_spec() -> bool {
        true
    }

    open spec fn eq_spec(&self, other: &CodeSegment<'a>) -> bool {
        self.addr == other.addr
    }
}

impl<'a> PartialOrd for CodeSegment<'a> {
    fn partial_cmp(&self, other: &CodeSegment<'a>) -> (r: Option<Ordering>) {
        if self.addr < other.addr {
            Some(Ordering::Less)
        } else if self.addr == other.addr {
            Some(Ordering::Equal)
        } else {
            Some(Ordering::Greater)
        }
    }
}

impl<'a> PartialOrdSpecImpl for CodeSegment<'a> {
    open spec fn obeys_partial_cmp_spec() -> bool {
        true
    }

    open spec fn partial_cmp_spec(&self, other: &CodeSegment<'a>) -> Option<Ordering> {
        if self.addr < other.addr {
            Some(Ordering::Less)
        } else if self.addr == other.addr {
            Some(Ordering::Equal)
        } else {
            Some(Ordering::Greater)
        }
    }
}

} // verus!
