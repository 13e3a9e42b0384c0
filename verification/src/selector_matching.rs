//! Declaration blocks as the rule matcher collects them, and the stylist the
//! synthesizer extends.

use vstd::prelude::*;
use crate::properties::PropertyDeclaration;

verus! {

/// An ordered block of property declarations, one entry of the matched-rule
/// list an element accumulates during selector matching. Its view is the
/// sequence of declarations it holds.
#[derive(Clone, Debug, PartialEq, Eq)]
pub struct DeclarationBlock {
    pub declarations: Vec<PropertyDeclaration>,
}

impl View for DeclarationBlock {
    type V = Seq<PropertyDeclaration>;

    open spec fn view(&self) -> Seq<PropertyDeclaration> {
        self.declarations@
    }
}

impl DeclarationBlock {
    /// A block holding exactly the one given declaration.
    pub fn from_declaration(declaration: PropertyDeclaration) -> (r: DeclarationBlock)
        ensures
            r@ == seq![declaration],
    {
        let mut declarations: Vec<PropertyDeclaration> = Vec::new();
        declarations.push(declaration);
        proof {
            assert(declarations@ =~= seq![declaration]);
        }
        DeclarationBlock { declarations }
    }
}

/// The rule-matching driver. Hint synthesis is an extension method on it and
/// reads none of its state: every hint is derived fresh from the element at
/// hand, so nothing of the stylist itself needs to be carried here.
pub struct Stylist {}

impl Stylist {
    /// A stylist ready to match rules.
    pub fn new() -> Stylist {
        Stylist {}
    }
}

} // verus!
