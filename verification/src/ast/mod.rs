//! The syntax tree of a query and its canonical rendering.
use vstd::prelude::*;

pub mod expr;
pub mod set_expr;
pub mod statement;
pub mod table_ref;

verus! {

/// An identifier, stored and rendered verbatim.
#[derive(Debug, PartialEq, Eq)]
pub struct Ident {
    pub value: String,
}

impl View for Ident {
    type V = Seq<char>;

    open spec fn view(&self) -> Seq<char> {
        self.value@
    }
}

impl DeepView for Ident {
    type V = Seq<char>;

    open spec fn deep_view(&self) -> Seq<char> {
        self@
    }
}

impl Clone for Ident {
    fn clone(&self) -> (r: Self)
        ensures
            r@ == self@,
    {
        let r = Ident { value: self.value.clone() };
        r
    }
}

impl Ident {
    /// An identifier holding a copy of `value`.
    pub fn new(value: &str) -> (r: Ident)
        ensures
            r@ == value@,
    {
        Ident { value: value.to_string() }
    }

    /// The identifier's text.
    pub fn to_text(&self) -> (s: String)
        ensures
            s@ == self@,
    {
        self.value.clone()
    }
}

/// Renders identifiers separated by `", "`.
pub fn idents_to_text(items: &Vec<Ident>) -> (s: String)
    ensures
        s@ == crate::text::join(items.deep_view(), ", "@),
{
    let s = crate::text::join_texts(items, Ident::to_text, ", ", Ghost(|x: Ident| x@));
    proof {
        assert(items@.map_values(|x: Ident| x@) =~= items.deep_view());
    }
    s
}

} // verus!
