//! Symbol names and the identity of callables.

use vstd::prelude::*;

use crate::span::Span;
use crate::text::{decimal_digits, push_decimal, span_text};

verus! {

/// An immutable textual symbol name. Equality is string equality and the
/// order is the lexicographic one; the empty name is not a valid
/// identifier.
#[derive(Debug, Eq, Hash, PartialOrd, Ord)]
pub struct Ident {
    pub name: String,
}

impl Ident {
    /// A valid identifier has a non-empty name.
    pub open spec fn wf(self) -> bool {
        self.name@.len() > 0
    }

    /// Some identifier holding `name` exactly when `name` is non-empty.
    pub fn new(name: String) -> (r: Option<Ident>)
        ensures
            match r {
                Some(id) => id.name == name && id.wf(),
                None => name@.len() == 0,
            },
    {
        if name.as_str().is_empty() {
            None
        } else {
            Some(Ident { name })
        }
    }
}

impl Clone for Ident {
    fn clone(&self) -> (r: Self)
        ensures
            r == *self,
    {
        Ident { name: self.name.clone() }
    }
}

impl PartialEq for Ident {
    fn eq(&self, other: &Self) -> (r: bool) {
        self.name == other.name
    }
}

impl vstd::std_specs::cmp::PartialEqSpecImpl for Ident {
    open spec fn obeys_eq_spec() -> bool {
        true
    }

    open spec fn eq_spec(&self, other: &Ident) -> bool {
        self.name@ == other.name@
    }
}

/// The identity of a callable. An anonymous function is identified by the
/// span where its literal was written: two literals at the same place are
/// the same function. Built-in unary and binary primitives are identified
/// by their index in the host's table of built-ins, an enumeration owned
/// by a separate collaborator.
#[derive(Debug, Clone, PartialEq, Eq, PartialOrd, Ord, Hash)]
pub enum FunctionId {
    Named(Ident),
    Anonymous(Span),
    Builtin1(u16),
    Builtin2(u16),
}

impl FunctionId {
    /// The canonical textual form of an identity: a named function in
    /// backquotes, an anonymous function by the span of its literal, and
    /// a built-in by its index in backquotes — the collaborator that owns
    /// the built-ins table holds the names.
    pub open spec fn spec_text(self) -> Seq<char> {
        match self {
            FunctionId::Named(id) => "`"@ + id.name@ + "`"@,
            FunctionId::Anonymous(sp) => "fn from "@ + span_text(sp),
            FunctionId::Builtin1(i) => "`"@ + decimal_digits(i as nat) + "`"@,
            FunctionId::Builtin2(i) => "`"@ + decimal_digits(i as nat) + "`"@,
        }
    }

    /// Renders the canonical textual form.
    pub fn text(&self) -> (r: String)
        ensures
            r@ == self.spec_text(),
    {
        match self {
            FunctionId::Named(id) => {
                let mut s = String::from_str("`");
                s.append(id.name.as_str());
                s.append("`");
                proof {
                    assert(s@ =~= self.spec_text());
                }
                s
            },
            FunctionId::Anonymous(sp) => {
                let mut s = String::from_str("fn from ");
                push_decimal(&mut s, sp.src as usize);
                s.append(":");
                push_decimal(&mut s, sp.start);
                s.append("-");
                push_decimal(&mut s, sp.end);
                proof {
                    assert(s@ =~= self.spec_text());
                }
                s
            },
            FunctionId::Builtin1(i) => {
                let mut s = String::from_str("`");
                push_decimal(&mut s, *i as usize);
                s.append("`");
                proof {
                    assert(s@ =~= self.spec_text());
                }
                s
            },
            FunctionId::Builtin2(i) => {
                let mut s = String::from_str("`");
                push_decimal(&mut s, *i as usize);
                s.append("`");
                proof {
                    assert(s@ =~= self.spec_text());
                }
                s
            },
        }
    }

    /// A valid identity names a non-empty identifier or a non-empty span.
    pub open spec fn wf(self) -> bool {
        match self {
            FunctionId::Named(id) => id.wf(),
            FunctionId::Anonymous(sp) => sp.wf(),
            FunctionId::Builtin1(_) => true,
            FunctionId::Builtin2(_) => true,
        }
    }
}

} // verus!
