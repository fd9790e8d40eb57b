//! The container model: everything the generators need to know about one enum.

use convert_case::{Case, Casing};
use vstd::prelude::*;
use crate::text::{join, joined, option_text, option_texts, remove_spaces, without_spaces};

verus! {

/// The prefix of an ordinary generated method.
pub const FUNC: &'static str = "#[inline] pub fn";

/// The prefix of a generated method that can be evaluated at compile time.
pub const C_FUNC: &'static str = "#[inline] pub const fn";

/// The path of the built-in optional type.
pub const OPT: &'static str = "::std::option::Option";

/// The snake-case spelling that `convert_case` gives a text.
pub uninterp spec fn snake_case(text: Seq<char>) -> Seq<char>;

/// Calls `Casing::to_case` of `convert_case` with `Case::Snake`. The crate
/// splits the text into words and joins their lower-case forms with
/// underscores; the result depends on the text alone, and is named here
/// rather than spelled out.
#[verifier::external_body]
pub(crate) fn to_snake_case(text: &str) -> (r: String)
    ensures
        r@ == snake_case(text@),
{
    text.to_case(Case::Snake)
}

/// The normalized description of one enum, built once and read by every generator.
pub struct DataContainer {
    /// The name of the enum.
    pub name: String,
    /// The enum as it stands in a type position, with its generic parameter if it has one.
    pub full_name: String,
    /// `full_name` without spaces, for documentation.
    pub full_name_string: String,
    /// The path of the carrying variant, `Name::Variant`.
    pub some: String,
    /// The path of the empty variant.
    pub none: String,
    /// The carrying variant's name.
    pub some_name: String,
    /// The empty variant's name.
    pub none_name: String,
    /// The carrying variant's name in snake case.
    pub some_name_snake: String,
    /// The empty variant's name in snake case.
    pub none_name_snake: String,
    /// The type inside the carrying variant.
    pub some_ty: String,
    /// The text of `some_ty`, for documentation.
    pub some_ty_name: String,
    /// Whether the enum is generic in the carried type.
    pub is_generic: bool,
    /// The bounds on the generic parameter, joined by `+`; `None` when there are none.
    pub bounds: Option<String>,
    /// The head of an impl block for the enum: `impl`, `impl<T>` or `impl<T: Bounds>`.
    pub imp: String,
    /// The prefix of an ordinary method.
    pub func: String,
    /// The prefix of a method that can be evaluated at compile time.
    pub c_func: String,
    /// The path of the built-in optional type.
    pub opt: String,
}

/// What a `DataContainer` holds, as mathematical values.
pub ghost struct ContainerModel {
    pub name: Seq<char>,
    pub full_name: Seq<char>,
    pub full_name_string: Seq<char>,
    pub some: Seq<char>,
    pub none: Seq<char>,
    pub some_name: Seq<char>,
    pub none_name: Seq<char>,
    pub some_name_snake: Seq<char>,
    pub none_name_snake: Seq<char>,
    pub some_ty: Seq<char>,
    pub some_ty_name: Seq<char>,
    pub is_generic: bool,
    pub bounds: Option<Seq<char>>,
    pub imp: Seq<char>,
    pub func: Seq<char>,
    pub c_func: Seq<char>,
    pub opt: Seq<char>,
}

impl View for DataContainer {
    type V = ContainerModel;

    open spec fn view(&self) -> ContainerModel {
        ContainerModel {
            name: self.name@,
            full_name: self.full_name@,
            full_name_string: self.full_name_string@,
            some: self.some@,
            none: self.none@,
            some_name: self.some_name@,
            none_name: self.none_name@,
            some_name_snake: self.some_name_snake@,
            none_name_snake: self.none_name_snake@,
            some_ty: self.some_ty@,
            some_ty_name: self.some_ty_name@,
            is_generic: self.is_generic,
            bounds: match self.bounds {
                Some(b) => Some(b@),
                None => None,
            },
            imp: self.imp@,
            func: self.func@,
            c_func: self.c_func@,
            opt: self.opt@,
        }
    }
}

impl ContainerModel {
    /// The bounds of the generic parameter applied to another type, as one
    /// predicate of a where clause; `None` where the parameter has no bounds.
    pub open spec fn bounds_for(self, ty: Seq<char>) -> Option<Seq<char>> {
        match self.bounds {
            Some(b) => Some(ty + ": "@ + b + ","@),
            None => None,
        }
    }

    /// The same predicate as a whole where clause.
    pub open spec fn where_clause_for(self, ty: Seq<char>) -> Option<Seq<char>> {
        match self.bounds_for(ty) {
            Some(p) => Some("where "@ + p),
            None => None,
        }
    }

    /// The parts of a model agree with each other.
    pub open spec fn wf(self) -> bool {
        &&& self.some == self.name + "::"@ + self.some_name
        &&& self.none == self.name + "::"@ + self.none_name
        &&& self.some_ty_name == self.some_ty
        &&& self.full_name == if self.is_generic {
            self.name + "<"@ + self.some_ty + ">"@
        } else {
            self.name
        }
        &&& self.full_name_string == without_spaces(self.full_name)
        &&& !self.is_generic ==> self.bounds is None
        &&& self.imp == if !self.is_generic {
            "impl"@
        } else {
            match self.bounds {
                Some(b) => "impl<"@ + self.some_ty + ": "@ + b + ">"@,
                None => "impl<"@ + self.some_ty + ">"@,
            }
        }
        &&& self.func == FUNC@
        &&& self.c_func == C_FUNC@
        &&& self.opt == OPT@
    }
}

/// The model of an enum, from its names, the carried type and what the
/// generics came to: `None` for an enum that is not generic, else the bounds
/// on its parameter.
pub open spec fn model_of(
    name: Seq<char>,
    some_name: Seq<char>,
    none_name: Seq<char>,
    some_name_snake: Seq<char>,
    none_name_snake: Seq<char>,
    some_ty: Seq<char>,
    generic_bounds: Option<Seq<Seq<char>>>,
) -> ContainerModel {
    let is_generic = generic_bounds is Some;
    let bounds = match generic_bounds {
        Some(list) => if list.len() > 0 {
            Some(joined(list, " + "@))
        } else {
            None
        },
        None => None,
    };
    let full_name = if is_generic {
        name + "<"@ + some_ty + ">"@
    } else {
        name
    };
    ContainerModel {
        name,
        full_name,
        full_name_string: without_spaces(full_name),
        some: name + "::"@ + some_name,
        none: name + "::"@ + none_name,
        some_name,
        none_name,
        some_name_snake,
        none_name_snake,
        some_ty,
        some_ty_name: some_ty,
        is_generic,
        bounds,
        imp: if !is_generic {
            "impl"@
        } else {
            match bounds {
                Some(b) => "impl<"@ + some_ty + ": "@ + b + ">"@,
                None => "impl<"@ + some_ty + ">"@,
            }
        },
        func: FUNC@,
        c_func: C_FUNC@,
        opt: OPT@,
    }
}

/// Every model that `model_of` gives is well formed.
pub proof fn lemma_model_of_wf(
    name: Seq<char>,
    some_name: Seq<char>,
    none_name: Seq<char>,
    some_name_snake: Seq<char>,
    none_name_snake: Seq<char>,
    some_ty: Seq<char>,
    generic_bounds: Option<Seq<Seq<char>>>,
)
    ensures
        model_of(
            name,
            some_name,
            none_name,
            some_name_snake,
            none_name_snake,
            some_ty,
            generic_bounds,
        ).wf(),
{
}

impl DataContainer {
    /// The bounds of the generic parameter applied to `ty`, as one predicate
    /// of a where clause.
    pub fn bounds_for(&self, ty: &str) -> (r: Option<String>)
        ensures
            option_text(r) == self@.bounds_for(ty@),
    {
        match &self.bounds {
            Some(b) => {
                let mut out = String::from_str(ty);
                out.append(": ");
                out.append(b.as_str());
                out.append(",");
                Some(out)
            },
            None => None,
        }
    }

    /// The same predicate as a whole where clause.
    pub fn where_clause_for(&self, ty: &str) -> (r: Option<String>)
        ensures
            option_text(r) == self@.where_clause_for(ty@),
    {
        match self.bounds_for(ty) {
            Some(p) => {
                let mut out = String::from_str("where ");
                out.append(p.as_str());
                Some(out)
            },
            None => None,
        }
    }

    /// Builds the container of an enum from its names, the carried type and
    /// what the generics came to.
    pub fn assemble(
        name: String,
        some_name: String,
        none_name: String,
        some_name_snake: String,
        none_name_snake: String,
        some_ty: String,
        generic_bounds: Option<Vec<String>>,
    ) -> (c: DataContainer)
        ensures
            c@ == model_of(
                name@,
                some_name@,
                none_name@,
                some_name_snake@,
                none_name_snake@,
                some_ty@,
                option_texts(generic_bounds),
            ),
            c@.wf(),
    {
        let is_generic = generic_bounds.is_some();
        let bounds = match &generic_bounds {
            Some(list) => if list.len() > 0 {
                Some(join(list, " + "))
            } else {
                None
            },
            None => None,
        };
        let mut full_name = name.clone();
        if is_generic {
            full_name.append("<");
            full_name.append(some_ty.as_str());
            full_name.append(">");
        }
        let full_name_string = remove_spaces(full_name.as_str());
        let mut some = name.clone();
        some.append("::");
        some.append(some_name.as_str());
        let mut none = name.clone();
        none.append("::");
        none.append(none_name.as_str());
        let imp = if is_generic {
            let mut imp = String::from_str("impl<");
            imp.append(some_ty.as_str());
            match &bounds {
                Some(b) => {
                    imp.append(": ");
                    imp.append(b.as_str());
                },
                None => {},
            }
            imp.append(">");
            imp
        } else {
            String::from_str("impl")
        };
        let some_ty_name = some_ty.clone();
        let c = DataContainer {
            name,
            full_name,
            full_name_string,
            some,
            none,
            some_name,
            none_name,
            some_name_snake,
            none_name_snake,
            some_ty,
            some_ty_name,
            is_generic,
            bounds,
            imp,
            func: String::from_str(FUNC),
            c_func: String::from_str(C_FUNC),
            opt: String::from_str(OPT),
        };
        proof {
            let m = model_of(
                name@,
                some_name@,
                none_name@,
                some_name_snake@,
                none_name_snake@,
                some_ty@,
                option_texts(generic_bounds),
            );
            assert(c@.full_name =~= m.full_name);
            assert(c@.some =~= m.some);
            assert(c@.none =~= m.none);
            assert(c@.bounds == m.bounds);
            assert(c@.imp =~= m.imp);
            lemma_model_of_wf(
                name@,
                some_name@,
                none_name@,
                some_name_snake@,
                none_name_snake@,
                some_ty@,
                option_texts(generic_bounds),
            );
        }
        c
    }
}

} // verus!
