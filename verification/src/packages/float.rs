//! The `float` package.
//!
//! Contains functions such as:
//! * `parse` to parse a string into a float.
//!
//! The core registers the names only; the floating point arithmetic
//! itself lives with the host and is out of the core's scope.

use vstd::prelude::*;

use crate::item::{ComponentV, Item};
use crate::module::{ContextError, Module};

verus! {

/// Install the float package into the given functions namespace: the
/// `std::float` type, the free function `std::float::parse`, and the
/// instance function `to_integer`.
pub fn module() -> (r: Result<Module, ContextError>)
    ensures
        r is Ok,
        ({
            let m = r->Ok_0;
            &&& m.names_view().len() == 2
            &&& m.names_view()[0] =~= seq![ComponentV::Str("std"@), ComponentV::Str("float"@)]
            &&& m.names_view()[1] =~= seq![
                ComponentV::Str("std"@),
                ComponentV::Str("float"@),
                ComponentV::Str("parse"@),
            ]
            &&& m.inst_fns_view() =~= seq!["to_integer"@]
        }),
{
    let mut base = Item::new();
    base.push_name("std");
    let mut module = Module::new(base);
    proof {
        assert(module.base_view() =~= seq![ComponentV::Str("std"@)]);
    }

    let mut ty_path: Vec<String> = Vec::new();
    ty_path.push("float".to_owned());
    let ghost ty_rel = ty_path@.map_values(|s: String| s@);
    proof {
        assert(ty_rel =~= seq!["float"@]);
        assert(module.abs_path_of(ty_rel) =~= seq![
            ComponentV::Str("std"@),
            ComponentV::Str("float"@),
        ]);
    }
    match module.ty(ty_path) {
        Ok(_) => {}
        Err(e) => {
            proof {
                assert(false);
            }
            return Err(e);
        }
    }
    proof {
        assert(module.names_view().len() == 1);
        assert(module.names_view()[0] =~= seq![
            ComponentV::Str("std"@),
            ComponentV::Str("float"@),
        ]);
    }

    let mut fn_path: Vec<String> = Vec::new();
    fn_path.push("float".to_owned());
    fn_path.push("parse".to_owned());
    let ghost fn_rel = fn_path@.map_values(|s: String| s@);
    proof {
        assert(fn_rel =~= seq!["float"@, "parse"@]);
        assert(module.abs_path_of(fn_rel) =~= seq![
            ComponentV::Str("std"@),
            ComponentV::Str("float"@),
            ComponentV::Str("parse"@),
        ]);
        assert(module.abs_path_of(fn_rel).len() == 3);
        assert(module.names_view()[0].len() == 2);
    }
    match module.function(fn_path) {
        Ok(_) => {}
        Err(e) => {
            proof {
                assert(false);
            }
            return Err(e);
        }
    }
    proof {
        assert(module.names_view().len() == 2);
        assert(module.names_view()[1] =~= seq![
            ComponentV::Str("std"@),
            ComponentV::Str("float"@),
            ComponentV::Str("parse"@),
        ]);
    }

    match module.inst_fn("to_integer") {
        Ok(_) => {}
        Err(e) => {
            proof {
                assert(false);
            }
            return Err(e);
        }
    }
    proof {
        assert(module.inst_fns_view() =~= seq!["to_integer"@]);
    }

    Ok(module)
}

} // verus!
