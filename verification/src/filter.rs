//! The fixed filter that decides which directory entries are kept.
//!
//! An entry is skipped when its name starts with a dot, or is exactly
//! `node_modules` or `target`. The filter applies at every depth of the
//! tree, never to the root the caller asked for.

use vstd::prelude::*;

verus! {

broadcast use vstd::string::axiom_spec_iter, vstd::string::next_postcondition;

/// A name is filtered out when it is hidden (leading `.`) or one of the
/// fixed noise directories.
pub open spec fn skip_name(name: Seq<char>) -> bool {
    ||| (name.len() > 0 && name[0] == '.')
    ||| name == "node_modules"@
    ||| name == "target"@
}

/// Decides whether a directory entry with this name is left out of the tree.
pub fn should_skip(name: &String) -> (b: bool)
    ensures
        b == skip_name(name@),
{
    proof {
        reveal_strlit("node_modules");
        reveal_strlit("target");
    }
    let s: &str = name.as_str();
    let mut it = s.chars();
    let first = it.next();
    match first {
        Option::None => false,
        Option::Some(c) => {
            if c == '.' {
                true
            } else {
                let nm: String = "node_modules".to_owned();
                let tg: String = "target".to_owned();
                *name == nm || *name == tg
            }
        },
    }
}

} // verus!
