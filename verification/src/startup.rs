//! What the program decides before it starts watching: whether the user
//! agreed to the terms, and where its configuration lies.
use vstd::prelude::*;
use crate::text::{
    chars_of, find_chars, is_first_occurrence, spec_contains, spec_trim, string_of, trim,
};

verus! {

/// The answer that accepts the terms.
pub open spec fn agreement() -> Seq<char> {
    "是"@
}

/// Whether the user's answer, without its surrounding white space, accepts the terms.
pub fn consent_given(answer: &str) -> (b: bool)
    ensures
        b == (spec_trim(answer@) == agreement()),
{
    trim(answer) == String::from_str("是")
}

/// The name of the project directory that the executable's path is cut at.
pub open spec fn project_marker() -> Seq<char> {
    "rust_bytes"@
}

/// The first index of `needle` in `hay` (where it occurs).
pub open spec fn first_index(hay: Seq<char>, needle: Seq<char>) -> int {
    choose|i: int| is_first_occurrence(hay, needle, i)
}

/// The root directory for an executable at `path`: what precedes the first
/// `rust_bytes` in it, or the whole path where it has none.
pub open spec fn spec_root_dir(path: Seq<char>) -> Seq<char> {
    if spec_contains(path, project_marker()) {
        path.take(first_index(path, project_marker()))
    } else {
        path
    }
}

proof fn lemma_first_unique(hay: Seq<char>, needle: Seq<char>, i: int)
    requires
        is_first_occurrence(hay, needle, i),
    ensures
        first_index(hay, needle) == i,
{
    let j = first_index(hay, needle);
    assert(is_first_occurrence(hay, needle, j));
    if j < i {
        assert(!crate::text::occurs_at(hay, needle, j));
    } else if i < j {
        assert(!crate::text::occurs_at(hay, needle, i));
    }
}

/// The root directory for an executable at `path`.
pub fn root_dir(path: &str) -> (r: String)
    ensures
        r@ == spec_root_dir(path@),
{
    let cs = chars_of(path);
    let marker = chars_of("rust_bytes");
    match find_chars(&cs, &marker) {
        Some(i) => {
            proof { lemma_first_unique(path@, project_marker(), i as int); }
            let r = string_of(&cs, 0, i);
            assert(r@ =~= path@.take(i as int));
            r
        },
        None => String::from_str(path),
    }
}

/// Where the configuration lies for an executable at `path`.
pub fn config_path(path: &str) -> (r: String)
    ensures
        r@ == spec_root_dir(path@) + "config.json"@,
{
    let mut root = root_dir(path);
    root.append("config.json");
    root
}

} // verus!
