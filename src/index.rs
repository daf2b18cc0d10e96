//! Layout of a cargo registry index.
use vstd::prelude::*;
use vstd::string::*;

verus! {

/// Path of a package's file inside a registry index, sharded by name length.
pub open spec fn registry_path(name: Seq<char>) -> Seq<char> {
    if name.len() == 1 {
        seq!['1', '/'] + name
    } else if name.len() == 2 {
        seq!['2', '/'] + name
    } else if name.len() == 3 {
        seq!['3', '/'] + name.subrange(0, 1) + seq!['/'] + name
    } else {
        name.subrange(0, 2) + seq!['/'] + name.subrange(2, 4) + seq!['/'] + name
    }
}

/// Computes the index path of the package `name`.
pub fn get_registry_package_path(name: &str) -> (r: String)
    requires
        name@.len() > 0,
    ensures
        r@ == registry_path(name@),
{
    let n = name.unicode_len();
    let mut r = String::new();
    proof {
        reveal_strlit("1/");
        reveal_strlit("2/");
        reveal_strlit("3/");
        reveal_strlit("/");
    }
    if n == 1 {
        r.append("1/");
    } else if n == 2 {
        r.append("2/");
    } else if n == 3 {
        r.append("3/");
        r.append(name.substring_char(0, 1));
        r.append("/");
    } else {
        r.append(name.substring_char(0, 2));
        r.append("/");
        r.append(name.substring_char(2, 4));
        r.append("/");
    }
    r.append(name);
    r
}

} // verus!

verus! {

/// Computes the index path of the package `name`; the same layout as
/// [`get_registry_package_path`].
pub fn get_index_file(name: &str) -> (r: String)
    requires
        name@.len() > 0,
    ensures
        r@ == registry_path(name@),
{
    get_registry_package_path(name)
}

} // verus!
