//! Helpers over parsed Rust paths, modelled as their segment names. The
//! embedding application reads the segments out of its syntax library and
//! hands them over as plain strings.

use vstd::prelude::*;
use vstd::string::StringExecFns;

verus! {

/// Whether the path given by `path`'s segments is exactly the path spelled
/// by `is`: the same number of segments, each equal as a string.
pub fn is_path(path: &Vec<String>, is: &Vec<String>) -> (r: bool)
    ensures
        r == (path@.len() == is@.len() && (forall|i: int|
            0 <= i < path@.len() ==> path@[i]@ == is@[i]@)),
{
    if path.len() != is.len() {
        return false;
    }
    let mut i: usize = 0;
    while i < path.len()
        invariant
            path@.len() == is@.len(),
            i <= path@.len(),
            forall|j: int| 0 <= j < i ==> path@[j]@ == is@[j]@,
        decreases path@.len() - i,
    {
        if !equal_strings(&path[i], &is[i]) {
            return false;
        }
        i = i + 1;
    }
    true
}

/// One module item of a parsed source file, reduced to what the search
/// reads: its name, whether it carries the marker attribute, and its inline
/// content (`None` for a `mod name;` declaration without a body).
pub struct ModuleItem {
    pub name: String,
    pub marked: bool,
    pub content: Option<Vec<ModuleItem>>,
}

/// What the module-path search is looking for: a content-less module of a
/// given name, or the module carrying the marker attribute.
pub enum LookFor {
    Module(String),
    Marker,
}

/// The path the search returns for one item: the item's name when it is an
/// inline module that is itself the target, the name joined onto the path
/// found inside it, or nothing.
pub open spec fn search_item(item: ModuleItem, look_for: LookFor) -> Option<Seq<char>>
    decreases item, 0int,
{
    match item.content {
        Some(children) => {
            if look_for is Marker && item.marked {
                Some(item.name@)
            } else {
                match search_list(children@, 0, look_for) {
                    Some(path) => Some(item.name@ + "::"@ + path),
                    None => None,
                }
            }
        },
        None => {
            match look_for {
                LookFor::Module(module) => if item.name@ == module@ {
                    Some(item.name@)
                } else {
                    None
                },
                LookFor::Marker => None,
            }
        },
    }
}

/// The path found by searching `items` in order from `index` on: the first
/// item whose own search succeeds decides the result.
pub open spec fn search_list(items: Seq<ModuleItem>, index: int, look_for: LookFor) -> Option<
    Seq<char>,
>
    decreases items, items.len() - index,
{
    if index < 0 || index >= items.len() {
        None
    } else {
        match search_item(items[index], look_for) {
            Some(path) => Some(path),
            None => search_list(items, index + 1, look_for),
        }
    }
}

/// Searches a module tree, depth first and in source order, for the module
/// `look_for` names: the marker-carrying inline module, or a content-less
/// module of the given name. Returns the `::`-joined path down to it.
pub fn resolve_module_path_segment(syntax: &Vec<ModuleItem>, look_for: &LookFor) -> (r: Option<
    String,
>)
    ensures
        (r is Some) == (search_list(syntax@, 0, *look_for) is Some),
        r matches Some(path) ==> search_list(syntax@, 0, *look_for) matches Some(found)
            && path@ == found,
    decreases *syntax,
{
    let mut i: usize = 0;
    while i < syntax.len()
        invariant
            i <= syntax@.len(),
            search_list(syntax@, 0, *look_for) == search_list(syntax@, i as int, *look_for),
        decreases syntax@.len() - i,
    {
        let item = &syntax[i];
        match &item.content {
            Some(content) => {
                let marked = match look_for {
                    LookFor::Marker => item.marked,
                    LookFor::Module(_) => false,
                };
                if marked {
                    proof {
                        assert(search_list(syntax@, i as int, *look_for) == Some(item.name@));
                    }
                    return Some(clone_string(&item.name));
                }
                proof {
                    vstd::std_specs::vec::axiom_vec_index_decreases(*syntax, i as int);
                    assert(decreases_to!(syntax@[i as int] => syntax@[i as int].content->Some_0));
                    assert(decreases_to!(*syntax => *content));
                }
                match resolve_module_path_segment(content, look_for) {
                    Some(value) => {
                        let mut joined = clone_string(&item.name);
                        joined.append("::");
                        joined.append(value.as_str());
                        proof {
                            assert(search_item(syntax@[i as int], *look_for) == Some(
                                item.name@ + "::"@ + value@,
                            ));
                            assert(search_list(syntax@, i as int, *look_for) == Some(
                                item.name@ + "::"@ + value@,
                            ));
                        }
                        return Some(joined);
                    },
                    None => {
                        proof {
                            assert(search_item(syntax@[i as int], *look_for) is None);
                        }
                    },
                }
            },
            None => {
                match look_for {
                    LookFor::Module(module) => {
                        if equal_strings(&item.name, module) {
                            proof {
                                assert(search_list(syntax@, i as int, *look_for) == Some(
                                    item.name@,
                                ));
                            }
                            return Some(clone_string(&item.name));
                        }
                    },
                    LookFor::Marker => {},
                }
            },
        }
        proof {
            assert(search_item(syntax@[i as int], *look_for) is None);
        }
        i = i + 1;
    }
    None
}

/// Copies a string.
pub(crate) fn clone_string(s: &String) -> (r: String)
    ensures
        r@ == s@,
{
    s.clone()
}

/// Whether two strings hold the same characters.
fn equal_strings(a: &String, b: &String) -> (r: bool)
    ensures
        r == (a@ == b@),
{
    (*a).eq(b)
}

} // verus!
