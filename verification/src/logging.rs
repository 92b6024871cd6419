//! Logging-filter bookkeeping: whether a filter list already names a
//! crate, and how a crate's level is appended to the list.
//!
//! A filter list is a comma-separated sequence of `name=level` elements.
//! Reading and writing the environment that holds the list is the host's
//! business; these functions only compute on the strings.

use vstd::prelude::*;

use vstd::string::StringExecFns;

verus! {

/// An element of the list begins at `i`: at the very front, or right
/// after a comma.
pub open spec fn spec_list_elem_start(v: Seq<char>, i: int) -> bool {
    0 <= i <= v.len() && (i == 0 || v[i - 1] == ',')
}

/// The characters of `p` stand in `v` beginning at `i`.
pub open spec fn spec_prefix_at(v: Seq<char>, p: Seq<char>, i: int) -> bool {
    0 <= i && i + p.len() <= v.len() && v.subrange(i, i + p.len()) == p
}

/// Some element of the list starts with `name` followed by `=`.
pub open spec fn spec_list_has_crate(v: Seq<char>, name: Seq<char>) -> bool {
    exists|i: int| spec_list_elem_start(v, i) && spec_prefix_at(v, name.push('='), i)
}

/// Whether `name=`, for the given crate name, stands at position `i` of
/// the list.
fn prefix_matches(v: &str, i: usize, name: &str) -> (r: bool)
    requires
        i <= v@.len(),
    ensures
        r == spec_prefix_at(v@, name@.push('='), i as int),
{
    let vl = v.unicode_len();
    let nl = name.unicode_len();
    if vl - i <= nl {
        return false;
    }
    let mut j: usize = 0;
    while j < nl
        invariant
            j <= nl,
            nl == name@.len(),
            vl == v@.len(),
            i + nl < vl,
            forall|k: int| 0 <= k < j ==> v@[i + k] == name@[k],
        decreases nl - j,
    {
        if v.get_char(i + j) != name.get_char(j) {
            proof {
                assert(v@.subrange(i as int, i + name@.push('=').len()) != name@.push('=')) by {
                    assert(v@.subrange(i as int, i + nl + 1)[j as int] == v@[i + j]);
                    assert(name@.push('=')[j as int] == name@[j as int]);
                }
            }
            return false;
        }
        j = j + 1;
    }
    let eq = v.get_char(i + nl) == '=';
    proof {
        if eq {
            assert(v@.subrange(i as int, i + nl + 1) =~= name@.push('=')) by {
                assert(forall|k: int|
                    0 <= k < nl + 1 ==> #[trigger] v@.subrange(i as int, i + nl + 1)[k] == v@[i
                        + k]);
                assert(v@[i + nl] == '=');
            }
        } else {
            assert(v@.subrange(i as int, i + nl + 1)[nl as int] == v@[i + nl]);
            assert(name@.push('=')[nl as int] == '=');
        }
    }
    eq
}

/// Whether the filter list `v` already holds an element for `crate_name`,
/// that is, an element that starts with the crate's name and `=`.
///
/// The crate's name must hold no comma, as no crate's can; a name with
/// one could never start a single element.
pub fn list_has_crate(v: &str, crate_name: &str) -> (r: bool)
    requires
        forall|j: int| 0 <= j < crate_name@.len() ==> crate_name@[j] != ',',
    ensures
        r == spec_list_has_crate(v@, crate_name@),
{
    let vl = v.unicode_len();
    if prefix_matches(v, 0, crate_name) {
        proof {
            assert(spec_list_elem_start(v@, 0));
        }
        return true;
    }
    let mut i: usize = 0;
    while i < vl
        invariant
            i <= vl,
            vl == v@.len(),
            forall|s: int|
                0 <= s <= i ==> !(spec_list_elem_start(v@, s) && spec_prefix_at(
                    v@,
                    crate_name@.push('='),
                    s,
                )),
        decreases vl - i,
    {
        if v.get_char(i) == ',' {
            if prefix_matches(v, i + 1, crate_name) {
                proof {
                    assert(spec_list_elem_start(v@, i + 1));
                }
                return true;
            }
        } else {
            proof {
                assert(!spec_list_elem_start(v@, i + 1));
            }
        }
        i = i + 1;
    }
    proof {
        assert forall|s: int| !(spec_list_elem_start(v@, s) && spec_prefix_at(
            v@,
            crate_name@.push('='),
            s,
        )) by {
            if s < 0 || s > vl {
                assert(!spec_list_elem_start(v@, s));
            }
        }
    }
    false
}

/// The filter list with `crate_name=level` appended: after a comma when
/// a list already exists, alone otherwise.
pub fn append_log_level(previous: Option<&str>, crate_name: &str, level: &str) -> (r: String)
    ensures
        r@ == match previous {
            Some(p) => p@ + ","@ + crate_name@ + "="@ + level@,
            None => crate_name@ + "="@ + level@,
        },
{
    let mut s = String::new();
    match previous {
        Some(p) => {
            s.append(p);
            s.append(",");
        },
        None => {},
    }
    s.append(crate_name);
    s.append("=");
    s.append(level);
    proof {
        match previous {
            Some(p) => {
                assert(s@ =~= p@ + ","@ + crate_name@ + "="@ + level@);
            },
            None => {
                assert(s@ =~= crate_name@ + "="@ + level@);
            },
        }
    }
    s
}

} // verus!
