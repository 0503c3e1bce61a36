//! `key=value` definitions given to the template renderer.

use vstd::prelude::*;

verus! {

/// Splits `pair` at its first `=` into a key and a value: `None` where it
/// holds no `=`.
pub fn split_define(pair: &str) -> (r: Option<(String, String)>)
    ensures
        r is None <==> !pair@.contains('='),
        r matches Some(kv) ==> {
            &&& pair@ == kv.0@ + seq!['='] + kv.1@
            &&& !kv.0@.contains('=')
        },
{
    let n = pair.unicode_len();
    let mut i: usize = 0;
    while i < n
        invariant
            n == pair@.len(),
            i <= n,
            forall|j: int| 0 <= j < i ==> pair@[j] != '=',
        decreases n - i,
    {
        if pair.get_char(i) == '=' {
            let key = pair.substring_char(0, i);
            let value = pair.substring_char(i + 1, n);
            proof {
                assert(pair@ =~= key@ + seq!['='] + value@);
                assert forall|j: int| 0 <= j < key@.len() implies key@[j] != '=' by {
                    assert(key@[j] == pair@[j]);
                }
            }
            return Some((String::from_str(key), String::from_str(value)));
        }
        i = i + 1;
    }
    None
}

} // verus!
