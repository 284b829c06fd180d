//! The last segment of a path such as `a::b::c`.
use vstd::prelude::*;
use vstd::string::StringSliceAdditionalSpecFns;
use vstd::utf8::is_char_boundary;

verus! {

/// The position of the last `:` among `b[1..end]`, or 0 where there is none.
pub open spec fn last_colon(b: Seq<u8>, end: int) -> int
    decreases end,
{
    if end <= 1 {
        0
    } else if b[end - 1] == 58u8 {
        end - 1
    } else {
        last_colon(b, end - 1)
    }
}

/// The part of `name` after its last `:` (a `:` in the first byte does not
/// count), or all of `name` where there is none.
pub fn last_path_segment(name: &str) -> (r: &str)
    ensures
        ({
            let b = name.spec_bytes();
            let c = last_colon(b, b.len() as int);
            &&& c > 0 && is_char_boundary(b, c + 1) ==> r.spec_bytes() == b.subrange(c + 1, b.len() as int)
            &&& !(c > 0 && is_char_boundary(b, c + 1)) ==> r == name
        }),
{
    let bytes = name.as_bytes();
    let len = bytes.len();
    let mut index = len;
    while index > 1
        invariant
            index <= len,
            len == name.spec_bytes().len(),
            bytes@ == name.spec_bytes(),
            last_colon(bytes@, len as int) == last_colon(bytes@, index as int),
        decreases index,
    {
        if bytes[index - 1] == 58u8 {
            let at = index - 1;
            if name.is_char_boundary(at + 1) {
                let (_, tail) = name.split_at(at + 1);
                return tail;
            }
            return name;
        }
        index = index - 1;
    }
    name
}

} // verus!
