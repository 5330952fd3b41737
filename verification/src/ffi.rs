use vstd::prelude::*;

verus! {

/// Number of name bytes that fit in a C buffer of `max_len` bytes next to
/// the terminating NUL.
pub open spec fn fitting_len(name_len: int, max_len: int) -> int {
    if name_len < max_len - 1 {
        name_len
    } else {
        max_len - 1
    }
}

/// The bytes to write into a caller's C string buffer of `max_len` bytes:
/// as much of `name` as fits, then a NUL. `None` when the buffer has no
/// room at all.
pub fn c_string_bytes(name: &[u8], max_len: u32) -> (r: Option<Vec<u8>>)
    ensures
        max_len == 0 ==> r is None,
        max_len > 0 ==> (r matches Some(v) && v@ == name@.subrange(0, fitting_len(name@.len() as int, max_len as int)).push(0u8)),
{
    if max_len == 0 {
        return None;
    }
    let len = name.len();
    let limit: usize = (max_len - 1) as usize;
    let copy_len: usize = if len < limit { len } else { limit };
    let mut out: Vec<u8> = Vec::with_capacity(copy_len + 1);
    let mut i: usize = 0;
    while i < copy_len
        invariant
            i <= copy_len,
            copy_len <= name@.len(),
            out@ == name@.subrange(0, i as int),
        decreases copy_len - i,
    {
        out.push(name[i]);
        i = i + 1;
        assert(out@ =~= name@.subrange(0, i as int));
    }
    out.push(0u8);
    Some(out)
}

} // verus!
