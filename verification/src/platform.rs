//! The answers the front end gives the C library on the Nintendo Switch,
//! where some POSIX calls are missing.
use vstd::prelude::*;

verus! {

/// The `getrandom` flag that asks for the blocking pool.
pub const GRND_RANDOM: u32 = 0x2;

/// The `sysconf` name of the page size.
pub const SC_PAGESIZE: i32 = 30;

/// How many random bytes one `getrandom` call hands out: at most 512 from
/// the blocking pool, at most 0x1FF_FFFF otherwise.
pub fn random_request_len(buflen: usize, flags: u32) -> (r: usize)
    ensures
        r == (if flags & GRND_RANDOM != 0 {
            if buflen < 512 {
                buflen
            } else {
                512
            }
        } else {
            if buflen < 0x1FF_FFFF {
                buflen
            } else {
                0x1FF_FFFF
            }
        }),
{
    let maxlen: usize = if flags & GRND_RANDOM != 0 {
        512
    } else {
        0x1FF_FFFF
    };
    if buflen < maxlen {
        buflen
    } else {
        maxlen
    }
}

/// The `sysconf` value for `name`: the page size is 4096, nothing else is known (-1).
pub fn sysconf_value(name: i32) -> (r: i64)
    ensures
        r == (if name == SC_PAGESIZE {
            4096
        } else {
            -1
        }),
{
    if name == SC_PAGESIZE {
        4096
    } else {
        -1
    }
}

} // verus!
