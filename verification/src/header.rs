//! Parser for the leading NUL-terminated ASCII version string.

use vstd::prelude::*;
use crate::cursor::DecodeError;

verus! {

/// Scans the buffer from offset 0 and collects bytes until the first NUL.
/// On success the result holds the version bytes and the offset just past
/// the terminator, where frame decoding starts. A NUL is found if and only
/// if the buffer holds one; a buffer without one fails with
/// `MissingTerminator` instead of running off the end.
pub fn parse_version(buf: &Vec<u8>) -> (r: Result<(Vec<u8>, usize), DecodeError>)
    ensures
        r matches Ok(p) ==> {
            &&& 1 <= p.1 <= buf@.len()
            &&& buf@[p.1 - 1] == 0
            &&& p.0@ == buf@.subrange(0, p.1 - 1)
            &&& forall|j: int| 0 <= j < p.1 - 1 ==> buf@[j] != 0
        },
        r matches Err(e) ==> {
            &&& e == DecodeError::MissingTerminator
            &&& forall|j: int| 0 <= j < buf@.len() ==> buf@[j] != 0
        },
        r is Ok <==> exists|j: int| 0 <= j < buf@.len() && buf@[j] == 0,
{
    let mut version_bytes: Vec<u8> = Vec::new();
    let mut i: usize = 0;
    let n: usize = buf.len();
    while i < n
        invariant
            n == buf@.len(),
            i <= n,
            version_bytes@ == buf@.subrange(0, i as int),
            forall|j: int| 0 <= j < i ==> buf@[j] != 0,
        decreases n - i,
    {
        let byte = buf[i];
        if byte == 0 {
            return Ok((version_bytes, i + 1));
        }
        version_bytes.push(byte);
        proof {
            assert(version_bytes@ =~= buf@.subrange(0, i + 1));
        }
        i = i + 1;
    }
    Err(DecodeError::MissingTerminator)
}

} // verus!
