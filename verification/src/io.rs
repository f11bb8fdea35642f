//! Writing a serialized module out.

use vstd::prelude::*;

verus! {

/// Writes a serialized module to a sink: the bytes of the buffer that the
/// foreign library serialized it into go to the end of the sink as they are,
/// none added, none left out, none moved.
pub fn write_module(sink: &mut Vec<u8>, serialized: &[u8])
    ensures
        final(sink)@ == old(sink)@ + serialized@,
{
    sink.extend_from_slice(serialized);
}

} // verus!
