//! Size limits on recordings.

use vstd::prelude::*;

verus! {

/// Upper bound on a recording's size in bytes: 500 MiB.
pub const MAX_RECORDING_SIZE: u64 = 524_288_000;

/// Type-safe recording size limits.
pub struct RecordingSize;

impl RecordingSize {
    /// Accept a recording size up to the 500 MiB limit; anything
    /// larger is rejected with a message naming the size.
    pub fn check(size: u64) -> (r: Result<(), String>)
        ensures
            size <= MAX_RECORDING_SIZE <==> r is Ok,
            size > MAX_RECORDING_SIZE ==> (r matches Err(m) && m@ == "Recording size "@
                + crate::text::spec_dec_seq(size as int) + " bytes exceeds maximum of 500MB"@),
    {
        if size > MAX_RECORDING_SIZE {
            let mut m = String::new();
            m.append("Recording size ");
            m.append(crate::text::u64_to_string(size).as_str());
            m.append(" bytes exceeds maximum of 500MB");
            assert(m@ =~= "Recording size "@ + crate::text::spec_dec_seq(size as int)
                + " bytes exceeds maximum of 500MB"@);
            return Result::Err(m);
        }
        Result::Ok(())
    }
}

} // verus!
