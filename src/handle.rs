use vstd::prelude::*;
use vstd::string::StringSliceAdditionalSpecFns;

verus! {

/// Why a text value could not be handed to a foreign caller.
#[derive(Debug, Clone, Copy, PartialEq, Eq, Structural)]
pub enum TextError {
    /// The text cannot be laid out as a NUL-terminated buffer.
    AllocationError,
}

/// The bytes of a NUL-terminated buffer holding `bytes`.
pub open spec fn terminated(bytes: Seq<u8>) -> Seq<u8> {
    bytes.push(0u8)
}

/// Lays `text` out as the NUL-terminated UTF-8 buffer that backs a handle
/// given to a C caller. Text that holds a NUL byte has no such layout, and is
/// refused with `AllocationError`.
pub fn terminated_bytes(text: &str) -> (r: Result<Vec<u8>, TextError>)
    ensures
        r is Ok <==> !text.spec_bytes().contains(0u8),
        r matches Ok(v) ==> v@ == terminated(text.spec_bytes()),
        r matches Err(e) ==> e == TextError::AllocationError,
{
    let bytes = text.as_bytes();
    let mut out: Vec<u8> = Vec::new();
    let mut i: usize = 0;
    while i < bytes.len()
        invariant
            bytes@ == text.spec_bytes(),
            i <= bytes@.len(),
            out@ == bytes@.subrange(0, i as int),
            forall|j: int| 0 <= j < i ==> bytes@[j] != 0u8,
        decreases bytes.len() - i,
    {
        if bytes[i] == 0u8 {
            return Err(TextError::AllocationError);
        }
        out.push(bytes[i]);
        i = i + 1;
        assert(out@ =~= bytes@.subrange(0, i as int));
    }
    assert(out@ =~= bytes@);
    out.push(0u8);
    Ok(out)
}

} // verus!
