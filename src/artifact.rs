//! What the host can tell about an artifact's bytes before the engine sees them.
use vstd::prelude::*;
use crate::errors::LoadError;
use crate::selector::LoadMode;

verus! {

/// The first eight bytes of a component in its portable binary form: the
/// module magic `\0asm`, the component encoding version, and the component layer.
pub open spec fn component_preamble() -> Seq<u8> {
    seq![0x00u8, 0x61u8, 0x73u8, 0x6du8, 0x0du8, 0x00u8, 0x01u8, 0x00u8]
}

pub open spec fn spec_has_preamble(b: Seq<u8>) -> bool {
    b.len() >= 8 && b.subrange(0, 8) == component_preamble()
}

/// Whether the bytes open as a component in its portable binary form.
pub fn has_component_preamble(b: &Vec<u8>) -> (r: bool)
    ensures
        r == spec_has_preamble(b@),
{
    if b.len() < 8 {
        return false;
    }
    let ok = b[0] == 0x00 && b[1] == 0x61 && b[2] == 0x73 && b[3] == 0x6d && b[4] == 0x0d
        && b[5] == 0x00 && b[6] == 0x01 && b[7] == 0x00;
    if ok {
        assert(b@.subrange(0, 8) =~= component_preamble());
    } else {
        assert(forall|i: int| 0 <= i < 8 ==> b@.subrange(0, 8)[i] == b@[i]);
        assert(component_preamble()[0] == 0x00u8 && component_preamble()[1] == 0x61u8
            && component_preamble()[2] == 0x73u8 && component_preamble()[3] == 0x6du8
            && component_preamble()[4] == 0x0du8 && component_preamble()[5] == 0x00u8
            && component_preamble()[6] == 0x01u8 && component_preamble()[7] == 0x00u8);
    }
    ok
}

pub open spec fn spec_load_failure(mode: LoadMode, well_formed: bool) -> LoadError {
    match mode {
        LoadMode::Precompiled => LoadError::DeserializeFailure,
        LoadMode::Compile => if well_formed {
            LoadError::CompileFailure
        } else {
            LoadError::Malformed
        },
    }
}

/// The load error for bytes that the engine refused: a native image that did
/// not deserialize, a module form that is not a component, or one that is but
/// did not compile.
pub fn load_failure(mode: LoadMode, well_formed: bool) -> (r: LoadError)
    ensures
        r == spec_load_failure(mode, well_formed),
{
    match mode {
        LoadMode::Precompiled => LoadError::DeserializeFailure,
        LoadMode::Compile => if well_formed {
            LoadError::CompileFailure
        } else {
            LoadError::Malformed
        },
    }
}

} // verus!
