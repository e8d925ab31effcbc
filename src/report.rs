//! The informational lines a run prints.
use vstd::prelude::*;
use vstd::string::StringExecFns;
use crate::lifecycle::Record;
use crate::selector::{family_name, spec_family_name, LoadMode, RunConfig};

verus! {

pub open spec fn spec_loading_line(c: RunConfig, path: Seq<char>) -> Seq<char> {
    "Loading "@ + spec_family_name(c.family) + " component"@ + (if c.mode == LoadMode::Precompiled {
        " (AOT)"@
    } else {
        Seq::<char>::empty()
    }) + " from: "@ + path
}

/// The line that announces which artifact a run loads.
pub fn loading_line(c: RunConfig, path: &String) -> (r: String)
    ensures
        r@ == spec_loading_line(c, path@),
{
    let mut line = String::from_str("Loading ");
    let name = family_name(c.family);
    line.append(name.as_str());
    line.append(" component");
    if c.mode == LoadMode::Precompiled {
        line.append(" (AOT)");
    } else {
        assert(line@ + Seq::<char>::empty() =~= line@);
    }
    line.append(" from: ");
    line.append(path.as_str());
    line
}

/// The line that echoes a response: `Response: ` and its text.
pub fn response_line(resp: &Record) -> (r: String)
    ensures
        r@ == "Response: "@ + resp.uri@,
{
    let mut line = String::from_str("Response: ");
    line.append(resp.uri.as_str());
    line
}

} // verus!
