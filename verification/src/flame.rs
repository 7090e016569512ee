//! Profile rendering: a two-line weighted-sample document built from the two
//! primary budget counters, rendered through the flamegraph generator.

use vstd::prelude::*;
use vstd::string::StringExecFns;
use std::io::Write;
use crate::strings::dec_str;

verus! {

/// The folded two-sample document: one weighted line per primary counter.
pub open spec fn spec_folded(cpu: nat, mem: nat) -> Seq<char> {
    "Total;CPU "@ + dec_str(cpu) + "\nTotal;Memory "@ + dec_str(mem) + "\n"@
}

/// Build the folded document for the given counters.
pub fn build_folded(cpu: u64, mem: u64) -> (s: String)
    ensures
        s@ == spec_folded(cpu as nat, mem as nat),
{
    let mut s = String::new();
    s.append("Total;CPU ");
    let cpu_digits = crate::strings::u64_to_string(cpu);
    s.append(cpu_digits.as_str());
    s.append("\nTotal;Memory ");
    let mem_digits = crate::strings::u64_to_string(mem);
    s.append(mem_digits.as_str());
    s.append("\n");
    proof {
        assert(((((Seq::<char>::empty() + "Total;CPU "@) + dec_str(cpu as nat))
            + "\nTotal;Memory "@) + dec_str(mem as nat)) + "\n"@ =~= spec_folded(
            cpu as nat,
            mem as nat,
        ));
    }
    s
}

/// Relies on inferno's `flamegraph::from_reader`: on success it has written a
/// non-empty SVG document (the document header is written before any frame).
/// Frame colors may be drawn from a thread-local random source, so nothing
/// more is claimed of the content.
#[verifier::external_body]
pub(crate) fn render_flamegraph(folded: &str) -> (r: Result<String, String>)
    ensures
        r is Ok ==> r->Ok_0@.len() > 0,
{
    let mut options = inferno::flamegraph::Options::default();
    options.title = "Soroban Resource Consumption".to_string();
    let mut out: Vec<u8> = Vec::new();
    match inferno::flamegraph::from_reader(&mut options, folded.as_bytes(), &mut out) {
        Ok(()) => Ok(String::from_utf8_lossy(&out).to_string()),
        Err(e) => Err(format!("{}", e)),
    }
}

/// Render the two-counter profile into a flamegraph document. A renderer
/// failure is non-fatal: it is reported on the diagnostic channel and yields
/// no document; a document that does come back is never empty.
pub fn render_profile(cpu: u64, mem: u64) -> (r: Option<String>)
    ensures
        r is Some ==> r->Some_0@.len() > 0,
{
    let folded = build_folded(cpu, mem);
    match render_flamegraph(folded.as_str()) {
        Ok(svg) => Some(svg),
        Err(e) => {
            let warning = crate::strings::prefixed("Failed to generate flamegraph: ", e.as_str());
            diag_line(warning.as_str());
            None
        },
    }
}

/// Relies on `std::io::Stderr` and `writeln`: emits one line on the
/// diagnostic channel, never on the primary output channel.
#[verifier::external_body]
pub(crate) fn diag_line(msg: &str) {
    let _ = writeln!(&mut std::io::stderr(), "{}", msg);
}

} // verus!
