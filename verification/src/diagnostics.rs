//! The report of the error codes that a device has queued: an aid for
//! development, never a failure of an operation.

use crate::context::Context;
use vstd::prelude::*;

verus! {

/// The code with which a device says that its error queue is empty.
pub const NO_ERROR: u32 = 0;

/// The code for an enumeration argument that is out of range.
pub const INVALID_ENUM: u32 = 0x0500;

/// The code for a numeric argument that is out of range.
pub const INVALID_VALUE: u32 = 0x0501;

/// The code for an operation that the device's state does not allow.
pub const INVALID_OPERATION: u32 = 0x0502;

/// The words for an error code.
pub open spec fn error_text(code: u32) -> Seq<char> {
    if code == INVALID_ENUM {
        "Invalid enum"@
    } else if code == INVALID_VALUE {
        "Invalid value"@
    } else if code == INVALID_OPERATION {
        "Invalid operation"@
    } else {
        "Unknown error"@
    }
}

/// The codes that were queued: those polled before the first `NO_ERROR`.
pub open spec fn pending(codes: Seq<u32>) -> Seq<u32>
    decreases codes.len(),
{
    if codes.len() == 0 || codes[0] == NO_ERROR {
        Seq::empty()
    } else {
        seq![codes[0]] + pending(codes.skip(1))
    }
}

/// The different codes among `codes`, each once, in the order in which they
/// first occur.
pub open spec fn distinct(codes: Seq<u32>) -> Seq<u32>
    decreases codes.len(),
{
    if codes.len() == 0 {
        Seq::empty()
    } else if distinct(codes.drop_last()).contains(codes.last()) {
        distinct(codes.drop_last())
    } else {
        distinct(codes.drop_last()).push(codes.last())
    }
}

/// The report of a poll: a line for each distinct code that was queued, in
/// the order in which the codes were first polled, and after them, if there
/// was any, a line that closes the report under its label.
pub open spec fn error_report(label: Seq<char>, codes: Seq<u32>) -> Seq<Seq<char>> {
    let found = distinct(pending(codes));
    if found.len() == 0 {
        Seq::empty()
    } else {
        found.map_values(|code: u32| error_text(code)).push(label + " errors complete"@)
    }
}

/// The views of a sequence of lines, in order.
pub open spec fn line_views(lines: Seq<String>) -> Seq<Seq<char>> {
    lines.map_values(|line: String| line@)
}

/// The words for an error code.
fn describe(code: u32) -> (text: &'static str)
    ensures
        text@ == error_text(code),
{
    if code == INVALID_ENUM {
        "Invalid enum"
    } else if code == INVALID_VALUE {
        "Invalid value"
    } else if code == INVALID_OPERATION {
        "Invalid operation"
    } else {
        "Unknown error"
    }
}

/// Whether `code` is among `codes`.
fn holds(codes: &Vec<u32>, code: u32) -> (found: bool)
    ensures
        found == codes@.contains(code),
{
    let mut i: usize = 0;
    while i < codes.len()
        invariant
            i <= codes.len(),
            forall|j: int| 0 <= j < i ==> codes@[j] != code,
        decreases codes.len() - i,
    {
        if codes[i] == code {
            return true;
        }
        i += 1;
    }
    false
}

impl Context {
    /// Whether `code`, as polled from the device, says that its error queue
    /// is empty, so that polling is over.
    pub fn drained(&self, code: u32) -> (done: bool)
        ensures
            done == (code == NO_ERROR),
    {
        code == NO_ERROR
    }

    /// The lines to log for `codes`, the codes polled from the device's
    /// error queue in order. Codes after the first `NO_ERROR` are not part
    /// of the poll, and a code that was polled before is not reported again.
    pub fn errors(&self, label: &str, codes: &[u32]) -> (lines: Vec<String>)
        ensures
            line_views(lines@) == error_report(label@, codes@),
    {
        let mut lines: Vec<String> = Vec::new();
        let mut seen: Vec<u32> = Vec::new();
        let ghost mut found: Seq<u32> = Seq::empty();
        let mut i: usize = 0;
        proof {
            assert(codes@.skip(0) =~= codes@);
            assert(found + pending(codes@) =~= pending(codes@));
            assert(line_views(lines@) =~= seen@.map_values(|code: u32| error_text(code)));
        }
        while i < codes.len() && !self.drained(codes[i])
            invariant
                i <= codes.len(),
                pending(codes@) == found + pending(codes@.skip(i as int)),
                seen@ == distinct(found),
                lines@.len() == seen@.len(),
                line_views(lines@) == seen@.map_values(|code: u32| error_text(code)),
            decreases codes.len() - i,
        {
            let code = codes[i];
            proof {
                let rest = codes@.skip(i as int);
                assert(rest.skip(1) =~= codes@.skip(i + 1));
                assert(found + (seq![rest[0]] + pending(rest.skip(1))) =~= found.push(code)
                    + pending(codes@.skip(i + 1)));
                assert(found.push(code).drop_last() =~= found);
            }
            if !holds(&seen, code) {
                let ghost before = line_views(lines@);
                lines.push(String::from_str(describe(code)));
                seen.push(code);
                proof {
                    assert(line_views(lines@) =~= before.push(error_text(code)));
                    assert(seen@.map_values(|code: u32| error_text(code)) =~= before.push(
                        error_text(code),
                    ));
                }
            }
            proof {
                found = found.push(code);
            }
            i += 1;
        }
        assert(found + Seq::<u32>::empty() =~= found);
        if lines.len() > 0 {
            let ghost before = line_views(lines@);
            let mut last = String::from_str(label);
            last.append(" errors complete");
            lines.push(last);
            assert(line_views(lines@) =~= before.push(label@ + " errors complete"@));
        }
        lines
    }
}

/// Every code is reported once: the distinct codes are the codes, without
/// a repetition.
pub proof fn lemma_distinct(codes: Seq<u32>)
    ensures
        distinct(codes).no_duplicates(),
        forall|code: u32| distinct(codes).contains(code) <==> codes.contains(code),
    decreases codes.len(),
{
    if codes.len() > 0 {
        let front = codes.drop_last();
        let last = codes.last();
        lemma_distinct(front);
        assert forall|code: u32| distinct(codes).contains(code) implies codes.contains(code) by {
            if distinct(front).contains(code) {
                assert(front.contains(code));
                let i = choose|i: int| 0 <= i < front.len() && front[i] == code;
                assert(codes[i] == code);
            } else {
                let j = choose|j: int| 0 <= j < distinct(codes).len() && distinct(codes)[j] == code;
                if j < distinct(front).len() {
                    assert(distinct(front)[j] == code);
                }
                assert(codes[codes.len() - 1] == code);
            }
        }
        assert forall|code: u32| codes.contains(code) implies distinct(codes).contains(code) by {
            let i = choose|i: int| 0 <= i < codes.len() && codes[i] == code;
            if i < codes.len() - 1 {
                assert(front[i] == code);
                assert(front.contains(code));
            }
            if distinct(front).contains(code) {
                let j = choose|j: int| 0 <= j < distinct(front).len() && distinct(front)[j] == code;
                assert(distinct(codes)[j] == code);
            } else {
                assert(code == last);
                assert(distinct(codes)[distinct(codes).len() - 1] == code);
            }
        }
    }
}

} // verus!
