//! The developer-task command vocabulary and its parser.
//!
//! The only place where task names are matched as strings; everything else
//! operates on the enum.

use vstd::prelude::*;
use vstd::string::StrSliceExecFns;

verus! {

/// Supported developer-task subcommands: run the tests; build (only if the
/// tests pass); run (only if the tests pass).
#[derive(Clone, Copy, Debug, PartialEq, Eq, Structural, Hash)]
pub enum XTaskCmd {
    Test,
    Build,
    Run,
}

/// Character-for-character string equality.
fn str_eq(a: &str, b: &str) -> (r: bool)
    ensures
        r == (a@ == b@),
{
    let alen = a.unicode_len();
    let blen = b.unicode_len();
    if alen != blen {
        proof {
            assert(a@ != b@) by {
                if a@ == b@ {
                    assert(a@.len() == b@.len());
                }
            }
        }
        return false;
    }
    let mut i: usize = 0;
    while i < alen
        invariant
            i <= alen,
            alen == a@.len(),
            alen == b@.len(),
            forall|j: int| 0 <= j < i ==> a@[j] == b@[j],
        decreases alen - i,
    {
        if a.get_char(i) != b.get_char(i) {
            proof {
                assert(a@ != b@) by {
                    if a@ == b@ {
                        assert(a@[i as int] == b@[i as int]);
                    }
                }
            }
            return false;
        }
        i = i + 1;
    }
    proof {
        assert(a@ =~= b@);
    }
    true
}

/// What a raw task string names: exactly "test", "build" or "run", and
/// nothing else.
pub open spec fn parsed_cmd(s: Seq<char>) -> Option<XTaskCmd> {
    if s == "test"@ {
        Some(XTaskCmd::Test)
    } else if s == "build"@ {
        Some(XTaskCmd::Build)
    } else if s == "run"@ {
        Some(XTaskCmd::Run)
    } else {
        None
    }
}

/// Parse a raw string into a task command; an unknown word parses to
/// nothing.
pub fn parse_cmd(s: &str) -> (r: Option<XTaskCmd>)
    ensures
        r == parsed_cmd(s@),
{
    if str_eq(s, "test") {
        Some(XTaskCmd::Test)
    } else if str_eq(s, "build") {
        Some(XTaskCmd::Build)
    } else if str_eq(s, "run") {
        Some(XTaskCmd::Run)
    } else {
        None
    }
}

} // verus!
