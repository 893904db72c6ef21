use vstd::prelude::*;
use vstd::string::StrSliceExecFns;
use crate::frame::{ascii_bytes, CommandFrame};

verus! {

/// The Command Table: the wire frame documented for each logical command
/// name, or `None` for a name outside the table. First match wins; the
/// table lists each name once.
pub open spec fn spec_frame_for(name: Seq<char>) -> Option<Seq<u8>> {
    if name == "powerOff"@ {
        Some(ascii_bytes("*SCPOWR0000000000000000\n"@))
    } else if name == "powerOn"@ {
        Some(ascii_bytes("*SCPOWR0000000000000001\n"@))
    } else if name == "home"@ {
        Some(ascii_bytes("*SCIRCC0000000000000006\n"@))
    } else if name == "netflix"@ {
        Some(ascii_bytes("*SCIRCC0000000000000056\n"@))
    } else if name == "up"@ {
        Some(ascii_bytes("*SCIRCC0000000000000009\n"@))
    } else if name == "down"@ {
        Some(ascii_bytes("*SCIRCC0000000000000010\n"@))
    } else if name == "right"@ {
        Some(ascii_bytes("*SCIRCC0000000000000011\n"@))
    } else if name == "left"@ {
        Some(ascii_bytes("*SCIRCC0000000000000012\n"@))
    } else if name == "enter"@ {
        Some(ascii_bytes("*SCIRCC0000000000000013\n"@))
    } else if name == "return"@ {
        Some(ascii_bytes("*SCIRCC0000000000000008\n"@))
    } else if name == "hdmi1"@ {
        Some(ascii_bytes("*SCINPT0000000100000001\n"@))
    } else if name == "hdmi2"@ {
        Some(ascii_bytes("*SCINPT0000000100000002\n"@))
    } else if name == "hdmi3"@ {
        Some(ascii_bytes("*SCINPT0000000100000003\n"@))
    } else if name == "hdmi4"@ {
        Some(ascii_bytes("*SCINPT0000000100000004\n"@))
    } else {
        None
    }
}

/// Whether a name is in the Command Table.
pub open spec fn is_known_command(name: Seq<char>) -> bool {
    spec_frame_for(name) is Some
}

/// Whether two strings are equal, decided bytewise. The right-hand side must
/// be ASCII, as every name in the Command Table is.
fn str_eq_ascii(a: &str, b: &str) -> (r: bool)
    requires
        b.is_ascii(),
    ensures
        r == (a@ == b@),
{
    if !a.is_ascii() {
        proof {
            if a@ == b@ {
                assert(vstd::string::is_ascii(a));
            }
        }
        return false;
    }
    let n = a.unicode_len();
    if n != b.unicode_len() {
        return false;
    }
    let mut i: usize = 0;
    while i < n
        invariant
            0 <= i <= n,
            n as nat == a@.len(),
            n as nat == b@.len(),
            a.is_ascii(),
            b.is_ascii(),
            forall|j: int| 0 <= j < i ==> a@[j] == b@[j],
        decreases n - i,
    {
        let ca = a.get_ascii(i);
        let cb = b.get_ascii(i);
        proof {
            broadcast use vstd::utf8::is_ascii_chars_nat_bound;

            assert((a@[i as int] as nat) < 128);
            assert((b@[i as int] as nat) < 128);
        }
        if ca != cb {
            proof {
                assert(a@[i as int] != b@[i as int]);
            }
            return false;
        }
        proof {
            assert(a@[i as int] == b@[i as int]);
        }
        i += 1;
    }
    proof {
        assert(a@ =~= b@);
    }
    true
}

/// Command Table lookup: deterministic, pure, no side effects. Returns the
/// exact documented frame for a name in the table and `None` otherwise.
pub fn resolve(name: &str) -> (r: Option<CommandFrame>)
    ensures
        match r {
            Some(f) => spec_frame_for(name@) == Some(f@) && f.wf(),
            None => spec_frame_for(name@) is None,
        },
{
    proof {
        reveal_strlit("powerOff");
        reveal_strlit("powerOn");
        reveal_strlit("home");
        reveal_strlit("netflix");
        reveal_strlit("up");
        reveal_strlit("down");
        reveal_strlit("right");
        reveal_strlit("left");
        reveal_strlit("enter");
        reveal_strlit("return");
        reveal_strlit("hdmi1");
        reveal_strlit("hdmi2");
        reveal_strlit("hdmi3");
        reveal_strlit("hdmi4");
        reveal_strlit("*SCPOWR0000000000000000\n");
        reveal_strlit("*SCPOWR0000000000000001\n");
        reveal_strlit("*SCIRCC0000000000000006\n");
        reveal_strlit("*SCIRCC0000000000000056\n");
        reveal_strlit("*SCIRCC0000000000000009\n");
        reveal_strlit("*SCIRCC0000000000000010\n");
        reveal_strlit("*SCIRCC0000000000000011\n");
        reveal_strlit("*SCIRCC0000000000000012\n");
        reveal_strlit("*SCIRCC0000000000000013\n");
        reveal_strlit("*SCIRCC0000000000000008\n");
        reveal_strlit("*SCINPT0000000100000001\n");
        reveal_strlit("*SCINPT0000000100000002\n");
        reveal_strlit("*SCINPT0000000100000003\n");
        reveal_strlit("*SCINPT0000000100000004\n");
    }
    if str_eq_ascii(name, "powerOff") {
        Some(CommandFrame::from_ascii("*SCPOWR0000000000000000\n"))
    } else if str_eq_ascii(name, "powerOn") {
        Some(CommandFrame::from_ascii("*SCPOWR0000000000000001\n"))
    } else if str_eq_ascii(name, "home") {
        Some(CommandFrame::from_ascii("*SCIRCC0000000000000006\n"))
    } else if str_eq_ascii(name, "netflix") {
        Some(CommandFrame::from_ascii("*SCIRCC0000000000000056\n"))
    } else if str_eq_ascii(name, "up") {
        Some(CommandFrame::from_ascii("*SCIRCC0000000000000009\n"))
    } else if str_eq_ascii(name, "down") {
        Some(CommandFrame::from_ascii("*SCIRCC0000000000000010\n"))
    } else if str_eq_ascii(name, "right") {
        Some(CommandFrame::from_ascii("*SCIRCC0000000000000011\n"))
    } else if str_eq_ascii(name, "left") {
        Some(CommandFrame::from_ascii("*SCIRCC0000000000000012\n"))
    } else if str_eq_ascii(name, "enter") {
        Some(CommandFrame::from_ascii("*SCIRCC0000000000000013\n"))
    } else if str_eq_ascii(name, "return") {
        Some(CommandFrame::from_ascii("*SCIRCC0000000000000008\n"))
    } else if str_eq_ascii(name, "hdmi1") {
        Some(CommandFrame::from_ascii("*SCINPT0000000100000001\n"))
    } else if str_eq_ascii(name, "hdmi2") {
        Some(CommandFrame::from_ascii("*SCINPT0000000100000002\n"))
    } else if str_eq_ascii(name, "hdmi3") {
        Some(CommandFrame::from_ascii("*SCINPT0000000100000003\n"))
    } else if str_eq_ascii(name, "hdmi4") {
        Some(CommandFrame::from_ascii("*SCINPT0000000100000004\n"))
    } else {
        None
    }
}

/// Every frame in the Command Table has the fixed wire length.
pub proof fn lemma_table_frames_well_formed(name: Seq<char>)
    requires
        is_known_command(name),
    ensures
        spec_frame_for(name).unwrap().len() == crate::frame::FRAME_LEN,
{
    reveal_strlit("*SCPOWR0000000000000000\n");
    reveal_strlit("*SCPOWR0000000000000001\n");
    reveal_strlit("*SCIRCC0000000000000006\n");
    reveal_strlit("*SCIRCC0000000000000056\n");
    reveal_strlit("*SCIRCC0000000000000009\n");
    reveal_strlit("*SCIRCC0000000000000010\n");
    reveal_strlit("*SCIRCC0000000000000011\n");
    reveal_strlit("*SCIRCC0000000000000012\n");
    reveal_strlit("*SCIRCC0000000000000013\n");
    reveal_strlit("*SCIRCC0000000000000008\n");
    reveal_strlit("*SCINPT0000000100000001\n");
    reveal_strlit("*SCINPT0000000100000002\n");
    reveal_strlit("*SCINPT0000000100000003\n");
    reveal_strlit("*SCINPT0000000100000004\n");
}

} // verus!
