use vstd::prelude::*;
use vstd::string::StrSliceExecFns;

verus! {

/// Every frame on the wire is exactly this many bytes long.
pub const FRAME_LEN: usize = 24;

/// The byte sequence of an ASCII character sequence, one byte per character.
pub open spec fn ascii_bytes(s: Seq<char>) -> Seq<u8> {
    Seq::new(s.len(), |i: int| s[i] as u8)
}

/// One remote-control instruction on the wire: an immutable, fixed-length
/// byte payload. Its content is opaque to the relay — never parsed or
/// mutated after construction, only transmitted verbatim.
pub struct CommandFrame {
    bytes: Vec<u8>,
}

impl View for CommandFrame {
    type V = Seq<u8>;

    closed spec fn view(&self) -> Seq<u8> {
        self.bytes@
    }
}

impl CommandFrame {
    /// A well-formed frame has the fixed wire length.
    pub open spec fn wf(self) -> bool {
        self@.len() == FRAME_LEN
    }

    /// Builds a frame from a 24-character ASCII string written exactly as
    /// the remote protocol documents it, e.g. `*SCPOWR0000000000000001\n`.
    pub fn from_ascii(s: &str) -> (r: CommandFrame)
        requires
            s.is_ascii(),
            s@.len() == FRAME_LEN,
        ensures
            r@ == ascii_bytes(s@),
            r.wf(),
    {
        let bytes = s.as_bytes_vec();
        proof {
            broadcast use vstd::string::is_ascii_spec_bytes;

            assert(bytes@ =~= ascii_bytes(s@));
        }
        CommandFrame { bytes }
    }

    /// The frame's length in bytes.
    pub fn len(&self) -> (n: usize)
        ensures
            n == self@.len(),
    {
        self.bytes.len()
    }

    /// The frame's raw bytes, for the writer that puts them on the wire.
    pub fn as_bytes(&self) -> (r: &[u8])
        ensures
            r@ == self@,
    {
        self.bytes.as_slice()
    }
}

} // verus!
