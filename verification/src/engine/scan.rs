//! The trailing-window scan for the end of an upload.
//!
//! The message that ends an upload may arrive cut across reads, or in one read with
//! the last of the data. The scan therefore looks at the end of everything received
//! so far, and keeps no more of it than the length of the message.

use crate::engine::protocol::UPLOAD_DONE;
use crate::engine::transport::Sentinel;
use vstd::prelude::*;

verus! {

/// Length of the window: that of the message looked for.
pub const WINDOW: usize = 19;

/// The last `count` items of a stream, or all of it where it is shorter.
pub open spec fn suffix(stream: Seq<u8>, count: int) -> Seq<u8> {
    if stream.len() <= count {
        stream
    } else {
        stream.subrange(stream.len() - count, stream.len() as int)
    }
}

/// Whether the stream ends with the marker.
pub open spec fn ends_with(stream: Seq<u8>, marker: Seq<u8>) -> bool {
    stream.len() >= marker.len() && stream.subrange(
        stream.len() - marker.len(),
        stream.len() as int,
    ) == marker
}

/// The chunks of a stream joined in their order.
pub open spec fn joined(chunks: Seq<Seq<u8>>) -> Seq<u8>
    decreases chunks.len(),
{
    if chunks.len() == 0 {
        Seq::empty()
    } else {
        joined(chunks.drop_last()) + chunks.last()
    }
}

/// The end of a stream after more has arrived is the end of what the window held
/// followed by the new bytes: nothing before the window matters.
pub proof fn lemma_window_suffices(stream: Seq<u8>, more: Seq<u8>, count: int)
    requires
        count >= 0,
    ensures
        suffix(stream + more, count) == suffix(suffix(stream, count) + suffix(more, count), count),
        suffix(stream + more, count) == suffix(suffix(stream, count) + more, count),
{
}

/// A stream ends with a marker exactly when its last bytes, as many as the marker
/// has, are the marker.
pub proof fn lemma_ends_with_suffix(stream: Seq<u8>, marker: Seq<u8>)
    ensures
        ends_with(stream, marker) == (suffix(stream, marker.len() as int) == marker),
{
    if stream.len() == marker.len() {
        assert(stream.subrange(0, stream.len() as int) =~= stream);
    }
}

/// The end of an upload is found however the message that marks it was cut: after
/// any data, the first `cut` bytes of the message in one read and the rest in the
/// next give a stream that ends with the message, as does the message in one piece.
pub proof fn lemma_split_marker_found(data: Seq<u8>, marker: Seq<u8>, cut: int)
    requires
        0 <= cut <= marker.len(),
    ensures
        ends_with(
            joined(seq![data + marker.subrange(0, cut), marker.subrange(cut, marker.len() as int)]),
            marker,
        ),
        joined(seq![data + marker.subrange(0, cut), marker.subrange(cut, marker.len() as int)])
            == joined(seq![data + marker]),
{
    let first = data + marker.subrange(0, cut);
    let second = marker.subrange(cut, marker.len() as int);
    lemma_joined_two(first, second);
    lemma_joined_one(data + marker);
    let stream = first + second;
    assert(stream.subrange(stream.len() - marker.len(), stream.len() as int) =~= marker);
}

/// Two chunks joined are the first followed by the second.
pub proof fn lemma_joined_two(first: Seq<u8>, second: Seq<u8>)
    ensures
        joined(seq![first, second]) == first + second,
{
    let both = seq![first, second];
    assert(both.drop_last() =~= seq![first]);
    lemma_joined_one(first);
}

/// One chunk joined is the chunk.
pub proof fn lemma_joined_one(only: Seq<u8>)
    ensures
        joined(seq![only]) == only,
{
    let one = seq![only];
    assert(joined(one.drop_last()) =~= Seq::<u8>::empty());
}

/// The scan: the last bytes of the stream received so far.
pub struct TailWindow {
    window: Vec<u8>,
    seen: Ghost<Seq<u8>>,
}

impl TailWindow {
    #[verifier::type_invariant]
    spec fn inv(self) -> bool {
        self.window@ == suffix(self.seen@, WINDOW as int)
    }

    /// Everything received so far.
    pub closed spec fn seen(&self) -> Seq<u8> {
        self.seen@
    }

    /// A scan that has seen nothing.
    pub fn new() -> (scan: TailWindow)
        ensures
            scan.seen() == Seq::<u8>::empty(),
    {
        TailWindow { window: Vec::new(), seen: Ghost(Seq::empty()) }
    }

    /// The number of bytes the scan holds: never more than the window.
    pub fn held(&self) -> (held: usize)
        ensures
            held <= WINDOW,
            held == suffix(self.seen(), WINDOW as int).len(),
    {
        proof {
            use_type_invariant(self);
        }
        self.window.len()
    }

    /// Takes in what one read gave, and says whether everything received so far now
    /// ends with the message that ends the upload.
    pub fn push(&mut self, data: &[u8]) -> (found: bool)
        ensures
            final(self).seen() == old(self).seen() + data@,
            found == ends_with(final(self).seen(), UPLOAD_DONE@),
    {
        proof {
            use_type_invariant(&*self);
        }
        let ghost stream = self.seen@;
        let held = self.window.len();
        let skip: usize = if data.len() > WINDOW {
            data.len() - WINDOW
        } else {
            0
        };
        let mut both: Vec<u8> = Vec::new();
        let mut i: usize = 0;
        while i < held
            invariant
                i <= held,
                held == self.window@.len(),
                both@ == self.window@.subrange(0, i as int),
            decreases held - i,
        {
            both.push(self.window[i]);
            i = i + 1;
        }
        let mut j: usize = skip;
        while j < data.len()
            invariant
                skip <= j <= data@.len(),
                both@ == self.window@ + data@.subrange(skip as int, j as int),
            decreases data@.len() - j,
        {
            both.push(data[j]);
            j = j + 1;
        }
        proof {
            assert(data@.subrange(skip as int, data@.len() as int) =~= suffix(data@, WINDOW as int));
        }
        let drop: usize = if both.len() > WINDOW {
            both.len() - WINDOW
        } else {
            0
        };
        let mut window: Vec<u8> = Vec::new();
        let mut k: usize = drop;
        while k < both.len()
            invariant
                drop <= k <= both@.len(),
                window@ == both@.subrange(drop as int, k as int),
            decreases both@.len() - k,
        {
            window.push(both[k]);
            k = k + 1;
        }
        proof {
            assert(window@ =~= suffix(both@, WINDOW as int));
            lemma_window_suffices(stream, data@, WINDOW as int);
            lemma_ends_with_suffix(stream + data@, UPLOAD_DONE@);
        }
        let found = Sentinel::UploadDone.matches(window.as_slice());
        *self = TailWindow { window, seen: Ghost(stream + data@) };
        found
    }
}

} // verus!
