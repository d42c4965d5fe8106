//! Accumulating a streamed chat answer.

use vstd::prelude::*;

verus! {

/// The text that lossy UTF-8 decoding gives for `bytes`: invalid sequences
/// become replacement characters.
pub uninterp spec fn lossy_text(bytes: Seq<u8>) -> Seq<char>;

/// Relies on String::from_utf8_lossy: the decoded text depends on the
/// bytes alone, and no bytes give no text.
#[verifier::external_body]
fn decode_lossy(bytes: &[u8]) -> (r: String)
    ensures
        r@ == lossy_text(bytes@),
        bytes@.len() == 0 ==> r@.len() == 0,
{
    String::from_utf8_lossy(bytes).into_owned()
}

/// The text of a stream of chunks, each decoded on its own, in arrival order.
pub open spec fn stream_text(chunks: Seq<Seq<u8>>) -> Seq<char>
    decreases chunks.len(),
{
    if chunks.len() == 0 {
        Seq::empty()
    } else {
        stream_text(chunks.drop_last()) + lossy_text(chunks.last())
    }
}

/// The views of a list of byte chunks.
pub open spec fn chunk_views(chunks: Seq<Vec<u8>>) -> Seq<Seq<u8>> {
    chunks.map_values(|c: Vec<u8>| c@)
}

/// The state of one streamed answer.
pub struct ChatStream {
    /// Whether the answer is kept off the standard output.
    pub quiet: bool,
    /// Everything received so far.
    pub full: String,
}

impl ChatStream {
    /// A stream that has received nothing yet.
    pub fn new(quiet: bool) -> (r: ChatStream)
        ensures
            r.quiet == quiet,
            r.full@ == Seq::<char>::empty(),
    {
        ChatStream { quiet, full: String::new() }
    }

    /// Takes one received chunk: its decoded text is appended to the answer
    /// and, unless the stream is quiet, returned for immediate display.
    pub fn push_chunk(&mut self, chunk: &[u8]) -> (shown: Option<String>)
        ensures
            final(self).quiet == old(self).quiet,
            final(self).full@ == old(self).full@ + lossy_text(chunk@),
            old(self).quiet ==> shown is None,
            !old(self).quiet ==> (shown matches Some(t) && t@ == lossy_text(chunk@)),
    {
        let text = decode_lossy(chunk);
        self.full.append(text.as_str());
        if self.quiet {
            None
        } else {
            Some(text)
        }
    }

    /// Ends the stream: the whole answer, and the text to speak when voice
    /// output is on.
    pub fn finish(self, voice: bool) -> (r: (String, Option<String>))
        ensures
            r.0@ == self.full@,
            voice ==> (r.1 matches Some(t) && t@ == self.full@),
            !voice ==> r.1 is None,
    {
        if voice {
            let spoken = self.full.clone();
            (self.full, Some(spoken))
        } else {
            (self.full, None)
        }
    }
}

/// Feeds `chunks` in order through a [`ChatStream`]: the answer is the
/// ordered concatenation of the decoded chunks, and what is displayed
/// (nothing when quiet) is that same concatenation.
pub fn collect_stream(chunks: &Vec<Vec<u8>>, quiet: bool) -> (r: (String, String))
    ensures
        r.0@ == stream_text(chunk_views(chunks@)),
        !quiet ==> r.1@ == r.0@,
        quiet ==> r.1@ == Seq::<char>::empty(),
{
    let mut stream = ChatStream::new(quiet);
    let mut shown = String::new();
    let mut i: usize = 0;
    while i < chunks.len()
        invariant
            0 <= i <= chunks@.len(),
            stream.quiet == quiet,
            stream.full@ == stream_text(chunk_views(chunks@.take(i as int))),
            !quiet ==> shown@ == stream.full@,
            quiet ==> shown@ == Seq::<char>::empty(),
        decreases chunks.len() - i,
    {
        let ghost before = chunks@.take(i as int);
        let echoed = stream.push_chunk(chunks[i].as_slice());
        if let Some(t) = echoed {
            shown.append(t.as_str());
        }
        proof {
            let after = chunks@.take(i + 1);
            assert(chunk_views(after).drop_last() =~= chunk_views(before));
            assert(chunk_views(after).last() == chunks@[i as int]@);
        }
        i = i + 1;
    }
    assert(chunks@.take(chunks@.len() as int) =~= chunks@);
    (stream.full, shown)
}

} // verus!
