//! Messages on the wire between host and guest: JSON texts, each followed by
//! a NUL byte.
//!
//! The functions here work on bytes. Turning a message into a value of some
//! type, and back, is the caller's affair.

use vstd::prelude::*;

verus! {

/// The byte that ends a message.
pub const NUL: u8 = 0;

/// Whether `serde_json` accepts a text as one JSON value.
pub uninterp spec fn json_valid(text: Seq<u8>) -> bool;

/// Asks `serde_json::from_slice` whether a text is one JSON value, with
/// nothing but white space around it.
///
/// The contract claims that the answer depends on the text alone. Of the
/// words of a refusal it claims nothing.
#[verifier::external_body]
fn check_json(text: &[u8]) -> (verdict: Result<(), String>)
    ensures
        verdict is Ok == json_valid(text@),
{
    match serde_json::from_slice::<serde_json::Value>(text) {
        Ok(_) => Ok(()),
        Err(e) => Err(e.to_string()),
    }
}

/// Why a message could not be sent or was not accepted.
#[derive(Clone, Debug, PartialEq, Eq)]
pub enum Error {
    /// The text holds a NUL byte, which would end the message early.
    Nul,
    /// The text is not JSON. The parser's words are given.
    Serialization(String),
}

/// An [`Error`] without the parser's words.
pub enum ErrorKind {
    Nul,
    Serialization,
}

impl View for Error {
    type V = ErrorKind;

    open spec fn view(&self) -> ErrorKind {
        match self {
            Error::Nul => ErrorKind::Nul,
            Error::Serialization(_) => ErrorKind::Serialization,
        }
    }
}

/// Tells whether no byte of a text is NUL.
pub open spec fn nul_free(text: Seq<u8>) -> bool {
    forall|i: int| 0 <= i < text.len() ==> text[i] != NUL
}

/// The index of the first NUL byte of a stream, or the stream's length if it
/// holds none.
pub open spec fn first_nul(stream: Seq<u8>) -> int
    decreases stream.len(),
{
    if stream.len() == 0 || stream[0] == NUL {
        0
    } else {
        1 + first_nul(stream.drop_first())
    }
}

/// The complete messages of a stream, in the order in which they stand.
pub open spec fn frames_of(stream: Seq<u8>) -> Seq<Seq<u8>>
    decreases stream.len(),
{
    let i = first_nul(stream);
    if 0 <= i < stream.len() {
        seq![stream.subrange(0, i)] + frames_of(stream.subrange(i + 1, stream.len() as int))
    } else {
        seq![]
    }
}

/// What a stream holds behind its last complete message: the beginning of a
/// message whose end has not arrived.
pub open spec fn tail_of(stream: Seq<u8>) -> Seq<u8>
    decreases stream.len(),
{
    let i = first_nul(stream);
    if 0 <= i < stream.len() {
        tail_of(stream.subrange(i + 1, stream.len() as int))
    } else {
        stream
    }
}

/// A text as it stands on the wire: with a NUL byte behind it.
pub open spec fn framed(text: Seq<u8>) -> Seq<u8> {
    text.push(NUL)
}

/// `first_nul` is the least index that holds a NUL byte, and the length of a
/// stream without one.
pub proof fn lemma_first_nul(stream: Seq<u8>)
    ensures
        0 <= first_nul(stream) <= stream.len(),
        forall|k: int| 0 <= k < first_nul(stream) ==> stream[k] != NUL,
        first_nul(stream) < stream.len() ==> stream[first_nul(stream)] == NUL,
    decreases stream.len(),
{
    if stream.len() == 0 || stream[0] == NUL {
    } else {
        let rest = stream.drop_first();
        lemma_first_nul(rest);
        assert forall|k: int| 0 <= k < first_nul(stream) implies stream[k] != NUL by {
            if k > 0 {
                assert(stream[k] == rest[k - 1]);
            }
        }
        if first_nul(stream) < stream.len() {
            assert(stream[first_nul(stream)] == rest[first_nul(rest)]);
        }
    }
}

/// An index that holds a NUL byte behind bytes that are not NUL is the
/// first such index.
pub proof fn lemma_first_nul_at(stream: Seq<u8>, i: int)
    requires
        0 <= i <= stream.len(),
        forall|k: int| 0 <= k < i ==> stream[k] != NUL,
        i < stream.len() ==> stream[i] == NUL,
    ensures
        first_nul(stream) == i,
{
    lemma_first_nul(stream);
    let j = first_nul(stream);
    if j < i {
        assert(stream[j] == NUL);
    } else if i < j {
        assert(stream[i] == NUL);
    }
}

/// A text without NUL, once framed, is the first message of whatever stream
/// it begins, and the rest of the stream is read as if it stood alone. So a
/// framed text alone reads back as itself, and two framed texts one behind
/// the other read back as the two, in that order.
pub proof fn lemma_framed_reads_back(text: Seq<u8>, rest: Seq<u8>)
    requires
        nul_free(text),
    ensures
        frames_of(framed(text) + rest) == seq![text] + frames_of(rest),
        tail_of(framed(text) + rest) == tail_of(rest),
        frames_of(framed(text)) == seq![text],
        tail_of(framed(text)) == Seq::<u8>::empty(),
{
    let stream = framed(text) + rest;
    let n = text.len() as int;
    lemma_first_nul_at(stream, n);
    assert(stream.subrange(0, n) =~= text);
    assert(stream.subrange(n + 1, stream.len() as int) =~= rest);
    let alone = framed(text);
    lemma_first_nul_at(alone, n);
    assert(alone.subrange(0, n) =~= text);
    let nothing = alone.subrange(n + 1, alone.len() as int);
    assert(nothing =~= Seq::<u8>::empty());
    assert(first_nul(nothing) == 0);
    assert(frames_of(nothing) =~= Seq::<Seq<u8>>::empty());
    assert(tail_of(nothing) =~= Seq::<u8>::empty());
    assert(seq![text] + frames_of(nothing) =~= seq![text]);
}

/// Two framed texts, one behind the other, read back as the two texts in
/// that order, with nothing left over.
pub proof fn lemma_two_frames_read_back(first: Seq<u8>, second: Seq<u8>)
    requires
        nul_free(first),
        nul_free(second),
    ensures
        frames_of(framed(first) + framed(second)) == seq![first, second],
        tail_of(framed(first) + framed(second)) == Seq::<u8>::empty(),
{
    lemma_framed_reads_back(first, framed(second));
    lemma_framed_reads_back(second, Seq::<u8>::empty());
    assert(seq![first] + seq![second] =~= seq![first, second]);
}

/// A stream without NUL holds no complete message: all of it is the
/// beginning of one.
pub proof fn lemma_partial_holds_no_frame(stream: Seq<u8>)
    requires
        nul_free(stream),
    ensures
        frames_of(stream) == Seq::<Seq<u8>>::empty(),
        tail_of(stream) == stream,
{
    lemma_first_nul_at(stream, stream.len() as int);
}

/// Every message of a stream is free of NUL, and so is what stands behind
/// the last.
pub proof fn lemma_frames_are_nul_free(stream: Seq<u8>)
    ensures
        forall|k: int| 0 <= k < frames_of(stream).len() ==> nul_free(#[trigger] frames_of(stream)[k]),
        nul_free(tail_of(stream)),
    decreases stream.len(),
{
    lemma_first_nul(stream);
    let i = first_nul(stream);
    if i < stream.len() {
        let rest = stream.subrange(i + 1, stream.len() as int);
        lemma_frames_are_nul_free(rest);
        assert forall|k: int| 0 <= k < frames_of(stream).len() implies nul_free(
            #[trigger] frames_of(stream)[k],
        ) by {
            if k > 0 {
                assert(frames_of(stream)[k] == frames_of(rest)[k - 1]);
            }
        }
    }
}

/// Reading a stream in two pieces gives what reading it whole gives: the
/// messages of the first piece, then those of what the first piece left
/// over followed by the second piece.
pub proof fn lemma_frames_of_pieces(head: Seq<u8>, more: Seq<u8>)
    ensures
        frames_of(head + more) == frames_of(head) + frames_of(tail_of(head) + more),
        tail_of(head + more) == tail_of(tail_of(head) + more),
    decreases head.len(),
{
    lemma_first_nul(head);
    let i = first_nul(head);
    if i < head.len() {
        let whole = head + more;
        lemma_first_nul_at(whole, i);
        let rest = head.subrange(i + 1, head.len() as int);
        assert(whole.subrange(0, i) =~= head.subrange(0, i));
        assert(whole.subrange(i + 1, whole.len() as int) =~= rest + more);
        lemma_frames_of_pieces(rest, more);
        assert(seq![head.subrange(0, i)] + (frames_of(rest) + frames_of(tail_of(rest) + more))
            =~= (seq![head.subrange(0, i)] + frames_of(rest)) + frames_of(tail_of(rest) + more));
    } else {
        assert(frames_of(head) + frames_of(head + more) =~= frames_of(head + more));
    }
}

/// Returns the index of the first NUL byte at or behind `from`, or the
/// stream's length if there is none.
fn find_nul(stream: &[u8], from: usize) -> (at: usize)
    requires
        from <= stream@.len(),
    ensures
        at == from + first_nul(stream@.subrange(from as int, stream@.len() as int)),
        from <= at <= stream@.len(),
{
    let mut i: usize = from;
    while i < stream.len() && stream[i] != NUL
        invariant
            from <= i <= stream@.len(),
            forall|k: int| from <= k < i ==> stream@[k] != NUL,
        decreases stream@.len() - i,
    {
        i += 1;
    }
    proof {
        lemma_first_nul_at(stream@.subrange(from as int, stream@.len() as int), i - from);
    }
    i
}

/// Copies the bytes of a stream from one index up to another.
fn copy_range(stream: &[u8], from: usize, to: usize) -> (copy: Vec<u8>)
    requires
        from <= to <= stream@.len(),
    ensures
        copy@ == stream@.subrange(from as int, to as int),
{
    let mut copy: Vec<u8> = Vec::new();
    let mut i: usize = from;
    while i < to
        invariant
            from <= i <= to <= stream@.len(),
            copy@ == stream@.subrange(from as int, i as int),
        decreases to - i,
    {
        copy.push(stream[i]);
        proof {
            assert(copy@ =~= stream@.subrange(from as int, i + 1));
        }
        i += 1;
    }
    copy
}

/// Tells whether no byte of a text is NUL.
pub fn is_nul_free(text: &[u8]) -> (free: bool)
    ensures
        free == nul_free(text@),
{
    let at = find_nul(text, 0);
    proof {
        assert(text@.subrange(0, text@.len() as int) =~= text@);
        lemma_first_nul(text@);
    }
    at == text.len()
}

/// Puts a text on the wire: the text, then a NUL byte.
///
/// Fails with `Nul` if the text holds a NUL byte, and in no other case.
pub fn frame(text: &[u8]) -> (result: Result<Vec<u8>, Error>)
    ensures
        match result {
            Ok(bytes) => nul_free(text@) && bytes@ == framed(text@),
            Err(e) => !nul_free(text@) && e@ == ErrorKind::Nul,
        },
{
    if !is_nul_free(text) {
        return Err(Error::Nul);
    }
    let mut bytes = copy_range(text, 0, text.len());
    proof {
        assert(text@.subrange(0, text@.len() as int) =~= text@);
    }
    bytes.push(NUL);
    Ok(bytes)
}

/// The texts of a list of messages, in the same order.
pub open spec fn texts(frames: Seq<Vec<u8>>) -> Seq<Seq<u8>> {
    frames.map_values(|f: Vec<u8>| f@)
}

/// Splits a stream into its complete messages and what stands behind the
/// last of them.
pub fn decode(stream: &[u8]) -> (result: (Vec<Vec<u8>>, Vec<u8>))
    ensures
        texts(result.0@) == frames_of(stream@),
        result.1@ == tail_of(stream@),
{
    let mut frames: Vec<Vec<u8>> = Vec::new();
    let mut from: usize = 0;
    proof {
        assert(stream@.subrange(0, stream@.len() as int) =~= stream@);
        assert(texts(frames@) + frames_of(stream@) =~= frames_of(stream@));
    }
    loop
        invariant
            from <= stream@.len(),
            frames_of(stream@) == texts(frames@) + frames_of(
                stream@.subrange(from as int, stream@.len() as int),
            ),
            tail_of(stream@) == tail_of(stream@.subrange(from as int, stream@.len() as int)),
        decreases stream@.len() - from,
    {
        let ghost rest = stream@.subrange(from as int, stream@.len() as int);
        let at = find_nul(stream, from);
        if at == stream.len() {
            let tail = copy_range(stream, from, at);
            proof {
                assert(texts(frames@) + Seq::<Seq<u8>>::empty() =~= texts(frames@));
            }
            return (frames, tail);
        }
        let text = copy_range(stream, from, at);
        let ghost before = texts(frames@);
        frames.push(text);
        proof {
            assert(rest.subrange(0, at - from) =~= text@);
            assert(rest.subrange(at - from + 1, rest.len() as int) =~= stream@.subrange(
                at + 1,
                stream@.len() as int,
            ));
            assert(texts(frames@) =~= before.push(text@));
            assert(before + (seq![text@] + frames_of(
                stream@.subrange(at + 1, stream@.len() as int),
            )) =~= before.push(text@) + frames_of(stream@.subrange(at + 1, stream@.len() as int)));
        }
        from = at + 1;
    }
}

/// The receiving end of a stream that arrives in pieces.
pub struct Decoder {
    /// What has arrived behind the last complete message.
    partial: Vec<u8>,
}

impl View for Decoder {
    type V = Seq<u8>;

    /// What has arrived behind the last complete message.
    closed spec fn view(&self) -> Seq<u8> {
        self.partial@
    }
}

impl Decoder {
    /// Makes a decoder to which nothing has arrived.
    pub fn new() -> (decoder: Decoder)
        ensures
            decoder@ == Seq::<u8>::empty(),
    {
        Decoder { partial: Vec::new() }
    }

    /// Returns the number of bytes that wait for the end of their message.
    pub fn pending(&self) -> (n: usize)
        ensures
            n == self@.len(),
    {
        self.partial.len()
    }

    /// Takes the next piece of the stream and returns the messages that it
    /// completes, in order. What stands behind the last of them waits for
    /// the next piece; a piece without NUL completes nothing.
    pub fn feed(&mut self, piece: &[u8]) -> (frames: Vec<Vec<u8>>)
        ensures
            texts(frames@) == frames_of(old(self)@ + piece@),
            final(self)@ == tail_of(old(self)@ + piece@),
    {
        let mut stream: Vec<u8> = Vec::new();
        let ghost held = self.partial@;
        stream.append(&mut self.partial);
        let mut i: usize = 0;
        while i < piece.len()
            invariant
                i <= piece@.len(),
                stream@ == held + piece@.subrange(0, i as int),
            decreases piece@.len() - i,
        {
            stream.push(piece[i]);
            proof {
                assert(stream@ =~= held + piece@.subrange(0, i + 1));
            }
            i += 1;
        }
        proof {
            assert(piece@.subrange(0, piece@.len() as int) =~= piece@);
        }
        let (frames, tail) = decode(stream.as_slice());
        self.partial = tail;
        frames
    }
}

/// What `send` returns for a text.
pub open spec fn sent(text: Seq<u8>) -> Result<Seq<u8>, ErrorKind> {
    if !nul_free(text) {
        Err(ErrorKind::Nul)
    } else if !json_valid(text) {
        Err(ErrorKind::Serialization)
    } else {
        Ok(framed(text))
    }
}

/// What `recv` returns for a stream: nothing while the first message is
/// incomplete, else the first message if it is JSON.
pub open spec fn received(stream: Seq<u8>) -> Result<Option<Seq<u8>>, ErrorKind> {
    if first_nul(stream) >= stream.len() {
        Ok(None)
    } else if json_valid(stream.subrange(0, first_nul(stream))) {
        Ok(Some(stream.subrange(0, first_nul(stream))))
    } else {
        Err(ErrorKind::Serialization)
    }
}

/// A JSON text without NUL that is sent and received arrives as it was
/// sent, whatever follows it in the stream.
pub proof fn lemma_sent_is_received(text: Seq<u8>, rest: Seq<u8>)
    requires
        nul_free(text),
        json_valid(text),
    ensures
        sent(text) == Ok::<Seq<u8>, ErrorKind>(framed(text)),
        received(framed(text) + rest) == Ok::<Option<Seq<u8>>, ErrorKind>(Some(text)),
{
    let stream = framed(text) + rest;
    lemma_first_nul_at(stream, text.len() as int);
    assert(stream.subrange(0, text.len() as int) =~= text);
}

/// Accepts or refuses a message by the parser's verdict on it.
///
/// Returns the message if the verdict is `Ok`, else `Serialization` with
/// the verdict's words.
pub fn accept(text: Vec<u8>, verdict: Result<(), String>) -> (result: Result<Vec<u8>, Error>)
    ensures
        match result {
            Ok(message) => verdict is Ok && message == text,
            Err(e) => verdict is Err && e == Error::Serialization(verdict->Err_0),
        },
{
    match verdict {
        Ok(()) => Ok(text),
        Err(words) => Err(Error::Serialization(words)),
    }
}

/// Puts a JSON text on the wire: the text, then a NUL byte.
///
/// Fails with `Nul` if the text holds a NUL byte, else with `Serialization`
/// if it is not JSON.
pub fn send(text: &[u8]) -> (result: Result<Vec<u8>, Error>)
    ensures
        match result {
            Ok(bytes) => sent(text@) == Ok::<Seq<u8>, ErrorKind>(bytes@),
            Err(e) => sent(text@) == Err::<Seq<u8>, ErrorKind>(e@),
        },
{
    let bytes = match frame(text) {
        Ok(bytes) => bytes,
        Err(e) => {
            return Err(e);
        },
    };
    match accept(bytes, check_json(text)) {
        Ok(bytes) => Ok(bytes),
        Err(e) => Err(e),
    }
}

/// Takes the first message off a stream.
///
/// Returns `None` while the stream holds no NUL byte: the message is still
/// arriving. Else returns the bytes before the first NUL, or fails with
/// `Serialization` if they are not JSON.
pub fn recv(stream: &[u8]) -> (result: Result<Option<Vec<u8>>, Error>)
    ensures
        match result {
            Ok(Some(message)) => received(stream@) == Ok::<Option<Seq<u8>>, ErrorKind>(
                Some(message@),
            ),
            Ok(None) => received(stream@) == Ok::<Option<Seq<u8>>, ErrorKind>(None),
            Err(e) => received(stream@) == Err::<Option<Seq<u8>>, ErrorKind>(e@),
        },
{
    let at = find_nul(stream, 0);
    proof {
        assert(stream@.subrange(0, stream@.len() as int) =~= stream@);
    }
    if at == stream.len() {
        return Ok(None);
    }
    let text = copy_range(stream, 0, at);
    let verdict = check_json(text.as_slice());
    match accept(text, verdict) {
        Ok(message) => Ok(Some(message)),
        Err(e) => Err(e),
    }
}

} // verus!
