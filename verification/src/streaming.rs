//! Streaming parsers: the caller feeds the bytes of an SWF file as they come, first to
//! a `HeaderParser` until the movie header is read, then to a `TagParser`.
use vstd::prelude::*;
use vstd::slice::slice_subrange;
use crate::ast::{CompressionMethod, Header, SwfSignature};
use crate::ast_tags::{Tag, TagModel};
use crate::decompress::zlib_inflate;
use crate::movie::spec_swf;
use crate::header::{
    lemma_header_extend, lemma_header_suffix, lemma_swf_signature_extend, parse_header, parse_swf_signature, spec_header, spec_swf_signature,
};
use crate::stream_buffer::{FlatBuffer, StreamBuffer};
use crate::tag::{
    lemma_streaming_tag_extend, lemma_tag_frame_sizes, lemma_tag_progress,
    parse_tag_streaming, spec_streaming_tag, spec_tag_block_string,
};

verus! {

#[verifier::external_type_specification]
#[verifier::external_body]
pub struct ExInflateStream(inflate::InflateStream);

/// The compressed bytes that a zlib decoder has read since it was made, over all the
/// calls of `InflateStream::update` on it.
pub uninterp spec fn inflate_consumed(d: inflate::InflateStream) -> Seq<u8>;

/// What a zlib decoder has output since it was made: the outputs of all the calls of
/// `InflateStream::update` on it, one after the other.
pub uninterp spec fn inflate_produced(d: inflate::InflateStream) -> Seq<u8>;

/// Calls `inflate::InflateStream::from_zlib`: a fresh decoder for a zlib stream, which
/// has read nothing and output nothing.
#[verifier::external_body]
fn new_zlib_inflater() -> (r: inflate::InflateStream)
    ensures
        inflate_consumed(r) == Seq::<u8>::empty(),
        inflate_produced(r) == Seq::<u8>::empty(),
{
    inflate::InflateStream::from_zlib()
}

/// Whether `decoded` is a prefix of what zlib decompression (`zlib_inflate`) gives for
/// every input that starts with `fed` and decompresses.
pub open spec fn inflate_agrees(fed: Seq<u8>, decoded: Seq<u8>) -> bool {
    forall|s: Seq<u8>| #[trigger] zlib_inflate(fed + s) matches Some(o) ==> decoded.is_prefix_of(o)
}

/// Whether zlib decompression (`zlib_inflate`) refuses every input that starts with
/// `data`.
pub open spec fn inflate_refuses(data: Seq<u8>) -> bool {
    forall|s: Seq<u8>| #[trigger] zlib_inflate(data + s) is None
}

/// A refusal holds of every longer input.
pub proof fn lemma_inflate_refuses_extend(data: Seq<u8>, more: Seq<u8>)
    requires
        inflate_refuses(data),
    ensures
        inflate_refuses(data + more),
{
    assert forall|s: Seq<u8>| #[trigger] zlib_inflate(data + more + s) is None by {
        assert(data + more + s =~= data + (more + s));
        assert(zlib_inflate(data + (more + s)) is None);
    }
}

/// Calls `inflate::InflateStream::update` once on `data`, taking the decoder by value.
/// On success it hands the decoder back, with how many bytes of `data` it read (a
/// prefix of `data`, now logged as read by the decoder) and the output of this call
/// (now logged as its output). `update` only returns once it has read all of `data` or
/// filled its output window, so on non-empty `data` it reads all of it or outputs
/// something. It is the decoder that `inflate::inflate_bytes_zlib` runs over a whole
/// input, so what it has output so far is a prefix of what `zlib_inflate` gives for any
/// input that starts with what it has read. On invalid data it returns `None`: then
/// `zlib_inflate` refuses any input that starts with what it had read followed by
/// `data`. The decoder is then dropped: `update` leaves it without state, and a further
/// call would panic.
#[verifier::external_body]
fn inflate_update(inflater: inflate::InflateStream, data: &[u8])
    -> (r: Option<(inflate::InflateStream, usize, Vec<u8>)>)
    ensures
        r is None ==> inflate_refuses(inflate_consumed(inflater) + data@),
        r matches Some((d, read, out)) ==> {
            &&& read <= data@.len()
            &&& inflate_consumed(d) == inflate_consumed(inflater) + data@.take(read as int)
            &&& inflate_produced(d) == inflate_produced(inflater) + out@
            &&& data@.len() > 0 ==> read == data@.len() || out@.len() > 0
            &&& inflate_agrees(inflate_consumed(d), inflate_produced(d))
        },
{
    let mut inflater = inflater;
    let answer = match inflater.update(data) {
        Ok((read, output)) => Ok((read, output.to_vec())),
        Err(e) => Err(e),
    };
    match answer {
        Ok((read, output)) => Some((inflater, read, output)),
        Err(_) => None,
    }
}

/// Why the streaming parser could not read the header.
#[derive(Clone, Copy, Debug, PartialEq, Eq)]
pub enum HeaderParserError {
    /// The payload uses a compression that the streaming parser does not support.
    MissingFeature(&'static str),
    /// Not enough data yet, or invalid data.
    Other,
}

impl HeaderParserError {
    /// A short description of the error; for a missing feature it names the feature.
    pub fn to_string(&self) -> (r: String)
        ensures
            r@ == match self {
                HeaderParserError::MissingFeature(feature) =>
                    "unsupported compression type in SWF header: compile `swf-parser` with the `"@
                    + feature@ + "` feature"@,
                HeaderParserError::Other => "couldn't parse SWF header"@,
            },
    {
        match self {
            HeaderParserError::MissingFeature(feature) => {
                let mut message = String::from_str(
                    "unsupported compression type in SWF header: compile `swf-parser` with the `",
                );
                message.append(feature);
                message.append("` feature");
                message
            },
            HeaderParserError::Other => String::from_str("couldn't parse SWF header"),
        }
    }
}

/// The streaming parser could not read any tag.
#[derive(Clone, Copy, Debug, PartialEq, Eq, Structural)]
pub struct ParseTagsError;

impl ParseTagsError {
    /// A short description of the error.
    pub fn to_string(&self) -> (r: String)
        ensures
            r@ == "failed to parse SWF tag"@,
    {
        String::from_str("failed to parse SWF tag")
    }
}

/// Tags read from the start of a possibly incomplete input, up to the first tag that is
/// not complete yet or the `End` tag: the tags, the input left, and whether the `End`
/// tag was read (then nothing is left).
pub open spec fn spec_stream_tags(s: Seq<u8>, v: u8) -> (Seq<TagModel>, Seq<u8>, bool)
    decreases s.len(),
{
    match spec_streaming_tag(s, v) {
        Ok((_, None)) => (Seq::empty(), Seq::empty(), true),
        Ok((rest, Some(t))) => {
            proof {
                lemma_tag_progress(s, v);
            }
            let (ts, left, end) = spec_stream_tags(rest, v);
            (seq![t] + ts, left, end)
        },
        Err(_) => (Seq::empty(), s, false),
    }
}

/// Feeding a payload in two pieces reads the same tags as feeding it at once: the tags
/// read from the first piece, then those read from what it left followed by the second
/// piece (unless the first piece already held the `End` tag).
pub proof fn lemma_stream_tags_split(s: Seq<u8>, e: Seq<u8>, v: u8)
    ensures
        ({
            let (ts1, left1, end1) = spec_stream_tags(s, v);
            let (ts2, left2, end2) = spec_stream_tags(left1 + e, v);
            !end1 ==> spec_stream_tags(s + e, v) == (ts1 + ts2, left2, end2)
        }),
    decreases s.len(),
{
    lemma_streaming_tag_extend(s, e, v);
    lemma_tag_progress(s, v);
    match spec_streaming_tag(s, v) {
        Ok((_, None)) => {},
        Ok((rest, Some(t))) => {
            lemma_stream_tags_split(rest, e, v);
            let (ts1r, left1, end1) = spec_stream_tags(rest, v);
            let (ts2, left2, end2) = spec_stream_tags(left1 + e, v);
            assert(seq![t] + (ts1r + ts2) =~= (seq![t] + ts1r) + ts2);
        },
        Err(_) => {
            let (ts2, left2, end2) = spec_stream_tags(s + e, v);
            assert(Seq::<TagModel>::empty() + ts2 =~= ts2);
        },
    }
}

/// Once the `End` tag is read, the tags read by the streaming parser are those of the
/// complete parser on the same payload.
pub proof fn lemma_stream_tags_complete(s: Seq<u8>, v: u8)
    ensures
        spec_stream_tags(s, v).2 ==> spec_stream_tags(s, v).0 == spec_tag_block_string(s, v),
    decreases s.len(),
{
    lemma_tag_progress(s, v);
    lemma_tag_frame_sizes(s);
    match spec_streaming_tag(s, v) {
        Ok((_, None)) => {
            assert(s.len() > 0);
        },
        Ok((rest, Some(t))) => {
            lemma_stream_tags_complete(rest, v);
            assert(s.len() > 0);
        },
        Err(_) => {},
    }
}

/// State of the parser of an uncompressed payload.
pub struct SimpleStream<B: StreamBuffer> {
    buffer: B,
    swf_version: u8,
    is_end: bool,
}

impl<B: StreamBuffer> SimpleStream<B> {
    /// The payload bytes not parsed yet.
    pub closed spec fn unparsed(&self) -> Seq<u8> {
        self.buffer.unparsed()
    }

    pub closed spec fn version(&self) -> u8 {
        self.swf_version
    }

    /// Whether the `End` tag was read.
    pub closed spec fn ended(&self) -> bool {
        self.is_end
    }

    pub fn new(buffer: B, signature: SwfSignature) -> (r: Self)
        ensures
            r.unparsed() == buffer.unparsed(),
            r.version() == signature.swf_version,
            !r.ended(),
    {
        SimpleStream { buffer, swf_version: signature.swf_version, is_end: false }
    }

    /// Appends data to the buffer.
    pub fn write(&mut self, bytes: &[u8])
        ensures
            final(self).unparsed() == old(self).unparsed() + bytes@,
            final(self).version() == old(self).version(),
            final(self).ended() == old(self).ended(),
    {
        self.buffer.write(bytes);
    }

    /// Reads the movie header from the buffer; gives the stream back unchanged when
    /// the header is not complete yet.
    #[verifier::rlimit(30)]
    pub fn header(self) -> (r: Result<(Header, Self), Self>)
        ensures
            match (r, spec_header(self.unparsed(), self.version())) {
                (Ok((h, s)), Ok((sh, rest))) => h == sh && s.unparsed() == rest
                    && s.version() == self.version() && s.ended() == self.ended(),
                (Err(s), Err(_)) => s == self,
                _ => false,
            },
    {
        let mut this = self;
        let buffer: &[u8] = this.buffer.get();
        proof {
            lemma_header_suffix(buffer@, this.swf_version);
        }
        match parse_header(buffer, this.swf_version) {
            Ok((remaining, header)) => {
                let parsed_len: usize = buffer.len() - remaining.len();
                this.buffer.clear(parsed_len);
                Ok((header, this))
            },
            Err(_) => Err(this),
        }
    }

    /// Parses the tags available in the buffer.
    ///
    /// Returns `Ok(None)` once the `End` tag was read, `Ok(Some(tags))` when some tags
    /// are available (never empty), and an error when no tag is complete yet.
    pub fn tags(&mut self) -> (r: Result<Option<Vec<Tag>>, ParseTagsError>)
        ensures
            final(self).version() == old(self).version(),
            old(self).ended() ==> (r matches Ok(None)) && final(self).unparsed() == old(self).unparsed()
                && final(self).ended(),
            !old(self).ended() ==> {
                let (ts, left, end) = spec_stream_tags(old(self).unparsed(), old(self).version());
                &&& final(self).unparsed() == left
                &&& final(self).ended() == end
                &&& match r {
                    Ok(Some(v)) => ts.len() > 0 && v.deep_view() == ts,
                    Ok(None) => ts.len() == 0 && end,
                    Err(_) => ts.len() == 0 && !end,
                }
            },
    {
        if self.is_end {
            return Ok(None);
        }
        let buffer: &[u8] = self.buffer.get();
        let swf_version: u8 = self.swf_version;
        let mut input: &[u8] = buffer;
        let mut tags: Vec<Tag> = Vec::new();
        let mut is_end: bool = false;
        proof {
            assert(tags.deep_view() =~= Seq::<TagModel>::empty());
            assert(buffer@.skip(0) =~= buffer@);
        }
        loop
            invariant_except_break
                !is_end,
                input@.len() <= buffer@.len(),
                input@ == buffer@.skip(buffer@.len() - input@.len()),
                ({
                    let (ts, left, end) = spec_stream_tags(input@, swf_version);
                    spec_stream_tags(buffer@, swf_version) == (tags.deep_view() + ts, left, end)
                }),
            ensures
                input@.len() <= buffer@.len(),
                input@ == buffer@.skip(buffer@.len() - input@.len()),
                spec_stream_tags(buffer@, swf_version) == (tags.deep_view(), input@, is_end),
            decreases input@.len(),
        {
            proof {
                lemma_tag_frame_sizes(input@);
                lemma_tag_progress(input@, swf_version);
            }
            let ghost before = tags.deep_view();
            match parse_tag_streaming(input, swf_version) {
                Ok((_, None)) => {
                    let empty: &[u8] = slice_subrange(input, input.len(), input.len());
                    proof {
                        assert(empty@ =~= Seq::<u8>::empty());
                        assert(buffer@.skip(buffer@.len() as int) =~= Seq::<u8>::empty());
                        assert(before + Seq::<TagModel>::empty() =~= before);
                    }
                    input = empty;
                    is_end = true;
                    break;
                },
                Ok((next, Some(tag))) => {
                    let ghost tm = tag.deep_view();
                    tags.push(tag);
                    proof {
                        assert(tags.deep_view() =~= before.push(tm));
                        let (ts, left, end) = spec_stream_tags(next@, swf_version);
                        assert(before + (seq![tm] + ts) =~= tags.deep_view() + ts);
                        assert(next@ =~= buffer@.skip(buffer@.len() - next@.len()));
                    }
                    input = next;
                },
                Err(_) => {
                    proof {
                        assert(before + Seq::<TagModel>::empty() =~= before);
                    }
                    break;
                },
            }
        }
        let parsed_len: usize = buffer.len() - input.len();
        self.buffer.clear(parsed_len);
        if is_end {
            self.is_end = true;
        }
        if tags.len() == 0 {
            if is_end {
                Ok(None)
            } else {
                Err(ParseTagsError)
            }
        } else {
            Ok(Some(tags))
        }
    }
}

/// A zlib decoder, or none once it has refused its input; `fed` and `decoded` then
/// keep what it had read and output. What it has output always agrees with zlib
/// decompression of what it has read.
struct ZlibDecoder {
    inflater: Option<inflate::InflateStream>,
    fed: Ghost<Seq<u8>>,
    decoded: Ghost<Seq<u8>>,
}

impl ZlibDecoder {
    closed spec fn fed(&self) -> Seq<u8> {
        match self.inflater {
            Some(d) => inflate_consumed(d),
            None => self.fed@,
        }
    }

    closed spec fn decoded(&self) -> Seq<u8> {
        match self.inflater {
            Some(d) => inflate_produced(d),
            None => self.decoded@,
        }
    }

    #[verifier::type_invariant]
    closed spec fn output_agrees(self) -> bool {
        inflate_agrees(self.fed(), self.decoded())
    }

    /// A fresh decoder for a zlib stream.
    fn new() -> (r: Self)
        ensures
            r.inflater is Some,
            r.fed() == Seq::<u8>::empty(),
            r.decoded() == Seq::<u8>::empty(),
    {
        let inflater = new_zlib_inflater();
        proof {
            assert forall|s: Seq<u8>| #[trigger] zlib_inflate(inflate_consumed(inflater) + s) is Some implies
                inflate_produced(inflater).is_prefix_of(zlib_inflate(inflate_consumed(inflater) + s)->Some_0) by {
                let o = zlib_inflate(inflate_consumed(inflater) + s)->Some_0;
                assert(o.subrange(0, 0) =~= Seq::<u8>::empty());
            }
        }
        ZlibDecoder { inflater: Some(inflater), fed: Ghost(Seq::empty()), decoded: Ghost(Seq::empty()) }
    }

    /// Feeds `data` to the decoder once. On `None` the decoder refused the data and is
    /// gone; otherwise it returns how many bytes it read and what it output.
    fn update(&mut self, data: &[u8]) -> (r: Option<(usize, Vec<u8>)>)
        requires
            old(self).inflater is Some,
        ensures
            inflate_agrees(final(self).fed(), final(self).decoded()),
            match r {
                None => {
                    &&& final(self).inflater is None
                    &&& final(self).fed() == old(self).fed()
                    &&& final(self).decoded() == old(self).decoded()
                    &&& inflate_refuses(old(self).fed() + data@)
                },
                Some((read, out)) => {
                    &&& final(self).inflater is Some
                    &&& read <= data@.len()
                    &&& final(self).fed() == old(self).fed() + data@.take(read as int)
                    &&& final(self).decoded() == old(self).decoded() + out@
                    &&& data@.len() > 0 ==> read == data@.len() || out@.len() > 0
                },
            },
    {
        proof {
            use_type_invariant(&*self);
        }
        let ghost fed = self.fed();
        let ghost decoded = self.decoded();
        self.fed = Ghost(fed);
        self.decoded = Ghost(decoded);
        let mut taken: Option<inflate::InflateStream> = None;
        std::mem::swap(&mut taken, &mut self.inflater);
        let inflater = taken.unwrap();
        match inflate_update(inflater, data) {
            None => None,
            Some((inflater, read, out)) => {
                self.inflater = Some(inflater);
                Some((read, out))
            },
        }
    }
}

/// State of the parser of a zlib-compressed payload: the decoder (none once it refused
/// its input), and the parser of its output.
pub struct DeflateStream<B: StreamBuffer> {
    decoder: ZlibDecoder,
    simple: SimpleStream<B>,
}

impl<B: StreamBuffer> DeflateStream<B> {
    /// The parser of the decompressed payload.
    pub closed spec fn inner(&self) -> SimpleStream<B> {
        self.simple
    }

    /// The decoder; none once it has refused its input.
    pub closed spec fn decoder(&self) -> Option<inflate::InflateStream> {
        self.decoder.inflater
    }

    /// Whether the decoder has refused its input (it is then never called again).
    pub open spec fn failed(&self) -> bool {
        self.decoder() is None
    }

    /// The compressed bytes that the decoder has read so far.
    pub closed spec fn fed(&self) -> Seq<u8> {
        self.decoder.fed()
    }

    /// What the decoder has output so far.
    pub closed spec fn decoded(&self) -> Seq<u8> {
        self.decoder.decoded()
    }

    /// A parser whose first compressed bytes are those of `buffer`. It fails exactly
    /// when the decoder refuses those bytes, and then zlib decompression refuses any
    /// input that starts with them. Otherwise the decoder has read all of them, unless
    /// it read nothing `u32::MAX` times in a row while outputting.
    pub fn new(buffer: B, signature: SwfSignature) -> (r: Option<Self>)
        ensures
            r matches Some(d) ==> {
                &&& d.inner().version() == signature.swf_version
                &&& !d.inner().ended()
                &&& !d.failed()
                &&& d.fed().len() <= buffer.unparsed().len()
                &&& d.fed() == buffer.unparsed().take(d.fed().len() as int)
                &&& d.fed() == buffer.unparsed() || d.decoded().len() >= u32::MAX
                &&& d.inner().unparsed() == d.decoded()
                &&& inflate_agrees(d.fed(), d.decoded())
            },
            r is None ==> inflate_refuses(buffer.unparsed()),
            buffer.unparsed().len() == 0 ==> (r matches Some(d) && d.fed() == Seq::<u8>::empty()
                && d.decoded() == Seq::<u8>::empty()),
    {
        let decoder = ZlibDecoder::new();
        let simple = SimpleStream::new(B::new(), signature);
        let mut deflate_stream = DeflateStream { decoder, simple };
        let bytes: &[u8] = buffer.get();
        let result = deflate_stream.write(bytes);
        proof {
            assert(Seq::<u8>::empty() + bytes@ =~= bytes@);
            assert(deflate_stream.decoded().skip(0) =~= deflate_stream.decoded());
            assert(Seq::<u8>::empty() + deflate_stream.decoded() =~= deflate_stream.decoded());
            assert(Seq::<u8>::empty() + bytes@.take(deflate_stream.fed().len() as int)
                =~= bytes@.take(deflate_stream.fed().len() as int));
        }
        if deflate_stream.decoder.inflater.is_none() {
            None
        } else {
            Some(deflate_stream)
        }
    }

    /// Feeds compressed bytes to the decoder and its output to the inner parser.
    ///
    /// Succeeds exactly when the decoder reads all of `bytes`. Fails on invalid
    /// compressed data (then the stream has failed for good, and zlib decompression
    /// refuses any input that starts with the bytes fed so far followed by `bytes`),
    /// when the stream had already failed, or when the decoder reads nothing `u32::MAX`
    /// times in a row (each time it outputs something, so its output has grown by at
    /// least that much). Whatever the outcome, what the decoder read is a prefix of
    /// `bytes`, its output has been appended to the inner parser, and all it has output
    /// agrees with zlib decompression of all it has read.
    pub fn write(&mut self, bytes: &[u8]) -> (r: Result<(), ()>)
        ensures
            final(self).inner().version() == old(self).inner().version(),
            final(self).inner().ended() == old(self).inner().ended(),
            old(self).failed() ==> r is Err && final(self).failed() && final(self).inner() == old(self).inner()
                && final(self).fed() == old(self).fed() && final(self).decoded() == old(self).decoded(),
            r is Ok <==> !final(self).failed() && final(self).fed() == old(self).fed() + bytes@,
            r is Err ==> final(self).failed() || final(self).decoded().len() >= old(self).decoded().len()
                + u32::MAX,
            !old(self).failed() && final(self).failed() ==> inflate_refuses(old(self).fed() + bytes@),
            inflate_agrees(final(self).fed(), final(self).decoded()),
            final(self).fed().len() <= old(self).fed().len() + bytes@.len(),
            final(self).fed() == old(self).fed() + bytes@.take(final(self).fed().len() - old(self).fed().len()),
            old(self).decoded().is_prefix_of(final(self).decoded()),
            final(self).inner().unparsed() == old(self).inner().unparsed() + final(self).decoded().skip(
                old(self).decoded().len() as int,
            ),
            !old(self).failed() && bytes@.len() == 0 ==> r is Ok && final(self).inner() == old(self).inner()
                && final(self).decoded() == old(self).decoded(),
    {
        proof {
            use_type_invariant(&self.decoder);
            assert(old(self).decoded().skip(old(self).decoded().len() as int) =~= Seq::<u8>::empty());
            assert(old(self).inner().unparsed() + Seq::<u8>::empty() =~= old(self).inner().unparsed());
            assert(bytes@.take(0) =~= Seq::<u8>::empty());
            assert(old(self).fed() + Seq::<u8>::empty() =~= old(self).fed());
            assert(bytes@.skip(0) =~= bytes@);
        }
        if self.decoder.inflater.is_none() {
            return Err(());
        }
        let mut rest: &[u8] = bytes;
        let mut stalls: u32 = 0;
        while rest.len() > 0
            invariant
                !old(self).failed(),
                !self.failed(),
                rest@.len() <= bytes@.len(),
                rest@ == bytes@.skip(bytes@.len() - rest@.len()),
                self.fed() == old(self).fed() + bytes@.take(bytes@.len() - rest@.len()),
                old(self).decoded().is_prefix_of(self.decoded()),
                self.decoded().len() >= old(self).decoded().len() + stalls,
                self.inner().unparsed() == old(self).inner().unparsed() + self.decoded().skip(
                    old(self).decoded().len() as int,
                ),
                self.inner().version() == old(self).inner().version(),
                self.inner().ended() == old(self).inner().ended(),
                inflate_agrees(self.fed(), self.decoded()),
                bytes@.len() == 0 ==> self.inner() == old(self).inner() && self.decoded() == old(self).decoded(),
            decreases rest@.len(), u32::MAX - stalls,
        {
            let ghost before = *self;
            let ghost consumed = bytes@.len() - rest@.len();
            match self.decoder.update(rest) {
                None => {
                    proof {
                        assert(old(self).fed() + bytes@.take(consumed) + rest@ =~= old(self).fed() + bytes@);
                    }
                    return Err(());
                },
                Some((read, chunk)) => {
                    self.simple.write(chunk.as_slice());
                    proof {
                        let out = before.decoded().skip(old(self).decoded().len() as int);
                        assert(self.decoded().skip(old(self).decoded().len() as int) =~= out + chunk@);
                        assert(old(self).inner().unparsed() + out + chunk@
                            =~= old(self).inner().unparsed() + (out + chunk@));
                        assert(bytes@.take(consumed) + rest@.take(read as int)
                            =~= bytes@.take(consumed + read));
                    }
                    if read == 0 {
                        if stalls == u32::MAX {
                            proof {
                                assert(self.fed().len() < old(self).fed().len() + bytes@.len());
                            }
                            return Err(());
                        }
                        stalls = stalls + 1;
                    } else {
                        stalls = 0;
                    }
                    let next: &[u8] = slice_subrange(rest, read, rest.len());
                    proof {
                        assert(next@ =~= bytes@.skip(bytes@.len() - next@.len()));
                    }
                    rest = next;
                },
            }
        }
        proof {
            assert(bytes@.take(bytes@.len() as int) =~= bytes@);
        }
        Ok(())
    }

    /// Reads the movie header from the decompressed payload.
    pub fn header(self) -> (r: Result<(Header, Self), Self>)
        ensures
            match (r, spec_header(self.inner().unparsed(), self.inner().version())) {
                (Ok((h, s)), Ok((sh, rest))) => h == sh && s.inner().unparsed() == rest
                    && s.inner().version() == self.inner().version()
                    && s.inner().ended() == self.inner().ended()
                    && s.decoder() == self.decoder() && s.fed() == self.fed()
                    && s.decoded() == self.decoded(),
                (Err(s), Err(_)) => s == self,
                _ => false,
            },
    {
        let DeflateStream { decoder, simple } = self;
        match simple.header() {
            Ok((header, simple)) => Ok((header, DeflateStream { decoder, simple })),
            Err(simple) => Err(DeflateStream { decoder, simple }),
        }
    }

    /// Parses the tags available in the decompressed payload.
    pub fn tags(&mut self) -> (r: Result<Option<Vec<Tag>>, ParseTagsError>)
        ensures
            final(self).inner().version() == old(self).inner().version(),
            final(self).decoder() == old(self).decoder(),
            final(self).fed() == old(self).fed(),
            final(self).decoded() == old(self).decoded(),
            old(self).inner().ended() ==> (r matches Ok(None))
                && final(self).inner().unparsed() == old(self).inner().unparsed() && final(self).inner().ended(),
            !old(self).inner().ended() ==> {
                let (ts, left, end) = spec_stream_tags(
                    old(self).inner().unparsed(),
                    old(self).inner().version(),
                );
                &&& final(self).inner().unparsed() == left
                &&& final(self).inner().ended() == end
                &&& match r {
                    Ok(Some(v)) => ts.len() > 0 && v.deep_view() == ts,
                    Ok(None) => ts.len() == 0 && end,
                    Err(_) => ts.len() == 0 && !end,
                }
            },
    {
        self.simple.tags()
    }

    /// Whether the `End` tag was read.
    pub fn is_ended(&self) -> (r: bool)
        ensures
            r == self.inner().ended(),
    {
        self.simple.is_end
    }
}

/// Stage of a `HeaderParser`: still reading the 8-byte signature (the bytes so far), or
/// reading the movie header from an uncompressed or a zlib-compressed payload (the
/// payload bytes not parsed yet; for the latter also the compressed bytes that the
/// decoder has read, what it has output, and whether it has refused its input).
pub enum HeaderStage {
    Signature(Seq<u8>),
    Uncompressed { unparsed: Seq<u8>, swf_version: u8 },
    Deflate { unparsed: Seq<u8>, swf_version: u8, fed: Seq<u8>, decoded: Seq<u8>, failed: bool },
}

enum InnerHeaderParser {
    /// Still reading the signature.
    Signature(Vec<u8>),
    /// Reading the header of an uncompressed payload.
    Simple(SimpleStream<FlatBuffer>),
    /// Reading the header of a zlib-compressed payload.
    Deflate(DeflateStream<FlatBuffer>),
}

/// Streaming parser that reads the SWF signature and the movie header.
pub struct HeaderParser(InnerHeaderParser);

/// Streaming parser that reads the tags, once the header is read.
pub struct TagParser(InnerTagParser);

enum InnerTagParser {
    /// Tags of an uncompressed payload.
    Simple(SimpleStream<FlatBuffer>),
    /// Tags of a zlib-compressed payload.
    Deflate(DeflateStream<FlatBuffer>),
}

impl TagParser {
    /// The parser of the (decompressed) payload.
    pub closed spec fn stream(&self) -> SimpleStream<FlatBuffer> {
        match self.0 {
            InnerTagParser::Simple(s) => s,
            InnerTagParser::Deflate(d) => d.inner(),
        }
    }

    /// Whether the payload is zlib-compressed.
    pub closed spec fn is_deflate(&self) -> bool {
        self.0 is Deflate
    }

    /// For a zlib-compressed payload, the compressed bytes that the decoder has read.
    pub closed spec fn fed(&self) -> Seq<u8> {
        match self.0 {
            InnerTagParser::Simple(_) => Seq::empty(),
            InnerTagParser::Deflate(d) => d.fed(),
        }
    }

    /// For a zlib-compressed payload, what the decoder has output.
    pub closed spec fn decoded(&self) -> Seq<u8> {
        match self.0 {
            InnerTagParser::Simple(_) => Seq::empty(),
            InnerTagParser::Deflate(d) => d.decoded(),
        }
    }

    /// For a zlib-compressed payload, whether the decoder has refused its input.
    pub closed spec fn failed(&self) -> bool {
        match self.0 {
            InnerTagParser::Simple(_) => false,
            InnerTagParser::Deflate(d) => d.failed(),
        }
    }

    /// Appends the bytes to the internal buffer and parses the tags that are complete.
    /// Returns `Ok(None)` once the movie is parsed.
    ///
    /// For a zlib-compressed payload the bytes go through the decoder first: the tags
    /// are then read from what was left followed by the decoder's output, provided the
    /// decoder read all the bytes; otherwise (it refused them, and then zlib
    /// decompression refuses any input that starts with the bytes fed so far followed
    /// by these; or it read nothing `u32::MAX` times in a row while outputting) the
    /// result is an error and the output is kept for later. All the decoder has output
    /// agrees with zlib decompression of all it has read.
    pub fn tags(&mut self, bytes: &[u8]) -> (r: Result<Option<Vec<Tag>>, ParseTagsError>)
        ensures
            final(self).stream().version() == old(self).stream().version(),
            final(self).is_deflate() == old(self).is_deflate(),
            r matches Ok(Some(v)) ==> v@.len() > 0,
            (r matches Ok(None)) ==> final(self).stream().ended(),
            old(self).stream().ended() ==> (r matches Ok(None)) && final(self).stream().ended(),
            old(self).is_deflate() && old(self).stream().ended() ==> *final(self) == *old(self),
            !old(self).is_deflate() && !old(self).stream().ended() ==> {
                let (ts, left, end) = spec_stream_tags(
                    old(self).stream().unparsed() + bytes@,
                    old(self).stream().version(),
                );
                &&& final(self).stream().unparsed() == left
                &&& final(self).stream().ended() == end
                &&& match r {
                    Ok(Some(v)) => v.deep_view() == ts,
                    Ok(None) => ts.len() == 0 && end,
                    Err(_) => ts.len() == 0 && !end,
                }
            },
            old(self).is_deflate() ==> inflate_agrees(final(self).fed(), final(self).decoded()),
            old(self).is_deflate() && !old(self).stream().ended() ==> {
                let out = final(self).decoded().skip(old(self).decoded().len() as int);
                &&& !old(self).failed() && final(self).failed() ==> inflate_refuses(old(self).fed() + bytes@)
                &&& old(self).decoded().is_prefix_of(final(self).decoded())
                &&& final(self).fed().len() <= old(self).fed().len() + bytes@.len()
                &&& final(self).fed() == old(self).fed() + bytes@.take(
                    final(self).fed().len() - old(self).fed().len(),
                )
                &&& old(self).failed() ==> final(self).failed() && final(self).fed() == old(self).fed()
                    && final(self).decoded() == old(self).decoded()
                &&& if !final(self).failed() && final(self).fed() == old(self).fed() + bytes@ {
                    let (ts, left, end) = spec_stream_tags(
                        old(self).stream().unparsed() + out,
                        old(self).stream().version(),
                    );
                    &&& final(self).stream().unparsed() == left
                    &&& final(self).stream().ended() == end
                    &&& match r {
                        Ok(Some(v)) => v.deep_view() == ts,
                        Ok(None) => ts.len() == 0 && end,
                        Err(_) => ts.len() == 0 && !end,
                    }
                } else {
                    &&& r is Err
                    &&& final(self).failed() || final(self).decoded().len() >= old(self).decoded().len()
                        + u32::MAX
                    &&& final(self).stream().unparsed() == old(self).stream().unparsed() + out
                    &&& !final(self).stream().ended()
                }
            },
    {
        match &mut self.0 {
            InnerTagParser::Simple(stream) => {
                stream.write(bytes);
                stream.tags()
            },
            InnerTagParser::Deflate(stream) => {
                proof {
                    use_type_invariant(&stream.decoder);
                }
                if stream.is_ended() {
                    return Ok(None);
                }
                match stream.write(bytes) {
                    Ok(()) => stream.tags(),
                    Err(()) => Err(ParseTagsError),
                }
            },
        }
    }
}

/// Result of reading the header of an uncompressed payload made of `data`.
pub open spec fn simple_header_result(
    r: Result<(Header, TagParser), (HeaderParser, HeaderParserError)>,
    data: Seq<u8>,
    swf_version: u8,
) -> bool {
    match spec_header(data, swf_version) {
        Ok((h, left)) => r matches Ok((rh, p)) && rh == h && !p.is_deflate()
            && p.stream().unparsed() == left && p.stream().version() == swf_version
            && !p.stream().ended(),
        Err(_) => r matches Err((p, e)) && e == HeaderParserError::Other && p.stage()
            == HeaderStage::Uncompressed { unparsed: data, swf_version },
    }
}

/// Result of feeding `bytes` to a zlib-compressed payload whose decoder has read `fed`
/// and output `decoded`, with `unparsed` not parsed yet, and then reading the header.
/// The decoder's output for `bytes` is what the parser handed back holds beyond
/// `decoded`: the header is read when the decoder read all of `bytes` and the header is
/// complete in `unparsed` followed by that output. The decoder reads less only when it
/// refuses the data (then zlib decompression refuses any input that starts with what
/// it had read followed by `bytes`) or, outputting all along, reads nothing `u32::MAX`
/// times in a row. All it has output agrees with zlib decompression of all it has read.
pub open spec fn deflate_header_result(
    r: Result<(Header, TagParser), (HeaderParser, HeaderParserError)>,
    unparsed: Seq<u8>,
    swf_version: u8,
    fed: Seq<u8>,
    decoded: Seq<u8>,
    failed: bool,
    bytes: Seq<u8>,
) -> bool {
    match r {
        Ok((h, p)) => {
            let out = p.decoded().skip(decoded.len() as int);
            &&& !failed
            &&& p.is_deflate()
            &&& !p.failed()
            &&& p.fed() == fed + bytes
            &&& decoded.is_prefix_of(p.decoded())
            &&& spec_header(unparsed + out, swf_version) matches Ok((sh, left))
                && sh == h && left == p.stream().unparsed()
            &&& p.stream().version() == swf_version
            &&& !p.stream().ended()
            &&& inflate_agrees(p.fed(), p.decoded())
        },
        Err((p, e)) => e == HeaderParserError::Other && match p.stage() {
            HeaderStage::Deflate { unparsed: u2, swf_version: v2, fed: f2, decoded: d2, failed: x2 } => {
                &&& v2 == swf_version
                &&& decoded.is_prefix_of(d2)
                &&& u2 == unparsed + d2.skip(decoded.len() as int)
                &&& f2.len() <= fed.len() + bytes.len()
                &&& f2 == fed + bytes.take(f2.len() - fed.len())
                &&& failed ==> x2 && f2 == fed && d2 == decoded
                &&& !x2 && f2 == fed + bytes ==> spec_header(u2, swf_version) is Err
                &&& x2 || f2 == fed + bytes || d2.len() >= decoded.len() + u32::MAX
                &&& !failed && x2 ==> inflate_refuses(fed + bytes)
                &&& inflate_agrees(f2, d2)
            },
            _ => false,
        },
    }
}

impl HeaderParser {
    #[verifier::type_invariant]
    spec fn streams_not_ended(self) -> bool {
        match self.0 {
            InnerHeaderParser::Simple(s) => !s.ended(),
            InnerHeaderParser::Deflate(d) => !d.inner().ended(),
            InnerHeaderParser::Signature(_) => true,
        }
    }

    pub closed spec fn stage(&self) -> HeaderStage {
        match self.0 {
            InnerHeaderParser::Signature(buffer) => HeaderStage::Signature(buffer@),
            InnerHeaderParser::Simple(s) => HeaderStage::Uncompressed {
                unparsed: s.unparsed(),
                swf_version: s.version(),
            },
            InnerHeaderParser::Deflate(d) => HeaderStage::Deflate {
                unparsed: d.inner().unparsed(),
                swf_version: d.inner().version(),
                fed: d.fed(),
                decoded: d.decoded(),
                failed: d.failed(),
            },
        }
    }

    /// A parser that has read nothing yet.
    pub fn new() -> (r: Self)
        ensures
            r.stage() == HeaderStage::Signature(Seq::empty()),
    {
        HeaderParser(InnerHeaderParser::Signature(Vec::new()))
    }

    /// Appends the bytes to the internal buffer and tries to read the movie header.
    ///
    /// While the data is not enough, returns the parser to go on with and
    /// `HeaderParserError::Other`. Once the header is read, returns it and the parser
    /// of the tags. LZMA-compressed payloads are not supported here.
    pub fn header(self, bytes: &[u8]) -> (r: Result<(Header, TagParser), (Self, HeaderParserError)>)
        ensures
            header_outcome(self, bytes@, r),
    {
        proof {
            use_type_invariant(&self);
        }
        match self.0 {
            InnerHeaderParser::Signature(buffer) => {
                let mut buffer = buffer;
                let ghost before = buffer@;
                buffer.extend_from_slice(bytes);
                proof {
                    assert(buffer@ =~= before + bytes@);
                }
                Self::parser_from_signature(buffer)
            },
            InnerHeaderParser::Simple(stream) => Self::simple_header(stream, bytes),
            InnerHeaderParser::Deflate(stream) => Self::deflate_header(stream, bytes),
        }
    }

    /// Reads the signature from the bytes so far, then the header from the rest.
    fn parser_from_signature(buffer: Vec<u8>) -> (r: Result<(Header, TagParser), (Self, HeaderParserError)>)
        ensures
            signature_result(r, buffer@),
    {
        match parse_swf_signature(buffer.as_slice()) {
            Err(_) => Err((HeaderParser(InnerHeaderParser::Signature(buffer)), HeaderParserError::Other)),
            Ok((rest, signature)) => match signature.compression_method {
                CompressionMethod::Uncompressed => {
                    let stream = SimpleStream::new(FlatBuffer::new(), signature);
                    proof {
                        assert(stream.unparsed() + rest@ =~= rest@);
                    }
                    Self::simple_header(stream, rest)
                },
                CompressionMethod::Deflate => match DeflateStream::new(FlatBuffer::new(), signature) {
                    Some(stream) => Self::deflate_header(stream, rest),
                    None => Err(
                        (HeaderParser(InnerHeaderParser::Signature(buffer)), HeaderParserError::Other),
                    ),
                },
                CompressionMethod::Lzma => Err(
                    (
                        HeaderParser(InnerHeaderParser::Signature(buffer)),
                        HeaderParserError::MissingFeature("lzma"),
                    ),
                ),
            },
        }
    }

    /// Finishes reading the header of an uncompressed payload.
    fn simple_header(stream: SimpleStream<FlatBuffer>, bytes: &[u8])
        -> (r: Result<(Header, TagParser), (Self, HeaderParserError)>)
        requires
            !stream.ended(),
        ensures
            simple_header_result(r, stream.unparsed() + bytes@, stream.version()),
    {
        let mut stream = stream;
        stream.write(bytes);
        match stream.header() {
            Ok((header, stream)) => Ok((header, TagParser(InnerTagParser::Simple(stream)))),
            Err(stream) => Err((HeaderParser(InnerHeaderParser::Simple(stream)), HeaderParserError::Other)),
        }
    }

    /// Finishes reading the header of a zlib-compressed payload.
    fn deflate_header(stream: DeflateStream<FlatBuffer>, bytes: &[u8])
        -> (r: Result<(Header, TagParser), (Self, HeaderParserError)>)
        requires
            !stream.inner().ended(),
        ensures
            deflate_header_result(
                r,
                stream.inner().unparsed(),
                stream.inner().version(),
                stream.fed(),
                stream.decoded(),
                stream.failed(),
                bytes@,
            ),
    {
        let mut stream = stream;
        match stream.write(bytes) {
            Err(()) => Err((HeaderParser(InnerHeaderParser::Deflate(stream)), HeaderParserError::Other)),
            Ok(()) => match stream.header() {
                Ok((header, stream)) => Ok((header, TagParser(InnerTagParser::Deflate(stream)))),
                Err(stream) => Err((HeaderParser(InnerHeaderParser::Deflate(stream)), HeaderParserError::Other)),
            },
        }
    }
}

/// What `HeaderParser::header` gives when `bytes` are fed to the parser `p`.
pub open spec fn header_outcome(
    p: HeaderParser,
    bytes: Seq<u8>,
    r: Result<(Header, TagParser), (HeaderParser, HeaderParserError)>,
) -> bool {
    match p.stage() {
        HeaderStage::Signature(buffer) => signature_result(r, buffer + bytes),
        HeaderStage::Uncompressed { unparsed, swf_version } => simple_header_result(
            r,
            unparsed + bytes,
            swf_version,
        ),
        HeaderStage::Deflate { unparsed, swf_version, fed, decoded, failed } => deflate_header_result(
            r,
            unparsed,
            swf_version,
            fed,
            decoded,
            failed,
            bytes,
        ),
    }
}

/// How the input is split does not change what the header parser reads: when a parser
/// that has read nothing yet asked for more data after `a` and handed back `p`,
/// feeding `b` to `p` gives what feeding `a` followed by `b` to that fresh parser
/// gives. For a zlib-compressed payload this holds unless the first call gave up on a
/// decoder that read nothing `u32::MAX` times in a row before reaching the end of `a`
/// (the bytes it had not read are then dropped).
pub proof fn lemma_header_split(
    fresh: HeaderParser,
    a: Seq<u8>,
    b: Seq<u8>,
    p: HeaderParser,
    r: Result<(Header, TagParser), (HeaderParser, HeaderParserError)>,
)
    requires
        fresh.stage() == HeaderStage::Signature(Seq::empty()),
        header_outcome(fresh, a, Err((p, HeaderParserError::Other))),
        p.stage() matches HeaderStage::Deflate { fed, failed, .. } ==> failed || fed
            == spec_swf_signature(a)->Ok_0.1,
        header_outcome(p, b, r),
    ensures
        header_outcome(fresh, a + b, r),
{
    let e = Seq::<u8>::empty();
    assert(e + a =~= a);
    assert(e + (a + b) =~= a + b);
    lemma_swf_signature_extend(a, b);
    if let Ok((signature, rest)) = spec_swf_signature(a) {
        if signature.compression_method == CompressionMethod::Deflate {
            if let HeaderStage::Deflate { unparsed, swf_version, fed, decoded, failed } = p.stage() {
                assert(e + decoded.skip(0) =~= decoded);
                assert(e + rest =~= rest);
                lemma_deflate_header_split(rest, b, swf_version, fed, decoded, failed, r);
            }
        }
    }
}

/// The zlib-compressed case of `lemma_header_split`, from the signature on: the first
/// call fed a prefix `fed` of the payload `rest` (all of it unless the decoder refused
/// it) and handed back the header not read from the output `decoded`.
proof fn lemma_deflate_header_split(
    rest: Seq<u8>,
    b: Seq<u8>,
    v: u8,
    fed: Seq<u8>,
    decoded: Seq<u8>,
    failed: bool,
    r: Result<(Header, TagParser), (HeaderParser, HeaderParserError)>,
)
    requires
        fed.len() <= rest.len(),
        fed == rest.take(fed.len() as int),
        failed || fed == rest,
        failed ==> inflate_refuses(rest),
        deflate_header_result(r, decoded, v, fed, decoded, failed, b),
    ensures
        deflate_header_result(r, Seq::empty(), v, Seq::empty(), Seq::empty(), false, rest + b),
{
    let e = Seq::<u8>::empty();
    assert(e + (rest + b) =~= rest + b);
    match r {
        Ok((h, q)) => {
            assert(q.fed() =~= e + (rest + b));
            assert(decoded + q.decoded().skip(decoded.len() as int) =~= e + q.decoded().skip(0));
        },
        Err((q, err)) => {
            if let HeaderStage::Deflate { unparsed: u2, swf_version: v2, fed: f2, decoded: d2, failed: x2 } = q.stage() {
                assert(decoded + d2.skip(decoded.len() as int) =~= e + d2.skip(0));
                assert(rest.take(fed.len() as int) =~= (rest + b).take(fed.len() as int));
                if !failed {
                    assert(f2 =~= e + (rest + b).take(f2.len() - e.len()));
                    if x2 {
                        assert(fed + b =~= e + (rest + b));
                    }
                } else {
                    assert(f2 =~= e + (rest + b).take(f2.len() - e.len()));
                    lemma_inflate_refuses_extend(rest, b);
                }
            }
        },
    }
}

/// The header that the streaming parser reads is the header of the whole file: when a
/// parser that has read nothing yet reads the header `h` from the bytes `a`, every file
/// that starts with `a` and parses as a whole (`spec_swf`, what `parse_swf` gives) has
/// the header `h`. For a zlib-compressed payload this rests on the decoder's output
/// agreeing with zlib decompression.
pub proof fn lemma_streamed_header_is_file_header(
    fresh: HeaderParser,
    a: Seq<u8>,
    s: Seq<u8>,
    h: Header,
    q: TagParser,
)
    requires
        fresh.stage() == HeaderStage::Signature(Seq::empty()),
        header_outcome(fresh, a, Ok((h, q))),
        spec_swf(a + s) is Ok,
    ensures
        spec_swf(a + s)->Ok_0.header == h,
{
    let e = Seq::<u8>::empty();
    assert(e + a =~= a);
    lemma_swf_signature_extend(a, s);
    if let Ok((signature, rest)) = spec_swf_signature(a) {
        let v = signature.swf_version;
        if signature.compression_method == CompressionMethod::Uncompressed {
            lemma_header_extend(rest, s, v);
        } else if signature.compression_method == CompressionMethod::Deflate {
            assert(e + q.decoded().skip(0) =~= q.decoded());
            assert(q.fed() =~= rest);
            lemma_inflated_header(rest, s, v, h, q.decoded());
        }
    }
}

/// The zlib-compressed case of `lemma_streamed_header_is_file_header`: a header read
/// from output `d` that agrees with zlib decompression of `fed` is read from the whole
/// decompressed payload of any input that starts with `fed` and decompresses.
proof fn lemma_inflated_header(fed: Seq<u8>, s: Seq<u8>, v: u8, h: Header, d: Seq<u8>)
    requires
        spec_header(d, v) matches Ok((h2, _)) && h2 == h,
        inflate_agrees(fed, d),
    ensures
        zlib_inflate(fed + s) matches Some(o) ==> (spec_header(o, v) matches Ok((h3, _)) && h3 == h),
{
    if let Some(o) = zlib_inflate(fed + s) {
        assert(d.is_prefix_of(o));
        assert(o =~= d + o.skip(d.len() as int));
        lemma_header_extend(d, o.skip(d.len() as int), v);
    }
}

/// Result of reading the signature and then the header from `all`, the bytes received
/// so far.
pub open spec fn signature_result(
    r: Result<(Header, TagParser), (HeaderParser, HeaderParserError)>,
    all: Seq<u8>,
) -> bool {
    match spec_swf_signature(all) {
        Err(_) => r matches Err((p, e)) && e == HeaderParserError::Other
            && p.stage() == HeaderStage::Signature(all),
        Ok((signature, rest)) => match signature.compression_method {
            CompressionMethod::Uncompressed => simple_header_result(r, rest, signature.swf_version),
            CompressionMethod::Deflate => deflate_header_result(
                r,
                Seq::empty(),
                signature.swf_version,
                Seq::empty(),
                Seq::empty(),
                false,
                rest,
            ),
            CompressionMethod::Lzma => r matches Err((p, e)) && e is MissingFeature
                && p.stage() == HeaderStage::Signature(all),
        },
    }
}

} // verus!
