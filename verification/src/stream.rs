//! The life cycle of a capture channel: negotiate a format, open, wait for
//! frames, fetch them, close.
//!
//! A stream is open from the moment the engine hands out a channel for it
//! until it is closed, and closed for good after that. The functions here
//! decide; the caller carries the questions to the engine and the answers
//! back.

use vstd::prelude::*;
use crate::device::Device;
use crate::engine::{succeeded, FRAME_READY, INVALID_STREAM, RESULT_OK};
use crate::format::Format;
use crate::matching::{best_fit, best_match, lemma_best_fit_deterministic, same_request};

verus! {

/// What to ask the engine for in order to open a channel: the device, the
/// position of the chosen format in the device's format list, and the format
/// that the stream will then deliver.
#[derive(Debug, Copy, Clone)]
pub struct OpenRequest {
    pub device: u32,
    pub slot: usize,
    pub format: Format,
}

/// The engine reported a failure when asked to copy a frame.
#[derive(Debug, Copy, Clone, PartialEq, Eq, Structural)]
pub struct CaptureError {
    /// The status code that the engine returned
    pub status: u32,
}

/// A stream as contracts see it.
pub struct StreamView {
    /// The channel id that the engine issued
    pub id: i32,
    /// The negotiated format
    pub format: Format,
    /// Whether the channel is still held
    pub open: bool,
}

/// The state after a close: the same channel and format, not open.
pub open spec fn closed(stream: StreamView) -> StreamView {
    StreamView { open: false, ..stream }
}

/// The channel that a close gives back to the engine: the stream's own
/// where it is open, none where it was closed before.
pub open spec fn released(stream: StreamView) -> Option<i32> {
    if stream.open {
        Some(stream.id)
    } else {
        None
    }
}

/// However often a stream is closed, its channel is released once: the
/// first close of an open stream releases it, and every close after that
/// releases nothing and changes nothing.
pub proof fn lemma_single_release(stream: StreamView)
    ensures
        stream.open ==> released(stream) == Some(stream.id),
        released(closed(stream)) is None,
        closed(closed(stream)) == closed(stream),
{
}

/// The request that a negotiation ends in: nothing for a device without
/// formats, else the best fit with its bits per pixel resolved.
pub open spec fn negotiated(device: u32, desired: Format, formats: Seq<Format>) -> Option<
    OpenRequest,
> {
    if formats.len() == 0 {
        None
    } else {
        let fit = best_fit(formats, desired);
        Some(OpenRequest { device, slot: fit.0 as usize, format: fit.1.resolved() })
    }
}

/// The stream that comes of the engine's answer to a request: none for the
/// "invalid channel" value, else an open stream on that channel with the
/// format of the request.
pub open spec fn opened(format: Format, channel: i32) -> Option<StreamView> {
    if channel == INVALID_STREAM {
        None
    } else {
        Some(StreamView { id: channel, format, open: true })
    }
}

/// Opening is reproducible. Two negotiations for one device, over lists that
/// hold the same formats at the same positions and with requests that ask
/// for the same, end in the same request to the engine: the same slot and
/// the same format. The streams that come of it deliver that one format,
/// whichever valid channels the engine hands out.
pub proof fn lemma_open_is_reproducible(
    device: u32,
    formats_a: Seq<Format>,
    formats_b: Seq<Format>,
    desired_a: Format,
    desired_b: Format,
    channel_a: i32,
    channel_b: i32,
)
    requires
        formats_a.len() == formats_b.len(),
        forall|i: int| 0 <= i < formats_a.len() ==> formats_a[i] == formats_b[i],
        same_request(desired_a, desired_b),
        channel_a != INVALID_STREAM,
        channel_b != INVALID_STREAM,
    ensures
        negotiated(device, desired_a, formats_a) == negotiated(device, desired_b, formats_b),
        ({
            let request = negotiated(device, desired_a, formats_a);
            request is Some ==> {
                let first = opened(request->0.format, channel_a);
                let second = opened(request->0.format, channel_b);
                &&& first is Some
                &&& second is Some
                &&& first->0.format == request->0.format
                &&& second->0.format == request->0.format
                &&& first->0.open
                &&& second->0.open
            }
        }),
{
    lemma_best_fit_deterministic(formats_a, formats_b, desired_a, desired_b);
}

/// The zero-filled or cut buffer that holds exactly `len` bytes: `buf`
/// itself where it has that length, its first `len` bytes where it is
/// longer, and `buf` followed by zeros where it is shorter.
pub open spec fn fitted(buf: Seq<u8>, len: int) -> Seq<u8>
    recommends
        0 <= len,
{
    Seq::new(
        len as nat,
        |i: int|
            if i < buf.len() {
                buf[i]
            } else {
                0u8
            },
    )
}

/// Capture stream.
#[derive(Debug)]
pub struct Stream {
    /// Unique identifier
    id: i32,
    /// Format
    format: Format,
    /// Whether the channel is still held
    open: bool,
}

impl View for Stream {
    type V = StreamView;

    closed spec fn view(&self) -> StreamView {
        StreamView { id: self.id, format: self.format, open: self.open }
    }
}

impl Stream {
    /// No stream is ever built around the engine's "invalid channel" value.
    #[verifier::type_invariant]
    closed spec fn holds_valid_channel(&self) -> bool {
        self.id != INVALID_STREAM
    }

    /// Picks the format to open `dev` with, given the formats that the
    /// device supports, and says what to ask the engine for.
    ///
    /// A device without formats cannot be opened. Otherwise the best fit for
    /// `desired` is chosen, and where its bits per pixel are not set they
    /// become the size of one decoded frame.
    pub fn negotiate(dev: &Device, desired: &Format, formats: &Vec<Format>) -> (request: Option<
        OpenRequest,
    >)
        requires
            formats.len() > 0 && best_fit(formats@, *desired).1.bpp == 0 ==> best_fit(
                formats@,
                *desired,
            ).1.frame_bytes() <= u32::MAX,
        ensures
            request == negotiated(dev.index, *desired, formats@),
            request is None <==> formats.len() == 0,
            request matches Some(r) ==> r.slot < formats.len(),
    {
        if formats.len() == 0 {
            return None;
        }
        let (slot, mut format) = best_match(formats, desired);
        // fill in the bpp if necessary
        if format.bpp == 0 {
            assert(format.height * format.width * 3 == format.frame_bytes());
            assert(format.height * format.width <= format.frame_bytes()) by (nonlinear_arith)
                requires
                    format.frame_bytes() == format.height * format.width * 3,
            ;
            format.bpp = format.height * format.width * 3;
        }
        Some(OpenRequest { device: dev.index, slot, format })
    }

    /// Returns a stream instance for the channel that the engine issued in
    /// answer to `request`, or nothing where the engine answered with its
    /// "invalid channel" value.
    pub fn new(request: &OpenRequest, channel: i32) -> (stream: Option<Stream>)
        ensures
            stream is None <==> channel == INVALID_STREAM,
            stream matches Some(s) ==> Some(s@) == opened(request.format, channel),
    {
        if channel == INVALID_STREAM {
            None
        } else {
            Some(Stream { id: channel, format: request.format, open: true })
        }
    }

    /// Returns the format in use
    pub fn format(&self) -> (format: Format)
        ensures
            format == self@.format,
    {
        self.format
    }

    /// Whether the stream still holds its channel.
    pub fn is_open(&self) -> (open: bool)
        ensures
            open == self@.open,
    {
        self.open
    }

    /// The channel to name in calls to the engine: the stream's own while it
    /// is open, none once it is closed. It is never the engine's "invalid
    /// channel" value.
    pub fn channel(&self) -> (channel: Option<i32>)
        ensures
            channel == released(self@),
            channel != Some(INVALID_STREAM),
    {
        proof {
            use_type_invariant(self);
        }
        if self.open {
            Some(self.id)
        } else {
            None
        }
    }

    /// Returns true when a new frame is available, given the engine's answer
    /// to that question for this stream's channel.
    pub fn poll(&self, answer: u32) -> (ready: bool)
        ensures
            ready == (answer == FRAME_READY),
    {
        answer == FRAME_READY
    }

    /// One round of waiting for a new frame, given the engine's latest
    /// answer: returns whether the wait is over. While it is not, the caller
    /// asks the engine again at once and calls this again; the stream itself
    /// stays as it is.
    pub fn advance(&mut self, answer: u32) -> (done: bool)
        ensures
            *final(self) == *old(self),
            done == (answer == FRAME_READY),
    {
        self.poll(answer)
    }

    /// Makes `buf` exactly one frame long before the engine copies into it,
    /// and returns that length: a buffer of the right length is left alone, a
    /// longer one is cut, a shorter one is filled up with zeros.
    pub fn fit_buffer(&self, buf: &mut Vec<u8>) -> (len: u32)
        requires
            self@.format.frame_bytes() <= u32::MAX,
        ensures
            len == self@.format.frame_bytes(),
            final(buf)@.len() == len,
            final(buf)@ == fitted(old(buf)@, len as int),
    {
        let len: u32 = self.frame_len();
        let frame_len: usize = len as usize;
        if buf.len() != frame_len {
            buf.resize(frame_len, 0);
        }
        assert(buf@ =~= fitted(old(buf)@, len as int));
        len
    }

    /// Says how a capture went, given the status code that the engine
    /// returned for it: success for the one code that means so, else the
    /// failure with that code.
    pub fn read(&self, status: u32) -> (outcome: Result<(), CaptureError>)
        ensures
            status == RESULT_OK ==> outcome == Ok::<(), CaptureError>(()),
            status != RESULT_OK ==> outcome == Err::<(), CaptureError>(CaptureError { status }),
    {
        if succeeded(status) {
            Ok(())
        } else {
            Err(CaptureError { status })
        }
    }

    /// Closes the stream and returns the channel to release, if the stream
    /// still held one. Closing a closed stream releases nothing.
    pub fn close(&mut self) -> (channel: Option<i32>)
        ensures
            channel == released(old(self)@),
            final(self)@ == closed(old(self)@),
    {
        let channel = self.channel();
        proof {
            use_type_invariant(&*self);
        }
        self.open = false;
        channel
    }

    fn frame_len(&self) -> (len: u32)
        requires
            self@.format.frame_bytes() <= u32::MAX,
        ensures
            len == self@.format.frame_bytes(),
    {
        assert(self.format.height * self.format.width <= self.format.frame_bytes())
            by (nonlinear_arith)
            requires
                self.format.frame_bytes() == self.format.height * self.format.width * 3,
        ;
        self.format.height * self.format.width * 3
    }
}

} // verus!
