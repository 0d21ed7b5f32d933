//! The decisions of the newline-delimited JSON-RPC transport to a
//! subprocess: frame limits, reading one bounded line out of buffered
//! chunks, telling responses from requests, and turning a response's error
//! member into an error.

use vstd::prelude::*;

use crate::decimal::{decimal_signed, i64_to_decimal};
use crate::json_value::{
    decode_frame, get, get_member, json_decoded, opt_json_view, take_member, JsonValue, JsonView,
};

verus! {

/// Capacity of the bounded write channel.
pub const WRITE_CHANNEL_CAPACITY: usize = 64;

/// The largest newline-delimited frame sent or accepted, in bytes.
pub const MAX_JSON_RPC_MESSAGE_BYTES: usize = 64 * 1024 * 1024;

/// Options of the transport.
#[derive(Debug, Clone, Copy, PartialEq, Eq, Structural)]
pub struct StdioTransportOptions {
    /// Whether outgoing messages carry the `"jsonrpc": "2.0"` member.
    pub include_jsonrpc_version: bool,
}

impl Default for StdioTransportOptions {
    fn default() -> (o: Self)
        ensures
            o.include_jsonrpc_version,
    {
        StdioTransportOptions { include_jsonrpc_version: true }
    }
}

impl StdioTransportOptions {
    /// Whether the `jsonrpc` member is removed from outgoing messages.
    pub fn strips_jsonrpc_field(&self) -> (r: bool)
        ensures
            r == !self.include_jsonrpc_version,
    {
        !self.include_jsonrpc_version
    }
}

/// Why an outgoing message was not queued.
#[derive(Debug, Clone, Copy, PartialEq, Eq, Structural)]
pub enum SendError {
    /// The serialized frame is larger than the limit.
    FrameTooLarge,
    /// The write channel is full.
    ChannelFull,
    /// The writer has stopped.
    WriterClosed,
}

pub open spec fn send_error_text(e: SendError) -> Seq<char> {
    match e {
        SendError::FrameTooLarge => "stdio transport JSON-RPC frame exceeds 67108864 byte limit"@,
        SendError::ChannelFull => "stdio transport write channel full; subprocess may be slow"@,
        SendError::WriterClosed => "stdio transport writer channel closed"@,
    }
}

impl SendError {
    pub fn message(&self) -> (s: &'static str)
        ensures
            s@ == send_error_text(*self),
    {
        match self {
            SendError::FrameTooLarge => "stdio transport JSON-RPC frame exceeds 67108864 byte limit",
            SendError::ChannelFull => "stdio transport write channel full; subprocess may be slow",
            SendError::WriterClosed => "stdio transport writer channel closed",
        }
    }
}

/// Refuses a serialized frame of `len` bytes above the limit.
pub fn check_frame_len(len: usize) -> (r: Result<(), SendError>)
    ensures
        r is Ok <==> len <= MAX_JSON_RPC_MESSAGE_BYTES,
        r matches Err(e) ==> e == SendError::FrameTooLarge,
{
    if len > MAX_JSON_RPC_MESSAGE_BYTES {
        Err(SendError::FrameTooLarge)
    } else {
        Ok(())
    }
}

/// The index of the first newline byte of `b`.
pub open spec fn newline_index(b: Seq<u8>) -> Option<int> {
    if exists|i: int| 0 <= i < b.len() && b[i] == 10u8 {
        Some(
            choose|i: int|
                0 <= i < b.len() && b[i] == 10u8 && forall|j: int| 0 <= j < i ==> #[trigger] b[j] != 10u8,
        )
    } else {
        None
    }
}

/// The line content a chunk contributes: up to its first newline, or all of it.
pub open spec fn chunk_content(b: Seq<u8>) -> Seq<u8> {
    match newline_index(b) {
        Some(i) => b.take(i),
        None => b,
    }
}

/// The bytes a chunk consumes: through its first newline, or all of it.
pub open spec fn chunk_consumed(b: Seq<u8>) -> int {
    match newline_index(b) {
        Some(i) => i + 1,
        None => b.len() as int,
    }
}

/// `s` cut to at most `max` elements.
pub open spec fn clip(s: Seq<u8>, max: int) -> Seq<u8> {
    if s.len() <= max {
        s
    } else {
        s.take(max)
    }
}

/// One line read with a bound: at most `max_bytes` bytes are kept, and
/// `truncated` tells whether the line was longer.
#[derive(Debug)]
pub struct BoundedLine {
    pub bytes: Vec<u8>,
    pub truncated: bool,
}

/// The state of reading one line out of buffered chunks.
#[derive(Debug)]
pub struct BoundedLineReader {
    bytes: Vec<u8>,
    truncated: bool,
    max_bytes: usize,
}

/// What one step consumed from the buffer it was given.
#[derive(Debug, Clone, Copy, PartialEq, Eq, Structural)]
pub struct LineStep {
    /// How many bytes of the buffer were consumed.
    pub consumed: usize,
    /// Whether the line ended in the buffer.
    pub complete: bool,
}

impl BoundedLineReader {
    pub closed spec fn bytes_view(&self) -> Seq<u8> {
        self.bytes@
    }

    pub closed spec fn is_truncated(&self) -> bool {
        self.truncated
    }

    pub closed spec fn max(&self) -> nat {
        self.max_bytes as nat
    }

    /// The kept bytes never exceed the bound.
    pub closed spec fn well_formed(&self) -> bool {
        self.bytes@.len() <= self.max_bytes
    }

    /// A reader that has seen nothing yet.
    pub fn new(max_bytes: usize) -> (r: BoundedLineReader)
        ensures
            r.well_formed(),
            r.bytes_view() == Seq::<u8>::empty(),
            !r.is_truncated(),
            r.max() == max_bytes,
    {
        BoundedLineReader { bytes: Vec::new(), truncated: false, max_bytes }
    }

    /// Takes the next buffered chunk: keeps what fits of its line content,
    /// records whether anything did not fit, and says how much of the chunk
    /// belongs to this line.
    pub fn step(&mut self, buffer: &[u8]) -> (s: LineStep)
        requires
            old(self).well_formed(),
        ensures
            final(self).well_formed(),
            final(self).max() == old(self).max(),
            s.consumed == chunk_consumed(buffer@),
            s.complete == newline_index(buffer@) is Some,
            final(self).bytes_view() == clip(
                old(self).bytes_view() + chunk_content(buffer@),
                old(self).max() as int,
            ),
            final(self).is_truncated() == (old(self).is_truncated() || old(self).bytes_view().len()
                + chunk_content(buffer@).len() > old(self).max()),
    {
        let len = buffer.len();
        let mut newline: Option<usize> = None;
        let mut i: usize = 0;
        while i < len
            invariant_except_break
                newline is None,
            invariant
                len == buffer@.len(),
                i <= len,
                forall|j: int| 0 <= j < i ==> #[trigger] buffer@[j] != 10u8,
            ensures
                newline matches Some(k) ==> k < len && buffer@[k as int] == 10u8 && forall|j: int|
                    0 <= j < k ==> #[trigger] buffer@[j] != 10u8,
                newline is None ==> forall|j: int| 0 <= j < len ==> #[trigger] buffer@[j] != 10u8,
            decreases len - i,
        {
            if buffer[i] == 10u8 {
                newline = Some(i);
                break;
            }
            i += 1;
        }
        proof {
            match newline {
                Some(k) => {
                    let w = choose|w: int|
                        0 <= w < buffer@.len() && buffer@[w] == 10u8 && forall|j: int|
                            0 <= j < w ==> #[trigger] buffer@[j] != 10u8;
                    if w < k {
                        assert(buffer@[w] != 10u8);
                    } else if w > k {
                        assert(buffer@[k as int] != 10u8);
                    }
                    assert(newline_index(buffer@) == Some(k as int));
                },
                None => {
                    assert(newline_index(buffer@) is None);
                },
            }
        }
        let consumed: usize = match newline {
            Some(k) => k + 1,
            None => len,
        };
        let content_len: usize = match newline {
            Some(k) => k,
            None => len,
        };
        let ghost content = chunk_content(buffer@);
        assert(content =~= buffer@.take(content_len as int));
        let ghost before = self.bytes@;
        let kept = self.bytes.len();
        if kept < self.max_bytes {
            let room = self.max_bytes - kept;
            let copy_len = if content_len < room {
                content_len
            } else {
                room
            };
            let mut k: usize = 0;
            while k < copy_len
                invariant
                    copy_len <= content_len <= len,
                    len == buffer@.len(),
                    k <= copy_len,
                    self.max_bytes == old(self).max_bytes,
                    self.truncated == old(self).truncated,
                    self.bytes@ == before + buffer@.take(k as int),
                decreases copy_len - k,
            {
                self.bytes.push(buffer[k]);
                proof {
                    assert(buffer@.take(k + 1) =~= buffer@.take(k as int).push(buffer@[k as int]));
                }
                k += 1;
            }
            self.truncated = self.truncated || copy_len < content_len;
            proof {
                assert(content.len() == content_len);
                assert((copy_len < content_len) == (kept + content_len > self.max_bytes));
                assert(buffer@.take(copy_len as int) =~= content.take(copy_len as int));
                if before.len() + content.len() <= self.max_bytes {
                    assert(self.bytes@ =~= before + content);
                } else {
                    assert(self.bytes@ =~= (before + content).take(self.max_bytes as int));
                }
            }
        } else {
            if content_len > 0 {
                self.truncated = true;
            }
            proof {
                assert(content.len() == content_len);
                assert(before.len() == self.max_bytes);
                if content.len() == 0 {
                    assert(before + content =~= before);
                } else {
                    assert((before + content).take(self.max_bytes as int) =~= before);
                }
            }
        }
        LineStep { consumed, complete: newline.is_some() }
    }

    /// The line as read so far, once it is complete.
    pub fn into_line(self) -> (l: BoundedLine)
        ensures
            l.bytes@ == self.bytes_view(),
            l.truncated == self.is_truncated(),
    {
        BoundedLine { bytes: self.bytes, truncated: self.truncated }
    }

    /// The line left when the input ends: none when nothing was read.
    pub fn finish_at_eof(self) -> (l: Option<BoundedLine>)
        ensures
            l is None <==> (self.bytes_view().len() == 0 && !self.is_truncated()),
            l matches Some(line) ==> line.bytes@ == self.bytes_view() && line.truncated
                == self.is_truncated(),
    {
        if self.bytes.len() == 0 && !self.truncated {
            None
        } else {
            Some(BoundedLine { bytes: self.bytes, truncated: self.truncated })
        }
    }
}

/// Reading chunk by chunk keeps exactly the bounded prefix of the whole line:
/// if the reader holds the first `max` bytes of `seen` and knows whether
/// `seen` was longer, then after content `more` it holds the first `max`
/// bytes of `seen + more` and knows whether that was longer.
pub proof fn law_line_reader_keeps_bounded_prefix(seen: Seq<u8>, more: Seq<u8>, max: nat)
    ensures
        clip(clip(seen, max as int) + more, max as int) == clip(seen + more, max as int),
        ((seen.len() > max) || clip(seen, max as int).len() + more.len() > max) == ((seen
            + more).len() > max),
{
    if seen.len() <= max {
        assert(clip(seen, max as int) == seen);
    } else {
        let kept = seen.take(max as int);
        assert((kept + more).take(max as int) =~= (seen + more).take(max as int));
    }
}

/// `u8::is_ascii_whitespace`: space, tab, line feed, form feed, carriage return.
pub open spec fn ascii_whitespace_byte(b: u8) -> bool {
    b == 32u8 || b == 9u8 || b == 10u8 || b == 12u8 || b == 13u8
}

/// Whether a frame holds only ASCII whitespace, and is skipped.
pub fn is_blank_frame(bytes: &[u8]) -> (r: bool)
    ensures
        r == forall|i: int| 0 <= i < bytes@.len() ==> #[trigger] ascii_whitespace_byte(bytes@[i]),
{
    let mut i: usize = 0;
    while i < bytes.len()
        invariant
            i <= bytes@.len(),
            forall|j: int| 0 <= j < i ==> #[trigger] ascii_whitespace_byte(bytes@[j]),
        decreases bytes@.len() - i,
    {
        let b = bytes[i];
        if !(b == 32u8 || b == 9u8 || b == 10u8 || b == 12u8 || b == 13u8) {
            assert(!ascii_whitespace_byte(bytes@[i as int]));
            return false;
        }
        i += 1;
    }
    true
}

/// An error reported by the peer in a response.
#[derive(Debug)]
pub struct RemoteRpcError {
    pub agent_id: String,
    pub message: String,
    pub code: i32,
}

/// `code` limited to the range of `i32`.
pub open spec fn clamp_i32(code: i64) -> i32 {
    if code < i32::MIN {
        i32::MIN
    } else if code > i32::MAX {
        i32::MAX
    } else {
        code as i32
    }
}

/// The message of a peer error with numeric code `code` (zero when absent)
/// and text `detail` (`unknown error` when absent).
pub open spec fn remote_error_text(code: Option<i64>, detail: Option<Seq<char>>) -> Seq<char> {
    "rpc error "@ + decimal_signed(
        match code {
            Some(c) => c as int,
            None => 0,
        },
    ) + ": "@ + match detail {
        Some(d) => d,
        None => "unknown error"@,
    }
}

/// The error for a response's `error` member, given its numeric `code` and
/// its textual `message`, each when present with that type.
pub fn remote_error(code: Option<i64>, message: Option<&str>) -> (e: RemoteRpcError)
    ensures
        e.agent_id@ == "stdio"@,
        e.message@ == remote_error_text(
            code,
            match message {
                Some(m) => Some(m@),
                None => None,
            },
        ),
        e.code == clamp_i32(
            match code {
                Some(c) => c,
                None => 0,
            },
        ),
{
    let value: i64 = match code {
        Some(c) => c,
        None => 0,
    };
    let mut text = String::from_str("rpc error ");
    let digits = i64_to_decimal(value);
    text.append(digits.as_str());
    text.append(": ");
    match message {
        Some(m) => text.append(m),
        None => text.append("unknown error"),
    }
    let clamped: i32 = if value < i32::MIN as i64 {
        i32::MIN
    } else if value > i32::MAX as i64 {
        i32::MAX
    } else {
        value as i32
    };
    RemoteRpcError { agent_id: String::from_str("stdio"), message: text, code: clamped }
}

/// The key under which a call with numeric id `id` waits for its response:
/// the id's decimal text, as a response frame writes it.
pub fn pending_key(id: i64) -> (k: String)
    ensures
        k@ == decimal_signed(id as int),
{
    i64_to_decimal(id)
}

/// Why a frame is skipped.
#[derive(Clone, Copy, Debug, PartialEq, Eq, Structural)]
pub enum SkipReason {
    /// The frame went over the size limit and was cut.
    Truncated,
    /// The frame holds only whitespace.
    Blank,
    /// The frame is not one JSON value.
    Undecodable,
}

/// What the reader does with one frame from the peer.
#[derive(Debug)]
pub enum FrameAction {
    Skip(SkipReason),
    /// A response: delivered to the call pending under `key`, as its result
    /// or as the peer's error.
    Response { key: String, outcome: Result<JsonValue, RemoteRpcError> },
    /// A request or notification, handed to the registered handler.
    Handler(JsonValue),
}

/// The mathematical content of a [`FrameAction`]; an error is its agent
/// id, message and code.
pub enum FrameActionView {
    Skip(SkipReason),
    Response { key: Seq<char>, outcome: Result<JsonView, (Seq<char>, Seq<char>, i32)> },
    Handler(JsonView),
}

pub open spec fn error_view(e: RemoteRpcError) -> (Seq<char>, Seq<char>, i32) {
    (e.agent_id@, e.message@, e.code)
}

pub open spec fn frame_view(a: FrameAction) -> FrameActionView {
    match a {
        FrameAction::Skip(r) => FrameActionView::Skip(r),
        FrameAction::Response { key, outcome } => FrameActionView::Response {
            key: key@,
            outcome: match outcome {
                Ok(v) => Ok(v.json_view()),
                Err(e) => Err(error_view(e)),
            },
        },
        FrameAction::Handler(v) => FrameActionView::Handler(v.json_view()),
    }
}

/// The integer value of a number.
pub open spec fn int_of(v: Option<JsonView>) -> Option<i64> {
    match v {
        Some(JsonView::Number(_, i)) => i,
        _ => None,
    }
}

/// The text of a string.
pub open spec fn text_of(v: Option<JsonView>) -> Option<Seq<char>> {
    match v {
        Some(JsonView::Text(t)) => Some(t),
        _ => None,
    }
}

/// The outcome of a response message: the peer's error when it has an
/// `error` member (its integer `code`, zero otherwise, and its string
/// `message`), else its `result` member, or null when it has none.
pub open spec fn rpc_outcome(msg: JsonView) -> Result<JsonView, (Seq<char>, Seq<char>, i32)> {
    match get(msg, "error"@) {
        Some(err) => Err(
            (
                "stdio"@,
                remote_error_text(int_of(get(err, "code"@)), text_of(get(err, "message"@))),
                clamp_i32(
                    match int_of(get(err, "code"@)) {
                        Some(c) => c,
                        None => 0,
                    },
                ),
            ),
        ),
        None => Ok(
            match get(msg, "result"@) {
                Some(r) => r,
                None => JsonView::Null,
            },
        ),
    }
}

/// What the reader does with a frame, cut when `truncated`, made of
/// `bytes` that decode to `decoded`: cut, blank and undecodable frames are
/// skipped; a message with a `result` or an `error` member and a numeric
/// `id` is a response for the call pending under the id's text; anything
/// else goes to the handler.
pub open spec fn frame_action_spec(truncated: bool, bytes: Seq<u8>, decoded: Option<JsonView>) -> FrameActionView {
    if truncated {
        FrameActionView::Skip(SkipReason::Truncated)
    } else if forall|i: int| 0 <= i < bytes.len() ==> #[trigger] ascii_whitespace_byte(bytes[i]) {
        FrameActionView::Skip(SkipReason::Blank)
    } else {
        match decoded {
            None => FrameActionView::Skip(SkipReason::Undecodable),
            Some(msg) => {
                let has_reply = get(msg, "result"@) is Some || get(msg, "error"@) is Some;
                match get(msg, "id"@) {
                    Some(JsonView::Number(key, _)) if has_reply => FrameActionView::Response {
                        key,
                        outcome: rpc_outcome(msg),
                    },
                    _ => FrameActionView::Handler(msg),
                }
            },
        }
    }
}

/// The outcome of a response message `msg`.
fn extract_rpc_result(msg: JsonValue) -> (r: Result<JsonValue, RemoteRpcError>)
    ensures
        match r {
            Ok(v) => Ok(v.json_view()),
            Err(e) => Err(error_view(e)),
        } == rpc_outcome(msg.json_view()),
{
    let failure = match get_member(&msg, "error") {
        Some(err) => {
            let code = match get_member(err, "code") {
                Some(JsonValue::Number(_, c)) => *c,
                _ => None,
            };
            let message = match get_member(err, "message") {
                Some(JsonValue::Text(t)) => Some(t.as_str()),
                _ => None,
            };
            Some(remote_error(code, message))
        },
        None => None,
    };
    match failure {
        Some(e) => Err(e),
        None => match take_member(msg, "result") {
            Some(v) => Ok(v),
            None => Ok(JsonValue::Null),
        },
    }
}

/// What the reader does with a frame whose bytes decoded to `decoded`.
pub fn frame_action(truncated: bool, bytes: &[u8], decoded: Option<JsonValue>) -> (r: FrameAction)
    ensures
        frame_view(r) == frame_action_spec(truncated, bytes@, opt_json_view(decoded)),
{
    if truncated {
        return FrameAction::Skip(SkipReason::Truncated);
    }
    if is_blank_frame(bytes) {
        return FrameAction::Skip(SkipReason::Blank);
    }
    let msg = match decoded {
        Some(m) => m,
        None => {
            return FrameAction::Skip(SkipReason::Undecodable);
        },
    };
    let has_reply = get_member(&msg, "result").is_some() || get_member(&msg, "error").is_some();
    let key = match get_member(&msg, "id") {
        Some(JsonValue::Number(text, _)) => Some(text.clone()),
        _ => None,
    };
    match key {
        Some(key) => if has_reply {
            FrameAction::Response { key, outcome: extract_rpc_result(msg) }
        } else {
            FrameAction::Handler(msg)
        },
        None => FrameAction::Handler(msg),
    }
}

/// Reads one frame from the peer: a frame that is neither cut nor blank is
/// decoded by `serde_json`, then [`frame_action`] decides.
pub fn read_frame(line: &BoundedLine) -> (r: FrameAction)
    ensures
        frame_view(r) == frame_action_spec(line.truncated, line.bytes@, json_decoded(line.bytes@)),
{
    if line.truncated {
        return FrameAction::Skip(SkipReason::Truncated);
    }
    if is_blank_frame(line.bytes.as_slice()) {
        return FrameAction::Skip(SkipReason::Blank);
    }
    let decoded = decode_frame(line.bytes.as_slice());
    frame_action(false, line.bytes.as_slice(), decoded)
}

} // verus!
