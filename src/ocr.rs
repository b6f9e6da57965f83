use vstd::prelude::*;

verus! {

/// Shape of an OCR region of interest.
#[derive(Clone, Copy, Debug, PartialEq, Eq, Structural)]
pub enum RoiType {
    Rect,
    Polygon,
    Perspective,
}

/// Parameters of a region of interest, matching its `RoiType`.
#[derive(Clone, Debug)]
pub enum RoiParams {
    Rect { x: u32, y: u32, w: u32, h: u32 },
    Polygon { points: Vec<(u32, u32)> },
    Perspective { corners: [(u32, u32); 4] },
}

/// Image clean-up applied before recognition.
#[derive(Clone, Copy, Debug, PartialEq, Eq, Structural)]
pub struct PreprocessConfig {
    pub grayscale: bool,
    pub adaptive_threshold: bool,
    pub denoise: bool,
    pub deskew: bool,
}

impl Default for PreprocessConfig {
    fn default() -> (r: Self)
        ensures
            r.grayscale && r.adaptive_threshold && r.denoise && !r.deskew,
    {
        PreprocessConfig::standard()
    }
}

impl PreprocessConfig {
    /// Grayscale, adaptive threshold and denoise on; deskew off.
    pub fn standard() -> (r: Self)
        ensures
            r.grayscale && r.adaptive_threshold && r.denoise && !r.deskew,
    {
        PreprocessConfig { grayscale: true, adaptive_threshold: true, denoise: true, deskew: false }
    }
}

/// One recognition request.
#[derive(Clone, Debug)]
pub struct OcrRequest {
    pub request_id: String,
    pub generation: u64,
    /// Encoded image (PNG).
    pub image_data: Vec<u8>,
    pub roi_type: RoiType,
    pub roi_params: RoiParams,
    pub preprocess: PreprocessConfig,
}

/// Bounding box of a line, in pixels.
#[derive(Clone, Copy, Debug, PartialEq, Eq, Structural)]
pub struct BBox {
    pub x: u32,
    pub y: u32,
    pub w: u32,
    pub h: u32,
}

/// One recognised line. Confidence is in thousandths.
#[derive(Clone, Debug)]
pub struct OcrLine {
    pub text: String,
    pub confidence_milli: u32,
    pub bbox: BBox,
    pub y_center: u32,
}

impl OcrLine {
    /// A field-by-field copy.
    pub fn duplicate(&self) -> (r: Self)
        ensures
            r == *self,
    {
        OcrLine {
            text: self.text.clone(),
            confidence_milli: self.confidence_milli,
            bbox: self.bbox,
            y_center: self.y_center,
        }
    }
}

/// Result of a recognition request; lines are in document order.
#[derive(Clone, Debug)]
pub struct OcrResult {
    pub request_id: String,
    pub lines: Vec<OcrLine>,
    pub elapsed_ms: u64,
}

/// Result of a realtime recognition: whether the frame changed since the
/// previous one (by mean absolute pixel error) and, if so, its lines.
#[derive(Clone, Debug)]
pub struct RealtimeOcrResult {
    pub changed: bool,
    pub lines: Vec<OcrLine>,
    /// Mean absolute error against the previous frame, in thousandths.
    pub mae_milli: u64,
    pub elapsed_ms: u64,
}

/// Why recognition failed.
#[derive(Clone, Debug)]
pub enum OcrError {
    EngineNotLoaded,
    ProcessingFailed(String),
    Timeout,
    Cancelled,
}

/// A recognition engine. Calls block; callers run them on a worker.
pub trait OcrEngine {
    fn recognize(&self, request: OcrRequest) -> Result<OcrResult, OcrError>;

    fn is_available(&self) -> bool;
}

/// An engine that is never loaded.
pub struct StubOcrEngine;

impl OcrEngine for StubOcrEngine {
    fn recognize(&self, request: OcrRequest) -> Result<OcrResult, OcrError> {
        Err(OcrError::EngineNotLoaded)
    }

    fn is_available(&self) -> bool {
        false
    }
}

/// Largest frame the worker may send back: 50 MiB.
pub const MAX_FRAME_LEN: u32 = 52_428_800;

/// Frames a payload for the worker: a 4-byte big-endian length, then the
/// payload.
pub fn frame_message(payload: &[u8]) -> (r: Option<Vec<u8>>)
    ensures
        payload@.len() > u32::MAX ==> r is None,
        payload@.len() <= u32::MAX ==> r is Some && r->Some_0@ == be_bytes(payload@.len() as u32)
            + payload@,
{
    if payload.len() > 0xFFFF_FFFF {
        return None;
    }
    let n = payload.len() as u32;
    let mut out: Vec<u8> = Vec::new();
    out.push((n / 16777216) as u8);
    out.push(((n / 65536) % 256) as u8);
    out.push(((n / 256) % 256) as u8);
    out.push((n % 256) as u8);
    let mut i: usize = 0;
    while i < payload.len()
        invariant
            i <= payload@.len(),
            out@ == be_bytes(n) + payload@.subrange(0, i as int),
        decreases payload.len() - i,
    {
        out.push(payload[i]);
        proof {
            assert(payload@.subrange(0, i + 1) =~= payload@.subrange(0, i as int).push(payload@[i as int]));
        }
        i = i + 1;
    }
    assert(payload@.subrange(0, payload@.len() as int) =~= payload@);
    Some(out)
}

/// Big-endian bytes of `n`.
pub open spec fn be_bytes(n: u32) -> Seq<u8> {
    seq![(n / 16777216) as u8, ((n / 65536) % 256) as u8, ((n / 256) % 256) as u8, (n % 256) as u8]
}

/// The value of a big-endian length prefix.
pub open spec fn be_value(b: Seq<u8>) -> nat {
    b[0] as nat * 16777216 + b[1] as nat * 65536 + b[2] as nat * 256 + b[3] as nat
}

/// Reads the length prefix of a worker frame, refusing frames over the
/// limit.
pub fn frame_len(prefix: [u8; 4]) -> (r: Result<u32, OcrError>)
    ensures
        be_value(prefix@) <= MAX_FRAME_LEN ==> r == Ok::<u32, OcrError>(be_value(prefix@) as u32),
        be_value(prefix@) > MAX_FRAME_LEN ==> r is Err,
{
    let n: u64 = prefix[0] as u64 * 16777216 + prefix[1] as u64 * 65536 + prefix[2] as u64 * 256
        + prefix[3] as u64;
    if n > MAX_FRAME_LEN as u64 {
        Err(OcrError::ProcessingFailed(String::from_str("message too large")))
    } else {
        Ok(n as u32)
    }
}

/// Wire name of a region for the worker; a type that does not match its
/// parameters is sent as the full frame.
pub open spec fn roi_wire(roi_type: RoiType, params: RoiParams) -> Seq<char> {
    match (roi_type, params) {
        (RoiType::Rect, RoiParams::Rect { .. }) => "rect"@,
        (RoiType::Polygon, RoiParams::Polygon { .. }) => "polygon"@,
        (RoiType::Perspective, RoiParams::Perspective { .. }) => "perspective"@,
        _ => "fullframe"@,
    }
}

pub fn roi_wire_name(roi_type: RoiType, params: &RoiParams) -> (r: &'static str)
    ensures
        r@ == roi_wire(roi_type, *params),
{
    proof {
        reveal_strlit("rect");
        reveal_strlit("polygon");
        reveal_strlit("perspective");
        reveal_strlit("fullframe");
    }
    match (roi_type, params) {
        (RoiType::Rect, RoiParams::Rect { .. }) => "rect",
        (RoiType::Polygon, RoiParams::Polygon { .. }) => "polygon",
        (RoiType::Perspective, RoiParams::Perspective { .. }) => "perspective",
        _ => "fullframe",
    }
}

/// A reply of the OCR worker, as decoded by the caller.
pub struct WorkerReply {
    pub msg_type: String,
    pub lines: Option<Vec<OcrLine>>,
    pub elapsed_ms: Option<u64>,
    pub message: Option<String>,
}

/// Interprets a recognition reply: `ocr_result` gives the lines (none when
/// absent) and the worker's timing, else `measured_ms`; `error` gives its
/// message; anything else is unexpected.
pub fn interpret_reply(request_id: String, reply: WorkerReply, measured_ms: u64) -> (r: Result<
    OcrResult,
    OcrError,
>)
    ensures
        reply.msg_type@ == "ocr_result"@ ==> r is Ok && r->Ok_0.request_id == request_id
            && r->Ok_0.lines@ == match reply.lines {
            Some(l) => l@,
            None => Seq::<OcrLine>::empty(),
        } && r->Ok_0.elapsed_ms == match reply.elapsed_ms {
            Some(e) => e,
            None => measured_ms,
        },
        reply.msg_type@ == "error"@ ==> r is Err && r->Err_0 is ProcessingFailed
            && r->Err_0->ProcessingFailed_0@ == match reply.message {
            Some(m) => m@,
            None => "unknown error"@,
        },
        reply.msg_type@ != "ocr_result"@ && reply.msg_type@ != "error"@ ==> r is Err
            && r->Err_0 is ProcessingFailed && r->Err_0->ProcessingFailed_0@
            == "unexpected response type: "@ + reply.msg_type@,
{
    proof {
        reveal_strlit("ocr_result");
        reveal_strlit("error");
        reveal_strlit("unknown error");
        reveal_strlit("unexpected response type: ");
        assert("ocr_result"@.len() != "error"@.len());
    }
    let kind = crate::text::chars_of(reply.msg_type.as_str());
    if crate::text::seq_eq(&kind, &crate::text::chars_of("ocr_result")) {
        let lines = match reply.lines {
            Some(l) => l,
            None => Vec::new(),
        };
        let elapsed_ms = match reply.elapsed_ms {
            Some(e) => e,
            None => measured_ms,
        };
        Ok(OcrResult { request_id, lines, elapsed_ms })
    } else if crate::text::seq_eq(&kind, &crate::text::chars_of("error")) {
        let msg = match reply.message {
            Some(m) => m,
            None => String::from_str("unknown error"),
        };
        Err(OcrError::ProcessingFailed(msg))
    } else {
        let mut v = crate::text::chars_of("unexpected response type: ");
        crate::text::copy_range(&mut v, &kind, 0, kind.len());
        assert(kind@.subrange(0, kind@.len() as int) =~= kind@);
        Err(OcrError::ProcessingFailed(crate::text::string_of(v.as_slice())))
    }
}

/// Consecutive failed health checks after which the worker is restarted.
pub const MAX_HEALTH_FAILURES: u32 = 3;

/// Health-check bookkeeping: a pong resets the failure count; a failure
/// counts, and at the limit the worker is marked unavailable and dropped.
pub fn health_step(failures: u32, pong: bool) -> (r: (u32, bool))
    ensures
        pong ==> r == (0u32, false),
        !pong ==> r.0 == (if failures < u32::MAX { failures + 1 } else { failures as int }) && r.1 == (
        r.0 >= MAX_HEALTH_FAILURES),
{
    if pong {
        (0, false)
    } else {
        let n = if failures < u32::MAX {
            failures + 1
        } else {
            failures
        };
        (n, n >= MAX_HEALTH_FAILURES)
    }
}

} // verus!
