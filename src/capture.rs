use vstd::prelude::*;
use crate::text::{chars_of, trimmed, trim_str, seq_eq};

verus! {

/// Where captured text came from.
#[derive(Clone, Copy, Debug, PartialEq, Eq, Structural)]
pub enum CaptureSource {
    Accessibility,
    Clipboard,
    Ocr,
}

/// Captured text with its request identifiers; downstream stages do not
/// care where it came from.
#[derive(Clone, Debug)]
pub struct TextPacket {
    pub text: String,
    pub source: CaptureSource,
    pub request_id: String,
    pub generation: u64,
    pub captured_at_us: u64,
}

/// Relies on `std::time::SystemTime::now` and `duration_since(UNIX_EPOCH)`:
/// microseconds since the Unix epoch (0 for a clock set before it).
#[verifier::external_body]
fn unix_micros() -> (r: u64)
{
    std::time::SystemTime::now()
        .duration_since(std::time::UNIX_EPOCH)
        .map(|d| d.as_micros() as u64)
        .unwrap_or(0)
}

/// Packs captured text, stamped with the current time.
pub fn make_text_packet(text: String, source: CaptureSource, request_id: String, generation: u64) -> (r:
    TextPacket)
    ensures
        r.text == text,
        r.source == source,
        r.request_id == request_id,
        r.generation == generation,
{
    TextPacket { text, source, request_id, generation, captured_at_us: unix_micros() }
}

/// Why capturing the selection failed.
#[derive(Clone, Debug)]
pub enum CaptureError {
    NoSelection,
    AccessibilityTimeout,
    ClipboardFailed(String),
    PlatformUnsupported,
    ToolNotAvailable(String),
}

/// A way to read the user's selected text. Calls block.
pub trait TextCapture {
    fn capture_selection(&self) -> Result<String, CaptureError>;
}

/// Clipboard-based capture: simulate a copy, read the clipboard, restore it.
pub struct ClipboardCapture {
    pub copy_wait_ms: u64,
    pub total_timeout_ms: u64,
    /// Whether the copy and clipboard tools were found at start-up.
    pub tools_available: bool,
}

impl ClipboardCapture {
    /// A capture whose tools were probed by the caller.
    pub fn new(copy_wait_ms: u64, total_timeout_ms: u64, xdotool_found: bool, xclip_found: bool) -> (r:
        Self)
        ensures
            r.copy_wait_ms == copy_wait_ms,
            r.total_timeout_ms == total_timeout_ms,
            r.tools_available == (xdotool_found && xclip_found),
    {
        ClipboardCapture { copy_wait_ms, total_timeout_ms, tools_available: xdotool_found && xclip_found }
    }

    /// Fails at once when the tools are missing.
    pub fn check_tools(&self) -> (r: Result<(), CaptureError>)
        ensures
            self.tools_available ==> r is Ok,
            !self.tools_available ==> r is Err && r->Err_0 is ToolNotAvailable,
    {
        if self.tools_available {
            Ok(())
        } else {
            Err(CaptureError::ToolNotAvailable(String::from_str("xdotool and/or xclip")))
        }
    }
}

/// Judges the clipboard after the simulated copy: unchanged or blank
/// content means nothing was selected.
pub fn judge_clipboard(backup: Option<&str>, new_content: String) -> (r: Result<String, CaptureError>)
    ensures
        match backup {
            Some(b) if b@ == new_content@ => r is Err && r->Err_0 is NoSelection,
            _ => if trimmed(new_content@).len() == 0 {
                r is Err && r->Err_0 is NoSelection
            } else {
                r == Ok::<String, CaptureError>(new_content)
            },
        },
{
    match backup {
        Some(b) => {
            if seq_eq(&chars_of(b), &chars_of(new_content.as_str())) {
                return Err(CaptureError::NoSelection);
            }
        },
        None => {},
    }
    let t = trim_str(new_content.as_str());
    if t.unicode_len() == 0 {
        return Err(CaptureError::NoSelection);
    }
    Ok(new_content)
}

/// Screen capture tools, in order of preference: grim, maim, scrot.
#[derive(Clone, Copy, Debug, PartialEq, Eq, Structural)]
pub enum CaptureBackend {
    Scrot,
    Maim,
    Grim,
}

/// Picks the first available tool: grim (Wayland), then maim, then scrot.
pub fn detect_backend(grim_found: bool, maim_found: bool, scrot_found: bool) -> (r: Option<
    CaptureBackend,
>)
    ensures
        grim_found ==> r == Some(CaptureBackend::Grim),
        !grim_found && maim_found ==> r == Some(CaptureBackend::Maim),
        !grim_found && !maim_found && scrot_found ==> r == Some(CaptureBackend::Scrot),
        !grim_found && !maim_found && !scrot_found ==> r is None,
{
    if grim_found {
        Some(CaptureBackend::Grim)
    } else if maim_found {
        Some(CaptureBackend::Maim)
    } else if scrot_found {
        Some(CaptureBackend::Scrot)
    } else {
        None
    }
}

/// A captured screen.
#[derive(Clone, Debug)]
pub struct Screenshot {
    pub png_bytes: Vec<u8>,
    pub width: u32,
    pub height: u32,
}

/// Why a screen capture failed.
#[derive(Clone, Debug)]
pub enum ScreenCaptureError {
    NoBackendAvailable,
    CaptureFailed(String),
    IoError(String),
}

/// Screen capture with the tool chosen once at start-up.
pub struct ScreenCapture {
    pub backend: Option<CaptureBackend>,
}

impl ScreenCapture {
    pub fn new(backend: Option<CaptureBackend>) -> (r: Self)
        ensures
            r.backend == backend,
    {
        ScreenCapture { backend }
    }

    pub fn is_available(&self) -> (r: bool)
        ensures
            r == self.backend is Some,
    {
        self.backend.is_some()
    }

    /// Captures the full screen with `run`, which drives the chosen tool;
    /// without a tool, fails with `NoBackendAvailable`.
    pub fn capture<F: FnOnce(CaptureBackend) -> Result<Vec<u8>, ScreenCaptureError>>(&self, run: F) -> (r:
        Result<Vec<u8>, ScreenCaptureError>)
        requires
            forall|b: CaptureBackend| run.requires((b,)),
        ensures
            match self.backend {
                None => r is Err && r->Err_0 is NoBackendAvailable,
                Some(b) => run.ensures((b,), r),
            },
    {
        match self.backend {
            None => Err(ScreenCaptureError::NoBackendAvailable),
            Some(b) => run(b),
        }
    }
}

} // verus!
