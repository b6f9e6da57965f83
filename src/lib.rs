//! Coordination core of a voice-activated translation assistant: the audio
//! ring buffer, wake detection, the application state machine, generational
//! cancellation, the translation pipeline's pure stages and the incremental
//! OCR diff, each with a machine-checked contract.

pub mod ring_buffer;
pub mod state_machine;
pub mod cancellation;
pub mod scheduler;
pub mod wake;
pub mod text;
pub mod normalize;
pub mod glossary;
pub mod prompt;
pub mod sse;
pub mod translate;
pub mod retry;
pub mod digest;
pub mod cache;
pub mod ocr;
pub mod realtime;
pub mod pipeline;
pub mod capture;
pub mod history;
pub mod metrics;
