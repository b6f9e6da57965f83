use vstd::prelude::*;

verus! {

/// Lifecycle states of the assistant.
#[derive(Clone, Copy, Debug, PartialEq, Eq, Hash, Structural)]
pub enum AppState {
    Sleep,
    WakeConfirm,
    ModeSelect,
    Capture,
    Ocr,
    Translate,
    Render,
    Idle,
}

/// Translation mode picked by the user.
#[derive(Clone, Copy, Debug, PartialEq, Eq, Hash, Structural)]
pub enum TranslateMode {
    Selection,
    OcrRegion,
    RealtimeIncremental,
}

/// The adjacency relation of the lifecycle: any state may fall back to
/// `Sleep`; otherwise only the listed forward edges exist.
pub open spec fn transition_allowed(from: AppState, to: AppState) -> bool {
    match (from, to) {
        (_, AppState::Sleep) => true,
        (AppState::Sleep, AppState::WakeConfirm) => true,
        (AppState::WakeConfirm, AppState::ModeSelect) => true,
        (AppState::ModeSelect, AppState::Capture) => true,
        (AppState::Capture, AppState::Ocr) => true,
        (AppState::Capture, AppState::Translate) => true,
        (AppState::Ocr, AppState::Translate) => true,
        (AppState::Translate, AppState::Render) => true,
        (AppState::Render, AppState::Idle) => true,
        (AppState::Idle, AppState::ModeSelect) => true,
        _ => false,
    }
}

pub open spec fn state_name(s: AppState) -> Seq<char> {
    match s {
        AppState::Sleep => "Sleep"@,
        AppState::WakeConfirm => "WakeConfirm"@,
        AppState::ModeSelect => "ModeSelect"@,
        AppState::Capture => "Capture"@,
        AppState::Ocr => "Ocr"@,
        AppState::Translate => "Translate"@,
        AppState::Render => "Render"@,
        AppState::Idle => "Idle"@,
    }
}

/// Message of a refused transition: `invalid transition: <from> -> <to>`.
pub open spec fn transition_error_text(from: AppState, to: AppState) -> Seq<char> {
    "invalid transition: "@ + state_name(from) + " -> "@ + state_name(to)
}

impl AppState {
    /// Whether `self -> next` is an edge of the lifecycle.
    pub fn can_transition_to(self, next: AppState) -> (r: bool)
        ensures
            r == transition_allowed(self, next),
    {
        match (self, next) {
            (_, AppState::Sleep) => true,
            (AppState::Sleep, AppState::WakeConfirm) => true,
            (AppState::WakeConfirm, AppState::ModeSelect) => true,
            (AppState::ModeSelect, AppState::Capture) => true,
            (AppState::Capture, AppState::Ocr) => true,
            (AppState::Capture, AppState::Translate) => true,
            (AppState::Ocr, AppState::Translate) => true,
            (AppState::Translate, AppState::Render) => true,
            (AppState::Render, AppState::Idle) => true,
            (AppState::Idle, AppState::ModeSelect) => true,
            _ => false,
        }
    }

    /// The state's name, as shown to the UI.
    pub fn name(&self) -> (r: &'static str)
        ensures
            r@ == state_name(*self),
    {
        proof {
            reveal_strlit("Sleep");
            reveal_strlit("WakeConfirm");
            reveal_strlit("ModeSelect");
            reveal_strlit("Capture");
            reveal_strlit("Ocr");
            reveal_strlit("Translate");
            reveal_strlit("Render");
            reveal_strlit("Idle");
        }
        match self {
            AppState::Sleep => "Sleep",
            AppState::WakeConfirm => "WakeConfirm",
            AppState::ModeSelect => "ModeSelect",
            AppState::Capture => "Capture",
            AppState::Ocr => "Ocr",
            AppState::Translate => "Translate",
            AppState::Render => "Render",
            AppState::Idle => "Idle",
        }
    }
}

/// The application's lifecycle: current state, selected mode, and the last
/// value published to subscribers.
///
/// Publication keeps only the latest value: a subscriber that reads late
/// sees the newest state, never a queue of old ones.
pub struct StateMachine {
    state: AppState,
    mode: Option<TranslateMode>,
    published: AppState,
}

impl StateMachine {
    pub closed spec fn spec_state(&self) -> AppState {
        self.state
    }

    pub closed spec fn spec_mode(&self) -> Option<TranslateMode> {
        self.mode
    }

    pub closed spec fn spec_published(&self) -> AppState {
        self.published
    }

    /// Starts asleep, with no mode.
    pub fn new() -> (r: Self)
        ensures
            r.spec_state() == AppState::Sleep,
            r.spec_mode() == None::<TranslateMode>,
            r.spec_published() == AppState::Sleep,
    {
        StateMachine { state: AppState::Sleep, mode: None, published: AppState::Sleep }
    }

    pub fn current(&self) -> (r: AppState)
        ensures
            r == self.spec_state(),
    {
        self.state
    }

    pub fn current_mode(&self) -> (r: Option<TranslateMode>)
        ensures
            r == self.spec_mode(),
    {
        self.mode
    }

    /// The value subscribers currently observe.
    pub fn published(&self) -> (r: AppState)
        ensures
            r == self.spec_published(),
    {
        self.published
    }

    pub fn set_mode(&mut self, mode: TranslateMode)
        ensures
            final(self).spec_mode() == Some(mode),
            final(self).spec_state() == old(self).spec_state(),
            final(self).spec_published() == old(self).spec_published(),
    {
        self.mode = Some(mode);
    }

    /// Moves to `next` when the lifecycle allows it and publishes the new
    /// state; otherwise leaves everything as it was and reports why.
    pub fn transition(&mut self, next: AppState) -> (r: Result<AppState, String>)
        ensures
            transition_allowed(old(self).spec_state(), next) ==> {
                &&& r == Ok::<AppState, String>(next)
                &&& final(self).spec_state() == next
                &&& final(self).spec_published() == next
            },
            !transition_allowed(old(self).spec_state(), next) ==> {
                &&& r is Err
                &&& r->Err_0@ == transition_error_text(old(self).spec_state(), next)
                &&& final(self).spec_state() == old(self).spec_state()
                &&& final(self).spec_published() == old(self).spec_published()
            },
            final(self).spec_mode() == old(self).spec_mode(),
    {
        let current = self.state;
        if !current.can_transition_to(next) {
            proof {
                reveal_strlit("invalid transition: ");
                reveal_strlit(" -> ");
            }
            let mut msg = String::from_str("invalid transition: ");
            msg.append(current.name());
            msg.append(" -> ");
            msg.append(next.name());
            return Err(msg);
        }
        self.state = next;
        self.published = next;
        Ok(next)
    }

    /// Returns to `Sleep` from any state, clears the mode and publishes.
    pub fn force_sleep(&mut self)
        ensures
            final(self).spec_state() == AppState::Sleep,
            final(self).spec_mode() == None::<TranslateMode>,
            final(self).spec_published() == AppState::Sleep,
    {
        self.state = AppState::Sleep;
        self.mode = None;
        self.published = AppState::Sleep;
    }
}

} // verus!
