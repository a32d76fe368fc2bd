use vstd::prelude::*;

use crate::config::opt_text;
use crate::text::{trim, trimmed_of};

verus! {

/// Who wrote a chat message.
#[derive(Clone, Copy, PartialEq, Eq, Debug, Structural)]
pub enum MessageRole {
    User,
    Assistant,
}

/// One entry of the conversation.
#[derive(Clone)]
pub struct ChatMessage {
    pub role: MessageRole,
    pub content: String,
}

/// Frames the overlay stays hidden before a capture runs.
pub const CAPTURE_SETTLE_FRAMES: u8 = 2;

/// The process-wide record shared by the render callback and the request
/// tasks. The caller guards it with a lock.
pub struct AppState {
    pub visible: bool,
    pub messages: Vec<ChatMessage>,
    pub input_buffer: String,
    pub attach_screenshot: bool,
    pub is_loading: bool,
    pub error: Option<String>,
    /// Bumped on every send, cancel and clear; a request task writes only
    /// while this still equals the value it was spawned with.
    pub request_generation: u64,
    /// Assistant text received so far for the request in flight.
    pub streaming_response: String,
    /// Detected game name, set once after detection.
    pub game_name: Option<String>,
    /// The overlay is hidden while frames settle before a capture.
    pub capture_pending: bool,
    /// Frames still to wait before the capture.
    pub capture_wait_frames: u8,
    /// The result of the last capture (`None` when it failed).
    pub captured_screenshot: Option<String>,
    /// A send waits for the capture before its request is spawned.
    pub send_pending_capture: bool,
}

/// What the caller does after a send was requested.
#[derive(Clone, Copy, PartialEq, Eq, Debug, Structural)]
pub enum SendAction {
    /// The trimmed input was empty: nothing changed.
    Ignored,
    /// Spawn the request for this generation now, without a screenshot.
    SpawnRequest { generation: u64 },
    /// Hide the overlay; the request is spawned once the capture is taken.
    AwaitCapture { generation: u64 },
}

/// What the render callback does with this frame.
#[derive(Clone, Copy, PartialEq, Eq, Debug, Structural)]
pub enum FrameStep {
    /// Draw the panel.
    Draw,
    /// The panel is hidden.
    Hidden,
    /// Do not draw: frames are settling before a capture.
    HoldForCapture,
    /// Do not draw; take the capture now and report it.
    CaptureNow,
}

/// A request to spawn once a capture is done.
pub struct PendingRequest {
    pub generation: u64,
    pub screenshot: Option<String>,
}

pub open spec fn is_user(m: ChatMessage) -> bool {
    m.role == MessageRole::User
}

/// The conversation starts with the user, and an assistant message always
/// follows a user message; two user messages in a row are allowed (a send
/// that failed before any reply).
pub open spec fn roles_alternate(msgs: Seq<ChatMessage>) -> bool {
    &&& msgs.len() > 0 ==> is_user(msgs[0])
    &&& forall|i: int| 0 < i < msgs.len() && !is_user(#[trigger] msgs[i]) ==> is_user(msgs[i - 1])
}

pub open spec fn cancelled_text(partial: Seq<char>) -> Seq<char> {
    partial + " [cancelled]"@
}

/// Content of the latest user message, or empty text when there is none.
pub open spec fn last_user_content(msgs: Seq<ChatMessage>) -> Seq<char>
    decreases msgs.len(),
{
    if msgs.len() == 0 {
        Seq::empty()
    } else if is_user(msgs.last()) {
        msgs.last().content@
    } else {
        last_user_content(msgs.drop_last())
    }
}

/// The step that `begin_frame` reports for a state.
pub open spec fn frame_step_of(s: AppState) -> FrameStep {
    if s.capture_pending {
        if s.capture_wait_frames <= 1 {
            FrameStep::CaptureNow
        } else {
            FrameStep::HoldForCapture
        }
    } else if s.visible {
        FrameStep::Draw
    } else {
        FrameStep::Hidden
    }
}

/// The state after `begin_frame`: one settling frame has passed.
pub open spec fn after_frame(s: AppState) -> AppState {
    if s.capture_pending && s.capture_wait_frames > 0 {
        AppState { capture_wait_frames: (s.capture_wait_frames - 1) as u8, ..s }
    } else {
        s
    }
}

pub open spec fn toggled(s: AppState) -> AppState {
    AppState { visible: !s.visible, ..s }
}

impl AppState {
    pub open spec fn well_formed(&self) -> bool {
        &&& roles_alternate(self.messages@)
        &&& self.is_loading ==> self.messages@.len() > 0 && is_user(self.messages@.last())
        &&& !self.is_loading ==> self.streaming_response@.len() == 0
    }

    /// The state at start-up: hidden, empty, idle.
    pub fn new() -> (r: AppState)
        ensures
            r.well_formed(),
            !r.visible,
            r.messages@.len() == 0,
            r.input_buffer@.len() == 0,
            !r.attach_screenshot,
            !r.is_loading,
            r.error.is_none(),
            r.request_generation == 0,
            r.streaming_response@.len() == 0,
            r.game_name.is_none(),
            !r.capture_pending,
            r.capture_wait_frames == 0,
            r.captured_screenshot.is_none(),
            !r.send_pending_capture,
    {
        AppState {
            visible: false,
            messages: Vec::new(),
            input_buffer: String::new(),
            attach_screenshot: false,
            is_loading: false,
            error: None,
            request_generation: 0,
            streaming_response: String::new(),
            game_name: None,
            capture_pending: false,
            capture_wait_frames: 0,
            captured_screenshot: None,
            send_pending_capture: false,
        }
    }

    /// Shows or hides the panel.
    pub fn toggle_visible(&mut self)
        ensures
            *final(self) == toggled(*old(self)),
    {
        self.visible = !self.visible;
    }

    /// Input events go to the panel, not the game, while it is shown.
    pub fn captures_input(&self) -> (r: bool)
        ensures
            r == self.visible,
    {
        self.visible
    }

    /// Sends the input field: commits the trimmed text as a user message and
    /// starts a new request generation, either at once or after a capture
    /// when a screenshot is to be attached.
    pub fn begin_send(&mut self) -> (r: SendAction)
        requires
            old(self).well_formed(),
            old(self).request_generation < u64::MAX,
        ensures
            final(self).well_formed(),
            trimmed_of(old(self).input_buffer@).len() == 0 ==> r == SendAction::Ignored && *final(self) == *old(self),
            trimmed_of(old(self).input_buffer@).len() > 0 ==> {
                &&& final(self).messages@.drop_last() == old(self).messages@
                &&& is_user(final(self).messages@.last())
                &&& final(self).messages@.last().content@ == trimmed_of(old(self).input_buffer@)
                &&& final(self).input_buffer@.len() == 0
                &&& final(self).is_loading
                &&& final(self).error.is_none()
                &&& final(self).request_generation == old(self).request_generation + 1
                &&& final(self).streaming_response@.len() == 0
                &&& final(self).visible == old(self).visible
                &&& final(self).attach_screenshot == old(self).attach_screenshot
                &&& final(self).game_name == old(self).game_name
                &&& final(self).captured_screenshot == old(self).captured_screenshot
                &&& if old(self).attach_screenshot {
                    &&& r == SendAction::AwaitCapture {
                        generation: final(self).request_generation,
                    }
                    &&& final(self).capture_pending
                    &&& final(self).capture_wait_frames == CAPTURE_SETTLE_FRAMES
                    &&& final(self).send_pending_capture
                } else {
                    &&& r == SendAction::SpawnRequest { generation: final(self).request_generation }
                    &&& final(self).capture_pending == old(self).capture_pending
                    &&& final(self).capture_wait_frames == old(self).capture_wait_frames
                    &&& final(self).send_pending_capture == old(self).send_pending_capture
                }
            },
    {
        let text = trim(self.input_buffer.as_str());
        if text.unicode_len() == 0 {
            return SendAction::Ignored;
        }
        self.messages.push(ChatMessage { role: MessageRole::User, content: text });
        self.input_buffer = String::new();
        self.is_loading = true;
        self.error = None;
        self.request_generation = self.request_generation + 1;
        self.streaming_response = String::new();
        assert(self.messages@.drop_last() =~= old(self).messages@);
        if self.attach_screenshot {
            self.capture_pending = true;
            self.capture_wait_frames = CAPTURE_SETTLE_FRAMES;
            self.send_pending_capture = true;
            SendAction::AwaitCapture { generation: self.request_generation }
        } else {
            SendAction::SpawnRequest { generation: self.request_generation }
        }
    }

    /// Stops waiting for the request in flight: keeps any partial reply as a
    /// committed assistant message marked as cancelled, and bumps the
    /// generation so that the task's later writes are dropped.
    pub fn cancel(&mut self)
        requires
            old(self).well_formed(),
            old(self).request_generation < u64::MAX,
        ensures
            final(self).well_formed(),
            old(self).streaming_response@.len() > 0 ==> {
                &&& final(self).messages@.drop_last() == old(self).messages@
                &&& !is_user(final(self).messages@.last())
                &&& final(self).messages@.last().content@ == cancelled_text(
                    old(self).streaming_response@,
                )
            },
            old(self).streaming_response@.len() == 0 ==> final(self).messages@ == old(self).messages@,
            final(self).streaming_response@.len() == 0,
            opt_text(final(self).error) == Some("Cancelled."@),
            !final(self).is_loading,
            final(self).request_generation == old(self).request_generation + 1,
            final(self).visible == old(self).visible,
            final(self).input_buffer == old(self).input_buffer,
            final(self).attach_screenshot == old(self).attach_screenshot,
            final(self).game_name == old(self).game_name,
            final(self).capture_pending == old(self).capture_pending,
            final(self).capture_wait_frames == old(self).capture_wait_frames,
            final(self).captured_screenshot == old(self).captured_screenshot,
            final(self).send_pending_capture == old(self).send_pending_capture,
    {
        if self.streaming_response.unicode_len() > 0 {
            let partial = self.streaming_response.clone().concat(" [cancelled]");
            self.messages.push(ChatMessage { role: MessageRole::Assistant, content: partial });
            self.streaming_response = String::new();
            assert(self.messages@.drop_last() =~= old(self).messages@);
        }
        self.is_loading = false;
        self.request_generation = self.request_generation + 1;
        self.error = Some(String::from_str("Cancelled."));
    }

    /// Empties the conversation and abandons any request in flight.
    pub fn clear_chat(&mut self)
        requires
            old(self).request_generation < u64::MAX,
        ensures
            final(self).well_formed(),
            final(self).messages@.len() == 0,
            final(self).streaming_response@.len() == 0,
            final(self).error.is_none(),
            !final(self).is_loading,
            final(self).request_generation == old(self).request_generation + 1,
            final(self).visible == old(self).visible,
            final(self).input_buffer == old(self).input_buffer,
            final(self).attach_screenshot == old(self).attach_screenshot,
            final(self).game_name == old(self).game_name,
            final(self).capture_pending == old(self).capture_pending,
            final(self).capture_wait_frames == old(self).capture_wait_frames,
            final(self).captured_screenshot == old(self).captured_screenshot,
            final(self).send_pending_capture == old(self).send_pending_capture,
    {
        self.messages = Vec::new();
        self.error = None;
        self.is_loading = false;
        self.streaming_response = String::new();
        self.request_generation = self.request_generation + 1;
    }

    /// A streamed fragment from the task of `generation`. It is appended only
    /// while that generation is current and a request is in flight; otherwise
    /// nothing changes and `false` tells the task it was cancelled.
    pub fn append_chunk(&mut self, generation: u64, text: &str) -> (r: bool)
        ensures
            r == (old(self).request_generation == generation && old(self).is_loading),
            r ==> *final(self) == (AppState {
                streaming_response: final(self).streaming_response,
                ..*old(self)
            }),
            r ==> final(self).streaming_response@ == old(self).streaming_response@ + text@,
            !r ==> *final(self) == *old(self),
            old(self).well_formed() ==> final(self).well_formed(),
    {
        if self.request_generation != generation || !self.is_loading {
            return false;
        }
        self.streaming_response.append(text);
        true
    }

    /// The outcome of the task of `generation`. It is applied only while that
    /// generation is current and a request is in flight: a reply becomes an
    /// assistant message; a failure keeps any partial reply as one and sets
    /// the error. Returns whether it was applied.
    pub fn finish_request(&mut self, generation: u64, outcome: Result<String, String>) -> (r: bool)
        requires
            old(self).well_formed(),
        ensures
            final(self).well_formed(),
            r == (old(self).request_generation == generation && old(self).is_loading),
            !r ==> *final(self) == *old(self),
            r ==> {
                &&& !final(self).is_loading
                &&& final(self).streaming_response@.len() == 0
                &&& final(self).request_generation == old(self).request_generation
                &&& final(self).visible == old(self).visible
                &&& final(self).input_buffer == old(self).input_buffer
                &&& final(self).attach_screenshot == old(self).attach_screenshot
                &&& final(self).game_name == old(self).game_name
                &&& final(self).capture_pending == old(self).capture_pending
                &&& final(self).capture_wait_frames == old(self).capture_wait_frames
                &&& final(self).captured_screenshot == old(self).captured_screenshot
                &&& final(self).send_pending_capture == old(self).send_pending_capture
                &&& match outcome {
                    Ok(reply) => {
                        &&& final(self).messages@.drop_last() == old(self).messages@
                        &&& !is_user(final(self).messages@.last())
                        &&& final(self).messages@.last().content@ == reply@
                        &&& final(self).error == old(self).error
                    },
                    Err(e) => {
                        &&& opt_text(final(self).error) == Some(e@)
                        &&& if old(self).streaming_response@.len() > 0 {
                            &&& final(self).messages@.drop_last() == old(self).messages@
                            &&& !is_user(final(self).messages@.last())
                            &&& final(self).messages@.last().content@
                                == old(self).streaming_response@
                        } else {
                            final(self).messages@ == old(self).messages@
                        }
                    },
                }
            },
    {
        if self.request_generation != generation || !self.is_loading {
            return false;
        }
        match outcome {
            Ok(reply) => {
                self.messages.push(ChatMessage { role: MessageRole::Assistant, content: reply });
            },
            Err(e) => {
                if self.streaming_response.unicode_len() > 0 {
                    let partial = self.streaming_response.clone();
                    self.messages.push(
                        ChatMessage { role: MessageRole::Assistant, content: partial },
                    );
                }
                self.error = Some(e);
            },
        }
        assert(self.messages@.len() > old(self).messages@.len() ==> self.messages@.drop_last()
            =~= old(self).messages@);
        self.streaming_response = String::new();
        self.is_loading = false;
        true
    }

    /// Called at the start of every frame: reports whether to draw, and
    /// counts down the frames that settle before a capture.
    pub fn begin_frame(&mut self) -> (r: FrameStep)
        ensures
            r == frame_step_of(*old(self)),
            *final(self) == after_frame(*old(self)),
    {
        if self.capture_pending {
            if self.capture_wait_frames > 0 {
                self.capture_wait_frames = self.capture_wait_frames - 1;
            }
            if self.capture_wait_frames == 0 {
                FrameStep::CaptureNow
            } else {
                FrameStep::HoldForCapture
            }
        } else if self.visible {
            FrameStep::Draw
        } else {
            FrameStep::Hidden
        }
    }

    /// Records a finished capture (`None` when it failed) in
    /// `captured_screenshot`. A send that waited for it is handed back to be
    /// spawned, with a copy of the screenshot if there is one; a failed
    /// capture is reported and the send goes out as text only.
    pub fn capture_finished(&mut self, shot: Option<String>) -> (r: Option<PendingRequest>)
        requires
            old(self).well_formed(),
        ensures
            final(self).well_formed(),
            !final(self).capture_pending,
            !final(self).send_pending_capture,
            shot.is_none() ==> opt_text(final(self).error) == Some(
                "Screenshot capture failed \u{2014} sending text only."@,
            ),
            shot.is_some() ==> final(self).error == old(self).error,
            old(self).send_pending_capture ==> {
                &&& r.is_some()
                &&& r.unwrap().generation == old(self).request_generation
                &&& opt_text(r.unwrap().screenshot) == opt_text(shot)
            },
            !old(self).send_pending_capture ==> r.is_none(),
            opt_text(final(self).captured_screenshot) == opt_text(shot),
            final(self).messages == old(self).messages,
            final(self).is_loading == old(self).is_loading,
            final(self).streaming_response == old(self).streaming_response,
            final(self).request_generation == old(self).request_generation,
            final(self).visible == old(self).visible,
            final(self).input_buffer == old(self).input_buffer,
            final(self).attach_screenshot == old(self).attach_screenshot,
            final(self).game_name == old(self).game_name,
            final(self).capture_wait_frames == old(self).capture_wait_frames,
    {
        self.capture_pending = false;
        if shot.is_none() {
            self.error = Some(String::from_str("Screenshot capture failed \u{2014} sending text only."));
        }
        let handed = match &shot {
            Some(t) => Some(t.clone()),
            None => None,
        };
        self.captured_screenshot = shot;
        if self.send_pending_capture {
            self.send_pending_capture = false;
            Some(PendingRequest { generation: self.request_generation, screenshot: handed })
        } else {
            None
        }
    }

    /// Content of the latest user message, or empty text.
    pub fn last_user_text(&self) -> (r: String)
        ensures
            r@ == last_user_content(self.messages@),
    {
        let mut i: usize = self.messages.len();
        assert(self.messages@.subrange(0, i as int) =~= self.messages@);
        while i > 0
            invariant
                i <= self.messages@.len(),
                last_user_content(self.messages@) == last_user_content(
                    self.messages@.subrange(0, i as int),
                ),
            decreases i,
        {
            let m = &self.messages[i - 1];
            proof {
                let pre = self.messages@.subrange(0, i as int);
                assert(pre.last() == self.messages@[i - 1]);
                assert(pre.drop_last() =~= self.messages@.subrange(0, i - 1));
            }
            if m.role == MessageRole::User {
                return m.content.clone();
            }
            i = i - 1;
        }
        assert(self.messages@.subrange(0, 0) =~= Seq::<ChatMessage>::empty());
        String::new()
    }
}

/// Once the generation has moved past `g`, it never comes back to `g`: every
/// operation keeps it or raises it, so a task spawned with `g` has every
/// later write refused by `append_chunk` and `finish_request`.
pub proof fn lemma_superseded_task_stays_silent(trace: Seq<AppState>, g: u64)
    requires
        trace.len() > 0,
        trace[0].request_generation > g,
        forall|i: int|
            0 <= i < trace.len() - 1 ==> trace[i].request_generation <= (#[trigger] trace[i
                + 1]).request_generation,
    ensures
        forall|i: int| 0 <= i < trace.len() ==> (#[trigger] trace[i]).request_generation != g,
{
    assert forall|i: int| 0 <= i < trace.len() implies (#[trigger] trace[i]).request_generation
        > g by {
        lemma_generation_bound(trace, g, i);
    }
}

proof fn lemma_generation_bound(trace: Seq<AppState>, g: u64, i: int)
    requires
        0 <= i < trace.len(),
        trace[0].request_generation > g,
        forall|k: int|
            0 <= k < trace.len() - 1 ==> trace[k].request_generation <= (#[trigger] trace[k
                + 1]).request_generation,
    ensures
        trace[i].request_generation > g,
    decreases i,
{
    if i > 0 {
        lemma_generation_bound(trace, g, i - 1);
        assert(trace[i - 1].request_generation <= trace[(i - 1) + 1].request_generation);
    }
}

} // verus!
