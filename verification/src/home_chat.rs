use vstd::prelude::*;
use crate::chat_models::{Message, MessageRole, MessageView};
use crate::text::{trim_text, text_equals, trimmed, all_whitespace, lemma_trimmed_empty};

verus! {

/// The two answering modes of the home page.
#[derive(Debug, Clone, Copy, PartialEq, Eq, Structural)]
pub enum ChatMode {
    Developer,
    General,
}

/// The home page conversation as the contracts see it.
pub struct ChatView {
    pub mode: ChatMode,
    pub input: Seq<char>,
    pub messages: Seq<MessageView>,
    pub is_loading: bool,
    pub next_id: u64,
}

/// The role of the message at position `i`: user messages and replies
/// alternate, starting with the user.
pub open spec fn role_at(i: int) -> MessageRole {
    if i % 2 == 0 {
        MessageRole::User
    } else {
        MessageRole::Assistant
    }
}

/// The conversation invariant: each message's id is its position, the next
/// id is the number of messages, user messages and replies alternate
/// starting with the user, and a reply is awaited exactly when the last
/// message is the user's (an odd number of messages).
pub open spec fn chat_wf(v: ChatView) -> bool {
    &&& v.next_id == v.messages.len()
    &&& forall|i: int| 0 <= i < v.messages.len() ==> (#[trigger] v.messages[i]).id == i
    &&& forall|i: int| 0 <= i < v.messages.len() ==> (#[trigger] v.messages[i]).role == role_at(i)
    &&& v.is_loading == (v.messages.len() % 2 == 1)
}

/// Whether sending now posts a message: the trimmed input is not empty and
/// no reply is awaited.
pub open spec fn send_posts(v: ChatView) -> bool {
    trimmed(v.input).len() > 0 && !v.is_loading
}

/// The state after the user presses send, and the text handed to the reply
/// service if a message was posted.
pub open spec fn send_step(v: ChatView) -> (ChatView, Option<Seq<char>>) {
    if send_posts(v) {
        let text = trimmed(v.input);
        (
            ChatView {
                mode: v.mode,
                input: Seq::empty(),
                messages: v.messages.push(
                    MessageView { id: v.next_id, role: MessageRole::User, content: text },
                ),
                is_loading: true,
                next_id: (v.next_id + 1) as u64,
            },
            Some(text),
        )
    } else {
        (v, None)
    }
}

/// The state after a reply arrives: it is appended as an assistant message
/// and the conversation stops waiting.
pub open spec fn reply_step(v: ChatView, reply: Seq<char>) -> ChatView {
    ChatView {
        mode: v.mode,
        input: v.input,
        messages: v.messages.push(
            MessageView { id: v.next_id, role: MessageRole::Assistant, content: reply },
        ),
        is_loading: false,
        next_id: (v.next_id + 1) as u64,
    }
}

/// The text shown when the reply service fails.
pub open spec fn reply_failure_text() -> Seq<char> {
    "Something went wrong. Please try again."@
}

/// The text appended for a reply: the reply itself, or the failure text.
pub open spec fn reply_text<E>(reply: Result<String, E>) -> Seq<char> {
    match reply {
        Ok(text) => text@,
        Err(_) => reply_failure_text(),
    }
}

/// The label of the mode button in the header.
pub open spec fn mode_label_text(mode: ChatMode) -> Seq<char> {
    match mode {
        ChatMode::Developer => "🦀 Developer mode"@,
        ChatMode::General => "⊕ General mode"@,
    }
}

/// The conversation state of the home page.
pub struct ChatState {
    mode: ChatMode,
    input: String,
    messages: Vec<Message>,
    is_loading: bool,
    next_id: u64,
}

impl View for ChatState {
    type V = ChatView;

    closed spec fn view(&self) -> ChatView {
        ChatView {
            mode: self.mode,
            input: self.input@,
            messages: self.messages@.map_values(|m: Message| m@),
            is_loading: self.is_loading,
            next_id: self.next_id,
        }
    }
}

impl ChatState {
    /// A fresh conversation: developer mode, empty input, no messages.
    pub fn new() -> (s: ChatState)
        ensures
            s@.mode == ChatMode::Developer,
            s@.input == Seq::<char>::empty(),
            s@.messages == Seq::<MessageView>::empty(),
            !s@.is_loading,
            s@.next_id == 0,
            chat_wf(s@),
    {
        let s = ChatState {
            mode: ChatMode::Developer,
            input: String::new(),
            messages: Vec::new(),
            is_loading: false,
            next_id: 0,
        };
        assert(s@.messages =~= Seq::<MessageView>::empty());
        s
    }

    /// The current mode.
    pub fn mode(&self) -> (m: ChatMode)
        ensures
            m == self@.mode,
    {
        self.mode
    }

    /// The text in the input box.
    pub fn input(&self) -> (t: &str)
        ensures
            t@ == self@.input,
    {
        self.input.as_str()
    }

    /// The conversation so far, oldest first.
    pub fn messages(&self) -> (ms: &Vec<Message>)
        ensures
            ms@.map_values(|m: Message| m@) == self@.messages,
    {
        &self.messages
    }

    /// The id the next message will get.
    pub fn next_id(&self) -> (id: u64)
        ensures
            id == self@.next_id,
    {
        self.next_id
    }

    /// Whether a reply is awaited.
    pub fn is_loading(&self) -> (b: bool)
        ensures
            b == self@.is_loading,
    {
        self.is_loading
    }

    /// Whether the page shows its empty-state greeting: no messages and no
    /// reply awaited.
    pub fn shows_empty_state(&self) -> (b: bool)
        ensures
            b == (self@.messages.len() == 0 && !self@.is_loading),
    {
        self.messages.len() == 0 && !self.is_loading
    }

    /// Whether sending now would post a message: the trimmed input is not
    /// empty and no reply is awaited.
    pub fn posts_on_send(&self) -> (b: bool)
        ensures
            b == send_posts(self@),
    {
        let text = trim_text(self.input.as_str());
        !text.is_empty() && !self.is_loading
    }

    /// Replaces the text of the input box.
    pub fn set_input(&mut self, text: String)
        ensures
            final(self)@ == (ChatView { input: text@, ..old(self)@ }),
            chat_wf(old(self)@) ==> chat_wf(final(self)@),
    {
        self.input = text;
    }

    /// Switches the answering mode.
    pub fn set_mode(&mut self, mode: ChatMode)
        ensures
            final(self)@ == (ChatView { mode: mode, ..old(self)@ }),
            chat_wf(old(self)@) ==> chat_wf(final(self)@),
    {
        self.mode = mode;
    }

    /// Sends the input: when the trimmed input is not empty and no reply is
    /// awaited, posts it as a user message, clears the input, starts waiting
    /// and returns the text to ask a reply for; otherwise changes nothing.
    pub fn send_message(&mut self) -> (request: Option<String>)
        requires
            chat_wf(old(self)@),
            send_posts(old(self)@) ==> old(self)@.next_id < u64::MAX,
        ensures
            final(self)@ == send_step(old(self)@).0,
            request is Some <==> send_step(old(self)@).1 is Some,
            request matches Some(t) ==> t@ == send_step(old(self)@).1->0,
            chat_wf(final(self)@),
    {
        let ghost pre = self@;
        let text_slice = trim_text(self.input.as_str());
        if text_slice.is_empty() || self.is_loading {
            return None;
        }
        let text = String::from_str(text_slice);
        let user_id = self.next_id;
        self.next_id = self.next_id + 1;
        self.messages.push(Message { id: user_id, role: MessageRole::User, content: text.clone() });
        self.input = String::new();
        self.is_loading = true;
        proof {
            lemma_send_keeps_wf(pre);
            assert(self@.messages =~= send_step(pre).0.messages);
            assert(self@.input =~= send_step(pre).0.input);
        }
        Some(text)
    }

    /// Appends a reply as an assistant message (the failure text when the
    /// reply service failed) and stops waiting.
    pub fn receive_reply<E>(&mut self, reply: Result<String, E>)
        requires
            chat_wf(old(self)@),
            old(self)@.is_loading,
            old(self)@.next_id < u64::MAX,
        ensures
            final(self)@ == reply_step(old(self)@, reply_text(reply)),
            chat_wf(final(self)@),
    {
        let ghost pre = self@;
        let ghost text = reply_text(reply);
        let content = match reply {
            Ok(t) => t,
            Err(_) => String::from_str("Something went wrong. Please try again."),
        };
        let reply_id = self.next_id;
        self.next_id = self.next_id + 1;
        self.messages.push(Message { id: reply_id, role: MessageRole::Assistant, content });
        self.is_loading = false;
        proof {
            lemma_reply_keeps_wf(pre, text);
            assert(self@.messages =~= reply_step(pre, text).messages);
        }
    }
}

/// The label of the mode button in the header.
pub fn mode_label(mode: ChatMode) -> (label: &'static str)
    ensures
        label@ == mode_label_text(mode),
{
    match mode {
        ChatMode::Developer => "🦀 Developer mode",
        ChatMode::General => "⊕ General mode",
    }
}

/// Whether the mode button for `button` is shown as selected.
pub fn is_mode_selected(current: ChatMode, button: ChatMode) -> (selected: bool)
    ensures
        selected == (current == button),
{
    current == button
}

/// Whether a key press in the input box sends: Enter without Shift.
pub fn is_send_key(key: &str, shift: bool) -> (sends: bool)
    ensures
        sends == (key@ == "Enter"@ && !shift),
{
    text_equals(key, "Enter") && !shift
}

/// Sending keeps the conversation invariant.
pub proof fn lemma_send_keeps_wf(v: ChatView)
    requires
        chat_wf(v),
        send_posts(v) ==> v.next_id < u64::MAX,
    ensures
        chat_wf(send_step(v).0),
{
}

/// Receiving the awaited reply keeps the conversation invariant.
pub proof fn lemma_reply_keeps_wf(v: ChatView, reply: Seq<char>)
    requires
        chat_wf(v),
        v.is_loading,
        v.next_id < u64::MAX,
    ensures
        chat_wf(reply_step(v, reply)),
{
}

/// In a well-formed conversation message ids strictly increase along the
/// history, hence no two messages share one, and every id is below the next
/// id to hand out.
pub proof fn lemma_ids_increasing(v: ChatView, i: int, j: int)
    requires
        chat_wf(v),
        0 <= i < j < v.messages.len(),
    ensures
        v.messages[i].id < v.messages[j].id,
        v.messages[j].id < v.next_id,
{
    assert(v.messages[i].id == i);
    assert(v.messages[j].id == j);
}

/// In a well-formed conversation user messages and replies alternate,
/// starting with the user, and a reply is awaited exactly when there is one
/// more user message than replies.
pub proof fn lemma_roles_alternate(v: ChatView, i: int)
    requires
        chat_wf(v),
        0 <= i < v.messages.len(),
    ensures
        v.messages[i].role == (if i % 2 == 0 {
            MessageRole::User
        } else {
            MessageRole::Assistant
        }),
        v.is_loading <==> v.messages.len() % 2 == 1,
        v.is_loading ==> v.messages.last().role == MessageRole::User,
        !v.is_loading && v.messages.len() > 0 ==> v.messages.last().role
            == MessageRole::Assistant,
{
    assert(v.messages[i].role == role_at(i));
    if v.messages.len() > 0 {
        assert(v.messages[v.messages.len() - 1].role == role_at(v.messages.len() - 1));
    }
}

/// The history only grows: sending or receiving keeps every earlier message
/// in place.
pub proof fn lemma_history_append_only(v: ChatView, reply: Seq<char>)
    ensures
        send_step(v).0.messages.len() >= v.messages.len(),
        send_step(v).0.messages.subrange(0, v.messages.len() as int) == v.messages,
        reply_step(v, reply).messages.len() == v.messages.len() + 1,
        reply_step(v, reply).messages.subrange(0, v.messages.len() as int) == v.messages,
{
    assert(send_step(v).0.messages.subrange(0, v.messages.len() as int) =~= v.messages);
    assert(reply_step(v, reply).messages.subrange(0, v.messages.len() as int) =~= v.messages);
}

/// Sending a blank (all-whitespace) input, or sending while a reply is
/// awaited, changes nothing and asks for no reply.
pub proof fn lemma_blank_or_busy_send_is_noop(v: ChatView)
    requires
        all_whitespace(v.input) || v.is_loading,
    ensures
        send_step(v) == (v, Option::<Seq<char>>::None),
{
    lemma_trimmed_empty(v.input);
}

/// At most one reply is awaited at a time: right after a send that asked for
/// a reply, another send asks for none.
pub proof fn lemma_one_request_in_flight(v: ChatView)
    requires
        send_step(v).1 is Some,
    ensures
        send_step(send_step(v).0).1 is None,
        send_step(send_step(v).0).0 == send_step(v).0,
{
}

/// A send followed by its reply appends exactly the user's trimmed message
/// and the reply, with consecutive ids, and leaves the page idle with an
/// empty input.
pub proof fn lemma_send_then_reply(v: ChatView, reply: Seq<char>)
    requires
        send_posts(v),
    ensures
        ({
            let w = reply_step(send_step(v).0, reply);
            &&& send_step(v).1 == Some(trimmed(v.input))
            &&& w.messages == v.messages
                + seq![
                MessageView { id: v.next_id, role: MessageRole::User, content: trimmed(v.input) },
                MessageView {
                    id: (v.next_id + 1) as u64,
                    role: MessageRole::Assistant,
                    content: reply,
                },
            ]
            &&& !w.is_loading
            &&& w.input == Seq::<char>::empty()
            &&& w.mode == v.mode
        }),
{
    let w = reply_step(send_step(v).0, reply);
    assert(w.messages =~= v.messages + seq![
        MessageView { id: v.next_id, role: MessageRole::User, content: trimmed(v.input) },
        MessageView { id: (v.next_id + 1) as u64, role: MessageRole::Assistant, content: reply },
    ]);
}

/// Sending from an idle state posts exactly when the input holds a
/// non-whitespace character, whatever its length or content: the trimmed
/// text is handed to the reply service and appended as the next user
/// message, the input is cleared, the page starts waiting, and the mode is
/// kept.
pub proof fn lemma_idle_send_posts_trimmed_input(v: ChatView)
    requires
        !v.is_loading,
        !all_whitespace(v.input),
        v.next_id < u64::MAX,
    ensures
        send_posts(v),
        send_step(v).1 == Some(trimmed(v.input)),
        send_step(v).0.messages == v.messages.push(
            MessageView { id: v.next_id, role: MessageRole::User, content: trimmed(v.input) },
        ),
        send_step(v).0.input == Seq::<char>::empty(),
        send_step(v).0.is_loading,
        send_step(v).0.mode == v.mode,
        send_step(v).0.next_id == v.next_id + 1,
{
    lemma_trimmed_empty(v.input);
}

/// Whether a send posts depends only on the input being blank and on a
/// reply being awaited.
pub proof fn lemma_send_posts_iff(v: ChatView)
    ensures
        send_posts(v) <==> (!all_whitespace(v.input) && !v.is_loading),
{
    lemma_trimmed_empty(v.input);
}

/// Receiving a reply appends it as the next assistant message, stops the
/// wait, and leaves the input box (a draft typed while waiting) and the mode
/// as they were.
pub proof fn lemma_reply_keeps_draft(v: ChatView, reply: Seq<char>)
    requires
        v.next_id < u64::MAX,
    ensures
        reply_step(v, reply).input == v.input,
        reply_step(v, reply).mode == v.mode,
        !reply_step(v, reply).is_loading,
        reply_step(v, reply).messages == v.messages.push(
            MessageView { id: v.next_id, role: MessageRole::Assistant, content: reply },
        ),
        reply_step(v, reply).next_id == v.next_id + 1,
{
}

} // verus!
