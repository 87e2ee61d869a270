//! Conversations with a model.
use crate::capability;
use crate::capability::ModelCapability;
use crate::error;
use crate::error::ApiError;
use crate::identity;
use crate::intent;
use crate::lookup;
use crate::order;
use crate::pack;
use crate::text;
use vstd::prelude::*;
use vstd::string::*;

verus! {

/// A message of a conversation.
#[derive(Debug)]
pub struct ChatMessage {
    pub id: u128,
    pub role: String,
    pub content: String,
    pub attachment_ids: Vec<u128>,
    pub created_at: u64,
}

/// What [`ChatMessage`] says.
#[verifier::ext_equal]
pub struct MessageView {
    pub id: u128,
    pub role: Seq<char>,
    pub content: Seq<char>,
    pub attachment_ids: Seq<u128>,
    pub created_at: u64,
}

impl View for ChatMessage {
    type V = MessageView;

    open spec fn view(&self) -> MessageView {
        MessageView {
            id: self.id,
            role: self.role@,
            content: self.content@,
            attachment_ids: self.attachment_ids@,
            created_at: self.created_at,
        }
    }
}

impl ChatMessage {
    /// A copy of the value.
    pub fn copy(&self) -> (copy: Self)
        ensures
            copy@ == self@,
    {
        ChatMessage {
            id: self.id,
            role: self.role.clone(),
            content: self.content.clone(),
            attachment_ids: lookup::copy_ids(&self.attachment_ids),
            created_at: self.created_at,
        }
    }
}

/// What a list of messages says.
pub open spec fn messages_view(list: Seq<ChatMessage>) -> Seq<MessageView> {
    Seq::new(list.len(), |i: int| list[i]@)
}

/// A copy of a list of messages.
pub fn copy_messages(list: &Vec<ChatMessage>) -> (copy: Vec<ChatMessage>)
    ensures
        messages_view(copy@) == messages_view(list@),
{
    let mut copy: Vec<ChatMessage> = Vec::new();
    for i in 0..list.len()
        invariant
            copy@.len() == i,
            forall|j: int| 0 <= j < i ==> (#[trigger] copy@[j])@ == list@[j]@,
    {
        copy.push(list[i].copy());
    }
    assert(messages_view(copy@) =~= messages_view(list@));
    copy
}

/// A conversation.
#[derive(Debug)]
pub struct ChatSession {
    pub id: u128,
    pub title: String,
    pub model_id: String,
    pub messages: Vec<ChatMessage>,
    pub created_at: u64,
    pub updated_at: u64,
}

/// What [`ChatSession`] says.
#[verifier::ext_equal]
pub struct ChatView {
    pub id: u128,
    pub title: Seq<char>,
    pub model_id: Seq<char>,
    pub messages: Seq<MessageView>,
    pub created_at: u64,
    pub updated_at: u64,
}

impl View for ChatSession {
    type V = ChatView;

    open spec fn view(&self) -> ChatView {
        ChatView {
            id: self.id,
            title: self.title@,
            model_id: self.model_id@,
            messages: messages_view(self.messages@),
            created_at: self.created_at,
            updated_at: self.updated_at,
        }
    }
}

impl ChatSession {
    /// A copy of the value.
    pub fn copy(&self) -> (copy: Self)
        ensures
            copy@ == self@,
    {
        ChatSession {
            id: self.id,
            title: self.title.clone(),
            model_id: self.model_id.clone(),
            messages: copy_messages(&self.messages),
            created_at: self.created_at,
            updated_at: self.updated_at,
        }
    }
}

/// What a conversation is to be.
#[derive(Debug)]
pub struct CreateChatInput {
    pub title: Option<String>,
    pub model_id: Option<String>,
}

/// What [`CreateChatInput`] says.
#[verifier::ext_equal]
pub struct CreateChatView {
    pub title: Option<Seq<char>>,
    pub model_id: Option<Seq<char>>,
}

impl View for CreateChatInput {
    type V = CreateChatView;

    open spec fn view(&self) -> CreateChatView {
        CreateChatView {
            title: text::opt(self.title),
            model_id: text::opt(self.model_id),
        }
    }
}

impl CreateChatInput {
    /// A copy of the value.
    pub fn copy(&self) -> (copy: Self)
        ensures
            copy@ == self@,
    {
        CreateChatInput {
            title: text::copy_opt(&self.title),
            model_id: text::copy_opt(&self.model_id),
        }
    }
}

/// A message that is sent.
#[derive(Debug)]
pub struct SendMessageInput {
    pub content: String,
    pub attachment_ids: Vec<u128>,
}

/// What [`SendMessageInput`] says.
#[verifier::ext_equal]
pub struct SendMessageView {
    pub content: Seq<char>,
    pub attachment_ids: Seq<u128>,
}

impl View for SendMessageInput {
    type V = SendMessageView;

    open spec fn view(&self) -> SendMessageView {
        SendMessageView {
            content: self.content@,
            attachment_ids: self.attachment_ids@,
        }
    }
}

impl SendMessageInput {
    /// A copy of the value.
    pub fn copy(&self) -> (copy: Self)
        ensures
            copy@ == self@,
    {
        SendMessageInput {
            content: self.content.clone(),
            attachment_ids: lookup::copy_ids(&self.attachment_ids),
        }
    }
}

/// Chats by their identifiers.
pub struct Chats {
    pub list: Vec<ChatSession>,
}

/// The identifiers of conversations.
pub open spec fn ids(list: Seq<ChatView>) -> Seq<u128> {
    Seq::new(list.len(), |i: int| list[i].id)
}

/// Where one of conversations stands.
pub open spec fn place(list: Seq<ChatView>, id: u128) -> Option<int> {
    lookup::place(ids(list), id)
}

/// When conversations were created.
pub open spec fn creations(list: Seq<ChatView>) -> Seq<u64> {
    Seq::new(list.len(), |i: int| list[i].created_at)
}

/// When conversations were changed last.
pub open spec fn changes(list: Seq<ChatView>) -> Seq<u64> {
    Seq::new(list.len(), |i: int| list[i].updated_at)
}

/// Whether a list is that of all conversations, the last changed first.
pub open spec fn is_listing(listing: Seq<ChatView>, list: Seq<ChatView>) -> bool {
    exists|order: Seq<usize>|
        order::stable(order, list.len(), order::falling(changes(list))) && listing
            == #[trigger] order::picked(list, order)
}

/// Whether a list is that of all conversations, the oldest first.
pub open spec fn is_record(record: Seq<ChatView>, list: Seq<ChatView>) -> bool {
    exists|order: Seq<usize>|
        order::stable(order, list.len(), order::rising(creations(list))) && record
            == #[trigger] order::picked(list, order)
}

/// What is said of one that is not known.
pub open spec fn unknown() -> (u16, Seq<char>) {
    (error::NOT_FOUND, "Conversation inconnue."@)
}

impl View for Chats {
    type V = Seq<ChatView>;

    open spec fn view(&self) -> Seq<ChatView> {
        Seq::new(self.list@.len(), |i: int| self.list@[i]@)
    }
}

impl Chats {
    /// No two have one identifier.
    pub open spec fn wf(&self) -> bool {
        lookup::distinct(ids(self@))
    }

    /// None.
    pub fn new() -> (all: Self)
        ensures
            all.wf(),
            all@ == Seq::<ChatView>::empty(),
    {
        let all = Chats { list: Vec::new() };
        assert(all@ =~= Seq::<ChatView>::empty());
        all
    }

    /// Where one stands.
    pub fn find(&self, id: u128) -> (at: Option<usize>)
        ensures
            match at {
                Some(k) => k < self@.len() && place(self@, id) == Some(k as int),
                None => place(self@, id) is None,
            },
    {
        for k in 0..self.list.len()
            invariant
                forall|j: int| 0 <= j < k ==> (#[trigger] self.list@[j])@.id != id,
        {
            if self.list[k].id == id {
                proof {
                    lookup::lemma_place_is(ids(self@), id, k as int);
                }
                return Some(k);
            }
        }
        proof {
            lookup::lemma_no_place(ids(self@), id);
        }
        None
    }

    /// Enters one, in place of one with the same identifier.
    pub fn insert(&mut self, entry: ChatSession)
        requires
            old(self).wf(),
        ensures
            final(self).wf(),
            final(self)@ == match place(old(self)@, entry@.id) {
                Some(at) => old(self)@.update(at, entry@),
                None => old(self)@.push(entry@),
            },
    {
        let ghost before = self@;
        let ghost entered = entry@;
        proof {
            lookup::lemma_place(ids(before), entered.id);
        }
        match self.find(entry.id) {
            Some(at) => {
                self.list.set(at, entry);
                assert(self@ =~= before.update(at as int, entered));
                assert(ids(self@) =~= ids(before));
            },
            None => {
                self.list.push(entry);
                assert(self@ =~= before.push(entered));
                assert forall|i: int| 0 <= i < before.len() implies before[i].id != entered.id by {
                    assert(ids(before)[i] == before[i].id);
                    assert(ids(before).contains(ids(before)[i]));
                }
                assert forall|i: int, j: int| 0 <= i < j < ids(self@).len() implies ids(self@)[i]
                    != ids(self@)[j] by {
                    assert(ids(before)[i] == before[i].id);
                    if j < before.len() {
                        assert(ids(before)[j] == before[j].id);
                    }
                }
            },
        }
    }

    fn in_order(&self, order: &Vec<usize>) -> (listing: Vec<ChatSession>)
        requires
            order::permutes(order@, self@.len()),
        ensures
            Seq::new(listing@.len(), |i: int| listing@[i]@) == order::picked(self@, order@),
    {
        let mut listing: Vec<ChatSession> = Vec::new();
        for n in 0..order.len()
            invariant
                order::permutes(order@, self@.len()),
                listing@.len() == n,
                forall|i: int|
                    0 <= i < n ==> (#[trigger] listing@[i])@ == self@[order@[i] as int],
        {
            let at: usize = order[n];
            listing.push(self.list[at].copy());
        }
        assert(Seq::new(listing@.len(), |i: int| listing@[i]@) =~= order::picked(self@, order@));
        listing
    }

    /// Copies of all, the last changed first.
    pub fn listing(&self) -> (listing: Vec<ChatSession>)
        ensures
            is_listing(Seq::new(listing@.len(), |i: int| listing@[i]@), self@),
    {
        let mut keys: Vec<u64> = Vec::new();
        for k in 0..self.list.len()
            invariant
                keys@.len() == k,
                forall|j: int| 0 <= j < k ==> keys@[j] == (#[trigger] self.list@[j])@.updated_at,
        {
            keys.push(self.list[k].updated_at);
        }
        assert(keys@ =~= changes(self@));
        let order = order::falling_order(&keys);
        self.in_order(&order)
    }

    /// Copies of all, the oldest first, as they are kept on the disk.
    pub fn record(&self) -> (record: Vec<ChatSession>)
        ensures
            is_record(Seq::new(record@.len(), |i: int| record@[i]@), self@),
    {
        let mut keys: Vec<u64> = Vec::new();
        for k in 0..self.list.len()
            invariant
                keys@.len() == k,
                forall|j: int| 0 <= j < k ==> keys@[j] == (#[trigger] self.list@[j])@.created_at,
        {
            keys.push(self.list[k].created_at);
        }
        assert(keys@ =~= creations(self@));
        let order = order::rising_order(&keys);
        self.in_order(&order)
    }

    /// A copy of one.
    pub fn get(&self, id: u128) -> (result: Result<ChatSession, ApiError>)
        ensures
            match result {
                Ok(entry) => place(self@, id) is Some && entry@ == self@[place(self@, id)->0],
                Err(refusal) => place(self@, id) is None && error::says(refusal) == unknown(),
            },
    {
        match self.find(id) {
            Some(at) => Ok(self.list[at].copy()),
            None => Err(ApiError::not_found("Conversation inconnue.".to_owned())),
        }
    }

    /// Forgets one; what belongs to it stays.
    pub fn delete(&mut self, id: u128) -> (result: Result<(), ApiError>)
        requires
            old(self).wf(),
        ensures
            final(self).wf(),
            match place(old(self)@, id) {
                Some(at) => result is Ok && final(self)@ == old(self)@.remove(at),
                None => *final(self) == *old(self) && pack::refused(result) == Some(unknown()),
            },
    {
        match self.find(id) {
            Some(at) => {
                let ghost before = self@;
                self.list.remove(at);
                assert(self@ =~= before.remove(at as int));
                assert forall|i: int, j: int| 0 <= i < j < ids(self@).len() implies ids(self@)[i]
                    != ids(self@)[j] by {
                    let a = if i < at {
                        i
                    } else {
                        i + 1
                    };
                    let b = if j < at {
                        j
                    } else {
                        j + 1
                    };
                    assert(ids(before)[a] != ids(before)[b]);
                }
                Ok(())
            },
            None => Err(ApiError::not_found("Conversation inconnue.".to_owned())),
        }
    }
}

// ---------------------------------------------------------------------------
// Beginning a conversation
// ---------------------------------------------------------------------------

/// The model that a conversation is held with where none is named.
pub const DEFAULT_MODEL: &'static str = "Qwen/Qwen2.5-0.5B-Instruct";

/// The title of a conversation that has none yet.
pub const UNTITLED: &'static str = "Nouvelle conversation";

/// The model that a conversation is to be held with.
pub fn chat_model(input: &CreateChatInput) -> (model_id: String)
    ensures
        model_id@ == match input@.model_id {
            Some(id) => id,
            None => DEFAULT_MODEL@,
        },
{
    match &input.model_id {
        Some(id) => id.clone(),
        None => DEFAULT_MODEL.to_owned(),
    }
}

/// A conversation that begins.
pub open spec fn begun(title: Option<Seq<char>>, model_id: Seq<char>, id: u128, now: u64) -> ChatView {
    ChatView {
        id,
        title: match title {
            Some(given) => given,
            None => UNTITLED@,
        },
        model_id,
        messages: Seq::empty(),
        created_at: now,
        updated_at: now,
    }
}

/// What a conversation, or the refusal of one, says.
pub open spec fn outcome(result: Result<ChatSession, ApiError>) -> Result<ChatView, (u16, Seq<char>)> {
    match result {
        Ok(chat) => Ok(chat@),
        Err(refusal) => Err(error::says(refusal)),
    }
}

/// A conversation with a model that can hold one. `capabilities` are those of the
/// model.
pub fn new_chat(
    input: &CreateChatInput,
    model_id: String,
    capabilities: &Vec<ModelCapability>,
    id: u128,
    now: u64,
) -> (result: Result<ChatSession, ApiError>)
    ensures
        outcome(result) == if capabilities@.contains(ModelCapability::Chat) {
            Ok(begun(input@.title, model_id@, id, now))
        } else {
            Err(mute_refusal())
        },
{
    if !capability::includes(capabilities, ModelCapability::Chat) {
        return Err(ApiError::bad_request("Modèle de chat inconnu.".to_owned()));
    }
    let chat = ChatSession {
        id,
        title: match &input.title {
            Some(given) => given.clone(),
            None => UNTITLED.to_owned(),
        },
        model_id,
        messages: Vec::new(),
        created_at: now,
        updated_at: now,
    };
    assert(chat@.messages =~= Seq::<MessageView>::empty());
    Ok(chat)
}

/// What is said of a model that cannot hold a conversation.
pub open spec fn mute_refusal() -> (u16, Seq<char>) {
    (error::BAD_REQUEST, "Modèle de chat inconnu."@)
}

impl Chats {
    /// Begins a conversation now, under a fresh identifier, and returns it.
    /// `capabilities` are those of the model.
    pub fn create_chat(
        &mut self,
        input: &CreateChatInput,
        model_id: String,
        capabilities: &Vec<ModelCapability>,
    ) -> (result: Result<ChatSession, ApiError>)
        requires
            old(self).wf(),
        ensures
            final(self).wf(),
            match result {
                Ok(chat) => capabilities@.contains(ModelCapability::Chat) && chat@ == begun(
                    input@.title,
                    model_id@,
                    chat.id,
                    chat.created_at,
                ) && final(self)@ == match place(old(self)@, chat.id) {
                    Some(at) => old(self)@.update(at, chat@),
                    None => old(self)@.push(chat@),
                },
                Err(refusal) => !capabilities@.contains(ModelCapability::Chat) && *final(self)
                    == *old(self) && error::says(refusal) == mute_refusal(),
            },
    {
        let id: u128 = identity::new_id();
        let now: u64 = identity::unix_now();
        match new_chat(input, model_id, capabilities, id, now) {
            Ok(chat) => {
                let copy = chat.copy();
                self.insert(copy);
                Ok(chat)
            },
            Err(refusal) => Err(refusal),
        }
    }
}

// ---------------------------------------------------------------------------
// A turn
// ---------------------------------------------------------------------------

/// Whether a message is refused: blank, or more than 4000 bytes once trimmed.
pub open spec fn message_refused(content: Seq<char>) -> bool {
    text::trimmed(content).len() == 0 || text::utf8_len(text::trimmed(content)) > 4000
}

/// What is said of a message that is refused.
pub open spec fn message_refusal() -> (u16, Seq<char>) {
    (error::BAD_REQUEST, "Le message doit contenir entre 1 et 4000 caractères."@)
}

/// The line that stands for a message in the context of the next one.
pub open spec fn line_of(message: MessageView) -> Seq<char> {
    message.role + ": "@ + message.content
}

/// The last of some messages, eight at most.
pub open spec fn recent(messages: Seq<MessageView>) -> Seq<MessageView> {
    if messages.len() <= 8 {
        messages
    } else {
        messages.skip(messages.len() - 8)
    }
}

/// The lines that stand for some messages.
pub open spec fn lines_of(messages: Seq<MessageView>) -> Seq<Seq<char>> {
    Seq::new(messages.len(), |i: int| line_of(messages[i]))
}

/// What the model is told of what was said before.
pub open spec fn history_of(messages: Seq<MessageView>) -> Seq<char> {
    text::joined(lines_of(recent(messages)), "\n"@)
}

fn history(messages: &Vec<ChatMessage>) -> (told: String)
    ensures
        told@ == history_of(messages_view(messages@)),
{
    let count: usize = messages.len();
    let first: usize = if count <= 8 {
        0
    } else {
        count - 8
    };
    let mut lines: Vec<String> = Vec::new();
    let ghost last = recent(messages_view(messages@));
    let mut i: usize = first;
    while i < count
        invariant
            count == messages@.len(),
            first <= i <= count,
            first == (if count <= 8 {
                0int
            } else {
                count - 8
            }),
            last == recent(messages_view(messages@)),
            lines@.len() == i - first,
            forall|j: int| 0 <= j < lines@.len() ==> (#[trigger] lines@[j])@ == line_of(last[j]),
        decreases count - i,
    {
        assert(last[i - first] == messages@[i as int]@);
        lines.push(
            text::concat3(messages[i].role.as_str(), ": ", messages[i].content.as_str()),
        );
        i = i + 1;
    }
    assert(text::texts(lines@) =~= lines_of(last));
    text::join(&lines, "\n")
}

/// What the model is asked: the message, after what was said before.
pub open spec fn question_of(messages: Seq<MessageView>, content: Seq<char>) -> Seq<char> {
    let told = history_of(messages);
    if told.len() == 0 {
        text::trimmed(content)
    } else {
        "Contexte récent :\n"@ + told + "\n\nUtilisateur : "@ + text::trimmed(content)
    }
}

/// The repository whose model answers: that of the model of the conversation, or
/// that of the usual one where it is not known any more.
pub fn answering_repository(found: Option<String>) -> (repository: String)
    ensures
        repository@ == match found {
            Some(known) => known@,
            None => DEFAULT_MODEL@,
        },
{
    match found {
        Some(known) => known,
        None => DEFAULT_MODEL.to_owned(),
    }
}

/// How a message is to be answered.
#[derive(Debug)]
pub enum Reply {
    /// With the suggestion of an action, which is not taken by itself.
    Suggest(&'static str, String),
    /// By a model, asked this.
    Ask(String, String),
}

/// What is said where an action is suggested.
pub open spec fn suggestion_text(action: Seq<char>) -> Seq<char> {
    "J’ai préparé une action "@ + action
        + ". Vérifiez le prompt et les paramètres, puis confirmez la génération dans le studio."@
}

/// The action that a message suggests.
pub open spec fn action_of(content: Seq<char>) -> Option<Seq<char>> {
    let lower = text::unicode_lowercase(text::trimmed(content));
    intent::suggestion(
        intent::mentions(lower, intent::video_words()),
        intent::mentions(lower, intent::image_words()),
    )
}

/// What is said of a conversation.
pub open spec fn conversation(list: Seq<ChatView>, id: u128) -> Option<ChatView> {
    match place(list, id) {
        Some(at) => Some(list[at]),
        None => None,
    }
}

impl Chats {
    /// Decides how a message to a conversation is answered: with the suggestion
    /// of an action where its words ask for one, else by the model of the
    /// conversation. `attachments` is the refusal of an attachment, if any.
    pub fn prepare_turn(&self, id: u128, content: &str, attachments: Result<(), ApiError>) -> (result:
        Result<Reply, ApiError>)
        ensures
            match result {
                Err(refusal) => if message_refused(content@) {
                    error::says(refusal) == message_refusal()
                } else {
                    match attachments {
                        Err(cause) => refusal == cause,
                        Ok(_) => conversation(self@, id) is None && error::says(refusal)
                            == unknown(),
                    }
                },
                Ok(reply) => {
                    &&& !message_refused(content@)
                    &&& attachments is Ok
                    &&& conversation(self@, id) matches Some(chat) && match action_of(content@) {
                        Some(action) => reply matches Reply::Suggest(name, told) && name@ == action
                            && told@ == suggestion_text(action),
                        None => reply matches Reply::Ask(model, question) && model@
                            == chat.model_id && question@ == question_of(chat.messages, content@),
                    }
                },
            },
    {
        let message = text::trim(content);
        if text::chars_of(message).len() == 0 || text::byte_len(message) > 4000 {
            return Err(
                ApiError::bad_request(
                    "Le message doit contenir entre 1 et 4000 caractères.".to_owned(),
                ),
            );
        }
        match attachments {
            Ok(_) => {},
            Err(cause) => {
                return Err(cause);
            },
        }
        match self.find(id) {
            None => Err(ApiError::not_found("Conversation inconnue.".to_owned())),
            Some(at) => {
                let chat = &self.list[at];
                match intent::suggested_action(message) {
                    Some(action) => {
                        let told = text::concat3(
                            "J’ai préparé une action ",
                            action,
                            ". Vérifiez le prompt et les paramètres, puis confirmez la génération dans le studio.",
                        );
                        Ok(Reply::Suggest(action, told))
                    },
                    None => {
                        let told = history(&chat.messages);
                        let question = if text::chars_of(told.as_str()).len() == 0 {
                            message.to_owned()
                        } else {
                            text::concat4(
                                "Contexte récent :\n",
                                told.as_str(),
                                "\n\nUtilisateur : ",
                                message,
                            )
                        };
                        Ok(Reply::Ask(chat.model_id.clone(), question))
                    },
                }
            },
        }
    }

    /// Enters a turn into a conversation: the message and the answer. A
    /// conversation without a title takes that of the message.
    pub fn finish_turn(&mut self, id: u128, user: ChatMessage, assistant: ChatMessage, now: u64) -> (result:
        Result<(), ApiError>)
        requires
            old(self).wf(),
        ensures
            final(self).wf(),
            match place(old(self)@, id) {
                Some(at) => result is Ok && final(self)@ == old(self)@.update(
                    at,
                    continued(old(self)@[at], user@, assistant@, now),
                ),
                None => *final(self) == *old(self) && pack::refused(result) == Some(unknown()),
            },
    {
        let ghost before = self@;
        let ghost (said, answered) = (user@, assistant@);
        proof {
            lookup::lemma_place(ids(before), id);
        }
        match self.find(id) {
            None => Err(ApiError::not_found("Conversation inconnue.".to_owned())),
            Some(at) => {
                let title = first_characters(user.content.as_str(), 48);
                let untitled = *self.list[at].title.as_str() == *UNTITLED;
                let ghost messages = self.list@[at as int].messages@;
                self.list[at].messages.push(user);
                self.list[at].messages.push(assistant);
                assert(messages_view(self.list@[at as int].messages@) =~= messages_view(
                    messages,
                ).push(said).push(answered));
                if untitled {
                    self.list[at].title = title;
                }
                self.list[at].updated_at = now;
                assert(self@ =~= before.update(
                    at as int,
                    continued(before[at as int], said, answered, now),
                ));
                assert(ids(self@) =~= ids(before));
                Ok(())
            },
        }
    }
}

/// A conversation after a turn.
pub open spec fn continued(
    chat: ChatView,
    user: MessageView,
    assistant: MessageView,
    now: u64,
) -> ChatView {
    ChatView {
        messages: chat.messages.push(user).push(assistant),
        title: if chat.title == UNTITLED@ {
            opening(user.content, 48)
        } else {
            chat.title
        },
        updated_at: now,
        ..chat
    }
}

/// The first characters of a text.
pub open spec fn opening(content: Seq<char>, count: int) -> Seq<char> {
    if content.len() <= count {
        content
    } else {
        content.take(count)
    }
}

fn first_characters(content: &str, count: usize) -> (result: String)
    ensures
        result@ == opening(content@, count as int),
{
    let length: usize = text::chars_of(content).len();
    if length <= count {
        content.to_owned()
    } else {
        let head = content.substring_char(0, count);
        assert(head@ =~= content@.take(count as int));
        head.to_owned()
    }
}

/// A message that a user sends, at some time and under some identifier.
pub open spec fn sent_at(id: u128, input: SendMessageView, now: u64) -> MessageView {
    MessageView {
        id,
        role: "user"@,
        content: text::trimmed(input.content),
        attachment_ids: input.attachment_ids,
        created_at: now,
    }
}

/// The message of a user.
pub fn user_message(id: u128, input: &SendMessageInput, now: u64) -> (message: ChatMessage)
    ensures
        message@ == sent_at(id, input@, now),
{
    ChatMessage {
        id,
        role: "user".to_owned(),
        content: text::trim(input.content.as_str()).to_owned(),
        attachment_ids: lookup::copy_ids(&input.attachment_ids),
        created_at: now,
    }
}

/// An answer, at some time and under some identifier.
pub open spec fn answered_at(id: u128, answer: Seq<char>, now: u64) -> MessageView {
    MessageView {
        id,
        role: "assistant"@,
        content: answer,
        attachment_ids: Seq::empty(),
        created_at: now,
    }
}

/// The message of the model, or the suggestion.
pub fn assistant_message(id: u128, answer: String, now: u64) -> (message: ChatMessage)
    ensures
        message@ == answered_at(id, answer@, now),
{
    ChatMessage {
        id,
        role: "assistant".to_owned(),
        content: answer,
        attachment_ids: Vec::new(),
        created_at: now,
    }
}

/// One turn of a conversation: the message, the answer, and the action that was
/// suggested.
#[derive(Debug)]
pub struct ChatTurn {
    pub user: ChatMessage,
    pub assistant: ChatMessage,
    pub suggested_action: Option<&'static str>,
}

impl Chats {
    /// Enters a turn and returns it. `user` is the message as it was made before
    /// the model was asked, `answer` what the model said or what was suggested, and
    /// `action` what was suggested. The answer is stamped now, under a fresh
    /// identifier.
    pub fn send_chat_message(
        &mut self,
        id: u128,
        user: ChatMessage,
        answer: String,
        action: Option<&'static str>,
    ) -> (result: Result<ChatTurn, ApiError>)
        requires
            old(self).wf(),
        ensures
            final(self).wf(),
            match result {
                Ok(turn) => {
                    &&& place(old(self)@, id) is Some
                    &&& turn.user@ == user@
                    &&& turn.assistant@ == answered_at(
                        turn.assistant@.id,
                        answer@,
                        turn.assistant@.created_at,
                    )
                    &&& text::opt_str(turn.suggested_action) == text::opt_str(action)
                    &&& final(self)@ == old(self)@.update(
                        place(old(self)@, id)->0,
                        continued(
                            old(self)@[place(old(self)@, id)->0],
                            user@,
                            turn.assistant@,
                            turn.assistant@.created_at,
                        ),
                    )
                },
                Err(refusal) => place(old(self)@, id) is None && *final(self) == *old(self)
                    && error::says(refusal) == unknown(),
            },
    {
        let now: u64 = identity::unix_now();
        let assistant = assistant_message(identity::new_id(), answer, now);
        let turn = ChatTurn {
            user: user.copy(),
            assistant: assistant.copy(),
            suggested_action: action,
        };
        match self.finish_turn(id, user, assistant, now) {
            Ok(_) => Ok(turn),
            Err(refusal) => Err(refusal),
        }
    }
}

// ---------------------------------------------------------------------------
// Laws
// ---------------------------------------------------------------------------

/// A turn adds two messages, keeps those before, and is what the next question
/// is asked after.
pub proof fn law_turns_are_remembered(
    chat: ChatView,
    user: MessageView,
    assistant: MessageView,
    now: u64,
)
    ensures
        ({
            let after = continued(chat, user, assistant, now);
            &&& after.messages.len() == chat.messages.len() + 2
            &&& after.messages.take(chat.messages.len() as int) == chat.messages
            &&& recent(after.messages).last() == assistant
            &&& recent(after.messages).len() <= 8
            &&& after.id == chat.id && after.model_id == chat.model_id
        }),
{
    let after = continued(chat, user, assistant, now);
    assert(after.messages.take(chat.messages.len() as int) =~= chat.messages);
}

/// A title that was chosen is kept, and a conversation takes a title of at most
/// 48 characters from its first message.
pub proof fn law_titles_are_kept(
    chat: ChatView,
    user: MessageView,
    assistant: MessageView,
    now: u64,
)
    ensures
        chat.title != UNTITLED@ ==> continued(chat, user, assistant, now).title == chat.title,
        chat.title == UNTITLED@ ==> continued(chat, user, assistant, now).title.len() <= 48,
{
}

/// A turn is entered as it was: the message of the user, then the answer, behind
/// all that was said before, at the time of the answer.
pub proof fn law_turns_are_entered_in_order(
    chat: ChatView,
    user: MessageView,
    assistant: MessageView,
    now: u64,
)
    ensures
        ({
            let after = continued(chat, user, assistant, now);
            let count = chat.messages.len() as int;
            &&& after.messages[count] == user && after.messages[count + 1] == assistant
            &&& after.updated_at == now && after.created_at == chat.created_at
            &&& chat.title == "Nouvelle conversation"@ && user.content.len() <= 48 ==> after.title
                == user.content
            &&& chat.title == "Nouvelle conversation"@ && user.content.len() > 48 ==> after.title
                == user.content.take(48)
        }),
{
}

/// A message is that of its writer, as it was written but for the space around it,
/// with what was attached to it.
pub proof fn law_messages_are_as_they_were_written(
    id: u128,
    input: SendMessageView,
    answer: Seq<char>,
    now: u64,
)
    ensures
        ({
            let sent = sent_at(id, input, now);
            let answered = answered_at(id, answer, now);
            &&& sent.id == id && sent.role == "user"@ && sent.content == text::trimmed(
                input.content,
            ) && sent.attachment_ids == input.attachment_ids && sent.created_at == now
            &&& answered.id == id && answered.role == "assistant"@ && answered.content == answer
                && answered.attachment_ids.len() == 0 && answered.created_at == now
        }),
{
}

/// A message is refused where nothing is left of it once it is trimmed, or more
/// than 4000 bytes.
pub proof fn law_messages_are_bounded(content: Seq<char>)
    ensures
        message_refused(content) <==> text::trimmed(content).len() == 0 || text::utf8_len(
            text::trimmed(content),
        ) > 4000,
        message_refusal().0 == 400 && unknown().0 == 404 && mute_refusal().0 == 400,
{
}

/// A model is asked the message as it is where nothing was said before, else behind
/// what was said last: at most the last eight messages, in their order.
pub proof fn law_models_are_asked_in_context(messages: Seq<MessageView>, content: Seq<char>)
    ensures
        messages.len() == 0 ==> question_of(messages, content) == text::trimmed(content),
        recent(messages).len() == if messages.len() <= 8 {
            messages.len()
        } else {
            8
        },
        forall|i: int|
            0 <= i < recent(messages).len() ==> #[trigger] recent(messages)[i] == messages[messages.len()
                - recent(messages).len() + i],
        messages.len() == 1 ==> history_of(messages) == messages[0].role + ": "@
            + messages[0].content,
        messages.len() == 2 ==> history_of(messages) == messages[0].role + ": "@
            + messages[0].content + "\n"@ + (messages[1].role + ": "@ + messages[1].content),
        question_of(messages, content).len() >= text::trimmed(content).len(),
        question_of(messages, content).skip(
            question_of(messages, content).len() - text::trimmed(content).len(),
        ) == text::trimmed(content),
{
    let lines = lines_of(recent(messages));
    if messages.len() == 0 {
        assert(lines.len() == 0);
    }
    if messages.len() == 2 {
        assert(lines.drop_last().len() == 1);
        assert(text::joined(lines.drop_last(), "\n"@) == lines[0]);
        assert(lines.last() == line_of(messages[1]));
    }
    let asked = question_of(messages, content);
    assert(asked.skip(asked.len() - text::trimmed(content).len()) =~= text::trimmed(content));
}

/// A conversation begins empty, with the title that it was given or with none of
/// its own, and with its model.
pub proof fn law_conversations_begin_empty(
    title: Option<Seq<char>>,
    model_id: Seq<char>,
    id: u128,
    now: u64,
)
    ensures
        ({
            let chat = begun(title, model_id, id, now);
            &&& chat.id == id && chat.model_id == model_id && chat.messages.len() == 0
            &&& title matches Some(given) ==> chat.title == given
            &&& title is None ==> chat.title == "Nouvelle conversation"@
            &&& chat.created_at == now && chat.updated_at == now
        }),
        DEFAULT_MODEL@ == "Qwen/Qwen2.5-0.5B-Instruct"@,
{
}

/// A list of conversations holds each of them once, the one changed last first; the
/// record of them has the oldest first.
pub proof fn law_conversations_are_listed_in_order(
    listing: Seq<ChatView>,
    record: Seq<ChatView>,
    list: Seq<ChatView>,
)
    requires
        is_listing(listing, list),
        is_record(record, list),
        list.len() <= usize::MAX,
    ensures
        listing.len() == list.len() && record.len() == list.len(),
        forall|i: int|
            0 <= i < list.len() ==> listing.contains(#[trigger] list[i]) && record.contains(
                list[i],
            ),
        forall|i: int, j: int|
            0 <= i < j < listing.len() ==> (#[trigger] listing[i]).updated_at >= (
            #[trigger] listing[j]).updated_at,
        forall|i: int, j: int|
            0 <= i < j < record.len() ==> (#[trigger] record[i]).created_at <= (
            #[trigger] record[j]).created_at,
{
    let order = choose|order: Seq<usize>|
        order::stable(order, list.len(), order::falling(changes(list))) && listing
            == #[trigger] order::picked(list, order);
    let oldest = choose|order: Seq<usize>|
        order::stable(order, list.len(), order::rising(creations(list))) && record
            == #[trigger] order::picked(list, order);
    order::lemma_picked_are_all(list, order);
    order::lemma_picked_are_all(list, oldest);
    assert forall|i: int, j: int| 0 <= i < j < listing.len() implies (
    #[trigger] listing[i]).updated_at >= (#[trigger] listing[j]).updated_at by {
        order::law_keys_are_in_order(order, changes(list), i, j);
        assert(order[i] < list.len() && order[j] < list.len());
    }
    assert forall|i: int, j: int| 0 <= i < j < record.len() implies (
    #[trigger] record[i]).created_at <= (#[trigger] record[j]).created_at by {
        order::law_keys_are_in_order(oldest, creations(list), i, j);
        assert(oldest[i] < list.len() && oldest[j] < list.len());
    }
}

/// A message that speaks of a video is answered with the suggestion of one, else
/// one that speaks of a picture with that, and only these.
pub proof fn law_suggestions_name_what_was_asked(content: Seq<char>, action: Seq<char>)
    ensures
        action_of(content) == Some("TEXT_TO_VIDEO"@) <==> intent::mentions(
            text::unicode_lowercase(text::trimmed(content)),
            intent::video_words(),
        ),
        action_of(content) == Some("TEXT_TO_IMAGE"@) <==> !intent::mentions(
            text::unicode_lowercase(text::trimmed(content)),
            intent::video_words(),
        ) && intent::mentions(
            text::unicode_lowercase(text::trimmed(content)),
            intent::image_words(),
        ),
        text::opens(suggestion_text(action), "J’ai préparé une action "@ + action),
{
    reveal_strlit("TEXT_TO_VIDEO");
    reveal_strlit("TEXT_TO_IMAGE");
    assert("TEXT_TO_VIDEO"@[8] == 'V' && "TEXT_TO_IMAGE"@[8] == 'I');
    let head = "J’ai préparé une action "@ + action;
    assert(suggestion_text(action).take(head.len() as int) =~= head);
}

} // verus!
