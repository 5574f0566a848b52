use vstd::prelude::*;

verus! {

/// The three kinds of speaker that a conversation log may hold.
#[derive(Clone, Copy, Debug, PartialEq, Eq, Structural)]
pub enum Role {
    User,
    System,
    Assistant,
}

/// What a role is called in a persisted record and in a request.
pub open spec fn role_name(role: Role) -> Seq<char> {
    match role {
        Role::User => "user"@,
        Role::System => "system"@,
        Role::Assistant => "assistant"@,
    }
}

/// The role that a name stands for, if it stands for one.
pub open spec fn role_named(name: Seq<char>) -> Option<Role> {
    if name == "user"@ {
        Some(Role::User)
    } else if name == "system"@ {
        Some(Role::System)
    } else if name == "assistant"@ {
        Some(Role::Assistant)
    } else {
        None
    }
}

/// A log entry as plain values: the role's name and the text.
pub type Entry = (Seq<char>, Seq<char>);

pub open spec fn entry(role: Role, text: Seq<char>) -> Entry {
    (role_name(role), text)
}

/// Every entry names one of the three roles.
pub open spec fn valid_log(log: Seq<Entry>) -> bool {
    forall|i: int| 0 <= i < log.len() ==> (#[trigger] role_named(log[i].0)) is Some
}

/// A log that holds one system entry and nothing else.
pub open spec fn seeded(prompt: Seq<char>) -> Seq<Entry> {
    seq![entry(Role::System, prompt)]
}

/// The log that is in use once a stored record has been read: the record
/// itself where it is valid, else a log seeded with the default prompt.
pub open spec fn loaded(stored: Option<Seq<Entry>>, base_prompt: Seq<char>) -> Seq<Entry> {
    match stored {
        Some(log) => if valid_log(log) {
            log
        } else {
            seeded(base_prompt)
        },
        None => seeded(base_prompt),
    }
}

/// The text that a reset puts in the single system entry.
pub open spec fn reset_text(prompt: Seq<char>, base_prompt: Seq<char>) -> Seq<char> {
    if prompt.len() == 0 {
        base_prompt
    } else {
        prompt
    }
}

impl Role {
    /// The role's name, as persisted and as sent.
    pub fn name(&self) -> (r: String)
        ensures
            r@ == role_name(*self),
    {
        match self {
            Role::User => String::from_str("user"),
            Role::System => String::from_str("system"),
            Role::Assistant => String::from_str("assistant"),
        }
    }

    /// Reads a role's name; any other text is refused.
    pub fn from_name(name: &str) -> (r: Option<Role>)
        ensures
            r == role_named(name@),
    {
        let s = String::from_str(name);
        if s == String::from_str("user") {
            Some(Role::User)
        } else if s == String::from_str("system") {
            Some(Role::System)
        } else if s == String::from_str("assistant") {
            Some(Role::Assistant)
        } else {
            None
        }
    }
}

/// The names of the three roles differ, and each is read back as its role.
pub proof fn lemma_role_name_read_back(role: Role)
    ensures
        role_named(role_name(role)) == Some(role),
{
    reveal_strlit("user");
    reveal_strlit("system");
    reveal_strlit("assistant");
    assert("user"@.len() == 4 && "system"@.len() == 6 && "assistant"@.len() == 9);
}

/// One entry of a conversation log.
#[derive(Clone, Debug)]
pub struct MessageChat {
    pub role: String,
    pub content: String,
}

impl View for MessageChat {
    type V = Entry;

    open spec fn view(&self) -> Entry {
        (self.role@, self.content@)
    }
}

/// The ordered transcript of one conversation.
#[derive(Clone, Debug)]
pub struct ChatHistory {
    pub messages: Vec<MessageChat>,
}

impl View for ChatHistory {
    type V = Seq<Entry>;

    open spec fn view(&self) -> Seq<Entry> {
        self.messages@.map_values(|m: MessageChat| m@)
    }
}

impl MessageChat {
    pub fn new(role: &Role, content: &str) -> (r: MessageChat)
        ensures
            r@ == entry(*role, content@),
    {
        MessageChat { role: role.name(), content: String::from_str(content) }
    }
}

impl ChatHistory {
    /// Whether every entry names one of the three roles.
    pub open spec fn wf(&self) -> bool {
        valid_log(self@)
    }

    /// A log holding one system entry with the given prompt.
    pub fn seeded(prompt: &str) -> (r: ChatHistory)
        ensures
            r@ == seeded(prompt@),
            r.wf(),
    {
        let first = MessageChat::new(&Role::System, prompt);
        let r = ChatHistory { messages: vec![first] };
        assert(r@ =~= seeded(prompt@));
        proof {
            lemma_role_name_read_back(Role::System);
        }
        r
    }

    /// Whether every entry of the log names one of the three roles.
    pub fn is_valid(&self) -> (r: bool)
        ensures
            r == self.wf(),
    {
        let mut i: usize = 0;
        while i < self.messages.len()
            invariant
                i <= self.messages.len(),
                forall|j: int| 0 <= j < i ==> (#[trigger] role_named(self@[j].0)) is Some,
            decreases self.messages.len() - i,
        {
            if Role::from_name(self.messages[i].role.as_str()).is_none() {
                assert(role_named(self@[i as int].0) is None);
                return false;
            }
            i = i + 1;
        }
        true
    }

    /// The log of a conversation, from what storage held for it. A valid record
    /// is kept as it is; a missing or invalid one gives a log seeded with
    /// `base_prompt`. The caller persists the result.
    pub fn new(stored: Option<ChatHistory>, base_prompt: &str) -> (r: ChatHistory)
        ensures
            r@ == loaded(
                match stored {
                    Some(h) => Some(h@),
                    None => None,
                },
                base_prompt@,
            ),
            r.wf(),
    {
        match stored {
            Some(h) => {
                if h.is_valid() {
                    h
                } else {
                    ChatHistory::seeded(base_prompt)
                }
            },
            None => ChatHistory::seeded(base_prompt),
        }
    }

    /// Appends one entry at the end of the log.
    pub fn add_entry(self, role: &Role, content: &str) -> (r: ChatHistory)
        ensures
            r@ == self@.push(entry(*role, content@)),
            self.wf() ==> r.wf(),
    {
        let mut h = self;
        let m = MessageChat::new(role, content);
        h.messages.push(m);
        assert(h@ =~= self@.push(entry(*role, content@)));
        proof {
            lemma_role_name_read_back(*role);
        }
        h
    }

    /// Replaces the whole log by one system entry: `prompt` where it is not
    /// empty, else `base_prompt`.
    pub fn purge(self, prompt: &str, base_prompt: &str) -> (r: ChatHistory)
        ensures
            r@ == seeded(reset_text(prompt@, base_prompt@)),
            r.wf(),
    {
        if prompt.is_empty() {
            ChatHistory::seeded(base_prompt)
        } else {
            ChatHistory::seeded(prompt)
        }
    }
}

/// A conversation that storage holds nothing for starts as exactly one system
/// entry whose text is the default prompt in force.
pub proof fn lemma_unseen_conversation_is_seeded(base_prompt: Seq<char>)
    ensures
        loaded(None, base_prompt) == seq![(role_name(Role::System), base_prompt)],
        loaded(None, base_prompt).len() == 1,
{
}

/// Once an entry has been appended to a valid log and the result persisted,
/// reading that record back gives a log one entry longer whose last entry is
/// exactly the one appended, whatever the default prompt is then.
pub proof fn lemma_append_then_reload(
    log: Seq<Entry>,
    role: Role,
    text: Seq<char>,
    base_prompt: Seq<char>,
)
    requires
        valid_log(log),
    ensures
        loaded(Some(log.push(entry(role, text))), base_prompt).len() == log.len() + 1,
        loaded(Some(log.push(entry(role, text))), base_prompt).last() == entry(role, text),
        loaded(Some(log.push(entry(role, text))), base_prompt).take(log.len() as int) == log,
{
    lemma_role_name_read_back(role);
    let after = log.push(entry(role, text));
    assert forall|i: int| 0 <= i < after.len() implies (#[trigger] role_named(after[i].0)) is Some by {
        if i < log.len() {
            assert(after[i] == log[i]);
        }
    }
    assert(after.take(log.len() as int) =~= log);
}

/// A reset without a prompt, persisted and read back, is one system entry
/// holding the default prompt that was in force at the reset; a reset with a
/// prompt holds that prompt. Neither depends on the log that was there before.
pub proof fn lemma_reset_then_reload(
    prompt: Seq<char>,
    base_at_reset: Seq<char>,
    base_at_reload: Seq<char>,
)
    ensures
        prompt.len() == 0 ==> loaded(Some(seeded(reset_text(prompt, base_at_reset))), base_at_reload)
            == seeded(base_at_reset),
        prompt.len() > 0 ==> loaded(Some(seeded(reset_text(prompt, base_at_reset))), base_at_reload)
            == seeded(prompt),
{
    lemma_role_name_read_back(Role::System);
    let s = seeded(reset_text(prompt, base_at_reset));
    assert(valid_log(s)) by {
        assert forall|i: int| 0 <= i < s.len() implies (#[trigger] role_named(s[i].0)) is Some by {
            assert(i == 0);
        }
    }
}

/// Reading back a persisted valid log gives the same entries, role and text,
/// in the same order.
pub proof fn lemma_reload_round_trip(log: Seq<Entry>, base_prompt: Seq<char>)
    requires
        valid_log(log),
    ensures
        loaded(Some(log), base_prompt) == log,
{
}

} // verus!
