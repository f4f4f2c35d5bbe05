//! The in-memory conversation archive: for each counterparty, the ordered
//! messages exchanged with it.
use vstd::prelude::*;

verus! {

/// One message of a conversation.
#[derive(Clone, Debug)]
pub struct ChatMessage {
    pub author: String,
    pub content: String,
}

/// The mathematical value of a message.
pub struct MessageView {
    pub author: Seq<char>,
    pub content: Seq<char>,
}

impl View for ChatMessage {
    type V = MessageView;

    open spec fn view(&self) -> MessageView {
        MessageView { author: self.author@, content: self.content@ }
    }
}

/// What an archive holds: each counterparty's messages, oldest first.
pub type ArchiveView = Map<Seq<char>, Seq<MessageView>>;

/// The messages held for `counterparty`; empty where nothing was exchanged.
pub open spec fn conversation_of(a: ArchiveView, counterparty: Seq<char>) -> Seq<MessageView> {
    if a.contains_key(counterparty) {
        a[counterparty]
    } else {
        Seq::empty()
    }
}

/// `a` with `m` appended to the conversation with `counterparty`, which is
/// created on its first message.
pub open spec fn archive_append(a: ArchiveView, counterparty: Seq<char>, m: MessageView) -> ArchiveView {
    a.insert(counterparty, conversation_of(a, counterparty).push(m))
}

pub open spec fn messages_view(v: Seq<ChatMessage>) -> Seq<MessageView> {
    v.map_values(|m: ChatMessage| m@)
}

impl ChatMessage {
    pub fn new(author: String, content: String) -> (r: ChatMessage)
        ensures
            r.author@ == author@,
            r.content@ == content@,
    {
        ChatMessage { author, content }
    }

    /// A copy of this message.
    pub fn duplicate(&self) -> (r: ChatMessage)
        ensures
            r@ == self@,
    {
        ChatMessage { author: self.author.clone(), content: self.content.clone() }
    }
}

/// The messages exchanged with one counterparty.
#[derive(Clone, Debug)]
pub struct Conversation {
    pub counterparty: String,
    pub messages: Vec<ChatMessage>,
}

/// The archive: a map from counterparty to its messages in the order they were
/// recorded. Each counterparty has at most one entry, created on its first
/// message; messages are never removed or reordered.
#[derive(Clone, Debug)]
pub struct Archive {
    entries: Vec<Conversation>,
}

pub open spec fn has_key(entries: Seq<Conversation>, k: Seq<char>) -> bool {
    exists|i: int| 0 <= i < entries.len() && #[trigger] entries[i].counterparty@ == k
}

pub open spec fn keys_unique(entries: Seq<Conversation>) -> bool {
    forall|i: int, j: int|
        0 <= i < entries.len() && 0 <= j < entries.len() && i != j
            ==> #[trigger] entries[i].counterparty@ != #[trigger] entries[j].counterparty@
}

pub open spec fn entries_view(entries: Seq<Conversation>) -> ArchiveView {
    Map::new(
        |k: Seq<char>| has_key(entries, k),
        |k: Seq<char>|
            {
                let i = choose|i: int| 0 <= i < entries.len() && #[trigger] entries[i].counterparty@ == k;
                messages_view(entries[i].messages@)
            },
    )
}

proof fn lemma_entry_lookup(entries: Seq<Conversation>, i: int)
    requires
        keys_unique(entries),
        0 <= i < entries.len(),
    ensures
        entries_view(entries).contains_key(entries[i].counterparty@),
        entries_view(entries)[entries[i].counterparty@] == messages_view(entries[i].messages@),
{
    let k = entries[i].counterparty@;
    assert(has_key(entries, k));
    let j = choose|j: int| 0 <= j < entries.len() && #[trigger] entries[j].counterparty@ == k;
    assert(i == j);
}

impl View for Archive {
    type V = ArchiveView;

    closed spec fn view(&self) -> ArchiveView {
        entries_view(self.entries@)
    }
}

impl Archive {
    /// Every counterparty has at most one entry.
    pub closed spec fn wf(&self) -> bool {
        keys_unique(self.entries@)
    }

    /// An archive with no conversations.
    pub fn new() -> (r: Archive)
        ensures
            r.wf(),
            r@ == Map::<Seq<char>, Seq<MessageView>>::empty(),
    {
        let r = Archive { entries: Vec::new() };
        assert(r@ =~= Map::<Seq<char>, Seq<MessageView>>::empty());
        r
    }

    fn find(&self, counterparty: &String) -> (r: Option<usize>)
        requires
            self.wf(),
        ensures
            r matches Some(i) ==> i < self.entries@.len() && self.entries@[i as int].counterparty@
                == counterparty@,
            r is None ==> !has_key(self.entries@, counterparty@),
    {
        let mut i: usize = 0;
        while i < self.entries.len()
            invariant
                i <= self.entries@.len(),
                forall|j: int| 0 <= j < i ==> #[trigger] self.entries@[j].counterparty@ != counterparty@,
            decreases self.entries@.len() - i,
        {
            if self.entries[i].counterparty == *counterparty {
                return Some(i);
            }
            i = i + 1;
        }
        None
    }

    /// Whether anything was exchanged with `counterparty`.
    pub fn contains(&self, counterparty: &String) -> (r: bool)
        requires
            self.wf(),
        ensures
            r == self@.contains_key(counterparty@),
    {
        self.find(counterparty).is_some()
    }

    /// The messages exchanged with `counterparty`, oldest first, if any were.
    pub fn conversation(&self, counterparty: &String) -> (r: Option<&Vec<ChatMessage>>)
        requires
            self.wf(),
        ensures
            r is Some == self@.contains_key(counterparty@),
            r matches Some(v) ==> messages_view(v@) == self@[counterparty@],
    {
        match self.find(counterparty) {
            Some(i) => {
                proof {
                    lemma_entry_lookup(self.entries@, i as int);
                }
                Some(&self.entries[i].messages)
            },
            None => None,
        }
    }

    /// The number of counterparties with a conversation.
    pub fn len(&self) -> (r: usize)
        requires
            self.wf(),
        ensures
            r == self@.dom().len(),
    {
        proof {
            self.lemma_len();
        }
        self.entries.len()
    }

    /// The counterparties that have a conversation, each once.
    pub fn counterparties(&self) -> (r: Vec<String>)
        requires
            self.wf(),
        ensures
            r@.len() == self@.dom().len(),
            forall|i: int| 0 <= i < r@.len() ==> self@.contains_key(#[trigger] r@[i]@),
            forall|k: Seq<char>| #[trigger] self@.contains_key(k) ==> exists|i: int| 0 <= i < r@.len() && r@[i]@ == k,
    {
        proof {
            self.lemma_len();
        }
        let mut r: Vec<String> = Vec::new();
        let mut i: usize = 0;
        while i < self.entries.len()
            invariant
                self.wf(),
                i <= self.entries@.len(),
                r@.len() == i,
                forall|j: int| 0 <= j < i ==> (#[trigger] r@[j])@ == self.entries@[j].counterparty@,
            decreases self.entries@.len() - i,
        {
            r.push(self.entries[i].counterparty.clone());
            i = i + 1;
        }
        assert forall|j: int| 0 <= j < r@.len() implies self@.contains_key(#[trigger] r@[j]@) by {
            lemma_entry_lookup(self.entries@, j);
        }
        assert forall|k: Seq<char>| #[trigger] self@.contains_key(k) implies exists|j: int| 0 <= j < r@.len() && r@[j]@ == k by {
            let j = choose|j: int| 0 <= j < self.entries@.len() && #[trigger] self.entries@[j].counterparty@ == k;
            assert(r@[j]@ == k);
        }
        r
    }

    proof fn lemma_len(&self)
        requires
            self.wf(),
        ensures
            self@.dom().len() == self.entries@.len(),
            self@.dom().finite(),
    {
        let es = self.entries@;
        let keys = es.map_values(|c: Conversation| c.counterparty@);
        assert forall|i: int, j: int| 0 <= i < keys.len() && 0 <= j < keys.len() && i != j implies keys[i] != keys[j] by {
            assert(es[i].counterparty@ != es[j].counterparty@);
        }
        assert(keys.no_duplicates());
        assert forall|k: Seq<char>| self@.dom().contains(k) <==> keys.to_set().contains(k) by {
            if self@.dom().contains(k) {
                let i = choose|i: int| 0 <= i < es.len() && #[trigger] es[i].counterparty@ == k;
                assert(keys[i] == k);
            }
            if keys.to_set().contains(k) {
                let i = choose|i: int| 0 <= i < keys.len() && keys[i] == k;
                assert(es[i].counterparty@ == k);
            }
        }
        assert(self@.dom() =~= keys.to_set());
        keys.unique_seq_to_set();
    }

    /// Appends `message` to the conversation with `counterparty`, creating the
    /// conversation on its first message.
    pub fn append(&mut self, counterparty: &String, message: ChatMessage)
        requires
            old(self).wf(),
        ensures
            final(self).wf(),
            final(self)@ == archive_append(old(self)@, counterparty@, message@),
    {
        let ghost old_entries = self.entries@;
        match self.find(counterparty) {
            Some(i) => {
                proof {
                    lemma_entry_lookup(old_entries, i as int);
                }
                self.entries[i].messages.push(message);
                let ghost new_entries = self.entries@;
                assert(new_entries.len() == old_entries.len());
                assert forall|j: int| 0 <= j < new_entries.len() implies #[trigger] new_entries[j].counterparty@
                    == old_entries[j].counterparty@ by {}
                assert(self.wf());
                assert forall|k: Seq<char>| #[trigger] has_key(new_entries, k) == has_key(old_entries, k) by {
                    if has_key(new_entries, k) {
                        let j = choose|j: int| 0 <= j < new_entries.len() && #[trigger] new_entries[j].counterparty@ == k;
                        assert(old_entries[j].counterparty@ == k);
                    }
                    if has_key(old_entries, k) {
                        let j = choose|j: int| 0 <= j < old_entries.len() && #[trigger] old_entries[j].counterparty@ == k;
                        assert(new_entries[j].counterparty@ == k);
                    }
                }
                assert forall|k: Seq<char>| has_key(new_entries, k) && k != counterparty@ implies #[trigger] entries_view(new_entries)[k]
                    == entries_view(old_entries)[k] by {
                    let j = choose|j: int| 0 <= j < new_entries.len() && #[trigger] new_entries[j].counterparty@ == k;
                    lemma_entry_lookup(new_entries, j);
                    lemma_entry_lookup(old_entries, j);
                }
                proof {
                    lemma_entry_lookup(new_entries, i as int);
                }
                assert(messages_view(new_entries[i as int].messages@) =~= messages_view(old_entries[i as int].messages@).push(message@));
                assert(self@ =~= archive_append(old(self)@, counterparty@, message@));
            },
            None => {
                let mut messages: Vec<ChatMessage> = Vec::new();
                messages.push(message);
                self.entries.push(Conversation { counterparty: counterparty.clone(), messages });
                let ghost new_entries = self.entries@;
                let ghost n = old_entries.len() as int;
                assert forall|j: int| 0 <= j < n implies #[trigger] new_entries[j] == old_entries[j] by {}
                assert(self.wf());
                assert forall|k: Seq<char>| #[trigger] has_key(new_entries, k) == (has_key(old_entries, k) || k == counterparty@) by {
                    if has_key(new_entries, k) && k != counterparty@ {
                        let j = choose|j: int| 0 <= j < new_entries.len() && #[trigger] new_entries[j].counterparty@ == k;
                        assert(old_entries[j].counterparty@ == k);
                    }
                    if has_key(old_entries, k) {
                        let j = choose|j: int| 0 <= j < old_entries.len() && #[trigger] old_entries[j].counterparty@ == k;
                        assert(new_entries[j].counterparty@ == k);
                    }
                    if k == counterparty@ {
                        assert(new_entries[n].counterparty@ == k);
                    }
                }
                assert forall|k: Seq<char>| has_key(old_entries, k) implies #[trigger] entries_view(new_entries)[k]
                    == entries_view(old_entries)[k] by {
                    let j = choose|j: int| 0 <= j < old_entries.len() && #[trigger] old_entries[j].counterparty@ == k;
                    lemma_entry_lookup(new_entries, j);
                    lemma_entry_lookup(old_entries, j);
                }
                proof {
                    lemma_entry_lookup(new_entries, n);
                }
                assert(messages_view(new_entries[n].messages@) =~= seq![message@]);
                assert(self@ =~= archive_append(old(self)@, counterparty@, message@));
            },
        }
    }

    /// A copy of the whole archive, as handed to a requester.
    pub fn snapshot(&self) -> (r: Archive)
        requires
            self.wf(),
        ensures
            r.wf(),
            r@ == self@,
    {
        let mut entries: Vec<Conversation> = Vec::new();
        let mut i: usize = 0;
        while i < self.entries.len()
            invariant
                i <= self.entries@.len(),
                entries@.len() == i,
                forall|j: int| 0 <= j < i ==> (#[trigger] entries@[j]).counterparty@ == self.entries@[j].counterparty@
                    && messages_view(entries@[j].messages@) == messages_view(self.entries@[j].messages@),
            decreases self.entries@.len() - i,
        {
            let c = &self.entries[i];
            let mut messages: Vec<ChatMessage> = Vec::new();
            let mut m: usize = 0;
            while m < c.messages.len()
                invariant
                    m <= c.messages@.len(),
                    messages@.len() == m,
                    forall|j: int| 0 <= j < m ==> (#[trigger] messages@[j])@ == c.messages@[j]@,
                decreases c.messages@.len() - m,
            {
                messages.push(c.messages[m].duplicate());
                m = m + 1;
            }
            assert(messages_view(messages@) =~= messages_view(c.messages@));
            entries.push(Conversation { counterparty: c.counterparty.clone(), messages });
            i = i + 1;
        }
        let r = Archive { entries };
        assert forall|a: int, b: int| 0 <= a < entries@.len() && 0 <= b < entries@.len() && a != b
            implies #[trigger] entries@[a].counterparty@ != #[trigger] entries@[b].counterparty@ by {
            assert(self.entries@[a].counterparty@ != self.entries@[b].counterparty@);
        }
        assert forall|k: Seq<char>| #[trigger] has_key(entries@, k) == has_key(self.entries@, k) by {
            if has_key(entries@, k) {
                let j = choose|j: int| 0 <= j < entries@.len() && #[trigger] entries@[j].counterparty@ == k;
                assert(self.entries@[j].counterparty@ == k);
            }
            if has_key(self.entries@, k) {
                let j = choose|j: int| 0 <= j < self.entries@.len() && #[trigger] self.entries@[j].counterparty@ == k;
                assert(entries@[j].counterparty@ == k);
            }
        }
        assert forall|k: Seq<char>| has_key(entries@, k) implies #[trigger] entries_view(entries@)[k]
            == entries_view(self.entries@)[k] by {
            let j = choose|j: int| 0 <= j < entries@.len() && #[trigger] entries@[j].counterparty@ == k;
            lemma_entry_lookup(entries@, j);
            lemma_entry_lookup(self.entries@, j);
        }
        assert(r@ =~= self@);
        r
    }
}

} // verus!
