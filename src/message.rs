use vstd::prelude::*;

verus! {

/// One log entry as it travels from a producer to the writer.
pub struct Message {
    /// The rendered line, formatted by the producer.
    pub text: String,
    /// Routing flag carried with the entry; the writer does not branch on it.
    pub debug: bool,
    /// Whether the entry is also persisted to the primary log file.
    pub save: bool,
}

impl Message {
    /// The entry that `log(text)` enqueues: saved, not marked as debug.
    pub fn for_log(text: String) -> (m: Message)
        ensures
            m.text == text,
            m.save,
            !m.debug,
    {
        Message { text, debug: false, save: true }
    }
}

/// The characters of every entry's text, one after the other.
pub open spec fn texts_of(msgs: Seq<Message>) -> Seq<char>
    decreases msgs.len(),
{
    if msgs.len() == 0 {
        Seq::empty()
    } else {
        texts_of(msgs.drop_last()) + msgs.last().text@
    }
}

/// The characters of the saved entries' texts, one after the other.
pub open spec fn saved_texts_of(msgs: Seq<Message>) -> Seq<char>
    decreases msgs.len(),
{
    if msgs.len() == 0 {
        Seq::empty()
    } else if msgs.last().save {
        saved_texts_of(msgs.drop_last()) + msgs.last().text@
    } else {
        saved_texts_of(msgs.drop_last())
    }
}

/// Whether every entry is one that `log` makes.
pub open spec fn all_saved(msgs: Seq<Message>) -> bool {
    forall|i: int| 0 <= i < msgs.len() ==> #[trigger] msgs[i].save
}

/// When every entry is saved, the primary file receives every text, in order.
pub proof fn lemma_saved_texts_are_all_texts(msgs: Seq<Message>)
    requires
        all_saved(msgs),
    ensures
        saved_texts_of(msgs) == texts_of(msgs),
    decreases msgs.len(),
{
    if msgs.len() > 0 {
        let init = msgs.drop_last();
        assert(all_saved(init)) by {
            assert forall|i: int| 0 <= i < init.len() implies #[trigger] init[i].save by {
                assert(init[i] == msgs[i]);
            }
        }
        assert(msgs[msgs.len() - 1].save);
        lemma_saved_texts_are_all_texts(init);
    }
}

} // verus!
