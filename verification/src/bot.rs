//! The queue store and command dispatcher: the single ordered,
//! duplicate-free queue of waiting users, the handlers that read and
//! mutate it, and the authorization-gated dispatch of parsed commands.

use std::collections::VecDeque;
use vstd::prelude::*;
use vstd::string::StringExecFns;

use crate::parse::{cmd_of, has_prefix, lower_seq, parse, tokens_of};
use crate::reply::{dec_seq, u64_to_string, MessageType, Reply};
use crate::user::{mention_seq, tag_seq, User};

verus! {

/// Whether some user in `q` carries the identifier `id`.
pub open spec fn contains_id(q: Seq<User>, id: u64) -> bool {
    exists|i: int| 0 <= i < q.len() && q[i].uuid == id
}

/// No identifier appears twice in `q`: the queue invariant.
pub open spec fn no_dup(q: Seq<User>) -> bool {
    forall|i: int, j: int| 0 <= i < j < q.len() ==> q[i].uuid != q[j].uuid
}

/// The least index at which `id` occurs in `q` (meaningful only when it
/// occurs at all).
pub open spec fn first_index(q: Seq<User>, id: u64) -> int
    decreases q.len(),
{
    if q.len() == 0 {
        0
    } else if q[0].uuid == id {
        0
    } else {
        1 + first_index(q.drop_first(), id)
    }
}

/// When `id` occurs in `q`, `first_index` points at its first occurrence.
pub proof fn lemma_first_index(q: Seq<User>, id: u64)
    requires
        contains_id(q, id),
    ensures
        0 <= first_index(q, id) < q.len(),
        q[first_index(q, id)].uuid == id,
        forall|j: int| 0 <= j < first_index(q, id) ==> q[j].uuid != id,
    decreases q.len(),
{
    if q.len() == 0 {
    } else if q[0].uuid == id {
    } else {
        let i = choose|i: int| 0 <= i < q.len() && q[i].uuid == id;
        assert(q.drop_first()[i - 1].uuid == id);
        lemma_first_index(q.drop_first(), id);
        assert forall|j: int| 0 <= j < first_index(q, id) implies q[j].uuid != id by {
            if j > 0 {
                assert(q.drop_first()[j - 1] == q[j]);
            }
        }
    }
}

/// An index whose prefix is free of `id` and which holds `id` is the
/// first index of `id`.
pub proof fn lemma_first_index_at(q: Seq<User>, id: u64, i: int)
    requires
        0 <= i < q.len(),
        q[i].uuid == id,
        forall|j: int| 0 <= j < i ==> q[j].uuid != id,
    ensures
        first_index(q, id) == i,
    decreases q.len(),
{
    if i == 0 {
    } else {
        assert(q.drop_first()[i - 1].uuid == id);
        assert forall|j: int| 0 <= j < i - 1 implies q.drop_first()[j].uuid != id by {
            assert(q.drop_first()[j] == q[j + 1]);
        }
        lemma_first_index_at(q.drop_first(), id, i - 1);
    }
}

/// Appending a user whose identifier is absent keeps the queue
/// duplicate-free.
pub proof fn lemma_no_dup_push(q: Seq<User>, u: User)
    requires
        no_dup(q),
        !contains_id(q, u.uuid),
    ensures
        no_dup(q.push(u)),
{
    assert forall|i: int, j: int| 0 <= i < j < q.push(u).len() implies q.push(u)[i].uuid
        != q.push(u)[j].uuid by {
        if j < q.len() {
            assert(q.push(u)[i] == q[i] && q.push(u)[j] == q[j]);
        } else {
            assert(q.push(u)[i] == q[i] && q.push(u)[j] == u);
        }
    }
}

/// Removing one element keeps the queue duplicate-free.
pub proof fn lemma_no_dup_remove(q: Seq<User>, i: int)
    requires
        no_dup(q),
        0 <= i < q.len(),
    ensures
        no_dup(q.remove(i)),
{
    let r = q.remove(i);
    assert forall|a: int, b: int| 0 <= a < b < r.len() implies r[a].uuid != r[b].uuid by {
        let a0 = if a < i { a } else { a + 1 };
        let b0 = if b < i { b } else { b + 1 };
        assert(r[a] == q[a0]);
        assert(r[b] == q[b0]);
    }
}

/// Dropping the front element keeps the queue duplicate-free.
pub proof fn lemma_no_dup_drop_first(q: Seq<User>)
    requires
        no_dup(q),
        q.len() > 0,
    ensures
        no_dup(q.drop_first()),
{
    assert forall|a: int, b: int| 0 <= a < b < q.drop_first().len() implies q.drop_first()[a].uuid
        != q.drop_first()[b].uuid by {
        assert(q.drop_first()[a] == q[a + 1]);
        assert(q.drop_first()[b] == q[b + 1]);
    }
}

/// The queue, reply severity, and reply text that one command leaves
/// behind.
pub type Outcome = (Seq<User>, Option<MessageType>, Seq<char>);

/// `ping`: no effect, a plain greeting.
pub open spec fn ping_outcome(q: Seq<User>) -> Outcome {
    (q, Option::<MessageType>::None, "Pong!"@)
}

/// Any unrecognized, malformed, or unauthorized command: the queue is
/// untouched and the caller is warned. Staff commands issued by
/// non-staff callers yield exactly this outcome, indistinguishable from
/// an unknown command.
pub open spec fn invalid_syntax_outcome(q: Seq<User>, author: User) -> Outcome {
    (q, Option::Some(MessageType::Warning), mention_seq(author.name@) + " invalid syntax."@)
}

/// `join`: append the caller to the back unless already queued; report
/// the 1-based position on success.
pub open spec fn join_outcome(q: Seq<User>, user: User) -> Outcome {
    if contains_id(q, user.uuid) {
        (q, Option::Some(MessageType::Warning), "You are already in the queue!"@)
    } else {
        (
            q.push(user),
            Option::Some(MessageType::Success),
            mention_seq(user.name@) + " You have been added to the queue at position "@ + dec_seq(
                q.len() + 1,
            ),
        )
    }
}

/// `leave`: remove the caller's first occurrence, keeping the order of
/// the rest; warn when the caller is not queued.
pub open spec fn leave_outcome(q: Seq<User>, user: User) -> Outcome {
    if contains_id(q, user.uuid) {
        (
            q.remove(first_index(q, user.uuid)),
            Option::Some(MessageType::Success),
            mention_seq(user.name@) + " You have been removed from the queue"@,
        )
    } else {
        (
            q,
            Option::Some(MessageType::Warning),
            mention_seq(user.name@) + " You are not in the queue!"@,
        )
    }
}

/// `pos`/`position`: report the caller's 1-based position (front is 1)
/// without touching the queue.
pub open spec fn position_outcome(q: Seq<User>, user: User) -> Outcome {
    if contains_id(q, user.uuid) {
        (
            q,
            Option::<MessageType>::None,
            mention_seq(user.name@) + " You are at position "@ + dec_seq(
                (first_index(q, user.uuid) + 1) as nat,
            ),
        )
    } else {
        (
            q,
            Option::Some(MessageType::Warning),
            mention_seq(user.name@) + " You are not in the queue!"@,
        )
    }
}

/// The display of the queued users, in order: their tags separated by
/// commas.
pub open spec fn list_body(q: Seq<User>) -> Seq<char>
    decreases q.len(),
{
    if q.len() == 0 {
        Seq::<char>::empty()
    } else if q.len() == 1 {
        tag_seq(q[0].name@, q[0].discriminator@)
    } else {
        tag_seq(q[0].name@, q[0].discriminator@) + ", "@ + list_body(q.drop_first())
    }
}

/// Appending one user extends the display by a separator (when the queue
/// was not empty) and the user's tag.
pub proof fn lemma_list_body_push(q: Seq<User>, u: User)
    ensures
        list_body(q.push(u)) == if q.len() == 0 {
            tag_seq(u.name@, u.discriminator@)
        } else {
            list_body(q) + ", "@ + tag_seq(u.name@, u.discriminator@)
        },
    decreases q.len(),
{
    if q.len() == 0 {
        assert(q.push(u) =~= seq![u]);
    } else {
        assert(q.push(u).drop_first() =~= q.drop_first().push(u));
        lemma_list_body_push(q.drop_first(), u);
        if q.len() == 1 {
            assert(q.push(u)[0] == q[0]);
        } else {
            assert(list_body(q.push(u)) =~= list_body(q) + ", "@ + tag_seq(
                u.name@,
                u.discriminator@,
            ));
        }
    }
}

/// `list`: a plain, ordered display of everyone queued.
pub open spec fn list_outcome(q: Seq<User>) -> Outcome {
    (q, Option::<MessageType>::None, "Queue: ["@ + list_body(q) + "]"@)
}

/// `next` (staff): pop the front element and name it; an empty queue is
/// a valid, plainly reported state, not an error.
pub open spec fn next_outcome(q: Seq<User>, author: User) -> Outcome {
    if q.len() == 0 {
        (
            q,
            Option::<MessageType>::None,
            mention_seq(author.name@) + " There is no one in the queue"@,
        )
    } else {
        (
            q.drop_first(),
            Option::<MessageType>::None,
            "The next person in line is "@ + mention_seq(q[0].name@),
        )
    }
}

/// `clear` (staff): remove every element.
pub open spec fn clear_outcome(q: Seq<User>, author: User) -> Outcome {
    (
        Seq::<User>::empty(),
        Option::Some(MessageType::Success),
        mention_seq(author.name@) + " The queue has been cleared"@,
    )
}

/// `add` (staff): with exactly one mentioned user not yet queued, append
/// that user to the back; otherwise warn and leave the queue untouched.
pub open spec fn add_other_outcome(q: Seq<User>, author: User, mentions: Option<Seq<User>>) -> Outcome {
    match mentions {
        Option::None => (
            q,
            Option::Some(MessageType::Warning),
            mention_seq(author.name@) + " You must `@mention` a user!"@,
        ),
        Option::Some(v) => if v.len() == 0 {
            (
                q,
                Option::Some(MessageType::Warning),
                mention_seq(author.name@) + " You must `@mention` a user!"@,
            )
        } else if v.len() > 1 {
            (
                q,
                Option::Some(MessageType::Warning),
                mention_seq(author.name@) + " you must mention a single user!"@,
            )
        } else if contains_id(q, v[0].uuid) {
            (
                q,
                Option::Some(MessageType::Warning),
                mention_seq(author.name@) + " That student is already in the queue!"@,
            )
        } else {
            (
                q.push(v[0]),
                Option::Some(MessageType::Success),
                mention_seq(author.name@) + " The student has been added to the queue!"@,
            )
        },
    }
}

/// `remove` (staff): with exactly one mentioned user currently queued,
/// remove that user's first occurrence; otherwise warn and leave the
/// queue untouched.
pub open spec fn remove_other_outcome(q: Seq<User>, author: User, mentions: Option<Seq<User>>) -> Outcome {
    match mentions {
        Option::None => (
            q,
            Option::Some(MessageType::Warning),
            mention_seq(author.name@) + " You must `@mention` a user!"@,
        ),
        Option::Some(v) => if v.len() == 0 {
            (
                q,
                Option::Some(MessageType::Warning),
                mention_seq(author.name@) + " You must `@mention` a user!"@,
            )
        } else if v.len() > 1 {
            (
                q,
                Option::Some(MessageType::Warning),
                mention_seq(author.name@) + " you must mention a single user!"@,
            )
        } else if !contains_id(q, v[0].uuid) {
            (
                q,
                Option::Some(MessageType::Warning),
                mention_seq(author.name@) + " The specified student is not in the queue!"@,
            )
        } else {
            (
                q.remove(first_index(q, v[0].uuid)),
                Option::Some(MessageType::Success),
                mention_seq(author.name@) + " The student has been removed from the queue!"@,
            )
        },
    }
}

/// The mentioned users as a sequence, when a mention list was given.
pub open spec fn mentions_view(mentions: Option<Vec<User>>) -> Option<Seq<User>> {
    match mentions {
        Option::None => Option::<Seq<User>>::None,
        Option::Some(v) => Option::Some(v@),
    }
}

/// The single dispatch step: given the queue, the author, the mentioned
/// users, and the raw text (whose command name is its second lowercased
/// token), the queue and reply that the one selected handler produces.
/// Open commands come first; staff commands answer only to staff
/// callers; everything else — unknown names, the empty command name of a
/// too-short message, and staff commands from non-staff callers — is one
/// and the same invalid-syntax warning.
pub open spec fn dispatch_outcome(
    q: Seq<User>,
    author: User,
    mentions: Option<Seq<User>>,
    text: Seq<char>,
) -> Outcome {
    let cmd = cmd_of(tokens_of(lower_seq(text)));
    if cmd == "ping"@ {
        ping_outcome(q)
    } else if cmd == "join"@ {
        join_outcome(q, author)
    } else if cmd == "leave"@ {
        leave_outcome(q, author)
    } else if cmd == "pos"@ || cmd == "position"@ {
        position_outcome(q, author)
    } else if cmd == "list"@ {
        list_outcome(q)
    } else if author.is_staff && cmd == "next"@ {
        next_outcome(q, author)
    } else if author.is_staff && cmd == "clear"@ {
        clear_outcome(q, author)
    } else if author.is_staff && cmd == "add"@ {
        add_other_outcome(q, author, mentions)
    } else if author.is_staff && cmd == "remove"@ {
        remove_other_outcome(q, author, mentions)
    } else {
        invalid_syntax_outcome(q, author)
    }
}

/// An inbound command envelope: the author, the raw text, and the users
/// the transport found mentioned in it. Transient: consumed by one
/// dispatch.
pub struct Message {
    pub author: User,
    pub text: String,
    pub mentions: Option<Vec<User>>,
}

/// The queue manager. The queue is the sole mutable state: users join at
/// the back and are served from the front, and no identifier is ever
/// held twice.
pub struct QueueBot {
    pub queue: VecDeque<User>,
}

impl QueueBot {
    /// The queue invariant: no duplicate identifiers.
    pub open spec fn wf(&self) -> bool {
        no_dup(self.queue@)
    }

    /// A manager with an empty queue.
    pub fn new() -> (r: QueueBot)
        ensures
            r.queue@ == Seq::<User>::empty(),
            r.wf(),
    {
        QueueBot { queue: VecDeque::new() }
    }

    /// Linear search for the first queue entry with the given identifier.
    fn find_index(&self, id: u64) -> (r: Option<usize>)
        ensures
            self.queue@.len() <= usize::MAX,
            match r {
                Option::Some(i) => i < self.queue@.len() && contains_id(self.queue@, id) && i
                    == first_index(self.queue@, id),
                Option::None => !contains_id(self.queue@, id),
            },
    {
        let n = self.queue.len();
        let mut i: usize = 0;
        while i < n
            invariant
                n == self.queue@.len(),
                i <= n,
                forall|j: int| 0 <= j < i ==> self.queue@[j].uuid != id,
            decreases n - i,
        {
            if self.queue[i].uuid == id {
                proof {
                    lemma_first_index_at(self.queue@, id, i as int);
                }
                return Option::Some(i);
            }
            i += 1;
        }
        Option::None
    }

    /// The "Pong!" liveness check.
    pub fn queue_ping(&self) -> (r: Reply)
        ensures
            (r.severity, r.text@) == (ping_outcome(self.queue@).1, ping_outcome(self.queue@).2),
    {
        Reply { severity: Option::None, text: "Pong!".to_owned() }
    }

    /// Warn the author that the command was invalid.
    pub fn send_invalid_syntax(&self, user: &User) -> (r: Reply)
        ensures
            (r.severity, r.text@) == (
                invalid_syntax_outcome(self.queue@, *user).1,
                invalid_syntax_outcome(self.queue@, *user).2,
            ),
    {
        let mut text = user.get_mention();
        text.append(" invalid syntax.");
        Reply { severity: Option::Some(MessageType::Warning), text }
    }

    /// Append the caller to the back of the queue, unless already queued.
    pub fn q_join(&mut self, user: &User) -> (r: Reply)
        requires
            old(self).wf(),
        ensures
            final(self).wf(),
            ({
                let o = join_outcome(old(self).queue@, *user);
                final(self).queue@ == o.0 && r.severity == o.1 && r.text@ == o.2
            }),
    {
        match self.find_index(user.uuid) {
            Option::Some(_) => Reply {
                severity: Option::Some(MessageType::Warning),
                text: "You are already in the queue!".to_owned(),
            },
            Option::None => {
                proof {
                    lemma_no_dup_push(self.queue@, *user);
                }
                self.queue.push_back(user.clone());
                let n = self.queue.len();
                let mut text = user.get_mention();
                text.append(" You have been added to the queue at position ");
                let digits = u64_to_string(n as u64);
                text.append(digits.as_str());
                Reply { severity: Option::Some(MessageType::Success), text }
            },
        }
    }

    /// Remove the caller from the queue, keeping the order of the rest.
    pub fn q_leave(&mut self, user: &User) -> (r: Reply)
        requires
            old(self).wf(),
        ensures
            final(self).wf(),
            ({
                let o = leave_outcome(old(self).queue@, *user);
                final(self).queue@ == o.0 && r.severity == o.1 && r.text@ == o.2
            }),
    {
        match self.find_index(user.uuid) {
            Option::Some(i) => {
                proof {
                    lemma_no_dup_remove(self.queue@, i as int);
                }
                let _removed = self.queue.remove(i);
                let mut text = user.get_mention();
                text.append(" You have been removed from the queue");
                Reply { severity: Option::Some(MessageType::Success), text }
            },
            Option::None => {
                let mut text = user.get_mention();
                text.append(" You are not in the queue!");
                Reply { severity: Option::Some(MessageType::Warning), text }
            },
        }
    }

    /// Report the caller's 1-based position: the front of the queue is
    /// position 1.
    pub fn q_position(&self, user: &User) -> (r: Reply)
        ensures
            (r.severity, r.text@) == (
                position_outcome(self.queue@, *user).1,
                position_outcome(self.queue@, *user).2,
            ),
    {
        match self.find_index(user.uuid) {
            Option::Some(i) => {
                let mut text = user.get_mention();
                text.append(" You are at position ");
                let digits = u64_to_string((i as u64) + 1);
                text.append(digits.as_str());
                Reply { severity: Option::None, text }
            },
            Option::None => {
                let mut text = user.get_mention();
                text.append(" You are not in the queue!");
                Reply { severity: Option::Some(MessageType::Warning), text }
            },
        }
    }

    /// Display everyone in the queue, in order.
    pub fn q_list(&self) -> (r: Reply)
        ensures
            (r.severity, r.text@) == (list_outcome(self.queue@).1, list_outcome(self.queue@).2),
    {
        let mut text: String = "Queue: [".to_owned();
        let n = self.queue.len();
        let mut i: usize = 0;
        while i < n
            invariant
                n == self.queue@.len(),
                i <= n,
                text@ == "Queue: ["@ + list_body(self.queue@.subrange(0, i as int)),
            decreases n - i,
        {
            proof {
                lemma_list_body_push(self.queue@.subrange(0, i as int), self.queue@[i as int]);
                assert(self.queue@.subrange(0, (i + 1) as int) =~= self.queue@.subrange(
                    0,
                    i as int,
                ).push(self.queue@[i as int]));
            }
            if i > 0 {
                text.append(", ");
            }
            let tag = self.queue[i].get_tag();
            text.append(tag.as_str());
            i += 1;
        }
        proof {
            assert(self.queue@.subrange(0, n as int) =~= self.queue@);
        }
        text.append("]");
        Reply { severity: Option::None, text }
    }

    /// Pop the front of the queue and name who is next. Reserved for
    /// staff by the dispatcher.
    pub fn q_next(&mut self, user: &User) -> (r: Reply)
        requires
            old(self).wf(),
        ensures
            final(self).wf(),
            ({
                let o = next_outcome(old(self).queue@, *user);
                final(self).queue@ == o.0 && r.severity == o.1 && r.text@ == o.2
            }),
    {
        if self.queue.len() == 0 {
            let mut text = user.get_mention();
            text.append(" There is no one in the queue");
            return Reply { severity: Option::None, text };
        }
        proof {
            lemma_no_dup_drop_first(self.queue@);
        }
        let student = self.queue.pop_front().unwrap();
        let mut text: String = "The next person in line is ".to_owned();
        let m = student.get_mention();
        text.append(m.as_str());
        Reply { severity: Option::None, text }
    }

    /// Empty the queue. Reserved for staff by the dispatcher.
    pub fn q_clear(&mut self, user: &User) -> (r: Reply)
        requires
            old(self).wf(),
        ensures
            final(self).wf(),
            ({
                let o = clear_outcome(old(self).queue@, *user);
                final(self).queue@ == o.0 && r.severity == o.1 && r.text@ == o.2
            }),
    {
        self.queue.clear();
        let mut text = user.get_mention();
        text.append(" The queue has been cleared");
        Reply { severity: Option::Some(MessageType::Success), text }
    }

    /// Append the single mentioned user to the back of the queue.
    /// Reserved for staff by the dispatcher.
    pub fn q_add_other(&mut self, user: &User, mentions: Option<Vec<User>>) -> (r: Reply)
        requires
            old(self).wf(),
        ensures
            final(self).wf(),
            ({
                let o = add_other_outcome(old(self).queue@, *user, mentions_view(mentions));
                final(self).queue@ == o.0 && r.severity == o.1 && r.text@ == o.2
            }),
    {
        let v = match mentions {
            Option::None => {
                let mut text = user.get_mention();
                text.append(" You must `@mention` a user!");
                return Reply { severity: Option::Some(MessageType::Warning), text };
            },
            Option::Some(v) => v,
        };
        if v.len() == 0 {
            let mut text = user.get_mention();
            text.append(" You must `@mention` a user!");
            return Reply { severity: Option::Some(MessageType::Warning), text };
        }
        if v.len() > 1 {
            let mut text = user.get_mention();
            text.append(" you must mention a single user!");
            return Reply { severity: Option::Some(MessageType::Warning), text };
        }
        let student = &v[0];
        match self.find_index(student.uuid) {
            Option::Some(_) => {
                let mut text = user.get_mention();
                text.append(" That student is already in the queue!");
                Reply { severity: Option::Some(MessageType::Warning), text }
            },
            Option::None => {
                proof {
                    lemma_no_dup_push(self.queue@, *student);
                }
                self.queue.push_back(student.clone());
                let mut text = user.get_mention();
                text.append(" The student has been added to the queue!");
                Reply { severity: Option::Some(MessageType::Success), text }
            },
        }
    }

    /// Remove the single mentioned user from the queue. Reserved for
    /// staff by the dispatcher.
    pub fn q_remove_other(&mut self, user: &User, mentions: Option<Vec<User>>) -> (r: Reply)
        requires
            old(self).wf(),
        ensures
            final(self).wf(),
            ({
                let o = remove_other_outcome(old(self).queue@, *user, mentions_view(mentions));
                final(self).queue@ == o.0 && r.severity == o.1 && r.text@ == o.2
            }),
    {
        let v = match mentions {
            Option::None => {
                let mut text = user.get_mention();
                text.append(" You must `@mention` a user!");
                return Reply { severity: Option::Some(MessageType::Warning), text };
            },
            Option::Some(v) => v,
        };
        if v.len() == 0 {
            let mut text = user.get_mention();
            text.append(" You must `@mention` a user!");
            return Reply { severity: Option::Some(MessageType::Warning), text };
        }
        if v.len() > 1 {
            let mut text = user.get_mention();
            text.append(" you must mention a single user!");
            return Reply { severity: Option::Some(MessageType::Warning), text };
        }
        let student = &v[0];
        match self.find_index(student.uuid) {
            Option::None => {
                let mut text = user.get_mention();
                text.append(" The specified student is not in the queue!");
                Reply { severity: Option::Some(MessageType::Warning), text }
            },
            Option::Some(i) => {
                proof {
                    lemma_no_dup_remove(self.queue@, i as int);
                }
                let _removed = self.queue.remove(i);
                let mut text = user.get_mention();
                text.append(" The student has been removed from the queue!");
                Reply { severity: Option::Some(MessageType::Success), text }
            },
        }
    }

    /// Dispatch a message whose text carries the command prefix: select
    /// the one handler its command name means, enforcing that staff
    /// commands answer only to staff, and return that handler's reply.
    /// Every path yields exactly one reply and keeps the queue
    /// duplicate-free.
    pub fn queue_command(&mut self, msg: Message) -> (r: Reply)
        requires
            old(self).wf(),
            has_prefix(lower_seq(msg.text@)),
        ensures
            final(self).wf(),
            ({
                let o = dispatch_outcome(
                    old(self).queue@,
                    msg.author,
                    mentions_view(msg.mentions),
                    msg.text@,
                );
                final(self).queue@ == o.0 && r.severity == o.1 && r.text@ == o.2
            }),
    {
        proof {
            reveal_strlit("ping");
            reveal_strlit("join");
            reveal_strlit("leave");
            reveal_strlit("pos");
            reveal_strlit("position");
            reveal_strlit("list");
            reveal_strlit("next");
            reveal_strlit("clear");
            reveal_strlit("add");
            reveal_strlit("remove");
        }
        let tokens = parse(msg.text.as_str()).unwrap();
        if tokens.len() < 2 {
            return self.send_invalid_syntax(&msg.author);
        }
        let cmd = &tokens[1];
        proof {
            assert(cmd@ == cmd_of(tokens_of(lower_seq(msg.text@))));
        }
        if str_eq(cmd, "ping") {
            self.queue_ping()
        } else if str_eq(cmd, "join") {
            self.q_join(&msg.author)
        } else if str_eq(cmd, "leave") {
            self.q_leave(&msg.author)
        } else if str_eq(cmd, "pos") || str_eq(cmd, "position") {
            self.q_position(&msg.author)
        } else if str_eq(cmd, "list") {
            self.q_list()
        } else if msg.author.is_staff {
            if str_eq(cmd, "next") {
                self.q_next(&msg.author)
            } else if str_eq(cmd, "clear") {
                self.q_clear(&msg.author)
            } else if str_eq(cmd, "add") {
                self.q_add_other(&msg.author, msg.mentions)
            } else if str_eq(cmd, "remove") {
                self.q_remove_other(&msg.author, msg.mentions)
            } else {
                self.send_invalid_syntax(&msg.author)
            }
        } else {
            self.send_invalid_syntax(&msg.author)
        }
    }

    /// Take one inbound message: silence unless the text starts with the
    /// command prefix (case-insensitively), exactly one reply otherwise.
    pub fn on_message(&mut self, msg: Message) -> (r: Option<Reply>)
        requires
            old(self).wf(),
        ensures
            final(self).wf(),
            r is Some <==> has_prefix(lower_seq(msg.text@)),
            r matches Some(reply) ==> ({
                let o = dispatch_outcome(
                    old(self).queue@,
                    msg.author,
                    mentions_view(msg.mentions),
                    msg.text@,
                );
                final(self).queue@ == o.0 && reply.severity == o.1 && reply.text@ == o.2
            }),
            r is None ==> final(self).queue@ == old(self).queue@,
    {
        let prefixed = parse(msg.text.as_str());
        match prefixed {
            Option::Some(_) => Option::Some(self.queue_command(msg)),
            Option::None => Option::None,
        }
    }
}

/// Whether a token equals a literal command name.
fn str_eq(a: &String, b: &str) -> (r: bool)
    ensures
        r == (a@ == b@),
{
    let bs: String = b.to_owned();
    a.eq(&bs)
}

} // verus!
