//! The background sync and notification tracker: a per-conversation
//! high-water mark of the newest message id seen, which never regresses,
//! and the plan of which conversations to refresh and which desktop
//! notifications a fetched batch earns.

use vstd::prelude::*;

use crate::model::{DM, Message, User};
use crate::text::parsed_id;
use crate::text::parse_id;

verus! {

/// Lookup of a conversation's tracked high-water mark.
pub open spec fn spec_get(entries: Seq<(u64, u64)>, c: u64) -> Option<u64>
    decreases entries.len(),
{
    if entries.len() == 0 {
        Option::None
    } else if entries[0].0 == c {
        Option::Some(entries[0].1)
    } else {
        spec_get(entries.drop_first(), c)
    }
}

/// The per-conversation high-water mark of message ids, keyed by the
/// conversation id parsed as a number. Entries are inserted on first
/// observation and only ever advance upward.
#[derive(Debug, Clone)]
pub struct SeenTracker {
    pub entries: Vec<(u64, u64)>,
}

impl SeenTracker {
    /// Keys are unique, so each conversation has one mark.
    pub open spec fn wf(&self) -> bool {
        forall|i: int, j: int|
            0 <= i < j < self.entries@.len() ==> (#[trigger] self.entries@[i]).0 != (
            #[trigger] self.entries@[j]).0
    }

    /// The tracked mark of conversation `c`.
    pub open spec fn tracked_mark(&self, c: u64) -> Option<u64> {
        spec_get(self.entries@, c)
    }

    /// The tracked mark of conversation `c`, or 0 when untracked.
    pub open spec fn mark_or_zero(&self, c: u64) -> u64 {
        match self.tracked_mark(c) {
            Option::Some(v) => v,
            Option::None => 0u64,
        }
    }

    /// An empty tracker.
    pub fn new() -> (r: Self)
        ensures
            r.wf(),
            forall|c: u64| r.tracked_mark(c) is None,
    {
        SeenTracker { entries: Vec::new() }
    }

    /// The tracked mark of conversation `c`.
    pub fn get(&self, c: u64) -> (r: Option<u64>)
        ensures
            r == self.tracked_mark(c),
    {
        let n: usize = self.entries.len();
        let mut i: usize = 0;
        proof {
            assert(self.entries@.skip(0) =~= self.entries@);
        }
        while i < n
            invariant
                n == self.entries@.len(),
                0 <= i <= n,
                spec_get(self.entries@, c) == spec_get(self.entries@.skip(i as int), c),
                forall|k: int| 0 <= k < i ==> (#[trigger] self.entries@[k]).0 != c,
            decreases n - i,
        {
            proof {
                assert(self.entries@.skip(i as int).drop_first() =~= self.entries@.skip(i + 1));
                assert(self.entries@.skip(i as int)[0] == self.entries@[i as int]);
            }
            if self.entries[i].0 == c {
                return Some(self.entries[i].1);
            }
            i = i + 1;
        }
        proof {
            assert(self.entries@.skip(n as int).len() == 0);
        }
        None
    }

    /// Advance the mark of conversation `c` to at least `id`: a new entry
    /// on first observation, otherwise the larger of the old mark and
    /// `id`. No conversation's mark ever decreases, and no other
    /// conversation's mark changes.
    pub fn advance(&mut self, c: u64, id: u64)
        requires
            old(self).wf(),
        ensures
            final(self).wf(),
            final(self).tracked_mark(c) == Option::Some(
                match old(self).tracked_mark(c) {
                    Option::Some(v) => if id > v {
                        id
                    } else {
                        v
                    },
                    Option::None => id,
                },
            ),
            forall|c2: u64|
                c2 != c ==> #[trigger] final(self).tracked_mark(c2) == old(self).tracked_mark(c2),
            forall|c2: u64|
                match old(self).tracked_mark(c2) {
                    Option::Some(v) => match #[trigger] final(self).tracked_mark(c2) {
                        Option::Some(w) => w >= v,
                        Option::None => false,
                    },
                    Option::None => true,
                },
    {
        let n: usize = self.entries.len();
        let mut i: usize = 0;
        while i < n
            invariant
                n == self.entries@.len(),
                0 <= i <= n,
                old(self).wf(),
                self.entries@ == old(self).entries@,
                forall|k: int| 0 <= k < i ==> (#[trigger] self.entries@[k]).0 != c,
            decreases n - i,
        {
            if self.entries[i].0 == c {
                let v = self.entries[i].1;
                let w = if id > v {
                    id
                } else {
                    v
                };
                self.entries.set(i, (c, w));
                proof {
                    lemma_get_after_set(old(self).entries@, self.entries@, i as int, c, w);
                    assert forall|a: int, b: int|
                        0 <= a < b < self.entries@.len() implies (#[trigger] self.entries@[a]).0
                        != (#[trigger] self.entries@[b]).0 by {
                        assert((old(self).entries@[a]).0 != (old(self).entries@[b]).0);
                        assert(self.entries@[a].0 == old(self).entries@[a].0);
                        assert(self.entries@[b].0 == old(self).entries@[b].0);
                    }
                }
                return ;
            }
            i = i + 1;
        }
        self.entries.push((c, id));
        proof {
            lemma_get_after_push(old(self).entries@, c, id);
            assert forall|a: int, b: int|
                0 <= a < b < self.entries@.len() implies (#[trigger] self.entries@[a]).0 != (
                #[trigger] self.entries@[b]).0 by {
                assert(self.entries@[a] == old(self).entries@[a]);
                if b < old(self).entries@.len() {
                    assert(self.entries@[b] == old(self).entries@[b]);
                } else {
                    assert(self.entries@[b].0 == c);
                    assert((old(self).entries@[a]).0 != c);
                }
            }
        }
    }
}

/// After overwriting the entry at `i` (the first with key `c`), lookups of
/// `c` see the new value and lookups of other keys are unchanged.
proof fn lemma_get_after_set(
    before: Seq<(u64, u64)>,
    after: Seq<(u64, u64)>,
    i: int,
    c: u64,
    w: u64,
)
    requires
        0 <= i < before.len(),
        after =~= before.update(i, (c, w)),
        before[i].0 == c,
        forall|k: int| 0 <= k < i ==> (#[trigger] before[k]).0 != c,
    ensures
        spec_get(before, c) == Option::Some(before[i].1),
        spec_get(after, c) == Option::Some(w),
        forall|c2: u64| c2 != c ==> #[trigger] spec_get(after, c2) == spec_get(before, c2),
    decreases i,
{
    if i == 0 {
        assert(after[0] == (c, w));
        assert forall|c2: u64| c2 != c implies #[trigger] spec_get(after, c2) == spec_get(
            before,
            c2,
        ) by {
            assert(after.drop_first() =~= before.drop_first());
            assert(spec_get(after, c2) == spec_get(after.drop_first(), c2));
            assert(spec_get(before, c2) == spec_get(before.drop_first(), c2));
        }
    } else {
        lemma_get_after_set(before.drop_first(), after.drop_first(), i - 1, c, w);
        assert(after.drop_first() =~= before.drop_first().update(i - 1, (c, w)));
        assert(after[0] == before[0]);
        assert(before[0].0 != c);
        assert(before.drop_first()[i - 1] == before[i]);
        assert forall|c2: u64| c2 != c implies #[trigger] spec_get(after, c2) == spec_get(
            before,
            c2,
        ) by {
            if after[0].0 == c2 {
            } else {
                assert(spec_get(after, c2) == spec_get(after.drop_first(), c2));
                assert(spec_get(before, c2) == spec_get(before.drop_first(), c2));
            }
        }
    }
}

/// After appending an entry with a fresh key `c`, lookups of `c` see it
/// and lookups of other keys are unchanged.
proof fn lemma_get_after_push(before: Seq<(u64, u64)>, c: u64, id: u64)
    requires
        forall|k: int| 0 <= k < before.len() ==> (#[trigger] before[k]).0 != c,
    ensures
        spec_get(before, c) is None,
        spec_get(before.push((c, id)), c) == Option::Some(id),
        forall|c2: u64|
            c2 != c ==> #[trigger] spec_get(before.push((c, id)), c2) == spec_get(before, c2),
    decreases before.len(),
{
    if before.len() == 0 {
        assert(before.push((c, id))[0] == (c, id));
        assert forall|c2: u64| c2 != c implies #[trigger] spec_get(before.push((c, id)), c2)
            == spec_get(before, c2) by {
            assert(before.push((c, id)).drop_first() =~= before);
            assert(spec_get(before, c2) is None);
        }
    } else {
        lemma_get_after_push(before.drop_first(), c, id);
        assert(before.push((c, id)).drop_first() =~= before.drop_first().push((c, id)));
        assert(before.push((c, id))[0] == before[0]);
        assert(before[0].0 != c);
        assert forall|c2: u64| c2 != c implies #[trigger] spec_get(before.push((c, id)), c2)
            == spec_get(before, c2) by {
            if before[0].0 == c2 {
            } else {
                assert(spec_get(before.push((c, id)), c2) == spec_get(
                    before.push((c, id)).drop_first(),
                    c2,
                ));
                assert(spec_get(before, c2) == spec_get(before.drop_first(), c2));
            }
        }
    }
}

/// The reported newest message id of a conversation, or 0 when it reports
/// none.
pub open spec fn reported_mark(d: DM) -> u64 {
    match d.last_message_id {
        Option::Some(s) => parsed_id(s@) as u64,
        Option::None => 0u64,
    }
}

/// A conversation needs a refresh when it is untracked, or reports a
/// newer message than its tracked mark.
pub open spec fn needs_sync(d: DM, tr: SeenTracker) -> bool {
    match tr.tracked_mark(parsed_id(d.id@) as u64) {
        Option::None => true,
        Option::Some(t) => reported_mark(d) > t,
    }
}

/// The indices of the conversations due for a refresh, in list order.
pub open spec fn sync_idxs(ds: Seq<DM>, tr: SeenTracker) -> Seq<usize>
    decreases ds.len(),
{
    if ds.len() == 0 {
        Seq::empty()
    } else {
        sync_idxs(ds.drop_last(), tr) + (if needs_sync(ds.last(), tr) {
            seq![(ds.len() - 1) as usize]
        } else {
            Seq::empty()
        })
    }
}

/// Which conversations of the fetched list are due for a refresh.
pub fn plan_background_sync(ds: &Vec<DM>, tr: &SeenTracker) -> (r: Vec<usize>)
    ensures
        r@ == sync_idxs(ds@, *tr),
        forall|k: int| 0 <= k < r@.len() ==> #[trigger] r@[k] < ds@.len(),
{
    let n: usize = ds.len();
    let mut r: Vec<usize> = Vec::new();
    let mut i: usize = 0;
    while i < n
        invariant
            n == ds@.len(),
            0 <= i <= n,
            r@ == sync_idxs(ds@.take(i as int), *tr),
            forall|k: int| 0 <= k < r@.len() ==> #[trigger] r@[k] < i,
        decreases n - i,
    {
        proof {
            assert(ds@.take(i + 1).drop_last() =~= ds@.take(i as int));
            assert(ds@.take(i + 1).last() == ds@[i as int]);
        }
        let key = parse_id(ds[i].id.as_str());
        let reported = match &ds[i].last_message_id {
            Option::Some(s) => parse_id(s.as_str()),
            Option::None => 0,
        };
        let due = match tr.get(key) {
            Option::None => true,
            Option::Some(t) => reported > t,
        };
        if due {
            r.push(i);
        }
        i = i + 1;
    }
    proof {
        assert(ds@.take(n as int) =~= ds@);
    }
    r
}

/// A desktop notification to emit: the author for the summary, the body
/// per the discreet setting.
#[derive(Debug, Clone)]
pub struct Notification {
    pub summary: String,
    pub body: String,
}

/// A message earns a notification when it is newer than the tracked mark
/// and not authored by the current user.
pub open spec fn msg_notifies(m: Message, seen: u64, me: Option<User>) -> bool {
    parsed_id(m.id@) > seen && (match me {
        Option::Some(u) => m.author.id@ != u.id@,
        Option::None => true,
    })
}

/// The messages of a batch that earn notifications, in batch order.
pub open spec fn notifying_msgs(msgs: Seq<Message>, seen: u64, me: Option<User>) -> Seq<Message>
    decreases msgs.len(),
{
    if msgs.len() == 0 {
        Seq::empty()
    } else {
        notifying_msgs(msgs.drop_last(), seen, me) + (if msg_notifies(msgs.last(), seen, me) {
            seq![msgs.last()]
        } else {
            Seq::empty()
        })
    }
}

/// The body a message is announced with: a placeholder under discreet
/// notifications, the content otherwise, and an attachment placeholder
/// when there is no content.
pub open spec fn spec_body(m: Message, discreet: bool) -> Seq<char> {
    if discreet {
        "You have a new message."@
    } else {
        match m.content {
            Option::Some(c) => if c@.len() > 0 {
                c@
            } else {
                "Sent an attachment."@
            },
            Option::None => "Sent an attachment."@,
        }
    }
}

/// The largest message id observed in a batch.
pub open spec fn batch_max(msgs: Seq<Message>) -> u64
    decreases msgs.len(),
{
    if msgs.len() == 0 {
        0u64
    } else {
        let rest = batch_max(msgs.drop_last());
        let last = parsed_id(msgs.last().id@) as u64;
        if last > rest {
            last
        } else {
            rest
        }
    }
}

/// The notifications a batch earns.
fn plan_notifications(
    msgs: &Vec<Message>,
    seen: u64,
    me: &Option<User>,
    discreet: bool,
) -> (r: Vec<Notification>)
    ensures
        r@.len() == notifying_msgs(msgs@, seen, *me).len(),
        forall|k: int|
            0 <= k < r@.len() ==> (#[trigger] r@[k]).summary@ == notifying_msgs(
                msgs@,
                seen,
                *me,
            )[k].author.username@ && r@[k].body@ == spec_body(
                notifying_msgs(msgs@, seen, *me)[k],
                discreet,
            ),
{
    let n: usize = msgs.len();
    let mut r: Vec<Notification> = Vec::new();
    let mut i: usize = 0;
    while i < n
        invariant
            n == msgs@.len(),
            0 <= i <= n,
            r@.len() == notifying_msgs(msgs@.take(i as int), seen, *me).len(),
            forall|k: int|
                0 <= k < r@.len() ==> (#[trigger] r@[k]).summary@ == notifying_msgs(
                    msgs@.take(i as int),
                    seen,
                    *me,
                )[k].author.username@ && r@[k].body@ == spec_body(
                    notifying_msgs(msgs@.take(i as int), seen, *me)[k],
                    discreet,
                ),
        decreases n - i,
    {
        proof {
            assert(msgs@.take(i + 1).drop_last() =~= msgs@.take(i as int));
            assert(msgs@.take(i + 1).last() == msgs@[i as int]);
        }
        let newer = parse_id(msgs[i].id.as_str()) > seen;
        let foreign = match me {
            Option::Some(u) => !(msgs[i].author.id == u.id),
            Option::None => true,
        };
        if newer && foreign {
            let body: String = if discreet {
                "You have a new message.".to_owned()
            } else {
                match &msgs[i].content {
                    Option::Some(c) => {
                        if c.as_str().unicode_len() > 0 {
                            c.clone()
                        } else {
                            "Sent an attachment.".to_owned()
                        }
                    },
                    Option::None => "Sent an attachment.".to_owned(),
                }
            };
            r.push(Notification { summary: msgs[i].author.username.clone(), body });
        }
        i = i + 1;
    }
    proof {
        assert(msgs@.take(n as int) =~= msgs@);
    }
    r
}

/// Fold a fetched batch for one conversation into the tracker: emit
/// notifications only when the conversation is not the open chat, and
/// advance the conversation's mark to the largest id observed. No mark
/// ever decreases.
pub fn apply_dm_update(
    tr: &mut SeenTracker,
    conv_id: &String,
    msgs: &Vec<Message>,
    me: &Option<User>,
    open_chat: &Option<String>,
    discreet: bool,
) -> (r: Vec<Notification>)
    requires
        old(tr).wf(),
    ensures
        final(tr).wf(),
        ({
            let key = parsed_id(conv_id@) as u64;
            let is_open = match *open_chat {
                Option::Some(oc) => oc@ == conv_id@,
                Option::None => false,
            };
            &&& (is_open ==> r@.len() == 0)
            &&& (!is_open ==> r@.len() == notifying_msgs(
                msgs@,
                old(tr).mark_or_zero(key),
                *me,
            ).len() && forall|k: int|
                0 <= k < r@.len() ==> (#[trigger] r@[k]).summary@ == notifying_msgs(
                    msgs@,
                    old(tr).mark_or_zero(key),
                    *me,
                )[k].author.username@ && r@[k].body@ == spec_body(
                    notifying_msgs(msgs@, old(tr).mark_or_zero(key), *me)[k],
                    discreet,
                ))
            &&& (msgs@.len() > 0 ==> final(tr).tracked_mark(key) == Option::Some(
                match old(tr).tracked_mark(key) {
                    Option::Some(v) => if batch_max(msgs@) > v {
                        batch_max(msgs@)
                    } else {
                        v
                    },
                    Option::None => batch_max(msgs@),
                },
            ))
            &&& (msgs@.len() == 0 ==> *final(tr) == *old(tr))
            &&& forall|c2: u64|
                c2 != (parsed_id(conv_id@) as u64) ==> #[trigger] final(tr).tracked_mark(c2)
                    == old(tr).tracked_mark(c2)
        }),
        forall|c2: u64|
            match old(tr).tracked_mark(c2) {
                Option::Some(v) => match #[trigger] final(tr).tracked_mark(c2) {
                    Option::Some(w) => w >= v,
                    Option::None => false,
                },
                Option::None => true,
            },
{
    let key = parse_id(conv_id.as_str());
    let is_open = match open_chat {
        Option::Some(oc) => *oc == *conv_id,
        Option::None => false,
    };
    let seen = match tr.get(key) {
        Option::Some(v) => v,
        Option::None => 0,
    };
    let r: Vec<Notification> = if is_open {
        Vec::new()
    } else {
        plan_notifications(msgs, seen, me, discreet)
    };
    let n: usize = msgs.len();
    if n > 0 {
        let mut top: u64 = 0;
        let mut i: usize = 0;
        while i < n
            invariant
                n == msgs@.len(),
                0 <= i <= n,
                top == batch_max(msgs@.take(i as int)),
            decreases n - i,
        {
            proof {
                assert(msgs@.take(i + 1).drop_last() =~= msgs@.take(i as int));
                assert(msgs@.take(i + 1).last() == msgs@[i as int]);
            }
            let mid = parse_id(msgs[i].id.as_str());
            if mid > top {
                top = mid;
            }
            i = i + 1;
        }
        proof {
            assert(msgs@.take(n as int) =~= msgs@);
        }
        tr.advance(key, top);
    }
    r
}

} // verus!
