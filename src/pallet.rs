use std::collections::HashMap;
use vstd::prelude::*;

use crate::types::{ensure_signed, AccountId, Error, Event, EventView, Origin, MAX_MESSAGE_LEN};

verus! {

broadcast use vstd::std_specs::hash::group_hash_axioms;

/// The message store: one slot of bytes per account, and the notifications
/// appended by the requests applied so far.
///
/// A slot that was never written reads as empty: an empty message and no
/// message are the same thing.
pub struct Pallet {
    messages: HashMap<AccountId, Vec<u8>>,
    events: Vec<Event>,
}

impl Pallet {
    /// The message held in the slot of `who`.
    pub closed spec fn message(&self, who: AccountId) -> Seq<u8> {
        if self.messages@.contains_key(who) {
            self.messages@[who]@
        } else {
            Seq::empty()
        }
    }

    /// The notifications appended so far, oldest first.
    pub closed spec fn notifications(&self) -> Seq<EventView> {
        self.events@.map_values(|e: Event| e@)
    }

    /// Every slot holds at most `MAX_MESSAGE_LEN` bytes.
    pub open spec fn wf(&self) -> bool {
        forall|who: AccountId| #[trigger] self.message(who).len() <= MAX_MESSAGE_LEN
    }

    /// What `store_message` does from `pre` to `post`, given what it returned.
    ///
    /// A signed request with a message of at most `MAX_MESSAGE_LEN` bytes puts
    /// that message in the signer's slot, in place of what was there, leaves
    /// every other slot as it was and appends `MessageStored`. A longer message
    /// is refused with `MessageTooLong`, an unsigned request with
    /// `AuthenticationRequired`, and then nothing changes.
    pub open spec fn store_message_outcome(
        pre: Pallet,
        post: Pallet,
        origin: Origin,
        m: Seq<u8>,
        r: Result<(), Error>,
    ) -> bool {
        match origin {
            Origin::Signed(who) => if m.len() > MAX_MESSAGE_LEN {
                r == Err::<(), Error>(Error::MessageTooLong) && post == pre
            } else {
                &&& r == Ok::<(), Error>(())
                &&& post.message(who) == m
                &&& forall|k: AccountId| k != who ==> #[trigger] post.message(k) == pre.message(k)
                &&& post.notifications() == pre.notifications().push(
                    EventView::MessageStored(who, m),
                )
            },
            _ => r == Err::<(), Error>(Error::AuthenticationRequired) && post == pre,
        }
    }

    /// What `send_message` does from `pre` to `post`, given what it returned.
    ///
    /// A signed request whose signer holds a non-empty message `m` puts `m` in
    /// the recipient's slot and empties the signer's slot, unless the two are
    /// the same account, whose slot then still holds `m`. Every other slot is
    /// left as it was and `MessageSent` is appended. Where the signer's slot is
    /// empty the request is refused with `NoMessageFound`, an unsigned one
    /// with `AuthenticationRequired`, and then nothing changes.
    pub open spec fn send_message_outcome(
        pre: Pallet,
        post: Pallet,
        origin: Origin,
        recipient: AccountId,
        r: Result<(), Error>,
    ) -> bool {
        match origin {
            Origin::Signed(who) => {
                let m = pre.message(who);
                if m.len() == 0 {
                    r == Err::<(), Error>(Error::NoMessageFound) && post == pre
                } else {
                    &&& r == Ok::<(), Error>(())
                    &&& post.message(recipient) == m
                    &&& who != recipient ==> post.message(who) == Seq::<u8>::empty()
                    &&& forall|k: AccountId|
                        k != who && k != recipient ==> #[trigger] post.message(k) == pre.message(
                            k,
                        )
                    &&& post.notifications() == pre.notifications().push(
                        EventView::MessageSent(who, m),
                    )
                }
            },
            _ => r == Err::<(), Error>(Error::AuthenticationRequired) && post == pre,
        }
    }

    /// An empty store: every slot empty, no notification yet.
    pub fn new() -> (r: Pallet)
        ensures
            r.wf(),
            forall|who: AccountId| #[trigger] r.message(who) == Seq::<u8>::empty(),
            r.notifications() == Seq::<EventView>::empty(),
    {
        let r = Pallet { messages: HashMap::new(), events: Vec::new() };
        assert(r.notifications() =~= Seq::<EventView>::empty());
        r
    }

    /// The message held in the slot of `who` (empty where none was stored).
    pub fn messages(&self, who: AccountId) -> (r: Vec<u8>)
        ensures
            r@ == self.message(who),
    {
        match self.messages.get(&who) {
            Some(m) => {
                let c = m.clone();
                assert(c@ =~= m@);
                c
            },
            None => Vec::new(),
        }
    }

    /// The notifications appended so far, oldest first.
    pub fn events(&self) -> (r: &Vec<Event>)
        ensures
            r@.map_values(|e: Event| e@) == self.notifications(),
    {
        &self.events
    }

    /// Stores `message` in the slot of the account that signed the request,
    /// in place of what was there.
    pub fn store_message(&mut self, origin: Origin, message: Vec<u8>) -> (r: Result<(), Error>)
        ensures
            Self::store_message_outcome(*old(self), *final(self), origin, message@, r),
            old(self).wf() ==> final(self).wf(),
    {
        let who = match ensure_signed(origin) {
            Ok(who) => who,
            Err(e) => return Err(e),
        };
        if message.len() > MAX_MESSAGE_LEN {
            return Err(Error::MessageTooLong);
        }
        let payload = message.clone();
        assert(payload@ =~= message@);
        let ghost pre = *self;
        self.messages.insert(who, message);
        self.events.push(Event::MessageStored(who, payload));
        assert(self.notifications() =~= pre.notifications().push(
            EventView::MessageStored(who, payload@),
        ));
        Ok(())
    }

    /// Hands the message of the account that signed the request over to the
    /// slot of `recipient`, and empties the signer's slot.
    pub fn send_message(&mut self, origin: Origin, recipient: AccountId) -> (r: Result<(), Error>)
        ensures
            Self::send_message_outcome(*old(self), *final(self), origin, recipient, r),
            old(self).wf() ==> final(self).wf(),
    {
        let who = match ensure_signed(origin) {
            Ok(who) => who,
            Err(e) => return Err(e),
        };
        let message = self.messages(who);
        if message.len() == 0 {
            return Err(Error::NoMessageFound);
        }
        let payload = message.clone();
        assert(payload@ =~= message@);
        let ghost pre = *self;
        self.messages.remove(&who);
        self.messages.insert(recipient, message);
        self.events.push(Event::MessageSent(who, payload));
        assert(self.notifications() =~= pre.notifications().push(
            EventView::MessageSent(who, payload@),
        ));
        Ok(())
    }
}

} // verus!
